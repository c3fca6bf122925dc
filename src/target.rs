//! Targets: one compilable unit each, with its kind, profile and the
//! token that keeps its artifacts apart.

use vstd::prelude::*;
use crate::kind::{kind_token, LibKind, TargetKind};
use crate::package::Metadata;
use crate::profile::{Profile, ProfileModel};

verus! {

/// The mathematical content of a target.
pub ghost struct TargetModel {
    pub kind: TargetKind,
    pub name: Seq<char>,
    pub src_path: Seq<char>,
    pub profile: ProfileModel,
    pub metadata: Option<Metadata>,
}

/// The compiler output tokens of a target kind: one per library kind, in
/// order and with repeats, or the single token `bin`.
pub open spec fn kind_tokens(kind: TargetKind) -> Seq<Seq<char>> {
    match kind {
        TargetKind::LibTarget(ks) => ks@.map_values(|k: LibKind| kind_token(k)),
        TargetKind::BinTarget => seq!["bin"@],
    }
}

/// Whether a target kind is a library that lists the given library kind.
pub open spec fn lists_kind(kind: TargetKind, k: LibKind) -> bool {
    match kind {
        TargetKind::LibTarget(ks) => ks@.contains(k),
        TargetKind::BinTarget => false,
    }
}

/// The file stem of an artifact: the name, followed by the disambiguation
/// suffix when there is one.
pub open spec fn stem_of(name: Seq<char>, metadata: Option<Metadata>) -> Seq<char> {
    match metadata {
        Some(m) => name + m.extra_filename@,
        None => name,
    }
}

/// Whether a serialized target is the projection of a target: its output
/// tokens, name, source path, profile and metadata.
pub open spec fn is_projection(s: SerializedTarget, t: TargetModel) -> bool {
    &&& s.kind@.len() == kind_tokens(t.kind).len()
    &&& forall|i: int| 0 <= i < s.kind@.len() ==> (#[trigger] s.kind@[i])@ == kind_tokens(t.kind)[i]
    &&& s.name@ == t.name
    &&& s.src_path@ == t.src_path
    &&& s.profile@ == t.profile
    &&& s.metadata == t.metadata
}

/// One compilable unit: a library, binary, test, example or benchmark.
#[derive(Clone, Debug, PartialEq, Eq)]
pub struct Target {
    kind: TargetKind,
    name: String,
    src_path: String,
    profile: Profile,
    metadata: Option<Metadata>,
}

impl View for Target {
    type V = TargetModel;

    closed spec fn view(&self) -> TargetModel {
        TargetModel {
            kind: self.kind,
            name: self.name@,
            src_path: self.src_path@,
            profile: self.profile@,
            metadata: self.metadata,
        }
    }
}

/// The plain projection of a target for tooling: its output tokens, name,
/// source path, profile and metadata.
#[derive(Clone, Debug, PartialEq, Eq)]
pub struct SerializedTarget {
    pub kind: Vec<&'static str>,
    pub name: String,
    pub src_path: String,
    pub profile: Profile,
    pub metadata: Option<Metadata>,
}

fn copy_metadata(m: &Option<Metadata>) -> (r: Option<Metadata>)
    ensures
        r == *m,
{
    match m {
        Some(m) => Some(m.clone()),
        None => None,
    }
}

fn has_kind(kinds: &Vec<LibKind>, k: LibKind) -> (r: bool)
    ensures
        r == kinds@.contains(k),
{
    let mut i: usize = 0;
    while i < kinds.len()
        invariant
            i <= kinds@.len(),
            forall|j: int| 0 <= j < i ==> kinds@[j] != k,
        decreases kinds@.len() - i,
    {
        if kinds[i] == k {
            return true;
        }
        i = i + 1;
    }
    false
}

impl Target {
    /// The base name of this target's artifacts: the name, followed by the
    /// metadata's `extra_filename` when there is metadata.
    pub fn file_stem(&self) -> (r: String)
        ensures
            r@ == stem_of(self@.name, self@.metadata),
    {
        match &self.metadata {
            Some(metadata) => self.name.clone().concat(metadata.extra_filename.as_str()),
            None => self.name.clone(),
        }
    }

    /// A library target of the given kinds; it always carries metadata.
    pub fn lib_target(
        name: &str,
        crate_targets: Vec<LibKind>,
        src_path: &str,
        profile: &Profile,
        metadata: Metadata,
    ) -> (r: Target)
        ensures
            r@ == (TargetModel {
                kind: TargetKind::LibTarget(crate_targets),
                name: name@,
                src_path: src_path@,
                profile: profile@,
                metadata: Some(metadata),
            }),
    {
        Target {
            kind: TargetKind::LibTarget(crate_targets),
            name: name.to_owned(),
            src_path: src_path.to_owned(),
            profile: profile.clone(),
            metadata: Some(metadata),
        }
    }

    /// A binary target, with metadata when the caller gives it.
    pub fn bin_target(
        name: &str,
        src_path: &str,
        profile: &Profile,
        metadata: Option<Metadata>,
    ) -> (r: Target)
        ensures
            r@ == (TargetModel {
                kind: TargetKind::BinTarget,
                name: name@,
                src_path: src_path@,
                profile: profile@,
                metadata: metadata,
            }),
    {
        Target {
            kind: TargetKind::BinTarget,
            name: name.to_owned(),
            src_path: src_path.to_owned(),
            profile: profile.clone(),
            metadata: metadata,
        }
    }

    /// An example target: a binary without metadata.
    pub fn example_target(name: &str, src_path: &str, profile: &Profile) -> (r: Target)
        ensures
            r@ == (TargetModel {
                kind: TargetKind::BinTarget,
                name: name@,
                src_path: src_path@,
                profile: profile@,
                metadata: None,
            }),
    {
        Target {
            kind: TargetKind::BinTarget,
            name: name.to_owned(),
            src_path: src_path.to_owned(),
            profile: profile.clone(),
            metadata: None,
        }
    }

    /// A test target: a binary that carries metadata.
    pub fn test_target(
        name: &str,
        src_path: &str,
        profile: &Profile,
        metadata: Metadata,
    ) -> (r: Target)
        ensures
            r@ == (TargetModel {
                kind: TargetKind::BinTarget,
                name: name@,
                src_path: src_path@,
                profile: profile@,
                metadata: Some(metadata),
            }),
    {
        Target {
            kind: TargetKind::BinTarget,
            name: name.to_owned(),
            src_path: src_path.to_owned(),
            profile: profile.clone(),
            metadata: Some(metadata),
        }
    }

    /// A benchmark target: a binary that carries metadata.
    pub fn bench_target(
        name: &str,
        src_path: &str,
        profile: &Profile,
        metadata: Metadata,
    ) -> (r: Target)
        ensures
            r@ == (TargetModel {
                kind: TargetKind::BinTarget,
                name: name@,
                src_path: src_path@,
                profile: profile@,
                metadata: Some(metadata),
            }),
    {
        Target {
            kind: TargetKind::BinTarget,
            name: name.to_owned(),
            src_path: src_path.to_owned(),
            profile: profile.clone(),
            metadata: Some(metadata),
        }
    }

    pub fn get_kind(&self) -> (r: &TargetKind)
        ensures
            *r == self@.kind,
    {
        &self.kind
    }

    pub fn get_name(&self) -> (r: &str)
        ensures
            r@ == self@.name,
    {
        self.name.as_str()
    }

    pub fn get_src_path(&self) -> (r: &str)
        ensures
            r@ == self@.src_path,
    {
        self.src_path.as_str()
    }

    pub fn is_lib(&self) -> (r: bool)
        ensures
            r == self@.kind is LibTarget,
    {
        match self.kind {
            TargetKind::LibTarget(_) => true,
            _ => false,
        }
    }

    pub fn is_dylib(&self) -> (r: bool)
        ensures
            r == lists_kind(self@.kind, LibKind::Dylib),
    {
        match &self.kind {
            TargetKind::LibTarget(kinds) => has_kind(kinds, LibKind::Dylib),
            _ => false,
        }
    }

    /// Whether this is a relocatable library: one that lists `rlib`, or the
    /// generic `lib`, which the compiler resolves to the same.
    pub fn is_rlib(&self) -> (r: bool)
        ensures
            r == (lists_kind(self@.kind, LibKind::Rlib) || lists_kind(self@.kind, LibKind::Lib)),
    {
        match &self.kind {
            TargetKind::LibTarget(kinds) => has_kind(kinds, LibKind::Rlib) || has_kind(
                kinds,
                LibKind::Lib,
            ),
            _ => false,
        }
    }

    pub fn is_staticlib(&self) -> (r: bool)
        ensures
            r == lists_kind(self@.kind, LibKind::StaticLib),
    {
        match &self.kind {
            TargetKind::LibTarget(kinds) => has_kind(kinds, LibKind::StaticLib),
            _ => false,
        }
    }

    pub fn is_bin(&self) -> (r: bool)
        ensures
            r == self@.kind is BinTarget,
    {
        match self.kind {
            TargetKind::BinTarget => true,
            _ => false,
        }
    }

    pub fn get_profile(&self) -> (r: &Profile)
        ensures
            r@ == self@.profile,
    {
        &self.profile
    }

    pub fn get_metadata(&self) -> (r: Option<&Metadata>)
        ensures
            match r {
                Some(m) => self@.metadata == Some(*m),
                None => self@.metadata.is_none(),
            },
    {
        self.metadata.as_ref()
    }

    /// The compiler output tokens of this target, one per declared library
    /// kind in order, or `bin` for an executable.
    pub fn rustc_crate_types(&self) -> (r: Vec<&'static str>)
        ensures
            r@.len() == kind_tokens(self@.kind).len(),
            forall|i: int| 0 <= i < r@.len() ==> (#[trigger] r@[i])@ == kind_tokens(self@.kind)[i],
    {
        match &self.kind {
            TargetKind::LibTarget(kinds) => {
                let mut out: Vec<&'static str> = Vec::new();
                let mut i: usize = 0;
                while i < kinds.len()
                    invariant
                        i <= kinds@.len(),
                        out@.len() == i,
                        forall|j: int| 0 <= j < i ==> (#[trigger] out@[j])@ == kind_token(kinds@[j]),
                    decreases kinds@.len() - i,
                {
                    out.push(kinds[i].crate_type());
                    i = i + 1;
                }
                out
            },
            TargetKind::BinTarget => {
                let mut out: Vec<&'static str> = Vec::new();
                out.push("bin");
                out
            },
        }
    }

    /// The plain projection of this target for tooling.
    pub fn to_serialized(&self) -> (r: SerializedTarget)
        ensures
            is_projection(r, self@),
    {
        SerializedTarget {
            kind: self.rustc_crate_types(),
            name: self.name.clone(),
            src_path: self.src_path.clone(),
            profile: self.profile.clone(),
            metadata: copy_metadata(&self.metadata),
        }
    }
}

} // verus!
