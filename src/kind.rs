//! Library output kinds, target kinds, and their textual forms.

use vstd::prelude::*;

verus! {

/// One output format that a library target may ask the compiler for.
#[derive(Clone, Copy, Debug, PartialEq, Eq, Structural, Hash)]
pub enum LibKind {
    Lib,
    Rlib,
    Dylib,
    StaticLib,
}

/// The compiler-facing token of a library kind.
pub open spec fn kind_token(k: LibKind) -> Seq<char> {
    match k {
        LibKind::Lib => "lib"@,
        LibKind::Rlib => "rlib"@,
        LibKind::Dylib => "dylib"@,
        LibKind::StaticLib => "staticlib"@,
    }
}

/// The library kind that a textual name denotes, if any (case-sensitive).
pub open spec fn parse_kind(s: Seq<char>) -> Option<LibKind> {
    if s == "lib"@ {
        Some(LibKind::Lib)
    } else if s == "rlib"@ {
        Some(LibKind::Rlib)
    } else if s == "dylib"@ {
        Some(LibKind::Dylib)
    } else if s == "staticlib"@ {
        Some(LibKind::StaticLib)
    } else {
        None
    }
}

/// Whether every name of the list denotes a library kind.
pub open spec fn all_parse(names: Seq<String>) -> bool {
    forall|i: int| 0 <= i < names.len() ==> (#[trigger] parse_kind(names[i]@)).is_some()
}

/// A configuration error: a crate-kind name that is not one of the accepted
/// names `lib`, `rlib`, `dylib` and `staticlib`.
#[derive(Clone, Debug, PartialEq, Eq, Hash)]
pub struct ConfigError {
    pub invalid: String,
}

impl ConfigError {
    /// The user-facing text of the error: the offending name followed by
    /// the accepted set.
    pub fn message(&self) -> (r: String)
        ensures
            r@ == self.invalid@ + " was not one of lib|rlib|dylib|staticlib"@,
    {
        let r = self.invalid.clone();
        r.concat(" was not one of lib|rlib|dylib|staticlib")
    }
}

impl LibKind {
    /// Parses a crate-kind name; any name outside the accepted set is an
    /// error that carries it.
    pub fn from_str(string: &str) -> (r: Result<LibKind, ConfigError>)
        ensures
            match r {
                Ok(k) => parse_kind(string@) == Some(k),
                Err(e) => parse_kind(string@).is_none() && e.invalid@ == string@,
            },
    {
        let s = string.to_owned();
        if s == String::from_str("lib") {
            Ok(LibKind::Lib)
        } else if s == String::from_str("rlib") {
            Ok(LibKind::Rlib)
        } else if s == String::from_str("dylib") {
            Ok(LibKind::Dylib)
        } else if s == String::from_str("staticlib") {
            Ok(LibKind::StaticLib)
        } else {
            Err(ConfigError { invalid: s })
        }
    }

    /// Parses a list of crate-kind names in order, stopping at the first
    /// invalid one.
    pub fn from_strs(strings: Vec<String>) -> (r: Result<Vec<LibKind>, ConfigError>)
        ensures
            r.is_ok() <==> all_parse(strings@),
            match r {
                Ok(v) => v@.len() == strings@.len() && forall|i: int|
                    0 <= i < v@.len() ==> Some(#[trigger] v@[i]) == parse_kind(strings@[i]@),
                Err(e) => exists|i: int|
                    0 <= i < strings@.len() && parse_kind(#[trigger] strings@[i]@).is_none()
                        && e.invalid@ == strings@[i]@ && forall|j: int|
                        0 <= j < i ==> (#[trigger] parse_kind(strings@[j]@)).is_some(),
            },
    {
        let mut out: Vec<LibKind> = Vec::new();
        let mut i: usize = 0;
        while i < strings.len()
            invariant
                i <= strings@.len(),
                out@.len() == i,
                forall|j: int| 0 <= j < i ==> Some(#[trigger] out@[j]) == parse_kind(strings@[j]@),
            decreases strings@.len() - i,
        {
            match LibKind::from_str(strings[i].as_str()) {
                Ok(k) => out.push(k),
                Err(e) => {
                    assert forall|j: int| 0 <= j < i implies (#[trigger] parse_kind(
                        strings@[j]@,
                    )).is_some() by {
                        assert(Some(out@[j]) == parse_kind(strings@[j]@));
                    }
                    assert(!all_parse(strings@)) by {
                        assert(parse_kind(strings@[i as int]@).is_none());
                    }
                    return Err(e);
                },
            }
            i = i + 1;
        }
        assert forall|j: int| 0 <= j < strings@.len() implies (#[trigger] parse_kind(
            strings@[j]@,
        )).is_some() by {
            assert(Some(out@[j]) == parse_kind(strings@[j]@));
        }
        Ok(out)
    }

    /// The compiler-facing token of this kind.
    pub fn crate_type(&self) -> (r: &'static str)
        ensures
            r@ == kind_token(*self),
    {
        match *self {
            LibKind::Lib => "lib",
            LibKind::Rlib => "rlib",
            LibKind::Dylib => "dylib",
            LibKind::StaticLib => "staticlib",
        }
    }
}

/// What a target produces: a library of the listed kinds, or an executable.
#[derive(Clone, Debug, PartialEq, Eq, Hash)]
pub enum TargetKind {
    LibTarget(Vec<LibKind>),
    BinTarget,
}

} // verus!
