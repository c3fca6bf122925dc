//! The manifest: everything the build tool knows of one package, and its
//! plain projection for tooling.

use vstd::prelude::*;
use crate::package::{version_text, Dependency, PackageId, SourceId, Summary, Version};
use crate::target::{is_projection, SerializedTarget, Target};

verus! {

/// The mathematical content of a manifest.
pub ghost struct ManifestModel {
    pub summary: Summary,
    pub authors: Seq<String>,
    pub targets: Seq<Target>,
    pub target_dir: Seq<char>,
    pub doc_dir: Seq<char>,
    pub sources: Seq<SourceId>,
    pub build: Seq<String>,
    pub warnings: Seq<String>,
    pub exclude: Seq<String>,
}

/// A package's parsed declaration: its summary, authors, targets, output
/// directories, auxiliary sources, build commands, exclusion patterns, and
/// the warnings collected while it was read. Only warnings may be added
/// after construction.
#[derive(Clone, Debug, PartialEq, Eq)]
pub struct Manifest {
    summary: Summary,
    authors: Vec<String>,
    targets: Vec<Target>,
    target_dir: String,
    doc_dir: String,
    sources: Vec<SourceId>,
    build: Vec<String>,
    warnings: Vec<String>,
    exclude: Vec<String>,
}

impl View for Manifest {
    type V = ManifestModel;

    closed spec fn view(&self) -> ManifestModel {
        ManifestModel {
            summary: self.summary,
            authors: self.authors@,
            targets: self.targets@,
            target_dir: self.target_dir@,
            doc_dir: self.doc_dir@,
            sources: self.sources@,
            build: self.build@,
            warnings: self.warnings@,
            exclude: self.exclude@,
        }
    }
}

/// A dependency projected to text: its name, version requirement and
/// source location.
#[derive(Clone, Debug, PartialEq, Eq)]
pub struct SerializedDependency {
    pub name: String,
    pub req: String,
    pub source: String,
}

impl SerializedDependency {
    pub fn from_dependency(d: &Dependency) -> (r: SerializedDependency)
        ensures
            is_dependency_projection(r, *d),
    {
        SerializedDependency {
            name: d.name.clone(),
            req: d.version_req.clone(),
            source: d.source_id.url.clone(),
        }
    }
}

/// The plain projection of a manifest for tooling. `build` is absent when
/// the manifest has no build commands.
#[derive(Clone, Debug, PartialEq, Eq)]
pub struct SerializedManifest {
    pub name: String,
    pub version: String,
    pub dependencies: Vec<SerializedDependency>,
    pub authors: Vec<String>,
    pub targets: Vec<SerializedTarget>,
    pub target_dir: String,
    pub doc_dir: String,
    pub build: Option<Vec<String>>,
}

/// The build commands as the projection shows them: absent when there are
/// none.
pub open spec fn shown_build(build: Seq<String>) -> Option<Seq<String>> {
    if build.len() == 0 {
        None
    } else {
        Some(build)
    }
}

/// Whether a serialized dependency is the projection of a dependency.
pub open spec fn is_dependency_projection(s: SerializedDependency, d: Dependency) -> bool {
    &&& s.name@ == d.name@
    &&& s.req@ == d.version_req@
    &&& s.source@ == d.source_id.url@
}

fn copy_strings(v: &Vec<String>) -> (r: Vec<String>)
    ensures
        r@ == v@,
{
    let mut out: Vec<String> = Vec::new();
    let mut i: usize = 0;
    while i < v.len()
        invariant
            i <= v@.len(),
            out@ == v@.subrange(0, i as int),
        decreases v@.len() - i,
    {
        out.push(v[i].clone());
        i = i + 1;
    }
    assert(v@.subrange(0, v@.len() as int) == v@);
    out
}

impl Manifest {
    /// A manifest over the given parts, with no authors and no warnings yet.
    pub fn new(
        summary: Summary,
        targets: Vec<Target>,
        target_dir: String,
        doc_dir: String,
        sources: Vec<SourceId>,
        build: Vec<String>,
        exclude: Vec<String>,
    ) -> (r: Manifest)
        ensures
            r@ == (ManifestModel {
                summary: summary,
                authors: Seq::empty(),
                targets: targets@,
                target_dir: target_dir@,
                doc_dir: doc_dir@,
                sources: sources@,
                build: build@,
                warnings: Seq::empty(),
                exclude: exclude@,
            }),
    {
        Manifest {
            summary: summary,
            authors: Vec::new(),
            targets: targets,
            target_dir: target_dir,
            doc_dir: doc_dir,
            sources: sources,
            build: build,
            warnings: Vec::new(),
            exclude: exclude,
        }
    }

    pub fn get_summary(&self) -> (r: &Summary)
        ensures
            *r == self@.summary,
    {
        &self.summary
    }

    pub fn get_package_id(&self) -> (r: &PackageId)
        ensures
            *r == self@.summary.package_id,
    {
        self.get_summary().get_package_id()
    }

    pub fn get_name(&self) -> (r: &str)
        ensures
            r@ == self@.summary.package_id.name@,
    {
        self.get_package_id().get_name()
    }

    pub fn get_version(&self) -> (r: &Version)
        ensures
            *r == self@.summary.package_id.version,
    {
        self.get_summary().get_package_id().get_version()
    }

    pub fn get_authors(&self) -> (r: &[String])
        ensures
            r@ == self@.authors,
    {
        self.authors.as_slice()
    }

    pub fn get_dependencies(&self) -> (r: &[Dependency])
        ensures
            r@ == self@.summary.dependencies@,
    {
        self.get_summary().get_dependencies()
    }

    pub fn get_targets(&self) -> (r: &[Target])
        ensures
            r@ == self@.targets,
    {
        self.targets.as_slice()
    }

    pub fn get_target_dir(&self) -> (r: &str)
        ensures
            r@ == self@.target_dir,
    {
        self.target_dir.as_str()
    }

    pub fn get_doc_dir(&self) -> (r: &str)
        ensures
            r@ == self@.doc_dir,
    {
        self.doc_dir.as_str()
    }

    pub fn get_source_ids(&self) -> (r: &[SourceId])
        ensures
            r@ == self@.sources,
    {
        self.sources.as_slice()
    }

    pub fn get_build(&self) -> (r: &[String])
        ensures
            r@ == self@.build,
    {
        self.build.as_slice()
    }

    /// Appends a warning; all else stays as it was.
    pub fn add_warning(&mut self, s: String)
        ensures
            final(self)@ == (ManifestModel { warnings: old(self)@.warnings.push(s), ..old(self)@ }),
    {
        self.warnings.push(s)
    }

    /// The warnings in the order they were added.
    pub fn get_warnings(&self) -> (r: &[String])
        ensures
            r@ == self@.warnings,
    {
        self.warnings.as_slice()
    }

    pub fn get_exclude(&self) -> (r: &[String])
        ensures
            r@ == self@.exclude,
    {
        self.exclude.as_slice()
    }

    /// The plain projection of this manifest for tooling: name, version as
    /// text, dependencies, authors, targets and directories, and the build
    /// commands only when there are any.
    pub fn to_serialized(&self) -> (r: SerializedManifest)
        ensures
            r.name@ == self@.summary.package_id.name@,
            r.version@ == version_text(
                self@.summary.package_id.version.major as nat,
                self@.summary.package_id.version.minor as nat,
                self@.summary.package_id.version.patch as nat,
            ),
            r.dependencies@.len() == self@.summary.dependencies@.len(),
            forall|i: int|
                0 <= i < r.dependencies@.len() ==> is_dependency_projection(
                    #[trigger] r.dependencies@[i],
                    self@.summary.dependencies@[i],
                ),
            r.authors@ == self@.authors,
            r.targets@.len() == self@.targets.len(),
            forall|i: int|
                0 <= i < r.targets@.len() ==> is_projection(
                    #[trigger] r.targets@[i],
                    self@.targets[i]@,
                ),
            r.target_dir@ == self@.target_dir,
            r.doc_dir@ == self@.doc_dir,
            match r.build {
                Some(b) => shown_build(self@.build) == Some(b@),
                None => shown_build(self@.build).is_none(),
            },
    {
        let deps = self.get_dependencies();
        let mut dependencies: Vec<SerializedDependency> = Vec::new();
        let mut i: usize = 0;
        while i < deps.len()
            invariant
                deps@ == self@.summary.dependencies@,
                i <= deps@.len(),
                dependencies@.len() == i,
                forall|j: int|
                    0 <= j < i ==> is_dependency_projection(#[trigger] dependencies@[j], deps@[j]),
            decreases deps@.len() - i,
        {
            dependencies.push(SerializedDependency::from_dependency(&deps[i]));
            i = i + 1;
        }
        let mut targets: Vec<SerializedTarget> = Vec::new();
        let mut k: usize = 0;
        while k < self.targets.len()
            invariant
                k <= self.targets@.len(),
                targets@.len() == k,
                forall|j: int|
                    0 <= j < k ==> is_projection(#[trigger] targets@[j], self.targets@[j]@),
            decreases self.targets@.len() - k,
        {
            targets.push(self.targets[k].to_serialized());
            k = k + 1;
        }
        let build = if self.build.len() == 0 {
            None
        } else {
            Some(copy_strings(&self.build))
        };
        SerializedManifest {
            name: self.summary.package_id.name.clone(),
            version: self.summary.package_id.version.to_text(),
            dependencies: dependencies,
            authors: copy_strings(&self.authors),
            targets: targets,
            target_dir: self.target_dir.clone(),
            doc_dir: self.doc_dir.clone(),
            build: build,
        }
    }
}

} // verus!
