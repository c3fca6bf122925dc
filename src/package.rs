//! The identity of a package as the manifest sees it: its version, where it
//! comes from, its dependencies, and the token that tells artifacts apart.

use vstd::prelude::*;

verus! {

/// The character of one decimal digit.
pub open spec fn digit_char(d: nat) -> char
    recommends
        d < 10,
{
    seq!['0', '1', '2', '3', '4', '5', '6', '7', '8', '9'][d as int]
}

/// The decimal numeral of a natural number, without leading zeros.
pub open spec fn decimal(n: nat) -> Seq<char>
    decreases n,
{
    if n < 10 {
        seq![digit_char(n)]
    } else {
        decimal(n / 10).push(digit_char(n % 10))
    }
}

/// The text of a release version: `major.minor.patch`.
pub open spec fn version_text(major: nat, minor: nat, patch: nat) -> Seq<char> {
    decimal(major) + "."@ + decimal(minor) + "."@ + decimal(patch)
}

/// Relies on semver::Version::new, which makes a version with no
/// pre-release or build part, and on its Display, which then writes the
/// three numbers in decimal separated by dots.
#[verifier::external_body]
fn semver_text(major: u64, minor: u64, patch: u64) -> (r: String)
    ensures
        r@ == version_text(major as nat, minor as nat, patch as nat),
{
    semver::Version::new(major, minor, patch).to_string()
}

/// A semantic version of a package.
#[derive(Clone, Copy, Debug, PartialEq, Eq, Structural, PartialOrd, Ord, Hash)]
pub struct Version {
    pub major: u64,
    pub minor: u64,
    pub patch: u64,
}

impl Version {
    /// The version as text, `major.minor.patch`.
    pub fn to_text(&self) -> (r: String)
        ensures
            r@ == version_text(self.major as nat, self.minor as nat, self.patch as nat),
    {
        semver_text(self.major, self.minor, self.patch)
    }
}

/// Where a package comes from, named by its location.
#[derive(Debug, PartialEq, Eq, Hash)]
pub struct SourceId {
    pub url: String,
}

impl Clone for SourceId {
    fn clone(&self) -> (r: Self)
        ensures
            r == *self,
    {
        SourceId { url: self.url.clone() }
    }
}

/// A package's name, version and origin.
#[derive(Clone, Debug, PartialEq, Eq, Hash)]
pub struct PackageId {
    pub name: String,
    pub version: Version,
    pub source_id: SourceId,
}

impl PackageId {
    pub fn get_name(&self) -> (r: &str)
        ensures
            r@ == self.name@,
    {
        self.name.as_str()
    }

    pub fn get_version(&self) -> (r: &Version)
        ensures
            *r == self.version,
    {
        &self.version
    }

    pub fn get_source_id(&self) -> (r: &SourceId)
        ensures
            *r == self.source_id,
    {
        &self.source_id
    }
}

/// A dependency of a package: the name wanted, the version requirement as
/// written, and where it is to come from.
#[derive(Clone, Debug, PartialEq, Eq, Hash)]
pub struct Dependency {
    pub name: String,
    pub version_req: String,
    pub source_id: SourceId,
}

/// A package's identity together with its dependencies.
#[derive(Clone, Debug, PartialEq, Eq)]
pub struct Summary {
    pub package_id: PackageId,
    pub dependencies: Vec<Dependency>,
}

impl Summary {
    pub fn get_package_id(&self) -> (r: &PackageId)
        ensures
            *r == self.package_id,
    {
        &self.package_id
    }

    pub fn get_dependencies(&self) -> (r: &[Dependency])
        ensures
            r@ == self.dependencies@,
    {
        self.dependencies.as_slice()
    }
}

/// The token that keeps artifacts of one target under different profiles
/// apart: `extra_filename` is appended to the target's name to form the
/// file stem.
#[derive(Debug, PartialEq, Eq, Hash)]
pub struct Metadata {
    pub metadata: String,
    pub extra_filename: String,
}

impl Clone for Metadata {
    fn clone(&self) -> (r: Self)
        ensures
            r == *self,
    {
        Metadata { metadata: self.metadata.clone(), extra_filename: self.extra_filename.clone() }
    }
}

} // verus!
