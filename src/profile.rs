//! Build profiles: how a target is compiled, and which part of that decides
//! the identity of what comes out.

use vstd::prelude::*;

verus! {

/// The mathematical content of a profile, field for field.
pub ghost struct ProfileModel {
    pub env: Seq<char>,
    pub opt_level: nat,
    pub codegen_units: Option<nat>,
    pub debug: bool,
    pub test: bool,
    pub doctest: bool,
    pub doc: bool,
    pub dest: Option<Seq<char>>,
    pub plugin: bool,
    pub harness: bool,
}

/// The fields that decide the identity of a profile's output, in the order
/// optimization level, codegen units, debug info, plugin, destination,
/// test harness.
pub type FingerprintModel = (nat, Option<nat>, bool, bool, Option<Seq<char>>, bool);

/// The fingerprint of a profile: exactly the fields that change what is
/// compiled, never the environment tag, nor the doc, test or doctest flags.
pub open spec fn fingerprint_of(p: ProfileModel) -> FingerprintModel {
    (p.opt_level, p.codegen_units, p.debug, p.plugin, p.dest, p.harness)
}

/// An optional count as a natural number.
pub open spec fn opt_nat(o: Option<usize>) -> Option<nat> {
    match o {
        Some(n) => Some(n as nat),
        None => None,
    }
}

/// An optional string as its characters.
pub open spec fn opt_text(o: Option<String>) -> Option<Seq<char>> {
    match o {
        Some(s) => Some(s@),
        None => None,
    }
}

/// The values that every preset starts from.
pub open spec fn baseline_model() -> ProfileModel {
    ProfileModel {
        env: Seq::empty(),
        opt_level: 0,
        codegen_units: None,
        debug: false,
        test: false,
        doctest: false,
        doc: false,
        dest: None,
        plugin: false,
        harness: true,
    }
}

/// The development preset.
pub open spec fn dev_model() -> ProfileModel {
    ProfileModel { env: "compile"@, opt_level: 0, debug: true, ..baseline_model() }
}

/// The test preset.
pub open spec fn test_model() -> ProfileModel {
    ProfileModel { env: "test"@, debug: true, test: true, dest: None, ..baseline_model() }
}

/// The benchmark preset.
pub open spec fn bench_model() -> ProfileModel {
    ProfileModel {
        env: "bench"@,
        opt_level: 3,
        test: true,
        dest: Some("release"@),
        ..baseline_model()
    }
}

/// The release preset.
pub open spec fn release_model() -> ProfileModel {
    ProfileModel { env: "release"@, opt_level: 3, dest: Some("release"@), ..baseline_model() }
}

/// The documentation preset.
pub open spec fn doc_model() -> ProfileModel {
    ProfileModel { env: "doc"@, dest: None, doc: true, ..baseline_model() }
}

/// How a target is compiled. Built from one of the presets and adjusted by
/// the setters, each of which returns a changed copy.
#[derive(Debug, PartialEq, Eq)]
pub struct Profile {
    env: String,
    opt_level: usize,
    codegen_units: Option<usize>,
    debug: bool,
    test: bool,
    doctest: bool,
    doc: bool,
    dest: Option<String>,
    plugin: bool,
    harness: bool,
}

impl View for Profile {
    type V = ProfileModel;

    closed spec fn view(&self) -> ProfileModel {
        ProfileModel {
            env: self.env@,
            opt_level: self.opt_level as nat,
            codegen_units: opt_nat(self.codegen_units),
            debug: self.debug,
            test: self.test,
            doctest: self.doctest,
            doc: self.doc,
            dest: opt_text(self.dest),
            plugin: self.plugin,
            harness: self.harness,
        }
    }
}

fn copy_text(o: &Option<String>) -> (r: Option<String>)
    ensures
        opt_text(r) == opt_text(*o),
{
    match o {
        Some(s) => Some(s.clone()),
        None => None,
    }
}

impl Clone for Profile {
    fn clone(&self) -> (r: Self)
        ensures
            r@ == self@,
    {
        Profile {
            env: self.env.clone(),
            opt_level: self.opt_level,
            codegen_units: self.codegen_units,
            debug: self.debug,
            test: self.test,
            doctest: self.doctest,
            doc: self.doc,
            dest: copy_text(&self.dest),
            plugin: self.plugin,
            harness: self.harness,
        }
    }
}

/// The fields of a profile that decide the identity of its output.
#[derive(Clone, Debug, PartialEq, Eq, Hash)]
pub struct ProfileFingerprint {
    pub opt_level: usize,
    pub codegen_units: Option<usize>,
    pub debug: bool,
    pub plugin: bool,
    pub dest: Option<String>,
    pub harness: bool,
}

impl View for ProfileFingerprint {
    type V = FingerprintModel;

    open spec fn view(&self) -> FingerprintModel {
        (
            self.opt_level as nat,
            opt_nat(self.codegen_units),
            self.debug,
            self.plugin,
            opt_text(self.dest),
            self.harness,
        )
    }
}

impl Profile {
    fn default() -> (r: Profile)
        ensures
            r@ == baseline_model(),
    {
        Profile {
            env: String::new(),
            opt_level: 0,
            codegen_units: None,
            debug: false,
            test: false,
            doc: false,
            dest: None,
            plugin: false,
            doctest: false,
            harness: true,
        }
    }

    /// The development preset: environment "compile", no optimization,
    /// debug info on.
    pub fn default_dev() -> (r: Profile)
        ensures
            r@ == dev_model(),
    {
        Profile {
            env: String::from_str("compile"),
            opt_level: 0,
            debug: true,
            ..Profile::default()
        }
    }

    /// The test preset: environment "test", debug info and test flag on.
    pub fn default_test() -> (r: Profile)
        ensures
            r@ == test_model(),
    {
        Profile {
            env: String::from_str("test"),
            debug: true,
            test: true,
            dest: None,
            ..Profile::default()
        }
    }

    /// The benchmark preset: environment "bench", optimization 3, test flag
    /// on, output under "release".
    pub fn default_bench() -> (r: Profile)
        ensures
            r@ == bench_model(),
    {
        Profile {
            env: String::from_str("bench"),
            opt_level: 3,
            test: true,
            dest: Some(String::from_str("release")),
            ..Profile::default()
        }
    }

    /// The release preset: environment "release", optimization 3, output
    /// under "release".
    pub fn default_release() -> (r: Profile)
        ensures
            r@ == release_model(),
    {
        Profile {
            env: String::from_str("release"),
            opt_level: 3,
            dest: Some(String::from_str("release")),
            ..Profile::default()
        }
    }

    /// The documentation preset: environment "doc", doc flag on.
    pub fn default_doc() -> (r: Profile)
        ensures
            r@ == doc_model(),
    {
        Profile {
            env: String::from_str("doc"),
            dest: None,
            doc: true,
            ..Profile::default()
        }
    }

    pub fn is_compile(&self) -> (r: bool)
        ensures
            r == (self@.env == "compile"@),
    {
        self.env == String::from_str("compile")
    }

    pub fn is_doc(&self) -> (r: bool)
        ensures
            r == self@.doc,
    {
        self.doc
    }

    pub fn is_test(&self) -> (r: bool)
        ensures
            r == self@.test,
    {
        self.test
    }

    pub fn uses_test_harness(&self) -> (r: bool)
        ensures
            r == self@.harness,
    {
        self.harness
    }

    pub fn is_doctest(&self) -> (r: bool)
        ensures
            r == self@.doctest,
    {
        self.doctest
    }

    pub fn is_plugin(&self) -> (r: bool)
        ensures
            r == self@.plugin,
    {
        self.plugin
    }

    pub fn get_opt_level(&self) -> (r: usize)
        ensures
            r as nat == self@.opt_level,
    {
        self.opt_level
    }

    pub fn get_codegen_units(&self) -> (r: Option<usize>)
        ensures
            opt_nat(r) == self@.codegen_units,
    {
        self.codegen_units
    }

    pub fn get_debug(&self) -> (r: bool)
        ensures
            r == self@.debug,
    {
        self.debug
    }

    pub fn get_env(&self) -> (r: &str)
        ensures
            r@ == self@.env,
    {
        self.env.as_str()
    }

    pub fn get_dest(&self) -> (r: Option<&str>)
        ensures
            match r {
                Some(d) => self@.dest == Some(d@),
                None => self@.dest.is_none(),
            },
    {
        match &self.dest {
            Some(d) => Some(d.as_str()),
            None => None,
        }
    }

    pub fn opt_level(self, level: usize) -> (r: Profile)
        ensures
            r@ == (ProfileModel { opt_level: level as nat, ..self@ }),
    {
        Profile { opt_level: level, ..self }
    }

    pub fn codegen_units(self, units: Option<usize>) -> (r: Profile)
        ensures
            r@ == (ProfileModel { codegen_units: opt_nat(units), ..self@ }),
    {
        Profile { codegen_units: units, ..self }
    }

    pub fn debug(self, debug: bool) -> (r: Profile)
        ensures
            r@ == (ProfileModel { debug: debug, ..self@ }),
    {
        Profile { debug: debug, ..self }
    }

    pub fn test(self, test: bool) -> (r: Profile)
        ensures
            r@ == (ProfileModel { test: test, ..self@ }),
    {
        Profile { test: test, ..self }
    }

    pub fn doctest(self, doctest: bool) -> (r: Profile)
        ensures
            r@ == (ProfileModel { doctest: doctest, ..self@ }),
    {
        Profile { doctest: doctest, ..self }
    }

    pub fn doc(self, doc: bool) -> (r: Profile)
        ensures
            r@ == (ProfileModel { doc: doc, ..self@ }),
    {
        Profile { doc: doc, ..self }
    }

    pub fn plugin(self, plugin: bool) -> (r: Profile)
        ensures
            r@ == (ProfileModel { plugin: plugin, ..self@ }),
    {
        Profile { plugin: plugin, ..self }
    }

    pub fn harness(self, harness: bool) -> (r: Profile)
        ensures
            r@ == (ProfileModel { harness: harness, ..self@ }),
    {
        Profile { harness: harness, ..self }
    }

    /// The output-identity fingerprint: optimization level, codegen units,
    /// debug info, plugin flag, destination and test harness, and nothing
    /// else.
    pub fn fingerprint(&self) -> (r: ProfileFingerprint)
        ensures
            r@ == fingerprint_of(self@),
    {
        ProfileFingerprint {
            opt_level: self.opt_level,
            codegen_units: self.codegen_units,
            debug: self.debug,
            plugin: self.plugin,
            dest: copy_text(&self.dest),
            harness: self.harness,
        }
    }
}

} // verus!
