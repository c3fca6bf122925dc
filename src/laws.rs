//! Laws that relate the functions of the library to one another.

use vstd::prelude::*;
use crate::kind::{kind_token, parse_kind, LibKind};
use crate::profile::{fingerprint_of, Profile};

verus! {

/// Two profiles that agree on optimization level, codegen units, debug
/// info, plugin flag, destination and test harness have the same
/// fingerprint, whatever their environment tags and doc, test and doctest
/// flags.
pub proof fn lemma_fingerprint_ignores_bookkeeping(p1: Profile, p2: Profile)
    requires
        p1@.opt_level == p2@.opt_level,
        p1@.codegen_units == p2@.codegen_units,
        p1@.debug == p2@.debug,
        p1@.plugin == p2@.plugin,
        p1@.dest == p2@.dest,
        p1@.harness == p2@.harness,
    ensures
        fingerprint_of(p1@) == fingerprint_of(p2@),
{
}

/// Two profiles that differ in optimization level, codegen units, debug
/// info, plugin flag, destination or test harness have different
/// fingerprints.
pub proof fn lemma_fingerprint_sees_compilation(p1: Profile, p2: Profile)
    requires
        p1@.opt_level != p2@.opt_level || p1@.codegen_units != p2@.codegen_units || p1@.debug
            != p2@.debug || p1@.plugin != p2@.plugin || p1@.dest != p2@.dest || p1@.harness
            != p2@.harness,
    ensures
        fingerprint_of(p1@) != fingerprint_of(p2@),
{
}

/// Each library kind parses back from its token, and each accepted name is
/// the token of the kind it parses to: `lib`, `rlib`, `dylib` and
/// `staticlib` map to themselves.
pub proof fn lemma_kind_round_trip(k: LibKind)
    ensures
        parse_kind(kind_token(k)) == Some(k),
        kind_token(k) == "lib"@ || kind_token(k) == "rlib"@ || kind_token(k) == "dylib"@
            || kind_token(k) == "staticlib"@,
{
    reveal_strlit("lib");
    reveal_strlit("rlib");
    reveal_strlit("dylib");
    reveal_strlit("staticlib");
}

/// A name that parses to a kind is that kind's token.
pub proof fn lemma_parsed_name_is_token(s: Seq<char>)
    requires
        parse_kind(s).is_some(),
    ensures
        kind_token(parse_kind(s).unwrap()) == s,
{
}

} // verus!
