//! Derivation of store keys from application-level identifiers.
//!
//! Read keys are derived from a caller-supplied location string and write
//! keys from a signature string. Both derivations are pure: the same input
//! always yields the same key, which is what makes reads and writes
//! idempotent at the store level. A write key is the fixed namespace tag
//! followed by the signature verbatim, so distinct signatures always land on
//! distinct keys.

use vstd::prelude::*;
use vstd::string::StringExecFns;

verus! {

/// The namespace tag that prefixes every write key, distinguishing signed
/// entries from other key classes in the store.
pub open spec fn write_tag() -> Seq<char> {
    "e_"@
}

/// The store key that addresses reads of `location`: the location itself.
pub open spec fn read_key_spec(location: Seq<char>) -> Seq<char> {
    location
}

/// The store key under which a write carrying `signature` is stored: the
/// namespace tag followed by the signature, verbatim.
pub open spec fn write_key_spec(signature: Seq<char>) -> Seq<char> {
    write_tag() + signature
}

/// Derives the store key for a read of `location`.
pub fn derive_read_key(location: &String) -> (key: String)
    ensures
        key@ == read_key_spec(location@),
{
    location.clone()
}

/// Derives the store key for a write carrying `signature`.
pub fn derive_write_key(signature: &String) -> (key: String)
    ensures
        key@ == write_key_spec(signature@),
{
    let mut key = String::from_str("e_");
    key.append(signature.as_str());
    key
}

/// Distinct signatures derive distinct write keys: the tag is a fixed-length
/// prefix, so the signature can be recovered from the key.
pub proof fn lemma_write_key_injective(s1: Seq<char>, s2: Seq<char>)
    requires
        s1 != s2,
    ensures
        write_key_spec(s1) != write_key_spec(s2),
{
    reveal_strlit("e_");
    assert(write_key_spec(s1).skip(2) =~= s1);
    assert(write_key_spec(s2).skip(2) =~= s2);
}

/// A write key is never a read key for a location outside the write
/// namespace: every write key starts with the namespace tag.
pub proof fn lemma_write_key_tagged(s: Seq<char>)
    ensures
        write_key_spec(s).len() >= 2,
        write_key_spec(s).take(2) == write_tag(),
{
    reveal_strlit("e_");
    assert(write_key_spec(s).take(2) =~= write_tag());
}

} // verus!
