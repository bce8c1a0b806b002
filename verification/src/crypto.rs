//! The signature gate that guards every write.
//!
//! A put is admitted only if its signature verifies, under ECDSA over the
//! secp256k1 curve, against the sha256 hash of a canonical message built from
//! the public key's textual form and the entry name. Building the message is
//! verified logic; parsing, hashing and curve arithmetic are the outside
//! library's work, reached through a single trusted wrapper whose outcome is
//! the named predicate [`ecdsa_valid`]. A malformed signature or public-key
//! encoding is a verification failure, never a crash.

use vstd::prelude::*;
use vstd::string::StringExecFns;
use std::str::FromStr;
use crate::messages::Entry;

verus! {

/// Whether `sig`, read as a hex-encoded DER ECDSA signature, is a valid
/// signature by the public key `pk` (in its textual form) over the sha256
/// hash of the message `msg`. Parsing, hashing and verification are
/// deterministic, so the outcome is a function of the three strings alone; a
/// string that does not parse as a signature or as a public key never
/// verifies.
pub uninterp spec fn ecdsa_valid(msg: Seq<char>, sig: Seq<char>, pk: Seq<char>) -> bool;

/// The canonical message that a signature must cover to authorize a write:
/// the public key's textual form, a separator, and the entry name.
pub open spec fn message_spec(pk: Seq<char>, name: Seq<char>) -> Seq<char> {
    pk + "/"@ + name
}

/// Builds the canonical message for `public_key` and `name`.
pub fn build_message(public_key: &String, name: &String) -> (m: String)
    ensures
        m@ == message_spec(public_key@, name@),
{
    let mut m = public_key.clone();
    m.append("/");
    m.append(name.as_str());
    proof {
        assert(m@ =~= message_spec(public_key@, name@));
    }
    m
}

/// Relies on secp256k1: `ecdsa::Signature::from_str` parses the signature as
/// hex-encoded DER and `PublicKey::from_str` parses the key's textual form
/// (a hex-encoded curve point);
/// the message bytes are hashed with `hashes::sha256` and checked with
/// `Secp256k1::verify_ecdsa`. Every step is a deterministic function of the
/// three strings, so the outcome equals the named predicate; either parse
/// failing yields `false`, never a panic.
#[verifier::external_body]
fn secp_ecdsa_check(message: &String, signature: &String, public_key: &String) -> (r: bool)
    ensures
        r == ecdsa_valid(message@, signature@, public_key@),
{
    let sig = match secp256k1::ecdsa::Signature::from_str(signature.as_str()) {
        Ok(s) => s,
        Err(_) => return false,
    };
    let pk = match secp256k1::PublicKey::from_str(public_key.as_str()) {
        Ok(k) => k,
        Err(_) => return false,
    };
    let digest = <secp256k1::hashes::sha256::Hash as secp256k1::hashes::Hash>::hash(
        message.as_bytes(),
    );
    let msg = secp256k1::Message::from_digest(
        <secp256k1::hashes::sha256::Hash as secp256k1::hashes::Hash>::to_byte_array(digest),
    );
    secp256k1::Secp256k1::new().verify_ecdsa(msg, &sig, &pk).is_ok()
}

/// The signature gate: whether `signature` authorizes storing `entry` on
/// behalf of `public_key`. True exactly when the signature is valid over the
/// canonical message for the key and the entry's name.
pub fn verify_put(entry: &Entry, signature: &String, public_key: &String) -> (r: bool)
    ensures
        r == ecdsa_valid(message_spec(public_key@, entry.name@), signature@, public_key@),
{
    let m = build_message(public_key, &entry.name);
    secp_ecdsa_check(&m, signature, public_key)
}

} // verus!
