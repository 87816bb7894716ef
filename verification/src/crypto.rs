//! The cryptographic capabilities the pipeline consumes: hashing, key
//! parsing and signing. Each is an outside call behind a trusted item; what
//! an outside call returns is a function of its arguments alone and carries a
//! name here, so that contracts further up can be exact about it.

use vstd::prelude::*;

verus! {

use crate::transaction::PublicKey;

/// The 32-byte digest the ledger's hash function gives for the bytes.
pub uninterp spec fn sha256_of(bytes: Seq<u8>) -> Seq<u8>;

/// Whether the text is a signing-key literal that key parsing accepts and the
/// signing wrapper admits.
pub uninterp spec fn is_signing_key_literal(s: Seq<char>) -> bool;

/// The signature bytes the signing capability gives for this key literal and
/// 32-byte digest.
pub uninterp spec fn signature_bytes_of(key: Seq<char>, digest: Seq<u8>) -> Seq<u8>;

/// The textual public key derived from a signing-key literal.
pub uninterp spec fn public_key_literal_of(key: Seq<char>) -> Seq<char>;

/// Whether the text is a public-key literal that key parsing accepts.
pub uninterp spec fn is_public_key_literal(s: Seq<char>) -> bool;

/// The binary key encoding of a textual public key.
pub uninterp spec fn public_key_bytes_of(s: Seq<char>) -> Seq<u8>;

/// Whether the text is a base58 hash literal of exactly 32 bytes.
pub uninterp spec fn is_crypto_hash_literal(s: Seq<char>) -> bool;

/// The 32 bytes a base58 hash literal decodes to.
pub uninterp spec fn crypto_hash_bytes_of(s: Seq<char>) -> Seq<u8>;

/// The transport-safe text encoding of the bytes.
pub uninterp spec fn base64_of(bytes: Seq<u8>) -> Seq<char>;

/// Relies on near_primitives::serialize::to_base64: the standard padded
/// base64 text, a function of the bytes alone.
#[verifier::external_body]
pub(crate) fn to_base64(bytes: &Vec<u8>) -> (r: String)
    ensures
        r@ == base64_of(bytes@),
{
    near_primitives::serialize::to_base64(bytes)
}

/// Relies on near_primitives::hash::CryptoHash::hash_bytes: the digest is a
/// function of the bytes alone and is 32 bytes long.
#[verifier::external_body]
pub(crate) fn sha256(bytes: &Vec<u8>) -> (r: Vec<u8>)
    ensures
        r@ == sha256_of(bytes@),
        r@.len() == 32,
{
    near_primitives::hash::CryptoHash::hash_bytes(bytes).0.to_vec()
}

/// Relies on near_crypto::SecretKey::sign over a 32-byte digest, which is
/// deterministic for the key kinds this admits, and on near_crypto's key
/// parsing. The wrapper refuses ML-DSA keys, whose signing is randomized, and
/// ed25519 literals whose embedded public half does not match the secret half,
/// which near_crypto's signing rejects; ed25519_dalek::SigningKey::
/// from_keypair_bytes performs that consistency check. The signature comes
/// back in its binary form, via borsh::to_vec.
#[verifier::external_body]
pub(crate) fn sign_digest_with_key(key: &str, digest: &Vec<u8>) -> (r: Option<Vec<u8>>)
    requires
        digest@.len() == 32,
    ensures
        r is Some <==> is_signing_key_literal(key@),
        r is Some ==> r->0@ == signature_bytes_of(key@, digest@),
{
    let sk: near_crypto::SecretKey = key.parse().ok()?;
    match &sk {
        near_crypto::SecretKey::ED25519(raw) => {
            ed25519_dalek::SigningKey::from_keypair_bytes(&raw.0).ok()?;
        },
        near_crypto::SecretKey::SECP256K1(_) => {},
        near_crypto::SecretKey::MLDSA65(_) => return None,
    }
    borsh::to_vec(&sk.sign(digest)).ok()
}

/// Relies on near_crypto::SecretKey::public_key and the keys' textual form:
/// the public key is derived from the key literal alone. The same parsing and
/// validation as the signing wrapper decides which literals are admitted.
/// The derived text is a public key's own printed form, which the key
/// parser reads back: printing and parsing round-trip in near_crypto.
#[verifier::external_body]
pub(crate) fn public_key_for_signing_key(key: &str) -> (r: Option<String>)
    ensures
        r is Some <==> is_signing_key_literal(key@),
        r is Some ==> r->0@ == public_key_literal_of(key@),
        r is Some ==> is_public_key_literal(public_key_literal_of(key@)),
{
    let sk: near_crypto::SecretKey = key.parse().ok()?;
    match &sk {
        near_crypto::SecretKey::ED25519(raw) => {
            ed25519_dalek::SigningKey::from_keypair_bytes(&raw.0).ok()?;
        },
        near_crypto::SecretKey::SECP256K1(_) => {},
        near_crypto::SecretKey::MLDSA65(_) => return None,
    }
    Some(sk.public_key().to_string())
}

/// Relies on near_crypto::PublicKey::from_str and the key's binary
/// serialization through borsh::to_vec: both are functions of the text
/// alone, and the parse succeeds exactly on the literals the parser accepts.
#[verifier::external_body]
pub(crate) fn parse_public_key(s: &str) -> (r: Option<PublicKey>)
    ensures
        r is Some <==> is_public_key_literal(s@),
        r is Some ==> r->0.text@ == s@ && r->0.data@ == public_key_bytes_of(s@),
{
    let pk: near_crypto::PublicKey = s.parse().ok()?;
    let data = borsh::to_vec(&pk).ok()?;
    Some(PublicKey { text: s.to_owned(), data })
}

/// Relies on near_primitives::hash::CryptoHash::from_str: the parse of a
/// base58 hash literal is a function of the text alone, succeeds exactly on
/// the literals the parser accepts, and yields 32 bytes.
#[verifier::external_body]
pub(crate) fn parse_crypto_hash(s: &str) -> (r: Option<Vec<u8>>)
    ensures
        r is Some <==> is_crypto_hash_literal(s@),
        r is Some ==> r->0@ == crypto_hash_bytes_of(s@) && r->0@.len() == 32,
{
    let h: near_primitives::hash::CryptoHash = s.parse().ok()?;
    Some(h.0.to_vec())
}

/// Relies on serde_json::Value::as_str: a JSON string value hands out its
/// text, any other value none.
#[verifier::external_body]
pub(crate) fn json_string_payload(v: &serde_json::Value) -> (r: Option<String>)
{
    v.as_str().map(|s| s.to_owned())
}

#[verifier::external_type_specification]
#[verifier::external_body]
pub struct ExJsonValue(serde_json::Value);

} // verus!
