//! The sign step: a signing method is selected, its credential resolved, and
//! the assembled record is signed over its canonical serialization. Signing
//! is deterministic in the credential and the record, and does not change the
//! record; a bad credential is a terminal error, never retried.

use vstd::prelude::*;

verus! {

use crate::crypto::{base64_of, crypto_hash_bytes_of, is_crypto_hash_literal,
    is_public_key_literal, is_signing_key_literal, parse_crypto_hash, parse_public_key,
    public_key_bytes_of, public_key_for_signing_key, public_key_literal_of, sha256, sha256_of,
    sign_digest_with_key, signature_bytes_of, to_base64};
use crate::encoding::{encode_transaction, push_slice, spec_encode_transaction};
use crate::transaction::{PublicKey, UnsignedTransaction};
use std::collections::VecDeque;

/// A signed transaction: the record it was made from, the signature over the
/// record's canonical serialization, the serialized signed record — the
/// ledger's signed-transaction encoding, ready to broadcast — and its
/// transport-safe text.
#[derive(Debug)]
pub struct SignedTransactionRecord {
    pub transaction: UnsignedTransaction,
    pub signature: Vec<u8>,
    pub signed_bytes: Vec<u8>,
    pub base64_text: String,
}

/// The canonical serialization of the signed record: the record's wire
/// bytes followed by the signature over their digest, which is the ledger's
/// signed-transaction encoding.
pub open spec fn spec_signed_bytes(t: UnsignedTransaction, key: Seq<char>) -> Seq<u8> {
    spec_encode_transaction(t) + signature_bytes_of(key, sha256_of(spec_encode_transaction(t)))
}

/// Why signing aborted: the credential was malformed or unusable.
#[derive(Debug, Clone, Copy, PartialEq, Eq, Structural)]
pub enum SignError {
    InvalidKey,
    MissingCredential,
}

/// Signing with a private-key literal supplied directly.
#[derive(Debug)]
pub struct SignPrivateKey {
    pub signer_private_key: String,
}

/// Signing with the credential the keychain holds for the signer; the lookup
/// itself happens outside, and its result is the key literal here.
#[derive(Debug)]
pub struct SignKeychain {
    pub signer_private_key: String,
}

/// Which signing methods this build offers; a hardware-device method would
/// join the registry where its support is compiled in.
#[derive(Debug, Clone, Copy, PartialEq, Eq, Structural)]
pub enum SignOptionKind {
    PrivateKey,
    Keychain,
    Manually,
}

/// The registry of available signing methods.
pub fn available_sign_options() -> (r: Vec<SignOptionKind>)
    ensures
        r@ =~= seq![SignOptionKind::PrivateKey, SignOptionKind::Keychain, SignOptionKind::Manually],
{
    let mut options: Vec<SignOptionKind> = Vec::new();
    options.push(SignOptionKind::PrivateKey);
    options.push(SignOptionKind::Keychain);
    options.push(SignOptionKind::Manually);
    options
}

/// The selected signing method with its resolved credential material.
#[derive(Debug)]
pub enum SignTransaction {
    SignPrivateKey(SignPrivateKey),
    SignWithKeychain(SignKeychain),
    SignManually,
}

/// The command-line form of a signing selection: what the flags carried, with
/// anything unsupplied left open for interactive resolution.
#[derive(Debug)]
pub enum CliSignTransaction {
    SignPrivateKey { signer_private_key: Option<String> },
    SignWithKeychain,
    SignManually,
}

/// The command-line words a signing selection prints back.
pub open spec fn spec_sign_cli_args(c: CliSignTransaction) -> Seq<Seq<char>> {
    match c {
        CliSignTransaction::SignPrivateKey { signer_private_key: Some(k) } => seq![
            "sign-private-key"@,
            k@,
        ],
        CliSignTransaction::SignPrivateKey { signer_private_key: None } => seq![
            "sign-private-key"@,
        ],
        CliSignTransaction::SignWithKeychain => seq!["sign-with-keychain"@],
        CliSignTransaction::SignManually => seq!["sign-manually"@],
    }
}

impl CliSignTransaction {
    /// The command-line words that reproduce this selection.
    pub fn to_cli_args(&self) -> (r: VecDeque<String>)
        ensures
            r@.map_values(|s: String| s@) =~= spec_sign_cli_args(*self),
    {
        let mut args: VecDeque<String> = VecDeque::new();
        match self {
            CliSignTransaction::SignPrivateKey { signer_private_key } => {
                args.push_back("sign-private-key".to_owned());
                if let Some(k) = signer_private_key {
                    args.push_back(k.clone());
                }
            },
            CliSignTransaction::SignWithKeychain => {
                args.push_back("sign-with-keychain".to_owned());
            },
            CliSignTransaction::SignManually => {
                args.push_back("sign-manually".to_owned());
            },
        }
        args
    }
}

/// The resolved signing method that the pre-supplied selection, the menu
/// choice and the credential sources determine: a pre-supplied selection is
/// honored, with a missing key taken from the operator's entries; without one
/// the menu choice picks the method from the registry, manual signing where
/// the choice runs off the menu. A key-bearing method without any key to use
/// is the terminal credential failure.
pub open spec fn spec_resolve_sign_option(
    cli: Option<CliSignTransaction>,
    menu_selection: int,
    entered_keys: Seq<String>,
    keychain_key: Option<String>,
) -> Result<SignTransaction, SignError> {
    match cli {
        Some(CliSignTransaction::SignPrivateKey { signer_private_key: Some(k) }) => Ok(
            SignTransaction::SignPrivateKey(SignPrivateKey { signer_private_key: k }),
        ),
        Some(CliSignTransaction::SignPrivateKey { signer_private_key: None }) => if entered_keys.len()
            > 0 {
            Ok(
                SignTransaction::SignPrivateKey(
                    SignPrivateKey { signer_private_key: entered_keys[0] },
                ),
            )
        } else {
            Err(SignError::MissingCredential)
        },
        Some(CliSignTransaction::SignWithKeychain) => match keychain_key {
            Some(k) => Ok(SignTransaction::SignWithKeychain(SignKeychain { signer_private_key: k })),
            None => Err(SignError::MissingCredential),
        },
        Some(CliSignTransaction::SignManually) => Ok(SignTransaction::SignManually),
        None => if menu_selection == 0 {
            if entered_keys.len() > 0 {
                Ok(
                    SignTransaction::SignPrivateKey(
                        SignPrivateKey { signer_private_key: entered_keys[0] },
                    ),
                )
            } else {
                Err(SignError::MissingCredential)
            }
        } else if menu_selection == 1 {
            match keychain_key {
                Some(k) => Ok(
                    SignTransaction::SignWithKeychain(SignKeychain { signer_private_key: k }),
                ),
                None => Err(SignError::MissingCredential),
            }
        } else {
            Ok(SignTransaction::SignManually)
        },
    }
}

/// Resolves the signing method from the pre-supplied selection or the menu
/// choice, taking credential material from the operator's entries or the
/// keychain as the method asks.
pub fn resolve_sign_option(
    cli: Option<CliSignTransaction>,
    menu_selection: usize,
    entered_keys: &Vec<String>,
    keychain_key: &Option<String>,
) -> (r: Result<SignTransaction, SignError>)
    ensures
        r == spec_resolve_sign_option(
            cli,
            menu_selection as int,
            entered_keys@,
            *keychain_key,
        ),
{
    match cli {
        Some(CliSignTransaction::SignPrivateKey { signer_private_key: Some(k) }) => Ok(
            SignTransaction::SignPrivateKey(SignPrivateKey { signer_private_key: k }),
        ),
        Some(CliSignTransaction::SignPrivateKey { signer_private_key: None }) => {
            if entered_keys.len() > 0 {
                Ok(
                    SignTransaction::SignPrivateKey(
                        SignPrivateKey { signer_private_key: entered_keys[0].clone() },
                    ),
                )
            } else {
                Err(SignError::MissingCredential)
            }
        },
        Some(CliSignTransaction::SignWithKeychain) => {
            match keychain_key {
                Some(k) => Ok(
                    SignTransaction::SignWithKeychain(
                        SignKeychain { signer_private_key: k.clone() },
                    ),
                ),
                None => Err(SignError::MissingCredential),
            }
        },
        Some(CliSignTransaction::SignManually) => Ok(SignTransaction::SignManually),
        None => {
            if menu_selection == 0 {
                if entered_keys.len() > 0 {
                    Ok(
                        SignTransaction::SignPrivateKey(
                            SignPrivateKey { signer_private_key: entered_keys[0].clone() },
                        ),
                    )
                } else {
                    Err(SignError::MissingCredential)
                }
            } else if menu_selection == 1 {
                match keychain_key {
                    Some(k) => Ok(
                        SignTransaction::SignWithKeychain(
                            SignKeychain { signer_private_key: k.clone() },
                        ),
                    ),
                    None => Err(SignError::MissingCredential),
                }
            } else {
                Ok(SignTransaction::SignManually)
            }
        },
    }
}

/// What the sign step hands on: a signed record ready for submission, or the
/// unsigned record's text for signing somewhere else.
#[derive(Debug)]
pub enum SignOutcome {
    Signed(SignedTransactionRecord),
    DisplayUnsigned { encoded: String },
}

/// Signs the record with the key literal. Succeeds exactly on usable key
/// literals; the signed record keeps the unsigned record unchanged, and every
/// output byte is a function of the record and the credential alone.
pub fn sign_transaction(unsigned_transaction: UnsignedTransaction, key: &String) -> (r: Result<
    SignedTransactionRecord,
    SignError,
>)
    ensures
        r is Ok <==> is_signing_key_literal(key@),
        r is Err ==> r->Err_0 == SignError::InvalidKey,
        r is Ok ==> ({
            let rec = r->Ok_0;
            &&& rec.transaction == unsigned_transaction
            &&& rec.signature@ == signature_bytes_of(
                key@,
                sha256_of(spec_encode_transaction(unsigned_transaction)),
            )
            &&& rec.signed_bytes@ == spec_signed_bytes(unsigned_transaction, key@)
            &&& rec.base64_text@ == base64_of(spec_signed_bytes(unsigned_transaction, key@))
        }),
{
    let tx_bytes = encode_transaction(&unsigned_transaction);
    let digest = sha256(&tx_bytes);
    match sign_digest_with_key(key.as_str(), &digest) {
        Some(signature) => {
            let mut signed_bytes = tx_bytes;
            push_slice(&mut signed_bytes, signature.as_slice());
            let base64_text = to_base64(&signed_bytes);
            Ok(
                SignedTransactionRecord {
                    transaction: unsigned_transaction,
                    signature,
                    signed_bytes,
                    base64_text,
                },
            )
        },
        None => Err(SignError::InvalidKey),
    }
}

/// The credential a signing method signs with, or none for manual signing.
pub open spec fn spec_sign_key(s: SignTransaction) -> Option<Seq<char>> {
    match s {
        SignTransaction::SignPrivateKey(keys) => Some(keys.signer_private_key@),
        SignTransaction::SignWithKeychain(chain) => Some(chain.signer_private_key@),
        SignTransaction::SignManually => None,
    }
}

/// Reads the signing metadata an air-gapped construction asks the operator
/// for: the signer's public key and a recent block hash, both as text, and
/// the access-key nonce. It succeeds exactly where both texts are literals
/// their parsers accept.
pub fn resolve_sign_metadata(
    public_key_text: &String,
    nonce: u64,
    block_hash_text: &String,
) -> (r: Option<(PublicKey, u64, Vec<u8>)>)
    ensures
        r is Some <==> is_public_key_literal(public_key_text@) && is_crypto_hash_literal(
            block_hash_text@,
        ),
        r is Some ==> ({
            let (public_key, kept_nonce, block_hash) = r->0;
            &&& public_key.text@ == public_key_text@
            &&& public_key.data@ == public_key_bytes_of(public_key_text@)
            &&& kept_nonce == nonce
            &&& block_hash@ == crypto_hash_bytes_of(block_hash_text@)
            &&& block_hash@.len() == 32
        }),
{
    let public_key = match parse_public_key(public_key_text.as_str()) {
        Some(pk) => pk,
        None => {
            return None;
        },
    };
    let block_hash = match parse_crypto_hash(block_hash_text.as_str()) {
        Some(h) => h,
        None => {
            return None;
        },
    };
    Some((public_key, nonce, block_hash))
}

/// Signs after filling the record's public key with the one the credential
/// derives, as the private-key signing path does: the signature then covers
/// the record carrying that key, everything else unchanged. It succeeds
/// exactly on usable credentials: the derived key text is the key's own
/// printed form, which the key parser reads back.
pub fn sign_transaction_filling_key(
    unsigned_transaction: UnsignedTransaction,
    key: &String,
) -> (r: Result<SignedTransactionRecord, SignError>)
    ensures
        r is Ok <==> is_signing_key_literal(key@),
        r is Err ==> r->Err_0 == SignError::InvalidKey,
        r is Ok ==> ({
            let rec = r->Ok_0;
            &&& is_signing_key_literal(key@)
            &&& rec.transaction.public_key.text@ == public_key_literal_of(key@)
            &&& rec.transaction.public_key.data@ == public_key_bytes_of(
                public_key_literal_of(key@),
            )
            &&& rec.transaction.signer_id == unsigned_transaction.signer_id
            &&& rec.transaction.receiver_id == unsigned_transaction.receiver_id
            &&& rec.transaction.nonce == unsigned_transaction.nonce
            &&& rec.transaction.block_hash == unsigned_transaction.block_hash
            &&& rec.transaction.actions@ == unsigned_transaction.actions@
            &&& rec.signed_bytes@ == spec_signed_bytes(rec.transaction, key@)
        }),
{
    let derived = match public_key_for_signing_key(key.as_str()) {
        Some(text) => text,
        None => {
            return Err(SignError::InvalidKey);
        },
    };
    let public_key = match parse_public_key(derived.as_str()) {
        Some(pk) => pk,
        None => {
            return Err(SignError::InvalidKey);
        },
    };
    let filled = UnsignedTransaction { public_key, ..unsigned_transaction };
    sign_transaction(filled, key)
}

impl SignTransaction {
    /// Runs the selected signing method over the record. The key-bearing
    /// methods sign, succeeding exactly on usable credentials; manual signing
    /// hands back the unsigned record's transport text to be signed somewhere
    /// else. The record is never changed.
    pub fn process(self, unsigned_transaction: UnsignedTransaction) -> (r: Result<
        SignOutcome,
        SignError,
    >)
        ensures
            ({
                match spec_sign_key(self) {
                    Some(key) => {
                        &&& r is Ok <==> is_signing_key_literal(key)
                        &&& r is Err ==> r->Err_0 == SignError::InvalidKey
                        &&& r is Ok ==> r->Ok_0 is Signed && r->Ok_0->Signed_0.transaction
                            == unsigned_transaction && r->Ok_0->Signed_0.signed_bytes@
                            == spec_signed_bytes(unsigned_transaction, key)
                            && r->Ok_0->Signed_0.base64_text@ == base64_of(
                            spec_signed_bytes(unsigned_transaction, key),
                        )
                    },
                    None => r is Ok && r->Ok_0 is DisplayUnsigned
                        && r->Ok_0->DisplayUnsigned_encoded@ == base64_of(
                        spec_encode_transaction(unsigned_transaction),
                    ),
                }
            }),
    {
        match self {
            SignTransaction::SignPrivateKey(keys) => {
                match sign_transaction(unsigned_transaction, &keys.signer_private_key) {
                    Ok(rec) => Ok(SignOutcome::Signed(rec)),
                    Err(e) => Err(e),
                }
            },
            SignTransaction::SignWithKeychain(chain) => {
                match sign_transaction(unsigned_transaction, &chain.signer_private_key) {
                    Ok(rec) => Ok(SignOutcome::Signed(rec)),
                    Err(e) => Err(e),
                }
            },
            SignTransaction::SignManually => {
                let tx_bytes = encode_transaction(&unsigned_transaction);
                let encoded = to_base64(&tx_bytes);
                Ok(SignOutcome::DisplayUnsigned { encoded })
            },
        }
    }
}

/// Signing is idempotent: two signed records made from the same record and
/// the same credential carry byte-identical canonical serializations.
pub proof fn lemma_signing_idempotent(
    t: UnsignedTransaction,
    key: Seq<char>,
    r1: SignedTransactionRecord,
    r2: SignedTransactionRecord,
)
    requires
        r1.signed_bytes@ == spec_signed_bytes(t, key),
        r2.signed_bytes@ == spec_signed_bytes(t, key),
    ensures
        r1.signed_bytes@ == r2.signed_bytes@,
{
}

} // verus!
