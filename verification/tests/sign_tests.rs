//! Signing: key handling through the real cryptographic crate, canonical
//! encoding, idempotence.

use near_cli::encoding::encode_transaction;
use near_primitives::account::{AccessKey, AccessKeyPermission, FunctionCallPermission};
use near_primitives::transaction as wire;
use near_primitives::types::{Balance, Gas};
use near_cli::sign::{
    resolve_sign_metadata, sign_transaction, sign_transaction_filling_key, SignError, SignOutcome,
    SignPrivateKey, SignTransaction,
};
use near_cli::transaction::{Action, UnsignedTransaction};

fn test_key_literal() -> String {
    near_crypto::SecretKey::from_seed(near_crypto::KeyType::ED25519, "pipeline-test").to_string()
}

fn sample_transaction() -> UnsignedTransaction {
    let mut tx = UnsignedTransaction::empty();
    tx = tx.with_signer_id("alice.test".to_string());
    tx = tx.with_receiver_id("bob.test".to_string());
    tx.append_action(Action::Transfer {
        deposit: 5_000_000_000_000_000_000_000_000,
    });
    tx
}

#[test]
fn empty_record_encodes_to_all_zero_prefixes() {
    let tx = UnsignedTransaction::empty();
    let bytes = encode_transaction(&tx);
    // Two empty length-prefixed account fields, no key bytes, an eight-byte
    // nonce, the 32-byte zeroed block hash, and a four-byte action count.
    assert_eq!(bytes, vec![0u8; 52]);
}

#[test]
fn encoding_lays_fields_out_in_order() {
    let tx = sample_transaction();
    let bytes = encode_transaction(&tx);
    let mut expected: Vec<u8> = Vec::new();
    expected.extend_from_slice(&10u32.to_le_bytes());
    expected.extend_from_slice(b"alice.test");
    expected.extend_from_slice(&0u64.to_le_bytes());
    expected.extend_from_slice(&8u32.to_le_bytes());
    expected.extend_from_slice(b"bob.test");
    expected.extend_from_slice(&[0u8; 32]);
    expected.extend_from_slice(&1u32.to_le_bytes());
    expected.push(3u8);
    expected.extend_from_slice(&5_000_000_000_000_000_000_000_000u128.to_le_bytes());
    assert_eq!(bytes, expected);
}

fn wire_public_key() -> near_crypto::PublicKey {
    near_crypto::PublicKey::from_seed(near_crypto::KeyType::ED25519, "wire")
}

fn library_key(pk: &near_crypto::PublicKey) -> near_cli::transaction::PublicKey {
    near_cli::transaction::PublicKey {
        text: pk.to_string(),
        data: borsh::to_vec(pk).unwrap(),
    }
}

/// A record exercising every action kind, with well-formed wire fields.
fn wire_sample() -> UnsignedTransaction {
    let pk = wire_public_key();
    let mut tx = UnsignedTransaction::empty();
    tx = tx.with_signer_id("alice.test".to_string());
    tx = tx.with_receiver_id("bob.test".to_string());
    tx = UnsignedTransaction {
        nonce: 42,
        block_hash: near_primitives::hash::CryptoHash::hash_bytes(b"block").0.to_vec(),
        public_key: library_key(&pk),
        ..tx
    };
    tx.append_action(Action::Transfer { deposit: 7 });
    tx.append_action(Action::Stake {
        stake: 11,
        public_key: library_key(&pk),
    });
    tx.append_action(Action::AddFullAccessKey {
        public_key: library_key(&pk),
        nonce: 5,
    });
    tx.append_action(Action::AddFunctionCallKey {
        public_key: library_key(&pk),
        nonce: 6,
        allowance: Some(250),
        receiver_id: "app.bob.test".to_string(),
        method_names: vec!["set_status".to_string(), "clear".to_string()],
    });
    tx.append_action(Action::DeleteKey {
        public_key: library_key(&pk),
    });
    tx.append_action(Action::DeleteAccount {
        beneficiary_id: "heir.test".to_string(),
    });
    tx.append_action(Action::FunctionCall {
        method_name: "do_it".to_string(),
        args: vec![1, 2, 3],
        gas: 30_000_000_000_000,
        deposit: 1,
    });
    tx.append_action(Action::DeployContract {
        code: vec![0, 1, 2, 3, 4],
    });
    tx
}

/// The same record as the wire crates build it.
fn wire_counterpart() -> near_primitives::transaction::Transaction {
    let pk = wire_public_key();
    let actions = vec![
        wire::Action::Transfer(wire::TransferAction {
            deposit: Balance::from_yoctonear(7),
        }),
        wire::Action::Stake(Box::new(wire::StakeAction {
            stake: Balance::from_yoctonear(11),
            public_key: pk.clone(),
        })),
        wire::Action::AddKey(Box::new(wire::AddKeyAction {
            public_key: pk.clone(),
            access_key: AccessKey {
                nonce: 5,
                permission: AccessKeyPermission::FullAccess,
            },
        })),
        wire::Action::AddKey(Box::new(wire::AddKeyAction {
            public_key: pk.clone(),
            access_key: AccessKey {
                nonce: 6,
                permission: AccessKeyPermission::FunctionCall(FunctionCallPermission {
                    allowance: Some(Balance::from_yoctonear(250)),
                    receiver_id: "app.bob.test".to_string(),
                    method_names: vec!["set_status".to_string(), "clear".to_string()],
                }),
            },
        })),
        wire::Action::DeleteKey(Box::new(wire::DeleteKeyAction {
            public_key: pk.clone(),
        })),
        wire::Action::DeleteAccount(wire::DeleteAccountAction {
            beneficiary_id: "heir.test".parse().unwrap(),
        }),
        wire::Action::FunctionCall(Box::new(wire::FunctionCallAction {
            method_name: "do_it".to_string(),
            args: vec![1, 2, 3],
            gas: Gas::from_gas(30_000_000_000_000),
            deposit: Balance::from_yoctonear(1),
        })),
        wire::Action::DeployContract(wire::DeployContractAction {
            code: vec![0, 1, 2, 3, 4],
        }),
    ];
    wire::Transaction::V0(wire::TransactionV0 {
        signer_id: "alice.test".parse().unwrap(),
        public_key: pk,
        nonce: 42,
        receiver_id: "bob.test".parse().unwrap(),
        block_hash: near_primitives::hash::CryptoHash::hash_bytes(b"block"),
        actions,
    })
}

#[test]
fn canonical_bytes_are_the_wire_transaction() {
    let ours = encode_transaction(&wire_sample());
    let theirs = borsh::to_vec(&wire_counterpart()).unwrap();
    assert_eq!(ours, theirs);
}

#[test]
fn signed_record_reads_back_as_a_wire_transaction_and_verifies() {
    let key = test_key_literal();
    let rec = sign_transaction_filling_key(wire_sample(), &key).unwrap();
    let signed: near_primitives::transaction::SignedTransaction =
        borsh::from_slice(&rec.signed_bytes).unwrap();
    let (hash, _) = signed.transaction.get_hash_and_size();
    let sk = near_crypto::SecretKey::from_seed(near_crypto::KeyType::ED25519, "pipeline-test");
    assert!(signed.signature.verify(hash.as_ref(), &sk.public_key()));
    assert_eq!(signed.transaction.signer_id().as_str(), "alice.test");
    assert_eq!(signed.transaction.actions().len(), 8);
    assert_eq!(
        borsh::to_vec(&signed).unwrap(),
        rec.signed_bytes,
        "the broadcast bytes are exactly the signed bytes"
    );
}

#[test]
fn signing_twice_gives_identical_serializations() {
    let key = test_key_literal();
    let rec1 = sign_transaction(sample_transaction(), &key).unwrap();
    let rec2 = sign_transaction(sample_transaction(), &key).unwrap();
    assert_eq!(rec1.signed_bytes, rec2.signed_bytes);
    assert_eq!(rec1.signature, rec2.signature);
    assert_eq!(rec1.base64_text, rec2.base64_text);
}

#[test]
fn signing_keeps_the_record_and_appends_the_signature() {
    let key = test_key_literal();
    let tx = sample_transaction();
    let tx_bytes = encode_transaction(&tx);
    let rec = sign_transaction(tx, &key).unwrap();
    assert_eq!(rec.transaction.signer_id, "alice.test");
    assert_eq!(rec.transaction.actions.len(), 1);
    assert_eq!(&rec.signed_bytes[..tx_bytes.len()], &tx_bytes[..]);
    assert_eq!(&rec.signed_bytes[tx_bytes.len()..], &rec.signature[..]);
    // An ed25519 signature in binary form: a tag byte and 64 bytes.
    assert_eq!(rec.signature.len(), 65);
    assert_eq!(rec.signature[0], 0);
    assert_ne!(rec.signature[1..], tx_bytes[..64.min(tx_bytes.len())]);
}

#[test]
fn malformed_keys_are_a_terminal_error() {
    assert_eq!(
        sign_transaction(sample_transaction(), &"not a key".to_string()).unwrap_err(),
        SignError::InvalidKey
    );
    assert_eq!(
        sign_transaction(sample_transaction(), &"ed25519:zzz".to_string()).unwrap_err(),
        SignError::InvalidKey
    );
}

#[test]
fn signature_and_text_match_the_outside_crates() {
    let sk = near_crypto::SecretKey::from_seed(near_crypto::KeyType::ED25519, "pipeline-test");
    let key = sk.to_string();
    let tx = sample_transaction();
    let tx_bytes = encode_transaction(&tx);
    let rec = sign_transaction(tx, &key).unwrap();
    let digest = near_primitives::hash::CryptoHash::hash_bytes(&tx_bytes);
    let theirs = borsh::to_vec(&sk.sign(digest.as_ref())).unwrap();
    assert_eq!(rec.signature, theirs);
    assert_eq!(
        rec.base64_text,
        near_primitives::serialize::to_base64(&rec.signed_bytes)
    );
}

#[test]
fn signing_derives_and_fills_the_public_key() {
    let sk = near_crypto::SecretKey::from_seed(near_crypto::KeyType::ED25519, "pipeline-test");
    let key = sk.to_string();
    let rec = sign_transaction_filling_key(sample_transaction(), &key).unwrap();
    assert_eq!(rec.transaction.public_key.text, sk.public_key().to_string());
    assert_eq!(
        rec.transaction.public_key.data,
        borsh::to_vec(&sk.public_key()).unwrap()
    );
    assert_eq!(rec.transaction.public_key.data.len(), 33);
    assert!(sign_transaction_filling_key(sample_transaction(), &"junk".to_string()).is_err());
}

#[test]
fn sign_metadata_reads_key_and_block_hash_text() {
    let pk = near_crypto::PublicKey::from_seed(near_crypto::KeyType::ED25519, "meta");
    let h = near_primitives::hash::CryptoHash::hash_bytes(b"block");
    let (public_key, nonce, block_hash) =
        resolve_sign_metadata(&pk.to_string(), 42, &format!("{}", h)).unwrap();
    assert_eq!(public_key.text, pk.to_string());
    assert_eq!(public_key.data, borsh::to_vec(&pk).unwrap());
    assert_eq!(nonce, 42);
    assert_eq!(block_hash, h.0.to_vec());
    assert!(resolve_sign_metadata(&"ed25519:!!!".to_string(), 1, &format!("{}", h)).is_none());
    assert!(resolve_sign_metadata(&pk.to_string(), 1, &"not base58 !!!".to_string()).is_none());
    assert!(resolve_sign_metadata(&pk.to_string(), 1, &"abc".to_string()).is_none());
}

#[test]
fn manual_signing_displays_the_unsigned_record() {
    let tx = sample_transaction();
    let tx_bytes = encode_transaction(&tx);
    match SignTransaction::SignManually.process(sample_transaction()).unwrap() {
        SignOutcome::DisplayUnsigned { encoded } => {
            assert_eq!(encoded, near_primitives::serialize::to_base64(&tx_bytes));
        }
        other => panic!("expected the unsigned display, got {:?}", other),
    }
}

#[test]
fn key_bearing_methods_sign() {
    let key = test_key_literal();
    let opt = SignTransaction::SignPrivateKey(SignPrivateKey {
        signer_private_key: key,
    });
    match opt.process(sample_transaction()).unwrap() {
        SignOutcome::Signed(rec) => {
            assert_eq!(rec.transaction.receiver_id, "bob.test");
        }
        other => panic!("expected a signed record, got {:?}", other),
    }
}
