//! The canonical byte encoding of the transaction record: the ledger's
//! binary transaction layout, which is what is hashed, signed, broadcast and
//! displayed. Integers are little-endian with a fixed width; text and byte
//! blobs carry a four-byte length prefix; the public key and the block hash
//! stand as their raw binary forms; each action carries its one-byte wire
//! tag, and the action list a four-byte count. The signed record is the
//! record's bytes followed by the signature's binary form, which is the
//! ledger's signed-transaction encoding.

use vstd::prelude::*;

verus! {

use crate::transaction::{Action, UnsignedTransaction};

/// The `n` low-order bytes of `v`, least significant first.
pub open spec fn le_bytes(v: nat, n: nat) -> Seq<u8>
    decreases n,
{
    if n == 0 {
        Seq::empty()
    } else {
        seq![(v % 256) as u8] + le_bytes(v / 256, (n - 1) as nat)
    }
}

/// A length-prefixed byte blob: four bytes of length, then the bytes.
pub open spec fn spec_bytes_field(b: Seq<u8>) -> Seq<u8> {
    le_bytes(b.len(), 4) + b
}

/// A length-prefixed text field, over the text's byte form.
pub open spec fn spec_text_field(s: Seq<char>) -> Seq<u8> {
    spec_bytes_field(vstd::utf8::encode_utf8(s))
}

/// A count-prefixed list of text fields.
pub open spec fn spec_text_list(names: Seq<String>) -> Seq<u8>
    decreases names.len(),
{
    if names.len() == 0 {
        Seq::empty()
    } else {
        spec_text_list(names.drop_last()) + spec_text_field(names.last()@)
    }
}

/// An optional amount: absent is a zero byte, present a one byte and the
/// amount.
pub open spec fn spec_opt_amount(v: Option<u128>) -> Seq<u8> {
    match v {
        None => seq![0u8],
        Some(x) => seq![1u8] + le_bytes(x as nat, 16),
    }
}

/// One action's bytes: its wire tag, then its fields. Key-granting actions
/// carry the key's raw binary form, the access key's nonce, and the
/// permission's own tag; amounts are sixteen bytes, gas and nonces eight.
pub open spec fn spec_encode_action(a: Action) -> Seq<u8> {
    match a {
        Action::DeployContract { code } => seq![1u8] + spec_bytes_field(code@),
        Action::FunctionCall { method_name, args, gas, deposit } => seq![2u8] + spec_text_field(
            method_name@,
        ) + spec_bytes_field(args@) + le_bytes(gas as nat, 8) + le_bytes(deposit as nat, 16),
        Action::Transfer { deposit } => seq![3u8] + le_bytes(deposit as nat, 16),
        Action::Stake { stake, public_key } => seq![4u8] + le_bytes(stake as nat, 16)
            + public_key.data@,
        Action::AddFullAccessKey { public_key, nonce } => seq![5u8] + public_key.data@ + le_bytes(
            nonce as nat,
            8,
        ) + seq![1u8],
        Action::AddFunctionCallKey { public_key, nonce, allowance, receiver_id, method_names } =>
            seq![5u8] + public_key.data@ + le_bytes(nonce as nat, 8) + seq![0u8] + spec_opt_amount(
                allowance,
            ) + spec_text_field(receiver_id@) + le_bytes(method_names@.len(), 4) + spec_text_list(
                method_names@,
            ),
        Action::DeleteKey { public_key } => seq![6u8] + public_key.data@,
        Action::DeleteAccount { beneficiary_id } => seq![7u8] + spec_text_field(beneficiary_id@),
    }
}

/// The action list's bytes, in order.
pub open spec fn spec_encode_actions(actions: Seq<Action>) -> Seq<u8>
    decreases actions.len(),
{
    if actions.len() == 0 {
        Seq::empty()
    } else {
        spec_encode_actions(actions.drop_last()) + spec_encode_action(actions.last())
    }
}

/// The canonical bytes of a record given by its parts: signer, the public
/// key's raw binary form, nonce, receiver, the block hash's raw bytes, then
/// the count-prefixed actions.
pub open spec fn spec_encode_tx_parts(
    signer_id: Seq<char>,
    public_key_data: Seq<u8>,
    nonce: u64,
    receiver_id: Seq<char>,
    block_hash: Seq<u8>,
    actions: Seq<Action>,
) -> Seq<u8> {
    spec_text_field(signer_id) + public_key_data + le_bytes(nonce as nat, 8) + spec_text_field(
        receiver_id,
    ) + block_hash + le_bytes(actions.len(), 4) + spec_encode_actions(actions)
}

/// The canonical bytes of the whole record.
pub open spec fn spec_encode_transaction(t: UnsignedTransaction) -> Seq<u8> {
    spec_encode_tx_parts(
        t.signer_id@,
        t.public_key.data@,
        t.nonce,
        t.receiver_id@,
        t.block_hash@,
        t.actions@,
    )
}

/// Appends the `n` low-order bytes of `v`, least significant first.
#[verifier::loop_isolation(false)]
fn push_le(out: &mut Vec<u8>, v: u128, n: usize)
    ensures
        final(out)@ == old(out)@ + le_bytes(v as nat, n as nat),
{
    let mut x = v;
    let mut i: usize = 0;
    while i < n
        invariant
            0 <= i <= n,
            old(out)@ + le_bytes(v as nat, n as nat) =~= out@ + le_bytes(
                x as nat,
                (n - i) as nat,
            ),
        decreases n - i,
    {
        let ghost out_before = out@;
        let ghost x_before = x as nat;
        out.push((x % 256) as u8);
        x = x / 256;
        proof {
            assert(le_bytes(x_before, (n - i) as nat) == seq![(x_before % 256) as u8] + le_bytes(
                x_before / 256,
                (n - i - 1) as nat,
            ));
            assert(out_before + le_bytes(x_before, (n - i) as nat) =~= out@ + le_bytes(
                x as nat,
                (n - i - 1) as nat,
            ));
        }
        i = i + 1;
    }
    proof {
        assert(le_bytes(x as nat, 0) =~= Seq::<u8>::empty());
        assert(final(out)@ =~= old(out)@ + le_bytes(v as nat, n as nat));
    }
}

/// Appends a byte slice as it stands.
#[verifier::loop_isolation(false)]
pub fn push_slice(out: &mut Vec<u8>, b: &[u8])
    ensures
        final(out)@ == old(out)@ + b@,
{
    let mut i: usize = 0;
    while i < b.len()
        invariant
            0 <= i <= b@.len(),
            out@ =~= old(out)@ + b@.take(i as int),
        decreases b@.len() - i,
    {
        out.push(b[i]);
        proof {
            assert(old(out)@ + b@.take(i as int) + seq![b@[i as int]] =~= old(out)@ + b@.take(
                i as int + 1,
            ));
        }
        i = i + 1;
    }
    proof {
        assert(b@.take(b@.len() as int) =~= b@);
        assert(final(out)@ =~= old(out)@ + b@);
    }
}

/// Appends a length-prefixed byte blob.
fn push_bytes_field(out: &mut Vec<u8>, b: &Vec<u8>)
    ensures
        final(out)@ == old(out)@ + spec_bytes_field(b@),
{
    push_le(out, b.len() as u128, 4);
    push_slice(out, b.as_slice());
    proof {
        assert(final(out)@ =~= old(out)@ + spec_bytes_field(b@));
    }
}

/// Appends a length-prefixed text field.
fn push_text_field(out: &mut Vec<u8>, s: &String)
    ensures
        final(out)@ == old(out)@ + spec_text_field(s@),
{
    let bytes: &[u8] = s.as_str().as_bytes();
    push_le(out, bytes.len() as u128, 4);
    push_slice(out, bytes);
    proof {
        assert(final(out)@ =~= old(out)@ + spec_text_field(s@));
    }
}

/// Appends one action's bytes.
fn push_action(out: &mut Vec<u8>, a: &Action)
    ensures
        final(out)@ == old(out)@ + spec_encode_action(*a),
{
    match a {
        Action::Transfer { deposit } => {
            out.push(3u8);
            push_le(out, *deposit, 16);
        },
        Action::Stake { stake, public_key } => {
            out.push(4u8);
            push_le(out, *stake, 16);
            push_slice(out, public_key.data.as_slice());
        },
        Action::AddFullAccessKey { public_key, nonce } => {
            out.push(5u8);
            push_slice(out, public_key.data.as_slice());
            push_le(out, *nonce as u128, 8);
            out.push(1u8);
        },
        Action::AddFunctionCallKey { public_key, nonce, allowance, receiver_id, method_names } => {
            out.push(5u8);
            push_slice(out, public_key.data.as_slice());
            push_le(out, *nonce as u128, 8);
            out.push(0u8);
            match allowance {
                None => {
                    out.push(0u8);
                },
                Some(x) => {
                    out.push(1u8);
                    push_le(out, *x, 16);
                },
            }
            push_text_field(out, receiver_id);
            push_le(out, method_names.len() as u128, 4);
            let mut i: usize = 0;
            let ghost mid = out@;
            while i < method_names.len()
                invariant
                    0 <= i <= method_names@.len(),
                    out@ =~= mid + spec_text_list(method_names@.take(i as int)),
                decreases method_names@.len() - i,
            {
                push_text_field(out, &method_names[i]);
                proof {
                    let t = method_names@.take(i as int + 1);
                    assert(t.drop_last() =~= method_names@.take(i as int));
                    assert(t.last() == method_names@[i as int]);
                    assert(out@ =~= mid + spec_text_list(t));
                }
                i = i + 1;
            }
            proof {
                assert(method_names@.take(method_names@.len() as int) =~= method_names@);
            }
        },
        Action::DeleteKey { public_key } => {
            out.push(6u8);
            push_slice(out, public_key.data.as_slice());
        },
        Action::DeleteAccount { beneficiary_id } => {
            out.push(7u8);
            push_text_field(out, beneficiary_id);
        },
        Action::FunctionCall { method_name, args, gas, deposit } => {
            out.push(2u8);
            push_text_field(out, method_name);
            push_bytes_field(out, args);
            push_le(out, *gas as u128, 8);
            push_le(out, *deposit, 16);
        },
        Action::DeployContract { code } => {
            out.push(1u8);
            push_bytes_field(out, code);
        },
    }
    proof {
        assert(final(out)@ =~= old(out)@ + spec_encode_action(*a));
    }
}

/// The canonical bytes of the record, exactly as the layout above gives them.
pub fn encode_transaction(t: &UnsignedTransaction) -> (r: Vec<u8>)
    ensures
        r@ == spec_encode_transaction(*t),
{
    let mut out: Vec<u8> = Vec::new();
    push_text_field(&mut out, &t.signer_id);
    push_slice(&mut out, t.public_key.data.as_slice());
    push_le(&mut out, t.nonce as u128, 8);
    push_text_field(&mut out, &t.receiver_id);
    push_slice(&mut out, t.block_hash.as_slice());
    push_le(&mut out, t.actions.len() as u128, 4);
    let ghost mid = out@;
    let mut i: usize = 0;
    #[verifier::loop_isolation(false)]
    while i < t.actions.len()
        invariant
            0 <= i <= t.actions@.len(),
            out@ =~= mid + spec_encode_actions(t.actions@.take(i as int)),
        decreases t.actions@.len() - i,
    {
        push_action(&mut out, &t.actions[i]);
        proof {
            let ta = t.actions@.take(i as int + 1);
            assert(ta.drop_last() =~= t.actions@.take(i as int));
            assert(ta.last() == t.actions@[i as int]);
            assert(out@ =~= mid + spec_encode_actions(ta));
        }
        i = i + 1;
    }
    proof {
        assert(t.actions@.take(t.actions@.len() as int) =~= t.actions@);
        assert(out@ =~= spec_encode_transaction(*t));
    }
    out
}

} // verus!
