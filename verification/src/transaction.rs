//! The transaction record under construction: an ordered list of ledger
//! actions together with the signer, receiver and signing metadata.
//!
//! The record is mutated only by appending actions or by replacing the signer
//! or receiver while the staged actions are preserved; append order is
//! execution order and is never changed afterwards.

use vstd::prelude::*;

verus! {

/// A public key as the ledger understands it: the text the operator entered
/// ("ed25519:..."), and the same key in the ledger's binary key encoding.
#[derive(Debug)]
pub struct PublicKey {
    pub text: String,
    pub data: Vec<u8>,
}

impl Clone for PublicKey {
    fn clone(&self) -> (r: Self)
        ensures
            r.text == self.text,
            r.data@ == self.data@,
    {
        let data = self.data.clone();
        proof {
            assert(data@ =~= self.data@);
        }
        PublicKey { text: self.text.clone(), data }
    }
}

/// One discrete operation within a transaction. Immutable once constructed.
#[derive(Debug, Clone)]
pub enum Action {
    Transfer { deposit: u128 },
    Stake { stake: u128, public_key: PublicKey },
    AddFullAccessKey { public_key: PublicKey, nonce: u64 },
    AddFunctionCallKey {
        public_key: PublicKey,
        nonce: u64,
        allowance: Option<u128>,
        receiver_id: String,
        method_names: Vec<String>,
    },
    DeleteKey { public_key: PublicKey },
    DeleteAccount { beneficiary_id: String },
    FunctionCall { method_name: String, args: Vec<u8>, gas: u64, deposit: u128 },
    DeployContract { code: Vec<u8> },
}

/// The fully assembled but not-yet-signed transaction record.
#[derive(Debug, Clone)]
pub struct UnsignedTransaction {
    pub signer_id: String,
    pub public_key: PublicKey,
    pub nonce: u64,
    pub receiver_id: String,
    pub block_hash: Vec<u8>,
    pub actions: Vec<Action>,
}

impl UnsignedTransaction {
    /// An empty record: no actions staged yet, signer and receiver blank,
    /// and the block hash zeroed at its full width.
    pub fn empty() -> (r: UnsignedTransaction)
        ensures
            r.actions@.len() == 0,
            r.signer_id@.len() == 0,
            r.receiver_id@.len() == 0,
            r.public_key.text@.len() == 0,
            r.public_key.data@.len() == 0,
            r.nonce == 0,
            r.block_hash@ =~= Seq::new(32, |i: int| 0u8),
    {
        UnsignedTransaction {
            signer_id: String::new(),
            public_key: PublicKey { text: String::new(), data: Vec::new() },
            nonce: 0,
            receiver_id: String::new(),
            block_hash: vec![0u8; 32],
            actions: Vec::new(),
        }
    }

    /// Appends one action; everything else, and the actions already staged,
    /// stay exactly as they were.
    pub fn append_action(&mut self, action: Action)
        ensures
            final(self).actions@ == old(self).actions@.push(action),
            final(self).signer_id == old(self).signer_id,
            final(self).receiver_id == old(self).receiver_id,
            final(self).public_key == old(self).public_key,
            final(self).nonce == old(self).nonce,
            final(self).block_hash == old(self).block_hash,
    {
        self.actions.push(action);
    }

    /// Appends a whole sequence of actions, in the order given: afterwards the
    /// staged actions are the old ones followed by the appended sequence, with
    /// nothing reordered and nothing dropped.
    pub fn append_actions(&mut self, actions: Vec<Action>)
        ensures
            final(self).actions@ == old(self).actions@ + actions@,
            final(self).signer_id == old(self).signer_id,
            final(self).receiver_id == old(self).receiver_id,
            final(self).public_key == old(self).public_key,
            final(self).nonce == old(self).nonce,
            final(self).block_hash == old(self).block_hash,
    {
        let ghost appended: Seq<Action> = actions@;
        let mut rest = actions;
        while rest.len() > 0
            invariant
                self.actions@ + rest@ == old(self).actions@ + appended,
                self.signer_id == old(self).signer_id,
                self.receiver_id == old(self).receiver_id,
                self.public_key == old(self).public_key,
                self.nonce == old(self).nonce,
                self.block_hash == old(self).block_hash,
            decreases rest@.len(),
        {
            let ghost before: Seq<Action> = rest@;
            let a = rest.remove(0);
            self.actions.push(a);
            proof {
                assert(self.actions@ + rest@ =~= old(self).actions@ + appended) by {
                    assert(before == seq![before[0]] + before.drop_first());
                }
            }
        }
        proof {
            assert(final(self).actions@ =~= old(self).actions@ + appended);
        }
    }

    /// Replaces the signer while narrowing context: the staged action list is
    /// preserved untouched.
    pub fn with_signer_id(self, signer_id: String) -> (r: UnsignedTransaction)
        ensures
            r.signer_id == signer_id,
            r.actions@ == self.actions@,
            r.receiver_id == self.receiver_id,
            r.public_key == self.public_key,
            r.nonce == self.nonce,
            r.block_hash == self.block_hash,
    {
        UnsignedTransaction { signer_id, ..self }
    }

    /// Replaces the receiver; the staged action list is preserved untouched.
    pub fn with_receiver_id(self, receiver_id: String) -> (r: UnsignedTransaction)
        ensures
            r.receiver_id == receiver_id,
            r.actions@ == self.actions@,
            r.signer_id == self.signer_id,
            r.public_key == self.public_key,
            r.nonce == self.nonce,
            r.block_hash == self.block_hash,
    {
        UnsignedTransaction { receiver_id, ..self }
    }

    /// Replaces signer and receiver at once, as account deletion and key
    /// management steps do when they send the transaction to the same account.
    pub fn with_signer_and_receiver(
        self,
        signer_id: String,
        receiver_id: String,
    ) -> (r: UnsignedTransaction)
        ensures
            r.signer_id == signer_id,
            r.receiver_id == receiver_id,
            r.actions@ == self.actions@,
            r.public_key == self.public_key,
            r.nonce == self.nonce,
            r.block_hash == self.block_hash,
    {
        UnsignedTransaction { signer_id, receiver_id, ..self }
    }
}

/// The staged actions of a record built by appending `appended` to a record
/// that started empty are exactly `appended`, in order: no reordering, no
/// drops. This is the append-order law for the whole chain of builders, stated
/// over the appended sequence itself.
pub proof fn lemma_append_order_preserved(
    start: UnsignedTransaction,
    end: UnsignedTransaction,
    appended: Seq<Action>,
)
    requires
        start.actions@.len() == 0,
        end.actions@ == start.actions@ + appended,
    ensures
        end.actions@ == appended,
{
    assert(start.actions@ + appended =~= appended);
}

} // verus!
