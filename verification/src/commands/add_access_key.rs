//! Granting a full-access key: the step resolves its signing selection,
//! stages the key-adding action and signs.

use vstd::prelude::*;

verus! {

use crate::crypto::is_signing_key_literal;
use crate::sign::{CliSignTransaction, SignError, SignOutcome, SignTransaction, spec_sign_cli_args,
    spec_resolve_sign_option, resolve_sign_option, spec_sign_key, spec_signed_bytes};
use crate::transaction::{Action, PublicKey, UnsignedTransaction};
use std::collections::VecDeque;

/// The command-line form: only the signing selection may be pre-supplied.
#[derive(Debug, Default)]
pub struct CliFullAccessType {
    pub sign_option: Option<CliSignTransaction>,
}

impl CliFullAccessType {
    /// The command-line words that reproduce this invocation.
    pub fn to_cli_args(&self) -> (r: VecDeque<String>)
        ensures
            r@.map_values(|s: String| s@) =~= match self.sign_option {
                Some(sub) => spec_sign_cli_args(sub),
                None => Seq::<Seq<char>>::empty(),
            },
    {
        match &self.sign_option {
            Some(subcommand) => subcommand.to_cli_args(),
            None => VecDeque::new(),
        }
    }
}

/// The resolved step: a signing selection for the full-access grant.
#[derive(Debug)]
pub struct FullAccessType {
    pub sign_option: SignTransaction,
}

impl FullAccessType {
    /// Resolves the step from its command-line form: the signing selection
    /// comes from the flags where supplied, else from the menu choice, with
    /// credential material from the operator's entries or the keychain.
    pub fn from(
        item: CliFullAccessType,
        menu_selection: usize,
        entered_keys: &Vec<String>,
        keychain_key: &Option<String>,
    ) -> (r: Result<FullAccessType, SignError>)
        ensures
            ({
                let resolved = spec_resolve_sign_option(
                    item.sign_option,
                    menu_selection as int,
                    entered_keys@,
                    *keychain_key,
                );
                match r {
                    Ok(f) => resolved == Ok::<SignTransaction, SignError>(f.sign_option),
                    Err(e) => resolved == Err::<SignTransaction, SignError>(e),
                }
            }),
    {
        match resolve_sign_option(item.sign_option, menu_selection, entered_keys, keychain_key) {
            Ok(sign_option) => Ok(FullAccessType { sign_option }),
            Err(e) => Err(e),
        }
    }

    /// Stages the full-access key grant on the record and signs: afterwards
    /// the staged actions are the old ones with the grant appended, nothing
    /// else of the record changed, and the signature covers exactly that
    /// record.
    pub fn process(
        self,
        nonce: u64,
        prepopulated_unsigned_transaction: UnsignedTransaction,
        public_key: PublicKey,
    ) -> (r: Result<SignOutcome, SignError>)
        ensures
            ({
                match spec_sign_key(self.sign_option) {
                    Some(key) => {
                        &&& r is Ok <==> is_signing_key_literal(key)
                        &&& r is Err ==> r->Err_0 == SignError::InvalidKey
                        &&& r is Ok ==> ({
                            let rec = r->Ok_0->Signed_0;
                            &&& r->Ok_0 is Signed
                            &&& rec.transaction.actions@ == prepopulated_unsigned_transaction.actions@.push(
                                Action::AddFullAccessKey { public_key, nonce },
                            )
                            &&& rec.transaction.signer_id
                                == prepopulated_unsigned_transaction.signer_id
                            &&& rec.transaction.receiver_id
                                == prepopulated_unsigned_transaction.receiver_id
                            &&& rec.transaction.public_key
                                == prepopulated_unsigned_transaction.public_key
                            &&& rec.transaction.nonce
                                == prepopulated_unsigned_transaction.nonce
                            &&& rec.transaction.block_hash
                                == prepopulated_unsigned_transaction.block_hash
                            &&& rec.signed_bytes@ == spec_signed_bytes(rec.transaction, key)
                        })
                    },
                    None => r is Ok && r->Ok_0 is DisplayUnsigned,
                }
            }),
    {
        let mut unsigned_transaction = prepopulated_unsigned_transaction;
        unsigned_transaction.append_action(Action::AddFullAccessKey { public_key, nonce });
        self.sign_option.process(unsigned_transaction)
    }
}

} // verus!
