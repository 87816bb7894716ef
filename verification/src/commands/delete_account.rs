//! Deleting an account: the doomed account signs its own deletion and names
//! a beneficiary for what remains.

use vstd::prelude::*;

verus! {

use crate::PipelineError;
use crate::account::{AccountDirectory, AccountId};
use crate::context::ConnectionConfig;
use crate::crypto::is_signing_key_literal;
use crate::resolver::{OperatorScript, ResolveError, resolve_account_id, spec_resolve_account};
use crate::sign::{CliSignTransaction, SignError, SignOutcome, SignTransaction,
    resolve_sign_option, spec_resolve_sign_option, spec_sign_key, spec_signed_bytes};
use crate::transaction::{Action, UnsignedTransaction};

/// The command-line form of the beneficiary step.
#[derive(Debug)]
pub struct CliDeleteAccountAction {
    pub beneficiary_id: Option<AccountId>,
    pub sign_option: Option<CliSignTransaction>,
}

/// The resolved beneficiary step.
#[derive(Debug)]
pub struct DeleteAccountAction {
    pub beneficiary_id: AccountId,
    pub sign_option: SignTransaction,
}

/// The command-line form of the account to delete and the rest.
#[derive(Debug)]
pub struct CliSender {
    pub sender_account_id: Option<String>,
    pub send_to: Option<CliSendTo>,
}

/// The resolved account to delete and the rest.
#[derive(Debug)]
pub struct Sender {
    pub sender_account_id: String,
    pub send_to: SendTo,
}

/// The command-line form of the beneficiary choice.
#[derive(Debug)]
pub enum CliSendTo {
    Beneficiary(CliDeleteAccountAction),
}

/// The resolved beneficiary choice.
#[derive(Debug)]
pub enum SendTo {
    Beneficiary(DeleteAccountAction),
}

/// The resolved beneficiary step for the given flags and script.
pub open spec fn spec_from_delete_action(
    cli: Option<CliDeleteAccountAction>,
    online: bool,
    dir: AccountDirectory,
    script: OperatorScript,
) -> Result<DeleteAccountAction, PipelineError> {
    let pre = match cli {
        Some(c) => c.beneficiary_id,
        None => None,
    };
    let pre_sign = match cli {
        Some(c) => c.sign_option,
        None => None,
    };
    match spec_resolve_account(pre, online, dir.records@, script.receiver_answers@, false) {
        None => Err(PipelineError::Resolve(ResolveError::ValidationExhausted)),
        Some(beneficiary_id) => match spec_resolve_sign_option(
            pre_sign,
            script.sign_menu_selection as int,
            script.entered_keys@,
            script.keychain_key,
        ) {
            Ok(sign_option) => Ok(DeleteAccountAction { beneficiary_id, sign_option }),
            Err(e) => Err(PipelineError::Sign(e)),
        },
    }
}

impl DeleteAccountAction {
    /// Resolves the beneficiary — online it must name a known account — and
    /// the signing selection.
    pub fn from(
        optional_clap_variant: Option<CliDeleteAccountAction>,
        connection_config: &Option<ConnectionConfig>,
        dir: &AccountDirectory,
        script: &OperatorScript,
    ) -> (r: Result<DeleteAccountAction, PipelineError>)
        ensures
            r == spec_from_delete_action(
                optional_clap_variant,
                *connection_config is Some,
                *dir,
                *script,
            ),
    {
        let (pre, pre_sign) = match optional_clap_variant {
            Some(c) => (c.beneficiary_id, c.sign_option),
            None => (None, None),
        };
        let beneficiary_id = match resolve_account_id(
            pre,
            connection_config,
            dir,
            script.receiver_answers.clone(),
            false,
        ) {
            Ok(a) => a,
            Err(_) => {
                return Err(PipelineError::Resolve(ResolveError::ValidationExhausted));
            },
        };
        match resolve_sign_option(
            pre_sign,
            script.sign_menu_selection,
            &script.entered_keys,
            &script.keychain_key,
        ) {
            Ok(sign_option) => Ok(DeleteAccountAction { beneficiary_id, sign_option }),
            Err(e) => Err(PipelineError::Sign(e)),
        }
    }

    /// Stages the deletion in favour of the beneficiary and signs.
    pub fn process(self, prepopulated_unsigned_transaction: UnsignedTransaction) -> (r: Result<
        SignOutcome,
        SignError,
    >)
        ensures
            ({
                match spec_sign_key(self.sign_option) {
                    Some(key) => {
                        &&& r is Ok <==> is_signing_key_literal(key)
                        &&& r is Err ==> r->Err_0 == SignError::InvalidKey
                        &&& r is Ok ==> ({
                            let rec = r->Ok_0->Signed_0;
                            &&& r->Ok_0 is Signed
                            &&& rec.transaction.actions@ == prepopulated_unsigned_transaction.actions@.push(
                                Action::DeleteAccount { beneficiary_id: self.beneficiary_id.0 },
                            )
                            &&& rec.transaction.signer_id
                                == prepopulated_unsigned_transaction.signer_id
                            &&& rec.transaction.receiver_id
                                == prepopulated_unsigned_transaction.receiver_id
                            &&& rec.transaction.public_key
                                == prepopulated_unsigned_transaction.public_key
                            &&& rec.transaction.nonce
                                == prepopulated_unsigned_transaction.nonce
                            &&& rec.transaction.block_hash
                                == prepopulated_unsigned_transaction.block_hash
                            &&& rec.signed_bytes@ == spec_signed_bytes(rec.transaction, key)
                        })
                    },
                    None => r is Ok && r->Ok_0 is DisplayUnsigned,
                }
            }),
    {
        let mut unsigned_transaction = prepopulated_unsigned_transaction;
        unsigned_transaction.append_action(
            Action::DeleteAccount { beneficiary_id: self.beneficiary_id.0 },
        );
        self.sign_option.process(unsigned_transaction)
    }
}

impl SendTo {
    /// Resolves the pre-supplied beneficiary choice.
    pub fn from(
        item: CliSendTo,
        connection_config: &Option<ConnectionConfig>,
        dir: &AccountDirectory,
        script: &OperatorScript,
    ) -> (r: Result<SendTo, PipelineError>)
        ensures
            ({
                let resolved = match item {
                    CliSendTo::Beneficiary(c) => spec_from_delete_action(
                        Some(c),
                        *connection_config is Some,
                        *dir,
                        *script,
                    ),
                };
                match r {
                    Ok(SendTo::Beneficiary(a)) => resolved == Ok::<
                        DeleteAccountAction,
                        PipelineError,
                    >(a),
                    Err(e) => resolved == Err::<DeleteAccountAction, PipelineError>(e),
                }
            }),
    {
        match item {
            CliSendTo::Beneficiary(cli_delete_account) => {
                match DeleteAccountAction::from(
                    Some(cli_delete_account),
                    connection_config,
                    dir,
                    script,
                ) {
                    Ok(a) => Ok(SendTo::Beneficiary(a)),
                    Err(e) => Err(e),
                }
            },
        }
    }

    /// Resolves the beneficiary choice where none was pre-supplied.
    pub fn send_to(
        connection_config: &Option<ConnectionConfig>,
        dir: &AccountDirectory,
        script: &OperatorScript,
    ) -> (r: Result<SendTo, PipelineError>)
        ensures
            ({
                let resolved = spec_from_delete_action(
                    None,
                    *connection_config is Some,
                    *dir,
                    *script,
                );
                match r {
                    Ok(SendTo::Beneficiary(a)) => resolved == Ok::<
                        DeleteAccountAction,
                        PipelineError,
                    >(a),
                    Err(e) => resolved == Err::<DeleteAccountAction, PipelineError>(e),
                }
            }),
    {
        match DeleteAccountAction::from(None, connection_config, dir, script) {
            Ok(a) => Ok(SendTo::Beneficiary(a)),
            Err(e) => Err(e),
        }
    }

    /// Stages and signs through the beneficiary choice.
    pub fn process(self, prepopulated_unsigned_transaction: UnsignedTransaction) -> (r: Result<
        SignOutcome,
        SignError,
    >)
        ensures
            ({
                let action = self->Beneficiary_0;
                match spec_sign_key(action.sign_option) {
                    Some(key) => {
                        &&& r is Ok <==> is_signing_key_literal(key)
                        &&& r is Err ==> r->Err_0 == SignError::InvalidKey
                        &&& r is Ok ==> ({
                            let rec = r->Ok_0->Signed_0;
                            &&& r->Ok_0 is Signed
                            &&& rec.transaction.actions@ == prepopulated_unsigned_transaction.actions@.push(
                                Action::DeleteAccount { beneficiary_id: action.beneficiary_id.0 },
                            )
                            &&& rec.transaction.signer_id
                                == prepopulated_unsigned_transaction.signer_id
                            &&& rec.transaction.receiver_id
                                == prepopulated_unsigned_transaction.receiver_id
                            &&& rec.transaction.public_key
                                == prepopulated_unsigned_transaction.public_key
                            &&& rec.transaction.nonce
                                == prepopulated_unsigned_transaction.nonce
                            &&& rec.transaction.block_hash
                                == prepopulated_unsigned_transaction.block_hash
                            &&& rec.signed_bytes@ == spec_signed_bytes(rec.transaction, key)
                        })
                    },
                    None => r is Ok && r->Ok_0 is DisplayUnsigned,
                }
            }),
    {
        match self {
            SendTo::Beneficiary(delete_account_action) => {
                delete_account_action.process(prepopulated_unsigned_transaction)
            },
        }
    }
}

impl Sender {
    /// Resolves the account to delete — online it must exist — and the
    /// beneficiary choice that follows.
    pub fn from(
        item: CliSender,
        connection_config: &Option<ConnectionConfig>,
        dir: &AccountDirectory,
        script: &OperatorScript,
    ) -> (r: Result<Sender, PipelineError>)
        ensures
            ({
                let pre = match item.sender_account_id {
                    Some(s) => Some(AccountId(s)),
                    None => None,
                };
                match spec_resolve_account(
                    pre,
                    *connection_config is Some,
                    dir.records@,
                    script.sender_answers@,
                    false,
                ) {
                    None => r == Err::<Sender, PipelineError>(
                        PipelineError::Resolve(ResolveError::ValidationExhausted),
                    ),
                    Some(sender) => {
                        let inner = match item.send_to {
                            Some(CliSendTo::Beneficiary(c)) => Some(c),
                            None => None,
                        };
                        match spec_from_delete_action(
                            inner,
                            *connection_config is Some,
                            *dir,
                            *script,
                        ) {
                            Ok(a) => r == Ok::<Sender, PipelineError>(
                                Sender {
                                    sender_account_id: sender.0,
                                    send_to: SendTo::Beneficiary(a),
                                },
                            ),
                            Err(e) => r == Err::<Sender, PipelineError>(e),
                        }
                    },
                }
            }),
    {
        let pre = match item.sender_account_id {
            Some(s) => Some(AccountId(s)),
            None => None,
        };
        let sender_account_id = match resolve_account_id(
            pre,
            connection_config,
            dir,
            script.sender_answers.clone(),
            false,
        ) {
            Ok(a) => a,
            Err(_) => {
                return Err(PipelineError::Resolve(ResolveError::ValidationExhausted));
            },
        };
        let inner = match item.send_to {
            Some(CliSendTo::Beneficiary(c)) => Some(c),
            None => None,
        };
        match DeleteAccountAction::from(inner, connection_config, dir, script) {
            Ok(a) => Ok(
                Sender { sender_account_id: sender_account_id.0, send_to: SendTo::Beneficiary(a) },
            ),
            Err(e) => Err(e),
        }
    }

    /// The deleted account signs its own deletion: signer and receiver both
    /// become the account to delete, the staged actions are preserved, and
    /// the beneficiary step follows.
    pub fn process(self, prepopulated_unsigned_transaction: UnsignedTransaction) -> (r: Result<
        SignOutcome,
        SignError,
    >)
        ensures
            ({
                let action = self.send_to->Beneficiary_0;
                match spec_sign_key(action.sign_option) {
                    Some(key) => {
                        &&& r is Ok <==> is_signing_key_literal(key)
                        &&& r is Err ==> r->Err_0 == SignError::InvalidKey
                        &&& r is Ok ==> ({
                            let rec = r->Ok_0->Signed_0;
                            &&& r->Ok_0 is Signed
                            &&& rec.transaction.actions@ == prepopulated_unsigned_transaction.actions@.push(
                                Action::DeleteAccount { beneficiary_id: action.beneficiary_id.0 },
                            )
                            &&& rec.transaction.signer_id == self.sender_account_id
                            &&& rec.transaction.receiver_id == self.sender_account_id
                            &&& rec.transaction.public_key
                                == prepopulated_unsigned_transaction.public_key
                            &&& rec.transaction.nonce
                                == prepopulated_unsigned_transaction.nonce
                            &&& rec.transaction.block_hash
                                == prepopulated_unsigned_transaction.block_hash
                            &&& rec.signed_bytes@ == spec_signed_bytes(rec.transaction, key)
                        })
                    },
                    None => r is Ok && r->Ok_0 is DisplayUnsigned,
                }
            }),
    {
        let unsigned_transaction = prepopulated_unsigned_transaction.with_signer_and_receiver(
            self.sender_account_id.clone(),
            self.sender_account_id,
        );
        self.send_to.process(unsigned_transaction)
    }
}

} // verus!
