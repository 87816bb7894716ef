//! Calling a change method of a contract: the contract account receives a
//! function call with arguments, gas and an attached deposit.

use vstd::prelude::*;

verus! {

use crate::PipelineError;
use crate::account::{AccountDirectory, AccountId};
use crate::balance::NearBalance;
use crate::context::ExecuteChangeMethodCommandNetworkContext;
use crate::crypto::is_signing_key_literal;
use crate::resolver::{OperatorScript, ResolveError, resolve_account_id, spec_resolve_account};
use crate::sign::{CliSignTransaction, SignError, SignOutcome, SignTransaction,
    resolve_sign_option, spec_resolve_sign_option, spec_sign_key, spec_signed_bytes};
use crate::transaction::{Action, UnsignedTransaction};

/// The command-line form of the function call: everything but the signing
/// selection must be supplied.
#[derive(Debug)]
pub struct CliCallFunctionAction {
    pub method_name: Option<String>,
    pub args: Option<Vec<u8>>,
    pub gas: Option<u64>,
    pub deposit: Option<NearBalance>,
    pub sign_option: Option<CliSignTransaction>,
}

/// The resolved function call.
#[derive(Debug)]
pub struct CallFunctionAction {
    pub method_name: String,
    pub args: Vec<u8>,
    pub gas: u64,
    pub deposit: NearBalance,
    pub sign_option: SignTransaction,
}

/// The command-line form of the contract to call and the rest.
#[derive(Debug)]
pub struct CliContract {
    pub contract_account_id: Option<AccountId>,
    pub call: Option<CliCallFunctionAction>,
}

/// The resolved contract to call and the call itself.
#[derive(Debug)]
pub struct Contract {
    pub contract_account_id: AccountId,
    pub call: CallFunctionAction,
}

/// The command-line form of the offline invocation.
#[derive(Debug)]
pub struct CliOfflineArgs {
    pub send_to: Option<CliSendTo>,
}

/// The resolved offline invocation.
#[derive(Debug)]
pub struct OfflineArgs {
    pub send_to: SendTo,
}

/// The command-line form of the contract choice.
#[derive(Debug)]
pub enum CliSendTo {
    Contract(CliContract),
}

/// The resolved contract choice.
#[derive(Debug)]
pub enum SendTo {
    Contract(Contract),
}

/// The resolved call for the given flags and script: every call field must
/// have been supplied, the signing selection resolves as everywhere else.
pub open spec fn spec_from_call(
    cli: Option<CliCallFunctionAction>,
    script: OperatorScript,
) -> Result<CallFunctionAction, PipelineError> {
    match cli {
        None => Err(PipelineError::Resolve(ResolveError::ValidationExhausted)),
        Some(c) => if c.method_name is None || c.args is None || c.gas is None
            || c.deposit is None {
            Err(PipelineError::Resolve(ResolveError::ValidationExhausted))
        } else {
            match spec_resolve_sign_option(
                c.sign_option,
                script.sign_menu_selection as int,
                script.entered_keys@,
                script.keychain_key,
            ) {
                Ok(sign_option) => Ok(
                    CallFunctionAction {
                        method_name: c.method_name->0,
                        args: c.args->0,
                        gas: c.gas->0,
                        deposit: c.deposit->0,
                        sign_option,
                    },
                ),
                Err(e) => Err(PipelineError::Sign(e)),
            }
        },
    }
}

impl CallFunctionAction {
    /// Resolves the call: method, arguments, gas and deposit must have been
    /// supplied; the signing selection comes from the flags or the script.
    pub fn from_cli(
        optional_clap_variant: Option<CliCallFunctionAction>,
        script: &OperatorScript,
    ) -> (r: Result<CallFunctionAction, PipelineError>)
        ensures
            r == spec_from_call(optional_clap_variant, *script),
    {
        let c = match optional_clap_variant {
            Some(c) => c,
            None => {
                return Err(PipelineError::Resolve(ResolveError::ValidationExhausted));
            },
        };
        let method_name = match c.method_name {
            Some(m) => m,
            None => {
                return Err(PipelineError::Resolve(ResolveError::ValidationExhausted));
            },
        };
        let args = match c.args {
            Some(a) => a,
            None => {
                return Err(PipelineError::Resolve(ResolveError::ValidationExhausted));
            },
        };
        let gas = match c.gas {
            Some(g) => g,
            None => {
                return Err(PipelineError::Resolve(ResolveError::ValidationExhausted));
            },
        };
        let deposit = match c.deposit {
            Some(d) => d,
            None => {
                return Err(PipelineError::Resolve(ResolveError::ValidationExhausted));
            },
        };
        match resolve_sign_option(
            c.sign_option,
            script.sign_menu_selection,
            &script.entered_keys,
            &script.keychain_key,
        ) {
            Ok(sign_option) => Ok(
                CallFunctionAction { method_name, args, gas, deposit, sign_option },
            ),
            Err(e) => Err(PipelineError::Sign(e)),
        }
    }

    /// Stages the function call and signs.
    pub fn process(self, prepopulated_unsigned_transaction: UnsignedTransaction) -> (r: Result<
        SignOutcome,
        SignError,
    >)
        ensures
            ({
                match spec_sign_key(self.sign_option) {
                    Some(key) => {
                        &&& r is Ok <==> is_signing_key_literal(key)
                        &&& r is Err ==> r->Err_0 == SignError::InvalidKey
                        &&& r is Ok ==> ({
                            let rec = r->Ok_0->Signed_0;
                            &&& r->Ok_0 is Signed
                            &&& rec.transaction.actions@ == prepopulated_unsigned_transaction.actions@.push(
                                Action::FunctionCall {
                                    method_name: self.method_name,
                                    args: self.args,
                                    gas: self.gas,
                                    deposit: self.deposit.yocto,
                                },
                            )
                            &&& rec.transaction.signer_id
                                == prepopulated_unsigned_transaction.signer_id
                            &&& rec.transaction.receiver_id
                                == prepopulated_unsigned_transaction.receiver_id
                            &&& rec.transaction.public_key
                                == prepopulated_unsigned_transaction.public_key
                            &&& rec.transaction.nonce
                                == prepopulated_unsigned_transaction.nonce
                            &&& rec.transaction.block_hash
                                == prepopulated_unsigned_transaction.block_hash
                            &&& rec.signed_bytes@ == spec_signed_bytes(rec.transaction, key)
                        })
                    },
                    None => r is Ok && r->Ok_0 is DisplayUnsigned,
                }
            }),
    {
        let mut unsigned_transaction = prepopulated_unsigned_transaction;
        let deposit = self.deposit.to_yoctonear();
        unsigned_transaction.append_action(
            Action::FunctionCall {
                method_name: self.method_name,
                args: self.args,
                gas: self.gas,
                deposit,
            },
        );
        self.sign_option.process(unsigned_transaction)
    }
}

impl Contract {
    /// Resolves the contract account — online it must exist — and the call.
    pub fn from_cli(
        optional_clap_variant: Option<CliContract>,
        context: &ExecuteChangeMethodCommandNetworkContext,
        dir: &AccountDirectory,
        script: &OperatorScript,
    ) -> (r: Result<Contract, PipelineError>)
        ensures
            ({
                let pre = match optional_clap_variant {
                    Some(ref c) => c.contract_account_id,
                    None => None,
                };
                let inner = match optional_clap_variant {
                    Some(c) => c.call,
                    None => None,
                };
                match spec_resolve_account(
                    pre,
                    context.connection_config is Some,
                    dir.records@,
                    script.receiver_answers@,
                    false,
                ) {
                    None => r == Err::<Contract, PipelineError>(
                        PipelineError::Resolve(ResolveError::ValidationExhausted),
                    ),
                    Some(contract_account_id) => match spec_from_call(inner, *script) {
                        Ok(call) => r == Ok::<Contract, PipelineError>(
                            Contract { contract_account_id, call },
                        ),
                        Err(e) => r == Err::<Contract, PipelineError>(e),
                    },
                }
            }),
    {
        let (pre, inner) = match optional_clap_variant {
            Some(c) => (c.contract_account_id, c.call),
            None => (None, None),
        };
        let contract_account_id = match resolve_account_id(
            pre,
            &context.connection_config,
            dir,
            script.receiver_answers.clone(),
            false,
        ) {
            Ok(a) => a,
            Err(_) => {
                return Err(PipelineError::Resolve(ResolveError::ValidationExhausted));
            },
        };
        match CallFunctionAction::from_cli(inner, script) {
            Ok(call) => Ok(Contract { contract_account_id, call }),
            Err(e) => Err(e),
        }
    }

    /// The record's receiver becomes the contract — the staged actions are
    /// preserved — and the call follows.
    pub fn process(self, prepopulated_unsigned_transaction: UnsignedTransaction) -> (r: Result<
        SignOutcome,
        SignError,
    >)
        ensures
            ({
                match spec_sign_key(self.call.sign_option) {
                    Some(key) => {
                        &&& r is Ok <==> is_signing_key_literal(key)
                        &&& r is Err ==> r->Err_0 == SignError::InvalidKey
                        &&& r is Ok ==> ({
                            let rec = r->Ok_0->Signed_0;
                            &&& r->Ok_0 is Signed
                            &&& rec.transaction.actions@ == prepopulated_unsigned_transaction.actions@.push(
                                Action::FunctionCall {
                                    method_name: self.call.method_name,
                                    args: self.call.args,
                                    gas: self.call.gas,
                                    deposit: self.call.deposit.yocto,
                                },
                            )
                            &&& rec.transaction.signer_id
                                == prepopulated_unsigned_transaction.signer_id
                            &&& rec.transaction.receiver_id == self.contract_account_id.0
                            &&& rec.transaction.public_key
                                == prepopulated_unsigned_transaction.public_key
                            &&& rec.transaction.nonce
                                == prepopulated_unsigned_transaction.nonce
                            &&& rec.transaction.block_hash
                                == prepopulated_unsigned_transaction.block_hash
                            &&& rec.signed_bytes@ == spec_signed_bytes(rec.transaction, key)
                        })
                    },
                    None => r is Ok && r->Ok_0 is DisplayUnsigned,
                }
            }),
    {
        let unsigned_transaction = prepopulated_unsigned_transaction.with_receiver_id(
            self.contract_account_id.0,
        );
        self.call.process(unsigned_transaction)
    }
}

impl OfflineArgs {
    /// Resolves the offline invocation: no connection, no validation, and
    /// the rest exactly as the contract choice determines.
    pub fn from(item: CliOfflineArgs, dir: &AccountDirectory, script: &OperatorScript) -> (r:
        Result<OfflineArgs, PipelineError>)
        ensures
            ({
                let pre = match item.send_to {
                    Some(CliSendTo::Contract(ref c)) => c.contract_account_id,
                    None => None,
                };
                let inner = match item.send_to {
                    Some(CliSendTo::Contract(c)) => c.call,
                    None => None,
                };
                match spec_resolve_account(
                    pre,
                    false,
                    dir.records@,
                    script.receiver_answers@,
                    false,
                ) {
                    None => r == Err::<OfflineArgs, PipelineError>(
                        PipelineError::Resolve(ResolveError::ValidationExhausted),
                    ),
                    Some(contract_account_id) => match spec_from_call(inner, *script) {
                        Ok(call) => r == Ok::<OfflineArgs, PipelineError>(
                            OfflineArgs {
                                send_to: SendTo::Contract(
                                    Contract { contract_account_id, call },
                                ),
                            },
                        ),
                        Err(e) => r == Err::<OfflineArgs, PipelineError>(e),
                    },
                }
            }),
    {
        let context = ExecuteChangeMethodCommandNetworkContext { connection_config: None };
        let inner = match item.send_to {
            Some(CliSendTo::Contract(c)) => Some(c),
            None => None,
        };
        match Contract::from_cli(inner, &context, dir, script) {
            Ok(contract) => Ok(OfflineArgs { send_to: SendTo::Contract(contract) }),
            Err(e) => Err(e),
        }
    }

    /// Runs the offline chain over the record; no connection is selected,
    /// and the outcome is exactly the contract step's.
    pub fn process(self, prepopulated_unsigned_transaction: UnsignedTransaction) -> (r: Result<
        SignOutcome,
        SignError,
    >)
        ensures
            ({
                let contract = self.send_to->Contract_0;
                match spec_sign_key(contract.call.sign_option) {
                    Some(key) => {
                        &&& r is Ok <==> is_signing_key_literal(key)
                        &&& r is Err ==> r->Err_0 == SignError::InvalidKey
                        &&& r is Ok ==> ({
                            let rec = r->Ok_0->Signed_0;
                            &&& r->Ok_0 is Signed
                            &&& rec.transaction.actions@ == prepopulated_unsigned_transaction.actions@.push(
                                Action::FunctionCall {
                                    method_name: contract.call.method_name,
                                    args: contract.call.args,
                                    gas: contract.call.gas,
                                    deposit: contract.call.deposit.yocto,
                                },
                            )
                            &&& rec.transaction.signer_id
                                == prepopulated_unsigned_transaction.signer_id
                            &&& rec.transaction.receiver_id == contract.contract_account_id.0
                            &&& rec.transaction.public_key
                                == prepopulated_unsigned_transaction.public_key
                            &&& rec.transaction.nonce
                                == prepopulated_unsigned_transaction.nonce
                            &&& rec.transaction.block_hash
                                == prepopulated_unsigned_transaction.block_hash
                            &&& rec.signed_bytes@ == spec_signed_bytes(rec.transaction, key)
                        })
                    },
                    None => r is Ok && r->Ok_0 is DisplayUnsigned,
                }
            }),
    {
        match self.send_to {
            SendTo::Contract(contract) => contract.process(prepopulated_unsigned_transaction),
        }
    }
}

} // verus!
