//! Deploying contract code: the owning account signs a deployment sent to
//! itself. Reading the code from disk happens outside; the bytes arrive
//! here as a value.

use vstd::prelude::*;

verus! {

use crate::PipelineError;
use crate::account::{AccountDirectory, AccountId};
use crate::context::{AddContractCodeCommandNetworkContext, SenderContext};
use crate::crypto::is_signing_key_literal;
use crate::resolver::{OperatorScript, ResolveError, resolve_account_id, spec_resolve_account};
use crate::sign::{CliSignTransaction, SignError, SignOutcome, SignTransaction,
    resolve_sign_option, spec_resolve_sign_option, spec_sign_key, spec_signed_bytes};
use crate::transaction::{Action, UnsignedTransaction};

/// The command-line form of the deployment step: the code bytes must be
/// supplied (the file was read outside).
#[derive(Debug)]
pub struct CliContractFile {
    pub code: Option<Vec<u8>>,
    pub sign_option: Option<CliSignTransaction>,
}

/// The resolved deployment step.
#[derive(Debug)]
pub struct ContractFile {
    pub code: Vec<u8>,
    pub sign_option: SignTransaction,
}

/// The command-line form of the owner and the rest.
#[derive(Debug)]
pub struct CliSender {
    pub owner_account_id: Option<AccountId>,
    pub contract: Option<CliContractFile>,
}

/// The resolved owner and the deployment step.
#[derive(Debug)]
pub struct Sender {
    pub sender_account_id: AccountId,
    pub contract: ContractFile,
}

/// The resolved deployment step for the given flags and script: the code
/// must have been supplied (the file was read outside), the signing
/// selection resolves as everywhere else.
pub open spec fn spec_from_contract_file(
    cli: Option<CliContractFile>,
    script: OperatorScript,
) -> Result<ContractFile, PipelineError> {
    let pre_code = match cli {
        Some(ref c) => c.code,
        None => None::<Vec<u8>>,
    };
    let pre_sign = match cli {
        Some(c) => c.sign_option,
        None => None,
    };
    match pre_code {
        None => Err(PipelineError::Resolve(ResolveError::ValidationExhausted)),
        Some(code) => match spec_resolve_sign_option(
            pre_sign,
            script.sign_menu_selection as int,
            script.entered_keys@,
            script.keychain_key,
        ) {
            Ok(sign_option) => Ok(ContractFile { code, sign_option }),
            Err(e) => Err(PipelineError::Sign(e)),
        },
    }
}

impl ContractFile {
    /// Resolves the deployment step: the code must have been supplied, the
    /// signing selection comes from the flags or the script.
    pub fn from_cli(
        optional_clap_variant: Option<CliContractFile>,
        _context: &SenderContext,
        script: &OperatorScript,
    ) -> (r: Result<ContractFile, PipelineError>)
        ensures
            r == spec_from_contract_file(optional_clap_variant, *script),
    {
        let (pre_code, pre_sign) = match optional_clap_variant {
            Some(c) => (c.code, c.sign_option),
            None => (None, None),
        };
        let code = match pre_code {
            Some(code) => code,
            None => {
                return Err(PipelineError::Resolve(ResolveError::ValidationExhausted));
            },
        };
        match resolve_sign_option(
            pre_sign,
            script.sign_menu_selection,
            &script.entered_keys,
            &script.keychain_key,
        ) {
            Ok(sign_option) => Ok(ContractFile { code, sign_option }),
            Err(e) => Err(PipelineError::Sign(e)),
        }
    }

    /// Stages the deployment and signs.
    pub fn process(self, prepopulated_unsigned_transaction: UnsignedTransaction) -> (r: Result<
        SignOutcome,
        SignError,
    >)
        ensures
            ({
                match spec_sign_key(self.sign_option) {
                    Some(key) => {
                        &&& r is Ok <==> is_signing_key_literal(key)
                        &&& r is Err ==> r->Err_0 == SignError::InvalidKey
                        &&& r is Ok ==> ({
                            let rec = r->Ok_0->Signed_0;
                            &&& r->Ok_0 is Signed
                            &&& rec.transaction.actions@ == prepopulated_unsigned_transaction.actions@.push(
                                Action::DeployContract { code: self.code },
                            )
                            &&& rec.transaction.signer_id
                                == prepopulated_unsigned_transaction.signer_id
                            &&& rec.transaction.receiver_id
                                == prepopulated_unsigned_transaction.receiver_id
                            &&& rec.transaction.public_key
                                == prepopulated_unsigned_transaction.public_key
                            &&& rec.transaction.nonce
                                == prepopulated_unsigned_transaction.nonce
                            &&& rec.transaction.block_hash
                                == prepopulated_unsigned_transaction.block_hash
                            &&& rec.signed_bytes@ == spec_signed_bytes(rec.transaction, key)
                        })
                    },
                    None => r is Ok && r->Ok_0 is DisplayUnsigned,
                }
            }),
    {
        let mut unsigned_transaction = prepopulated_unsigned_transaction;
        unsigned_transaction.append_action(Action::DeployContract { code: self.code });
        self.sign_option.process(unsigned_transaction)
    }
}

impl Sender {
    /// Resolves the owner — online it must exist — derives the narrowed
    /// context, and resolves the deployment step in it.
    pub fn from_cli(
        optional_clap_variant: Option<CliSender>,
        context: AddContractCodeCommandNetworkContext,
        dir: &AccountDirectory,
        script: &OperatorScript,
    ) -> (r: Result<Sender, PipelineError>)
        ensures
            ({
                let pre = match optional_clap_variant {
                    Some(ref c) => c.owner_account_id,
                    None => None,
                };
                let inner = match optional_clap_variant {
                    Some(c) => c.contract,
                    None => None,
                };
                match spec_resolve_account(
                    pre,
                    context.connection_config is Some,
                    dir.records@,
                    script.sender_answers@,
                    false,
                ) {
                    None => r == Err::<Sender, PipelineError>(
                        PipelineError::Resolve(ResolveError::ValidationExhausted),
                    ),
                    Some(sender_account_id) => match spec_from_contract_file(inner, *script) {
                        Ok(contract) => r == Ok::<Sender, PipelineError>(
                            Sender { sender_account_id, contract },
                        ),
                        Err(e) => r == Err::<Sender, PipelineError>(e),
                    },
                }
            }),
    {
        let (pre, inner) = match optional_clap_variant {
            Some(c) => (c.owner_account_id, c.contract),
            None => (None, None),
        };
        let sender_account_id = match resolve_account_id(
            pre,
            &context.connection_config,
            dir,
            script.sender_answers.clone(),
            false,
        ) {
            Ok(a) => a,
            Err(_) => {
                return Err(PipelineError::Resolve(ResolveError::ValidationExhausted));
            },
        };
        let new_context = SenderContext::from_previous_context_for_add_contract_code(
            context,
            sender_account_id.clone(),
        );
        match ContractFile::from_cli(inner, &new_context, script) {
            Ok(contract) => Ok(Sender { sender_account_id, contract }),
            Err(e) => Err(e),
        }
    }

    /// The owner signs the deployment sent to itself: signer and receiver
    /// both become the owner, and the deployment step follows.
    pub fn process(self, prepopulated_unsigned_transaction: UnsignedTransaction) -> (r: Result<
        SignOutcome,
        SignError,
    >)
        ensures
            ({
                match spec_sign_key(self.contract.sign_option) {
                    Some(key) => {
                        &&& r is Ok <==> is_signing_key_literal(key)
                        &&& r is Err ==> r->Err_0 == SignError::InvalidKey
                        &&& r is Ok ==> ({
                            let rec = r->Ok_0->Signed_0;
                            &&& r->Ok_0 is Signed
                            &&& rec.transaction.actions@ == prepopulated_unsigned_transaction.actions@.push(
                                Action::DeployContract { code: self.contract.code },
                            )
                            &&& rec.transaction.signer_id == self.sender_account_id.0
                            &&& rec.transaction.receiver_id == self.sender_account_id.0
                            &&& rec.transaction.public_key
                                == prepopulated_unsigned_transaction.public_key
                            &&& rec.transaction.nonce
                                == prepopulated_unsigned_transaction.nonce
                            &&& rec.transaction.block_hash
                                == prepopulated_unsigned_transaction.block_hash
                            &&& rec.signed_bytes@ == spec_signed_bytes(rec.transaction, key)
                        })
                    },
                    None => r is Ok && r->Ok_0 is DisplayUnsigned,
                }
            }),
    {
        let unsigned_transaction = prepopulated_unsigned_transaction.with_signer_and_receiver(
            self.sender_account_id.0.clone(),
            self.sender_account_id.0,
        );
        self.contract.process(unsigned_transaction)
    }
}

} // verus!
