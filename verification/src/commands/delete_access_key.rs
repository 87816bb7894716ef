//! Withdrawing an access key: the owning account signs the removal of one of
//! its keys.

use vstd::prelude::*;

verus! {

use crate::PipelineError;
use crate::account::{AccountDirectory, AccountId};
use crate::context::{DeleteAccessKeyCommandNetworkContext, SenderContext};
use crate::crypto::is_signing_key_literal;
use crate::resolver::{OperatorScript, ResolveError, resolve_account_id, spec_resolve_account};
use crate::sign::{CliSignTransaction, SignError, SignOutcome, SignTransaction,
    resolve_sign_option, spec_resolve_sign_option, spec_sign_key, spec_signed_bytes};
use crate::transaction::{Action, PublicKey, UnsignedTransaction};

/// The command-line form of the key-removal step.
#[derive(Debug)]
pub struct CliDeleteAccessKeyType {
    pub public_key: Option<PublicKey>,
    pub sign_option: Option<CliSignTransaction>,
}

/// The resolved key-removal step.
#[derive(Debug)]
pub struct DeleteAccessKeyType {
    pub public_key: PublicKey,
    pub sign_option: SignTransaction,
}

/// The command-line form of the key's owner and the rest.
#[derive(Debug)]
pub struct CliSender {
    pub sender_account_id: Option<AccountId>,
    pub public_key: Option<CliDeleteAccessKeyType>,
}

/// The resolved owner and the key to remove.
#[derive(Debug)]
pub struct Sender {
    pub sender_account_id: AccountId,
    pub public_key: DeleteAccessKeyType,
}

/// How resolving the key-removal step fails, if it does: without a key in
/// the flags or the script's entries the field is exhausted; else only the
/// signing selection can refuse.
pub open spec fn spec_delete_key_error(
    cli: Option<CliDeleteAccessKeyType>,
    script: OperatorScript,
) -> Option<PipelineError> {
    let pre_pk = match cli {
        Some(ref c) => c.public_key,
        None => None,
    };
    let pre_sign = match cli {
        Some(c) => c.sign_option,
        None => None,
    };
    if pre_pk is None && script.public_key_answers@.len() == 0 {
        Some(PipelineError::Resolve(ResolveError::ValidationExhausted))
    } else {
        match spec_resolve_sign_option(
            pre_sign,
            script.sign_menu_selection as int,
            script.entered_keys@,
            script.keychain_key,
        ) {
            Err(e) => Some(PipelineError::Sign(e)),
            Ok(_) => None,
        }
    }
}

/// Whether a resolved key-removal step is exactly what the flags and the
/// script determine: the key from the flags, else the script's first entry,
/// and the signing selection as everywhere else.
pub open spec fn spec_delete_key_matches(
    t: DeleteAccessKeyType,
    cli: Option<CliDeleteAccessKeyType>,
    script: OperatorScript,
) -> bool {
    let pre_pk = match cli {
        Some(ref c) => c.public_key,
        None => None,
    };
    let pre_sign = match cli {
        Some(c) => c.sign_option,
        None => None,
    };
    &&& match pre_pk {
        Some(pk) => t.public_key == pk,
        None => script.public_key_answers@.len() > 0 && t.public_key.text
            == script.public_key_answers@[0].text && t.public_key.data@
            == script.public_key_answers@[0].data@,
    }
    &&& Ok::<SignTransaction, SignError>(t.sign_option) == spec_resolve_sign_option(
        pre_sign,
        script.sign_menu_selection as int,
        script.entered_keys@,
        script.keychain_key,
    )
}

impl DeleteAccessKeyType {
    /// Resolves the key to remove, from the flags or the script's entries,
    /// and the signing selection: exactly the step the flags and script
    /// determine, or exactly the failure they force.
    pub fn from_cli(
        optional_clap_variant: Option<CliDeleteAccessKeyType>,
        _context: &SenderContext,
        script: &OperatorScript,
    ) -> (r: Result<DeleteAccessKeyType, PipelineError>)
        ensures
            ({
                match spec_delete_key_error(optional_clap_variant, *script) {
                    Some(e) => r == Err::<DeleteAccessKeyType, PipelineError>(e),
                    None => r is Ok && spec_delete_key_matches(
                        r->Ok_0,
                        optional_clap_variant,
                        *script,
                    ),
                }
            }),
    {
        let (pre_pk, pre_sign) = match optional_clap_variant {
            Some(c) => (c.public_key, c.sign_option),
            None => (None, None),
        };
        let public_key = match pre_pk {
            Some(pk) => pk,
            None => {
                if script.public_key_answers.len() > 0 {
                    script.public_key_answers[0].clone()
                } else {
                    return Err(PipelineError::Resolve(ResolveError::ValidationExhausted));
                }
            },
        };
        match resolve_sign_option(
            pre_sign,
            script.sign_menu_selection,
            &script.entered_keys,
            &script.keychain_key,
        ) {
            Ok(sign_option) => Ok(DeleteAccessKeyType { public_key, sign_option }),
            Err(e) => Err(PipelineError::Sign(e)),
        }
    }

    /// Stages the key removal and signs.
    pub fn process(self, prepopulated_unsigned_transaction: UnsignedTransaction) -> (r: Result<
        SignOutcome,
        SignError,
    >)
        ensures
            ({
                match spec_sign_key(self.sign_option) {
                    Some(key) => {
                        &&& r is Ok <==> is_signing_key_literal(key)
                        &&& r is Err ==> r->Err_0 == SignError::InvalidKey
                        &&& r is Ok ==> ({
                            let rec = r->Ok_0->Signed_0;
                            &&& r->Ok_0 is Signed
                            &&& rec.transaction.actions@ == prepopulated_unsigned_transaction.actions@.push(
                                Action::DeleteKey { public_key: self.public_key },
                            )
                            &&& rec.transaction.signer_id
                                == prepopulated_unsigned_transaction.signer_id
                            &&& rec.transaction.receiver_id
                                == prepopulated_unsigned_transaction.receiver_id
                            &&& rec.transaction.public_key
                                == prepopulated_unsigned_transaction.public_key
                            &&& rec.transaction.nonce
                                == prepopulated_unsigned_transaction.nonce
                            &&& rec.transaction.block_hash
                                == prepopulated_unsigned_transaction.block_hash
                            &&& rec.signed_bytes@ == spec_signed_bytes(rec.transaction, key)
                        })
                    },
                    None => r is Ok && r->Ok_0 is DisplayUnsigned,
                }
            }),
    {
        let mut unsigned_transaction = prepopulated_unsigned_transaction;
        unsigned_transaction.append_action(Action::DeleteKey { public_key: self.public_key });
        self.sign_option.process(unsigned_transaction)
    }
}

impl Sender {
    /// Resolves the key's owner — online it must exist — derives the
    /// narrowed context, and resolves the key-removal step in it.
    pub fn from_cli(
        optional_clap_variant: Option<CliSender>,
        context: DeleteAccessKeyCommandNetworkContext,
        dir: &AccountDirectory,
        script: &OperatorScript,
    ) -> (r: Result<Sender, PipelineError>)
        ensures
            ({
                let pre = match optional_clap_variant {
                    Some(ref c) => c.sender_account_id,
                    None => None,
                };
                let inner = match optional_clap_variant {
                    Some(c) => c.public_key,
                    None => None,
                };
                match spec_resolve_account(
                    pre,
                    context.connection_config is Some,
                    dir.records@,
                    script.sender_answers@,
                    false,
                ) {
                    None => r == Err::<Sender, PipelineError>(
                        PipelineError::Resolve(ResolveError::ValidationExhausted),
                    ),
                    Some(sender_account_id) => match spec_delete_key_error(inner, *script) {
                        Some(e) => r == Err::<Sender, PipelineError>(e),
                        None => r is Ok && r->Ok_0.sender_account_id == sender_account_id
                            && spec_delete_key_matches(r->Ok_0.public_key, inner, *script),
                    },
                }
            }),
    {
        let (pre, inner) = match optional_clap_variant {
            Some(c) => (c.sender_account_id, c.public_key),
            None => (None, None),
        };
        let sender_account_id = match resolve_account_id(
            pre,
            &context.connection_config,
            dir,
            script.sender_answers.clone(),
            false,
        ) {
            Ok(a) => a,
            Err(_) => {
                return Err(PipelineError::Resolve(ResolveError::ValidationExhausted));
            },
        };
        let new_context = SenderContext::from_previous_context_for_delete_access_key(
            context,
            sender_account_id.clone(),
        );
        match DeleteAccessKeyType::from_cli(inner, &new_context, script) {
            Ok(public_key) => Ok(Sender { sender_account_id, public_key }),
            Err(e) => Err(e),
        }
    }

    /// The key's owner signs the removal sent to itself: signer and receiver
    /// both become the owner, and the key-removal step follows.
    pub fn process(self, prepopulated_unsigned_transaction: UnsignedTransaction) -> (r: Result<
        SignOutcome,
        SignError,
    >)
        ensures
            ({
                match spec_sign_key(self.public_key.sign_option) {
                    Some(key) => {
                        &&& r is Ok <==> is_signing_key_literal(key)
                        &&& r is Err ==> r->Err_0 == SignError::InvalidKey
                        &&& r is Ok ==> ({
                            let rec = r->Ok_0->Signed_0;
                            &&& r->Ok_0 is Signed
                            &&& rec.transaction.actions@ == prepopulated_unsigned_transaction.actions@.push(
                                Action::DeleteKey { public_key: self.public_key.public_key },
                            )
                            &&& rec.transaction.signer_id == self.sender_account_id.0
                            &&& rec.transaction.receiver_id == self.sender_account_id.0
                            &&& rec.transaction.public_key
                                == prepopulated_unsigned_transaction.public_key
                            &&& rec.transaction.nonce
                                == prepopulated_unsigned_transaction.nonce
                            &&& rec.transaction.block_hash
                                == prepopulated_unsigned_transaction.block_hash
                            &&& rec.signed_bytes@ == spec_signed_bytes(rec.transaction, key)
                        })
                    },
                    None => r is Ok && r->Ok_0 is DisplayUnsigned,
                }
            }),
    {
        let unsigned_transaction = prepopulated_unsigned_transaction.with_signer_and_receiver(
            self.sender_account_id.0.clone(),
            self.sender_account_id.0,
        );
        self.public_key.process(unsigned_transaction)
    }
}

} // verus!
