//! The transfer command: choose the mode, resolve sender and receiver,
//! resolve the amount against the sender's queried balance, stage the
//! transfer, sign and submit. Each step receives the context its parent
//! derived and resolves its own fields from the flags or the operator's
//! answers.

use vstd::prelude::*;

verus! {

use crate::PipelineError;
use crate::account::{AccountDirectory, AccountId, AccountRecord, spec_lookup};
use crate::balance::NearBalance;
use crate::context::{ConnectionConfig, SenderContext, TransferCommandNetworkContext};
use crate::crypto::is_signing_key_literal;
use crate::resolver::{OperatorScript, ResolveError, resolve_account_id, resolve_amount,
    spec_resolve_account, spec_resolve_amount};
use crate::sign::{CliSignTransaction, SignOutcome, SignTransaction, SignError,
    resolve_sign_option, spec_resolve_sign_option, spec_sign_key, spec_signed_bytes};
use crate::submit::{BroadcastReply, Submit, SubmitOutcome, spec_broadcast_outcome,
    spec_choose_submit};
use crate::transaction::{Action, UnsignedTransaction};

/// The command-line form of the whole transfer invocation.
#[derive(Debug)]
pub struct CliOperationMode {
    pub mode: Option<CliMode>,
}

/// The command-line form of the mode choice.
#[derive(Debug)]
pub enum CliMode {
    Network(CliNetworkArgs),
    Offline(CliOfflineArgs),
}

/// The command-line form of the online mode: the server and the rest.
#[derive(Debug)]
pub struct CliNetworkArgs {
    pub connection_config: Option<ConnectionConfig>,
    pub send_from: Option<CliSender>,
}

/// The command-line form of the offline mode.
#[derive(Debug)]
pub struct CliOfflineArgs {
    pub send_from: Option<CliSender>,
}

/// The command-line form of sender resolution.
#[derive(Debug)]
pub struct CliSender {
    pub sender_account_id: Option<AccountId>,
    pub send_to: Option<CliReceiver>,
}

/// The command-line form of receiver resolution.
#[derive(Debug)]
pub struct CliReceiver {
    pub receiver_account_id: Option<AccountId>,
    pub transfer: Option<CliTransfer>,
}

/// The command-line form of the transfer choice.
#[derive(Debug)]
pub enum CliTransfer {
    Amount(CliTransferNEARTokensAction),
}

/// The command-line form of the amount and signing selection.
#[derive(Debug)]
pub struct CliTransferNEARTokensAction {
    pub amount: Option<NearBalance>,
    pub sign_option: Option<CliSignTransaction>,
}

/// The resolved invocation.
#[derive(Debug)]
pub struct OperationMode {
    pub mode: Mode,
}

/// The resolved mode: online with a connection, or offline without one.
#[derive(Debug)]
pub enum Mode {
    Network(NetworkArgs),
    Offline(OfflineArgs),
}

/// The resolved online mode.
#[derive(Debug)]
pub struct NetworkArgs {
    pub connection_config: ConnectionConfig,
    pub send_from: Sender,
}

/// The resolved offline mode.
#[derive(Debug)]
pub struct OfflineArgs {
    pub send_from: Sender,
}

/// The resolved sender and what follows it.
#[derive(Debug)]
pub struct Sender {
    pub sender_account_id: AccountId,
    pub send_to: Receiver,
}

/// The resolved receiver and what follows it.
#[derive(Debug)]
pub struct Receiver {
    pub receiver_account_id: AccountId,
    pub transfer: Transfer,
}

/// The resolved transfer choice.
#[derive(Debug)]
pub enum Transfer {
    Amount(TransferNEARTokensAction),
}

/// The resolved amount and signing selection.
#[derive(Debug)]
pub struct TransferNEARTokensAction {
    pub amount: NearBalance,
    pub sign_option: SignTransaction,
}

/// The ceiling an amount is validated against: online, the sender's queried
/// balance (zero where no account record exists); offline, none.
pub open spec fn spec_balance_bound(
    online: bool,
    records: Seq<AccountRecord>,
    sender: Seq<char>,
) -> Option<u128> {
    if online {
        Some(
            match spec_lookup(records, sender) {
                Some(b) => b,
                None => 0,
            },
        )
    } else {
        None
    }
}

/// The resolved amount-and-signing step for the given flags and script.
pub open spec fn spec_from_transfer_action(
    cli: Option<CliTransferNEARTokensAction>,
    online: bool,
    records: Seq<AccountRecord>,
    sender: Seq<char>,
    script: OperatorScript,
) -> Result<TransferNEARTokensAction, PipelineError> {
    let pre = match cli {
        Some(c) => match c.amount {
            Some(a) => Some(a.yocto),
            None => None,
        },
        None => None,
    };
    let pre_sign = match cli {
        Some(c) => c.sign_option,
        None => None,
    };
    match spec_resolve_amount(
        pre,
        spec_balance_bound(online, records, sender),
        script.amount_answers@.map_values(|a: NearBalance| a.yocto),
    ) {
        None => Err(PipelineError::Resolve(ResolveError::ValidationExhausted)),
        Some(y) => match spec_resolve_sign_option(
            pre_sign,
            script.sign_menu_selection as int,
            script.entered_keys@,
            script.keychain_key,
        ) {
            Err(e) => Err(PipelineError::Sign(e)),
            Ok(sign_option) => Ok(
                TransferNEARTokensAction { amount: NearBalance { yocto: y }, sign_option },
            ),
        },
    }
}

/// Online, a resolved transfer can never overdraw the sender: whatever mix
/// of pre-supplied value and re-entries produced it, the staged amount stays
/// within the queried balance, and a pre-supplied amount within the balance
/// is taken unchanged.
pub proof fn lemma_transfer_amount_within_balance(
    cli: Option<CliTransferNEARTokensAction>,
    records: Seq<AccountRecord>,
    sender: Seq<char>,
    script: OperatorScript,
)
    requires
        spec_from_transfer_action(cli, true, records, sender, script) is Ok,
    ensures
        spec_from_transfer_action(cli, true, records, sender, script)->Ok_0.amount.yocto
            <= spec_balance_bound(true, records, sender)->0,
        cli is Some && cli->0.amount is Some && cli->0.amount->0.yocto <= spec_balance_bound(
            true,
            records,
            sender,
        )->0 ==> spec_from_transfer_action(cli, true, records, sender, script)->Ok_0.amount
            == cli->0.amount->0,
{
    let pre = match cli {
        Some(c) => match c.amount {
            Some(a) => Some(a.yocto),
            None => None,
        },
        None => None,
    };
    let bound = spec_balance_bound(true, records, sender)->0;
    crate::resolver::lemma_resolved_amount_bounded(
        pre,
        bound,
        script.amount_answers@.map_values(|a: NearBalance| a.yocto),
    );
}

/// The resolved transfer choice: its only variant is the amount step.
pub open spec fn spec_from_transfer(
    cli: Option<CliTransfer>,
    online: bool,
    records: Seq<AccountRecord>,
    sender: Seq<char>,
    script: OperatorScript,
) -> Result<Transfer, PipelineError> {
    let inner = match cli {
        Some(CliTransfer::Amount(c)) => Some(c),
        None => None,
    };
    match spec_from_transfer_action(inner, online, records, sender, script) {
        Ok(a) => Ok(Transfer::Amount(a)),
        Err(e) => Err(e),
    }
}

/// The resolved receiver and what follows it.
pub open spec fn spec_from_receiver(
    cli: Option<CliReceiver>,
    online: bool,
    records: Seq<AccountRecord>,
    sender: AccountId,
    script: OperatorScript,
) -> Result<Receiver, PipelineError> {
    let pre = match cli {
        Some(c) => c.receiver_account_id,
        None => None,
    };
    let inner = match cli {
        Some(c) => c.transfer,
        None => None,
    };
    match spec_resolve_account(pre, online, records, script.receiver_answers@, true) {
        None => Err(PipelineError::Resolve(ResolveError::ValidationExhausted)),
        Some(receiver_account_id) => match spec_from_transfer(
            inner,
            online,
            records,
            sender@,
            script,
        ) {
            Ok(transfer) => Ok(Receiver { receiver_account_id, transfer }),
            Err(e) => Err(e),
        },
    }
}

/// The resolved sender and what follows it.
pub open spec fn spec_from_sender(
    cli: Option<CliSender>,
    online: bool,
    records: Seq<AccountRecord>,
    script: OperatorScript,
) -> Result<Sender, PipelineError> {
    let pre = match cli {
        Some(c) => c.sender_account_id,
        None => None,
    };
    let inner = match cli {
        Some(c) => c.send_to,
        None => None,
    };
    match spec_resolve_account(pre, online, records, script.sender_answers@, false) {
        None => Err(PipelineError::Resolve(ResolveError::ValidationExhausted)),
        Some(sender_account_id) => match spec_from_receiver(
            inner,
            online,
            records,
            sender_account_id,
            script,
        ) {
            Ok(send_to) => Ok(Sender { sender_account_id, send_to }),
            Err(e) => Err(e),
        },
    }
}

/// The connection the server choice resolves to: a pre-supplied one stands;
/// else the menu picks among the known networks, the first by default.
pub open spec fn spec_connection_choice(
    pre: Option<ConnectionConfig>,
    selection: int,
) -> ConnectionConfig {
    match pre {
        Some(c) => c,
        None => if selection == 1 {
            ConnectionConfig::Mainnet
        } else if selection == 2 {
            ConnectionConfig::Betanet
        } else {
            ConnectionConfig::Testnet
        },
    }
}

/// The resolved online mode.
pub open spec fn spec_from_network_args(
    cli: Option<CliNetworkArgs>,
    records: Seq<AccountRecord>,
    script: OperatorScript,
) -> Result<NetworkArgs, PipelineError> {
    let pre = match cli {
        Some(c) => c.connection_config,
        None => None,
    };
    let inner = match cli {
        Some(c) => c.send_from,
        None => None,
    };
    let connection_config = spec_connection_choice(pre, script.server_selection as int);
    match spec_from_sender(inner, true, records, script) {
        Ok(send_from) => Ok(NetworkArgs { connection_config, send_from }),
        Err(e) => Err(e),
    }
}

/// The resolved offline mode.
pub open spec fn spec_from_offline_args(
    cli: Option<CliOfflineArgs>,
    records: Seq<AccountRecord>,
    script: OperatorScript,
) -> Result<OfflineArgs, PipelineError> {
    let inner = match cli {
        Some(c) => c.send_from,
        None => None,
    };
    match spec_from_sender(inner, false, records, script) {
        Ok(send_from) => Ok(OfflineArgs { send_from }),
        Err(e) => Err(e),
    }
}

/// The resolved mode.
pub open spec fn spec_from_mode(
    cli: CliMode,
    records: Seq<AccountRecord>,
    script: OperatorScript,
) -> Result<Mode, PipelineError> {
    match cli {
        CliMode::Network(args) => match spec_from_network_args(Some(args), records, script) {
            Ok(a) => Ok(Mode::Network(a)),
            Err(e) => Err(e),
        },
        CliMode::Offline(args) => match spec_from_offline_args(Some(args), records, script) {
            Ok(a) => Ok(Mode::Offline(a)),
            Err(e) => Err(e),
        },
    }
}

/// The resolved invocation: a pre-supplied mode stands; else the mode menu
/// decides, online first.
pub open spec fn spec_from_operation_mode(
    cli: CliOperationMode,
    records: Seq<AccountRecord>,
    script: OperatorScript,
) -> Result<OperationMode, PipelineError> {
    let mode_cli = match cli.mode {
        Some(m) => m,
        None => if script.mode_selection == 0 {
            CliMode::Network(CliNetworkArgs { connection_config: None, send_from: None })
        } else {
            CliMode::Offline(CliOfflineArgs { send_from: None })
        },
    };
    match spec_from_mode(mode_cli, records, script) {
        Ok(mode) => Ok(OperationMode { mode }),
        Err(e) => Err(e),
    }
}

impl TransferNEARTokensAction {
    /// Resolves the amount against the sender's queried balance (none
    /// offline) and the signing selection, from the flags or the script.
    pub fn from(
        optional_clap_variant: Option<CliTransferNEARTokensAction>,
        context: &SenderContext,
        dir: &AccountDirectory,
        script: &OperatorScript,
    ) -> (r: Result<TransferNEARTokensAction, PipelineError>)
        ensures
            r == spec_from_transfer_action(
                optional_clap_variant,
                context.connection_config is Some,
                dir.records@,
                context.sender_account_id@,
                *script,
            ),
    {
        let (pre_amount, pre_sign) = match optional_clap_variant {
            Some(c) => (c.amount, c.sign_option),
            None => (None, None),
        };
        let bound = if context.connection_config.is_some() {
            match dir.lookup(&context.sender_account_id.0) {
                Some(b) => Some(NearBalance::from_yoctonear(b)),
                None => Some(NearBalance::from_yoctonear(0)),
            }
        } else {
            None
        };
        let amount = match resolve_amount(pre_amount, bound, &script.amount_answers) {
            Ok(a) => a,
            Err(_) => {
                return Err(PipelineError::Resolve(ResolveError::ValidationExhausted));
            },
        };
        let sign_option = match resolve_sign_option(
            pre_sign,
            script.sign_menu_selection,
            &script.entered_keys,
            &script.keychain_key,
        ) {
            Ok(s) => s,
            Err(e) => {
                return Err(PipelineError::Sign(e));
            },
        };
        Ok(TransferNEARTokensAction { amount, sign_option })
    }

    /// Stages the transfer on the record and signs: the staged actions become
    /// the old ones with this transfer appended, nothing else of the record
    /// changes, and the signature covers exactly that record.
    pub fn process(self, prepopulated_unsigned_transaction: UnsignedTransaction) -> (r: Result<
        SignOutcome,
        SignError,
    >)
        ensures
            ({
                match spec_sign_key(self.sign_option) {
                    Some(key) => {
                        &&& r is Ok <==> is_signing_key_literal(key)
                        &&& r is Err ==> r->Err_0 == SignError::InvalidKey
                        &&& r is Ok ==> ({
                            let rec = r->Ok_0->Signed_0;
                            &&& r->Ok_0 is Signed
                            &&& rec.transaction.actions@ == prepopulated_unsigned_transaction.actions@.push(
                                Action::Transfer { deposit: self.amount.yocto },
                            )
                            &&& rec.transaction.signer_id
                                == prepopulated_unsigned_transaction.signer_id
                            &&& rec.transaction.receiver_id
                                == prepopulated_unsigned_transaction.receiver_id
                            &&& rec.transaction.public_key
                                == prepopulated_unsigned_transaction.public_key
                            &&& rec.transaction.nonce == prepopulated_unsigned_transaction.nonce
                            &&& rec.transaction.block_hash
                                == prepopulated_unsigned_transaction.block_hash
                            &&& rec.signed_bytes@ == spec_signed_bytes(rec.transaction, key)
                        })
                    },
                    None => r is Ok && r->Ok_0 is DisplayUnsigned,
                }
            }),
    {
        let mut unsigned_transaction = prepopulated_unsigned_transaction;
        unsigned_transaction.append_action(Action::Transfer { deposit: self.amount.to_yoctonear() });
        self.sign_option.process(unsigned_transaction)
    }
}

impl Transfer {
    /// Resolves the transfer choice; its only variant is the amount step.
    pub fn from(
        optional_clap_variant: Option<CliTransfer>,
        context: &SenderContext,
        dir: &AccountDirectory,
        script: &OperatorScript,
    ) -> (r: Result<Transfer, PipelineError>)
        ensures
            r == spec_from_transfer(
                optional_clap_variant,
                context.connection_config is Some,
                dir.records@,
                context.sender_account_id@,
                *script,
            ),
    {
        let inner = match optional_clap_variant {
            Some(CliTransfer::Amount(c)) => Some(c),
            None => None,
        };
        match TransferNEARTokensAction::from(inner, context, dir, script) {
            Ok(a) => Ok(Transfer::Amount(a)),
            Err(e) => Err(e),
        }
    }

    /// Stages and signs through the chosen variant.
    pub fn process(self, prepopulated_unsigned_transaction: UnsignedTransaction) -> (r: Result<
        SignOutcome,
        SignError,
    >)
        ensures
            ({
                let action = self->Amount_0;
                match spec_sign_key(action.sign_option) {
                    Some(key) => {
                        &&& r is Ok <==> is_signing_key_literal(key)
                        &&& r is Err ==> r->Err_0 == SignError::InvalidKey
                        &&& r is Ok ==> ({
                            let rec = r->Ok_0->Signed_0;
                            &&& r->Ok_0 is Signed
                            &&& rec.transaction.actions@ == prepopulated_unsigned_transaction.actions@.push(
                                Action::Transfer { deposit: action.amount.yocto },
                            )
                            &&& rec.transaction.signer_id
                                == prepopulated_unsigned_transaction.signer_id
                            &&& rec.transaction.receiver_id
                                == prepopulated_unsigned_transaction.receiver_id
                            &&& rec.transaction.public_key
                                == prepopulated_unsigned_transaction.public_key
                            &&& rec.transaction.nonce == prepopulated_unsigned_transaction.nonce
                            &&& rec.transaction.block_hash
                                == prepopulated_unsigned_transaction.block_hash
                            &&& rec.signed_bytes@ == spec_signed_bytes(rec.transaction, key)
                        })
                    },
                    None => r is Ok && r->Ok_0 is DisplayUnsigned,
                }
            }),
    {
        match self {
            Transfer::Amount(transfer_near_action) => {
                transfer_near_action.process(prepopulated_unsigned_transaction)
            },
        }
    }
}

impl Receiver {
    /// Resolves the receiver — online it must exist or be a 64-digit implicit
    /// identifier — and what follows it.
    pub fn from(
        optional_clap_variant: Option<CliReceiver>,
        context: &SenderContext,
        dir: &AccountDirectory,
        script: &OperatorScript,
    ) -> (r: Result<Receiver, PipelineError>)
        ensures
            r == spec_from_receiver(
                optional_clap_variant,
                context.connection_config is Some,
                dir.records@,
                context.sender_account_id,
                *script,
            ),
    {
        let (pre, inner) = match optional_clap_variant {
            Some(c) => (c.receiver_account_id, c.transfer),
            None => (None, None),
        };
        let receiver_account_id = match resolve_account_id(
            pre,
            &context.connection_config,
            dir,
            script.receiver_answers.clone(),
            true,
        ) {
            Ok(a) => a,
            Err(_) => {
                return Err(PipelineError::Resolve(ResolveError::ValidationExhausted));
            },
        };
        match Transfer::from(inner, context, dir, script) {
            Ok(transfer) => Ok(Receiver { receiver_account_id, transfer }),
            Err(e) => Err(e),
        }
    }

    /// Replaces the record's receiver with the resolved one — the staged
    /// actions are preserved — and hands on.
    pub fn process(self, prepopulated_unsigned_transaction: UnsignedTransaction) -> (r: Result<
        SignOutcome,
        SignError,
    >)
        ensures
            ({
                let action = self.transfer->Amount_0;
                match spec_sign_key(action.sign_option) {
                    Some(key) => {
                        &&& r is Ok <==> is_signing_key_literal(key)
                        &&& r is Err ==> r->Err_0 == SignError::InvalidKey
                        &&& r is Ok ==> ({
                            let rec = r->Ok_0->Signed_0;
                            &&& r->Ok_0 is Signed
                            &&& rec.transaction.actions@ == prepopulated_unsigned_transaction.actions@.push(
                                Action::Transfer { deposit: action.amount.yocto },
                            )
                            &&& rec.transaction.signer_id
                                == prepopulated_unsigned_transaction.signer_id
                            &&& rec.transaction.receiver_id == self.receiver_account_id.0
                            &&& rec.transaction.public_key
                                == prepopulated_unsigned_transaction.public_key
                            &&& rec.transaction.nonce == prepopulated_unsigned_transaction.nonce
                            &&& rec.transaction.block_hash
                                == prepopulated_unsigned_transaction.block_hash
                            &&& rec.signed_bytes@ == spec_signed_bytes(rec.transaction, key)
                        })
                    },
                    None => r is Ok && r->Ok_0 is DisplayUnsigned,
                }
            }),
    {
        let unsigned_transaction = prepopulated_unsigned_transaction.with_receiver_id(
            self.receiver_account_id.0,
        );
        self.transfer.process(unsigned_transaction)
    }
}

impl Sender {
    /// Resolves the sender — online it must name a known account — derives
    /// the narrowed context and resolves what follows.
    pub fn from_cli(
        optional_clap_variant: Option<CliSender>,
        context: TransferCommandNetworkContext,
        dir: &AccountDirectory,
        script: &OperatorScript,
    ) -> (r: Result<Sender, PipelineError>)
        ensures
            r == spec_from_sender(
                optional_clap_variant,
                context.connection_config is Some,
                dir.records@,
                *script,
            ),
    {
        let (pre, inner) = match optional_clap_variant {
            Some(c) => (c.sender_account_id, c.send_to),
            None => (None, None),
        };
        let sender_account_id = match resolve_account_id(
            pre,
            &context.connection_config,
            dir,
            script.sender_answers.clone(),
            false,
        ) {
            Ok(a) => a,
            Err(_) => {
                return Err(PipelineError::Resolve(ResolveError::ValidationExhausted));
            },
        };
        let new_context = SenderContext::from_previous_context(
            context,
            sender_account_id.clone(),
        );
        match Receiver::from(inner, &new_context, dir, script) {
            Ok(send_to) => Ok(Sender { sender_account_id, send_to }),
            Err(e) => Err(e),
        }
    }

    /// Replaces the record's signer with the resolved sender — the staged
    /// actions are preserved — and hands on.
    pub fn process(self, prepopulated_unsigned_transaction: UnsignedTransaction) -> (r: Result<
        SignOutcome,
        SignError,
    >)
        ensures
            ({
                let action = self.send_to.transfer->Amount_0;
                match spec_sign_key(action.sign_option) {
                    Some(key) => {
                        &&& r is Ok <==> is_signing_key_literal(key)
                        &&& r is Err ==> r->Err_0 == SignError::InvalidKey
                        &&& r is Ok ==> ({
                            let rec = r->Ok_0->Signed_0;
                            &&& r->Ok_0 is Signed
                            &&& rec.transaction.actions@ == prepopulated_unsigned_transaction.actions@.push(
                                Action::Transfer { deposit: action.amount.yocto },
                            )
                            &&& rec.transaction.signer_id == self.sender_account_id.0
                            &&& rec.transaction.receiver_id == self.send_to.receiver_account_id.0
                            &&& rec.transaction.public_key
                                == prepopulated_unsigned_transaction.public_key
                            &&& rec.transaction.nonce == prepopulated_unsigned_transaction.nonce
                            &&& rec.transaction.block_hash
                                == prepopulated_unsigned_transaction.block_hash
                            &&& rec.signed_bytes@ == spec_signed_bytes(rec.transaction, key)
                        })
                    },
                    None => r is Ok && r->Ok_0 is DisplayUnsigned,
                }
            }),
    {
        let unsigned_transaction = prepopulated_unsigned_transaction.with_signer_id(
            self.sender_account_id.0.clone(),
        );
        self.send_to.process(unsigned_transaction)
    }
}

impl OfflineArgs {
    /// Resolves the offline invocation: no connection, no validation.
    pub fn from(
        optional_clap_variant: Option<CliOfflineArgs>,
        dir: &AccountDirectory,
        script: &OperatorScript,
    ) -> (r: Result<OfflineArgs, PipelineError>)
        ensures
            r == spec_from_offline_args(optional_clap_variant, dir.records@, *script),
    {
        let inner = match optional_clap_variant {
            Some(c) => c.send_from,
            None => None,
        };
        let context = TransferCommandNetworkContext { connection_config: None };
        match Sender::from_cli(inner, context, dir, script) {
            Ok(send_from) => Ok(OfflineArgs { send_from }),
            Err(e) => Err(e),
        }
    }

    /// Runs the offline chain over the record; no connection is selected,
    /// and the outcome is exactly the sender chain's.
    pub fn process(self, prepopulated_unsigned_transaction: UnsignedTransaction) -> (r: Result<
        SignOutcome,
        SignError,
    >)
        ensures
            ({
                let sender = self.send_from;
                let action = sender.send_to.transfer->Amount_0;
                match spec_sign_key(action.sign_option) {
                    Some(key) => {
                        &&& r is Ok <==> is_signing_key_literal(key)
                        &&& r is Err ==> r->Err_0 == SignError::InvalidKey
                        &&& r is Ok ==> ({
                            let rec = r->Ok_0->Signed_0;
                            &&& r->Ok_0 is Signed
                            &&& rec.transaction.actions@ == prepopulated_unsigned_transaction.actions@.push(
                                Action::Transfer { deposit: action.amount.yocto },
                            )
                            &&& rec.transaction.signer_id == sender.sender_account_id.0
                            &&& rec.transaction.receiver_id
                                == sender.send_to.receiver_account_id.0
                            &&& rec.transaction.public_key
                                == prepopulated_unsigned_transaction.public_key
                            &&& rec.transaction.nonce == prepopulated_unsigned_transaction.nonce
                            &&& rec.transaction.block_hash
                                == prepopulated_unsigned_transaction.block_hash
                            &&& rec.signed_bytes@ == spec_signed_bytes(rec.transaction, key)
                        })
                    },
                    None => r is Ok && r->Ok_0 is DisplayUnsigned,
                }
            }),
    {
        self.send_from.process(prepopulated_unsigned_transaction)
    }
}

impl NetworkArgs {
    /// Resolves the online invocation: the chosen server and the rest.
    pub fn from(
        optional_clap_variant: Option<CliNetworkArgs>,
        dir: &AccountDirectory,
        script: &OperatorScript,
    ) -> (r: Result<NetworkArgs, PipelineError>)
        ensures
            r == spec_from_network_args(optional_clap_variant, dir.records@, *script),
    {
        let (pre, inner) = match optional_clap_variant {
            Some(c) => (c.connection_config, c.send_from),
            None => (None, None),
        };
        let connection_config = match pre {
            Some(c) => c,
            None => {
                if script.server_selection == 1 {
                    ConnectionConfig::Mainnet
                } else if script.server_selection == 2 {
                    ConnectionConfig::Betanet
                } else {
                    ConnectionConfig::Testnet
                }
            },
        };
        let context = TransferCommandNetworkContext {
            connection_config: Some(connection_config.clone()),
        };
        match Sender::from_cli(inner, context, dir, script) {
            Ok(send_from) => Ok(NetworkArgs { connection_config, send_from }),
            Err(e) => Err(e),
        }
    }
}

impl Mode {
    /// Resolves the chosen mode.
    pub fn from(item: CliMode, dir: &AccountDirectory, script: &OperatorScript) -> (r: Result<
        Mode,
        PipelineError,
    >)
        ensures
            r == spec_from_mode(item, dir.records@, *script),
    {
        match item {
            CliMode::Network(cli_network_args) => {
                match NetworkArgs::from(Some(cli_network_args), dir, script) {
                    Ok(a) => Ok(Mode::Network(a)),
                    Err(e) => Err(e),
                }
            },
            CliMode::Offline(cli_offline_args) => {
                match OfflineArgs::from(Some(cli_offline_args), dir, script) {
                    Ok(a) => Ok(Mode::Offline(a)),
                    Err(e) => Err(e),
                }
            },
        }
    }

    /// Resolves the mode from the menu where none was pre-supplied: online
    /// first, offline second.
    pub fn choose_mode(dir: &AccountDirectory, script: &OperatorScript) -> (r: Result<
        Mode,
        PipelineError,
    >)
        ensures
            r == spec_from_mode(
                if script.mode_selection == 0 {
                    CliMode::Network(CliNetworkArgs { connection_config: None, send_from: None })
                } else {
                    CliMode::Offline(CliOfflineArgs { send_from: None })
                },
                dir.records@,
                *script,
            ),
    {
        if script.mode_selection == 0 {
            Mode::from(
                CliMode::Network(CliNetworkArgs { connection_config: None, send_from: None }),
                dir,
                script,
            )
        } else {
            Mode::from(CliMode::Offline(CliOfflineArgs { send_from: None }), dir, script)
        }
    }
}

impl OperationMode {
    /// Resolves the whole invocation from its flags and the script.
    pub fn from(item: CliOperationMode, dir: &AccountDirectory, script: &OperatorScript) -> (r:
        Result<OperationMode, PipelineError>)
        ensures
            r == spec_from_operation_mode(item, dir.records@, *script),
    {
        let mode = match item.mode {
            Some(cli_mode) => Mode::from(cli_mode, dir, script),
            None => Mode::choose_mode(dir, script),
        };
        match mode {
            Ok(mode) => Ok(OperationMode { mode }),
            Err(e) => Err(e),
        }
    }
}

/// The connection of a resolved mode; its absence is offline operation, and
/// it never changes mid-pipeline.
pub open spec fn spec_mode_connection(m: Mode) -> Option<ConnectionConfig> {
    match m {
        Mode::Network(args) => Some(args.connection_config),
        Mode::Offline(_) => None,
    }
}

/// The resolved sender chain of a mode.
pub open spec fn spec_mode_sender(m: Mode) -> Sender {
    match m {
        Mode::Network(args) => args.send_from,
        Mode::Offline(args) => args.send_from,
    }
}

/// One finished run: what the sign step produced, and how submission ended.
#[derive(Debug)]
pub struct PipelineRun {
    pub sign_outcome: SignOutcome,
    pub submit_outcome: SubmitOutcome,
}

/// Runs a whole transfer: resolution, staging, signing and submission, with
/// the operator's decisions scripted and the network's broadcast replies
/// given. Offline, the run never broadcasts: the signed record's transport
/// text is only displayed. Online with the send choice, the broadcast loop
/// retries transient errors and ends on the first decisive reply.
pub fn run_transfer_command(
    cli: CliOperationMode,
    prepopulated_unsigned_transaction: UnsignedTransaction,
    dir: &AccountDirectory,
    script: &OperatorScript,
    replies: Vec<BroadcastReply>,
) -> (r: Result<PipelineRun, PipelineError>)
    ensures
        ({
            let resolved = spec_from_operation_mode(cli, dir.records@, *script);
            match resolved {
                Err(e) => r == Err::<PipelineRun, PipelineError>(e),
                Ok(om) => {
                    let conn = spec_mode_connection(om.mode);
                    let sender = spec_mode_sender(om.mode);
                    let action = sender.send_to.transfer->Amount_0;
                    match spec_sign_key(action.sign_option) {
                        Some(key) => {
                            &&& r is Ok <==> is_signing_key_literal(key)
                            &&& !is_signing_key_literal(key) ==> r == Err::<
                                PipelineRun,
                                PipelineError,
                            >(PipelineError::Sign(SignError::InvalidKey))
                            &&& r is Ok ==> ({
                                let run = r->Ok_0;
                                let rec = run.sign_outcome->Signed_0;
                                &&& run.sign_outcome is Signed
                                &&& rec.transaction.signer_id == sender.sender_account_id.0
                                &&& rec.transaction.receiver_id
                                    == sender.send_to.receiver_account_id.0
                                &&& rec.transaction.actions@ == prepopulated_unsigned_transaction.actions@.push(
                                    Action::Transfer { deposit: action.amount.yocto },
                                )
                                &&& rec.transaction.public_key
                                    == prepopulated_unsigned_transaction.public_key
                                &&& rec.transaction.nonce
                                    == prepopulated_unsigned_transaction.nonce
                                &&& rec.transaction.block_hash
                                    == prepopulated_unsigned_transaction.block_hash
                                &&& rec.signed_bytes@ == spec_signed_bytes(rec.transaction, key)
                                &&& conn is None ==> run.submit_outcome is Displayed
                                    && run.submit_outcome->Displayed_encoded == rec.base64_text
                                &&& conn is Some && spec_choose_submit(
                                    true,
                                    script.submit_selection as int,
                                ) == Submit::Send ==> run.submit_outcome
                                    == spec_broadcast_outcome(replies@)
                                &&& conn is Some && spec_choose_submit(
                                    true,
                                    script.submit_selection as int,
                                ) == Submit::Display ==> run.submit_outcome is Displayed
                                    && run.submit_outcome->Displayed_encoded == rec.base64_text
                            })
                        },
                        None => r is Ok && r->Ok_0.sign_outcome is DisplayUnsigned
                            && r->Ok_0.submit_outcome is Displayed
                            && r->Ok_0.submit_outcome->Displayed_encoded
                            == r->Ok_0.sign_outcome->DisplayUnsigned_encoded,
                    }
                },
            }
        }),
{
    let om = match OperationMode::from(cli, dir, script) {
        Ok(om) => om,
        Err(e) => {
            return Err(e);
        },
    };
    let (conn, sender) = match om.mode {
        Mode::Network(args) => (Some(args.connection_config), args.send_from),
        Mode::Offline(args) => (None, args.send_from),
    };
    let sign_outcome = match sender.process(prepopulated_unsigned_transaction) {
        Ok(s) => s,
        Err(e) => {
            return Err(PipelineError::Sign(e));
        },
    };
    let submit_outcome = match &sign_outcome {
        SignOutcome::Signed(rec) => {
            let submit = Submit::choose_submit(&conn, script.submit_selection);
            submit.process_online(rec.base64_text.clone(), replies)
        },
        SignOutcome::DisplayUnsigned { encoded } => SubmitOutcome::Displayed {
            encoded: encoded.clone(),
        },
    };
    Ok(PipelineRun { sign_outcome, submit_outcome })
}

} // verus!
