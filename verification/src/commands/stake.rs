//! The staking step of the action chain builder: resolve one stake action —
//! its amount bounded by the queried balance, its public key — then either
//! another action follows or the terminal choice passes to signing. The
//! staged actions land on the record in the order chosen, and the chain is
//! replayed as a loop, not by unbounded recursion.

use vstd::prelude::*;

verus! {

use crate::PipelineError;
use crate::account::AccountDirectory;
use crate::balance::{NearBalance, spec_dec_digits};
use crate::commands::transfer::spec_balance_bound;
use crate::context::SenderContext;
use crate::crypto::is_signing_key_literal;
use crate::resolver::{OperatorScript, ResolveError, resolve_amount, spec_resolve_amount};
use crate::sign::{CliSignTransaction, SignError, SignOutcome, SignTransaction,
    resolve_sign_option, spec_resolve_sign_option, spec_sign_cli_args, spec_sign_key,
    spec_signed_bytes};
use crate::transaction::{Action, PublicKey, UnsignedTransaction};
use std::collections::VecDeque;

/// The command-line form of one stake step and what follows it.
#[derive(Debug)]
pub struct CliStakeNEARTokensAction {
    pub stake: Option<NearBalance>,
    pub public_key: Option<PublicKey>,
    pub next_action: Option<Box<CliSkipNextAction>>,
}

/// The command-line form of the terminal choice.
#[derive(Debug)]
pub struct CliSkipAction {
    pub sign_option: Option<CliSignTransaction>,
}

/// The command-line form of the next-action choice: stage another action, or
/// skip to signing.
#[derive(Debug)]
pub enum CliSkipNextAction {
    AddAction(CliStakeNEARTokensAction),
    Skip(CliSkipAction),
}

/// One resolved stake step and what follows it.
#[derive(Debug)]
pub struct StakeNEARTokensAction {
    pub stake: NearBalance,
    pub public_key: PublicKey,
    pub next_action: Box<NextAction>,
}

/// The resolved terminal choice: the signing selection.
#[derive(Debug)]
pub struct SkipAction {
    pub sign_option: SignTransaction,
}

/// The resolved next-action choice.
#[derive(Debug)]
pub enum NextAction {
    AddAction(StakeNEARTokensAction),
    Skip(SkipAction),
}

/// The command-line words of one stake step and its continuation.
pub open spec fn spec_stake_cli_args(c: CliStakeNEARTokensAction) -> Seq<Seq<char>>
    decreases c,
{
    let tail = match c.next_action {
        Some(n) => spec_skip_next_cli_args(*n),
        None => Seq::<Seq<char>>::empty(),
    };
    let with_pk = match c.public_key {
        Some(pk) => seq![pk.text@] + tail,
        None => tail,
    };
    match c.stake {
        Some(b) => seq![spec_dec_digits(b.yocto as nat) + "yoctonear"@] + with_pk,
        None => with_pk,
    }
}

/// The command-line words of a next-action choice.
pub open spec fn spec_skip_next_cli_args(n: CliSkipNextAction) -> Seq<Seq<char>>
    decreases n,
{
    match n {
        CliSkipNextAction::AddAction(c) => spec_stake_cli_args(c),
        CliSkipNextAction::Skip(s) => match s.sign_option {
            Some(so) => spec_sign_cli_args(so),
            None => Seq::<Seq<char>>::empty(),
        },
    }
}

impl CliStakeNEARTokensAction {
    /// The flag form of a resolved stake step: its amount and key carried
    /// over, with whatever continuation it had collapsed to the terminal
    /// skip marker, as the flag printer expects.
    pub fn from_stake_action(stake_near_tokens_action: StakeNEARTokensAction) -> (r:
        CliStakeNEARTokensAction)
        ensures
            r.stake == Some(stake_near_tokens_action.stake),
            r.public_key == Some(stake_near_tokens_action.public_key),
            ({
                &&& r.next_action is Some
                &&& (*r.next_action->0) is Skip
                &&& (*r.next_action->0)->Skip_0.sign_option is None
            }),
    {
        CliStakeNEARTokensAction {
            stake: Some(stake_near_tokens_action.stake),
            public_key: Some(stake_near_tokens_action.public_key),
            next_action: Some(
                Box::new(CliSkipNextAction::Skip(CliSkipAction { sign_option: None })),
            ),
        }
    }

    /// The command-line words that reproduce this step and its continuation.
    pub fn to_cli_args(&self) -> (r: VecDeque<String>)
        ensures
            r@.map_values(|s: String| s@) =~= spec_stake_cli_args(*self),
        decreases *self,
    {
        let mut args: VecDeque<String> = match &self.next_action {
            Some(subcommand) => subcommand.to_cli_args(),
            None => VecDeque::new(),
        };
        if let Some(public_key) = &self.public_key {
            args.push_front(public_key.text.clone());
        }
        if let Some(stake) = &self.stake {
            args.push_front(stake.to_yocto_literal());
        }
        proof {
            assert(args@.map_values(|s: String| s@) =~= spec_stake_cli_args(*self));
        }
        args
    }
}

impl CliSkipNextAction {
    /// The command-line words that reproduce this choice.
    pub fn to_cli_args(&self) -> (r: VecDeque<String>)
        ensures
            r@.map_values(|s: String| s@) =~= spec_skip_next_cli_args(*self),
        decreases *self,
    {
        match self {
            CliSkipNextAction::AddAction(c) => c.to_cli_args(),
            CliSkipNextAction::Skip(s) => match &s.sign_option {
                Some(so) => so.to_cli_args(),
                None => VecDeque::new(),
            },
        }
    }
}

/// Whether the whole pre-supplied chain resolves without prompting beyond the
/// scripted answers: the first step's fields may come from the script, deeper
/// steps must be fully pre-supplied and within the balance bound, and the
/// terminal signing selection must resolve.
pub open spec fn spec_stake_resolvable(
    c: CliStakeNEARTokensAction,
    bound: Option<u128>,
    script: OperatorScript,
) -> bool
    decreases c,
{
    let pre = match c.stake {
        Some(b) => Some(b.yocto),
        None => None,
    };
    &&& spec_resolve_amount(
        pre,
        bound,
        script.amount_answers@.map_values(|a: NearBalance| a.yocto),
    ) is Some
    &&& (c.public_key is Some || script.public_key_answers@.len() > 0)
    &&& match c.next_action {
        None => spec_resolve_sign_option(
            None,
            script.sign_menu_selection as int,
            script.entered_keys@,
            script.keychain_key,
        ) is Ok,
        Some(n) => spec_skip_next_resolvable(*n, bound, script),
    }
}

/// Whether a next-action choice resolves.
pub open spec fn spec_skip_next_resolvable(
    n: CliSkipNextAction,
    bound: Option<u128>,
    script: OperatorScript,
) -> bool
    decreases n,
{
    match n {
        CliSkipNextAction::AddAction(c) => spec_stake_resolvable(c, bound, script),
        CliSkipNextAction::Skip(s) => spec_resolve_sign_option(
            s.sign_option,
            script.sign_menu_selection as int,
            script.entered_keys@,
            script.keychain_key,
        ) is Ok,
    }
}

/// Whether the resolved chain is exactly what the pre-supplied chain and the
/// script determine, step for step.
pub open spec fn spec_stake_matches(
    r: StakeNEARTokensAction,
    c: CliStakeNEARTokensAction,
    bound: Option<u128>,
    script: OperatorScript,
) -> bool
    decreases r,
{
    let pre = match c.stake {
        Some(b) => Some(b.yocto),
        None => None,
    };
    &&& Some(r.stake.yocto) == spec_resolve_amount(
        pre,
        bound,
        script.amount_answers@.map_values(|a: NearBalance| a.yocto),
    )
    &&& match c.public_key {
        Some(pk) => r.public_key == pk,
        None => r.public_key.text == script.public_key_answers@[0].text
            && r.public_key.data@ == script.public_key_answers@[0].data@,
    }
    &&& match c.next_action {
        None => *r.next_action is Skip && Ok::<SignTransaction, SignError>(
            (*r.next_action)->Skip_0.sign_option,
        ) == spec_resolve_sign_option(
            None,
            script.sign_menu_selection as int,
            script.entered_keys@,
            script.keychain_key,
        ),
        Some(n) => spec_skip_next_matches(*r.next_action, *n, bound, script),
    }
}

/// Whether a resolved next-action choice matches its pre-supplied form.
pub open spec fn spec_skip_next_matches(
    r: NextAction,
    n: CliSkipNextAction,
    bound: Option<u128>,
    script: OperatorScript,
) -> bool
    decreases r,
{
    match n {
        CliSkipNextAction::AddAction(c) => r is AddAction && spec_stake_matches(
            r->AddAction_0,
            c,
            bound,
            script,
        ),
        CliSkipNextAction::Skip(s) => r is Skip && Ok::<SignTransaction, SignError>(
            r->Skip_0.sign_option,
        ) == spec_resolve_sign_option(
            s.sign_option,
            script.sign_menu_selection as int,
            script.entered_keys@,
            script.keychain_key,
        ),
    }
}

impl StakeNEARTokensAction {
    /// Resolves one stake step and its continuation: the stake bounded by the
    /// sender's queried balance, the public key from the flags or the
    /// script's entries, and the rest of the chain as pre-supplied; an
    /// unsupplied continuation is the terminal choice.
    pub fn from(
        optional_clap_variant: Option<CliStakeNEARTokensAction>,
        context: &SenderContext,
        dir: &AccountDirectory,
        script: &OperatorScript,
    ) -> (r: Result<StakeNEARTokensAction, PipelineError>)
        ensures
            ({
                let cli = match optional_clap_variant {
                    Some(c) => c,
                    None => CliStakeNEARTokensAction {
                        stake: None,
                        public_key: None,
                        next_action: None,
                    },
                };
                let bound = spec_balance_bound(
                    context.connection_config is Some,
                    dir.records@,
                    context.sender_account_id@,
                );
                match r {
                    Ok(a) => spec_stake_resolvable(cli, bound, *script) && spec_stake_matches(
                        a,
                        cli,
                        bound,
                        *script,
                    ),
                    Err(_) => !spec_stake_resolvable(cli, bound, *script),
                }
            }),
    {
        let cli = match optional_clap_variant {
            Some(c) => c,
            None => CliStakeNEARTokensAction { stake: None, public_key: None, next_action: None },
        };
        StakeNEARTokensAction::from_cli_variant(cli, context, dir, script)
    }

    /// Resolves one pre-supplied stake step and its continuation.
    pub fn from_cli_variant(
        cli: CliStakeNEARTokensAction,
        context: &SenderContext,
        dir: &AccountDirectory,
        script: &OperatorScript,
    ) -> (r: Result<StakeNEARTokensAction, PipelineError>)
        ensures
            ({
                let bound = spec_balance_bound(
                    context.connection_config is Some,
                    dir.records@,
                    context.sender_account_id@,
                );
                match r {
                    Ok(a) => spec_stake_resolvable(cli, bound, *script) && spec_stake_matches(
                        a,
                        cli,
                        bound,
                        *script,
                    ),
                    Err(_) => !spec_stake_resolvable(cli, bound, *script),
                }
            }),
        decreases cli,
    {
        let ghost cli0: CliStakeNEARTokensAction = cli;
        let bound = if context.connection_config.is_some() {
            match dir.lookup(&context.sender_account_id.0) {
                Some(b) => Some(NearBalance::from_yoctonear(b)),
                None => Some(NearBalance::from_yoctonear(0)),
            }
        } else {
            None
        };
        let stake = match resolve_amount(cli.stake, bound, &script.amount_answers) {
            Ok(a) => a,
            Err(_) => {
                return Err(PipelineError::Resolve(ResolveError::ValidationExhausted));
            },
        };
        let public_key = match cli.public_key {
            Some(pk) => pk,
            None => {
                if script.public_key_answers.len() > 0 {
                    script.public_key_answers[0].clone()
                } else {
                    return Err(PipelineError::Resolve(ResolveError::ValidationExhausted));
                }
            },
        };
        let next_action = match cli.next_action {
            None => {
                match resolve_sign_option(
                    None,
                    script.sign_menu_selection,
                    &script.entered_keys,
                    &script.keychain_key,
                ) {
                    Ok(sign_option) => NextAction::Skip(SkipAction { sign_option }),
                    Err(e) => {
                        return Err(PipelineError::Sign(e));
                    },
                }
            },
            Some(n) => {
                match NextAction::from_cli_skip_next_action(*n, context, dir, script) {
                    Ok(na) => na,
                    Err(e) => {
                        return Err(e);
                    },
                }
            },
        };
        let result = StakeNEARTokensAction { stake, public_key, next_action: Box::new(next_action) };
        proof {
            let bound_spec = spec_balance_bound(
                context.connection_config is Some,
                dir.records@,
                context.sender_account_id@,
            );
            assert(spec_stake_resolvable(cli0, bound_spec, *script));
            assert(spec_stake_matches(result, cli0, bound_spec, *script));
        }
        Ok(result)
    }

    /// Stages this stake, then each further action of the chain in order, and
    /// signs at the terminal choice: the staged actions are the old ones
    /// followed by the chain's, nothing reordered, nothing dropped.
    #[verifier::loop_isolation(false)]
    pub fn process(self, prepopulated_unsigned_transaction: UnsignedTransaction) -> (r: Result<
        SignOutcome,
        SignError,
    >)
        ensures
            ({
                let staged = seq![
                    Action::Stake { stake: self.stake.yocto, public_key: self.public_key },
                ] + spec_chain_actions(*self.next_action);
                match spec_sign_key(spec_chain_sign(*self.next_action)) {
                    Some(key) => {
                        &&& r is Ok <==> is_signing_key_literal(key)
                        &&& r is Err ==> r->Err_0 == SignError::InvalidKey
                        &&& r is Ok ==> ({
                            let rec = r->Ok_0->Signed_0;
                            &&& r->Ok_0 is Signed
                            &&& rec.transaction.actions@
                                == prepopulated_unsigned_transaction.actions@ + staged
                            &&& rec.transaction.signer_id
                                == prepopulated_unsigned_transaction.signer_id
                            &&& rec.transaction.receiver_id
                                == prepopulated_unsigned_transaction.receiver_id
                            &&& rec.transaction.public_key
                                == prepopulated_unsigned_transaction.public_key
                            &&& rec.transaction.nonce
                                == prepopulated_unsigned_transaction.nonce
                            &&& rec.transaction.block_hash
                                == prepopulated_unsigned_transaction.block_hash
                            &&& rec.signed_bytes@ == spec_signed_bytes(rec.transaction, key)
                        })
                    },
                    None => r is Ok && r->Ok_0 is DisplayUnsigned,
                }
            }),
    {
        let ghost self0: StakeNEARTokensAction = self;
        let mut unsigned_transaction = prepopulated_unsigned_transaction;
        let ghost tx0: UnsignedTransaction = unsigned_transaction;
        let ghost target: Seq<Action> = unsigned_transaction.actions@ + seq![
            Action::Stake { stake: self.stake.yocto, public_key: self.public_key },
        ] + spec_chain_actions(*self.next_action);
        let ghost sign_target = spec_chain_sign(*self.next_action);
        unsigned_transaction.append_action(
            Action::Stake { stake: self.stake.to_yoctonear(), public_key: self.public_key },
        );
        let mut cur: NextAction = *self.next_action;
        loop
            invariant
                unsigned_transaction.actions@ + spec_chain_actions(cur) =~= target,
                spec_chain_sign(cur) == sign_target,
                unsigned_transaction.signer_id == prepopulated_unsigned_transaction.signer_id,
                unsigned_transaction.receiver_id
                    == prepopulated_unsigned_transaction.receiver_id,
                unsigned_transaction.public_key == prepopulated_unsigned_transaction.public_key,
                unsigned_transaction.nonce == prepopulated_unsigned_transaction.nonce,
                unsigned_transaction.block_hash
                    == prepopulated_unsigned_transaction.block_hash,
            decreases cur,
        {
            match cur {
                NextAction::AddAction(select_action) => {
                    unsigned_transaction.append_action(
                        Action::Stake {
                            stake: select_action.stake.to_yoctonear(),
                            public_key: select_action.public_key,
                        },
                    );
                    cur = *select_action.next_action;
                    proof {
                        assert(unsigned_transaction.actions@ + spec_chain_actions(cur)
                            =~= target);
                    }
                },
                NextAction::Skip(skip_action) => {
                    proof {
                        assert(unsigned_transaction.actions@ =~= target);
                        assert(target =~= tx0.actions@ + (seq![
                            Action::Stake { stake: self0.stake.yocto, public_key: self0.public_key },
                        ] + spec_chain_actions(*self0.next_action)));
                        assert(spec_chain_sign(cur) == skip_action.sign_option);
                    }
                    return skip_action.sign_option.process(unsigned_transaction);
                },
            }
        }
    }
}

/// The actions a resolved chain stages, in order.
pub open spec fn spec_chain_actions(n: NextAction) -> Seq<Action>
    decreases n,
{
    match n {
        NextAction::AddAction(s) => seq![
            Action::Stake { stake: s.stake.yocto, public_key: s.public_key },
        ] + spec_chain_actions(*s.next_action),
        NextAction::Skip(_) => Seq::<Action>::empty(),
    }
}

/// The signing selection the chain ends in.
pub open spec fn spec_chain_sign(n: NextAction) -> SignTransaction
    decreases n,
{
    match n {
        NextAction::AddAction(s) => spec_chain_sign(*s.next_action),
        NextAction::Skip(sk) => sk.sign_option,
    }
}

impl NextAction {
    /// Resolves a pre-supplied next-action choice: another fully pre-supplied
    /// stake step, or the terminal choice with its signing selection.
    pub fn from_cli_skip_next_action(
        item: CliSkipNextAction,
        context: &SenderContext,
        dir: &AccountDirectory,
        script: &OperatorScript,
    ) -> (r: Result<NextAction, PipelineError>)
        ensures
            ({
                let bound = spec_balance_bound(
                    context.connection_config is Some,
                    dir.records@,
                    context.sender_account_id@,
                );
                match r {
                    Ok(na) => spec_skip_next_resolvable(item, bound, *script)
                        && spec_skip_next_matches(na, item, bound, *script),
                    Err(_) => !spec_skip_next_resolvable(item, bound, *script),
                }
            }),
        decreases item,
    {
        match item {
            CliSkipNextAction::AddAction(cli_select_action) => {
                match StakeNEARTokensAction::from_cli_variant(cli_select_action, context, dir, script) {
                    Ok(a) => Ok(NextAction::AddAction(a)),
                    Err(e) => Err(e),
                }
            },
            CliSkipNextAction::Skip(cli_skip_action) => {
                match resolve_sign_option(
                    cli_skip_action.sign_option,
                    script.sign_menu_selection,
                    &script.entered_keys,
                    &script.keychain_key,
                ) {
                    Ok(sign_option) => Ok(NextAction::Skip(SkipAction { sign_option })),
                    Err(e) => Err(PipelineError::Sign(e)),
                }
            },
        }
    }
}

} // verus!
