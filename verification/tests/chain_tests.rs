//! The action chain and the other command families: staging order, context
//! narrowing, and the printable flag forms.

use near_cli::account::{AccountDirectory, AccountId};
use near_cli::balance::NearBalance;
use near_cli::clapgen::{gen, FieldArgs, StructArgs};
use near_cli::context::{ConnectionConfig, DeleteAccessKeyCommandNetworkContext, SenderContext,
    TransferCommandNetworkContext};
use near_cli::commands::add_access_key::{CliFullAccessType, FullAccessType};
use near_cli::commands::delete_account;
use near_cli::commands::stake::{
    CliSkipAction, CliSkipNextAction, CliStakeNEARTokensAction, StakeNEARTokensAction,
};
use near_cli::resolver::OperatorScript;
use near_cli::sign::{CliSignTransaction, SignOutcome};
use near_cli::transaction::{Action, PublicKey, UnsignedTransaction};

const NEAR: u128 = 1_000_000_000_000_000_000_000_000;

fn empty_script() -> OperatorScript {
    OperatorScript {
        mode_selection: 0,
        server_selection: 0,
        sender_answers: vec![],
        receiver_answers: vec![],
        amount_answers: vec![],
        public_key_answers: vec![],
        sign_menu_selection: 0,
        entered_keys: vec![],
        keychain_key: None,
        submit_selection: 0,
    }
}

fn key_literal() -> String {
    near_crypto::SecretKey::from_seed(near_crypto::KeyType::ED25519, "chain-test").to_string()
}

fn stake_public_key() -> PublicKey {
    let pk = near_crypto::PublicKey::from_seed(near_crypto::KeyType::ED25519, "validator");
    PublicKey {
        text: pk.to_string(),
        data: borsh::to_vec(&pk).unwrap(),
    }
}

#[test]
fn stake_chain_stages_actions_in_order() {
    let dir = {
        let mut d = AccountDirectory::new();
        d.add("val.test".to_string(), 100 * NEAR);
        d
    };
    let context = SenderContext {
        connection_config: Some(ConnectionConfig::Testnet),
        sender_account_id: AccountId("val.test".to_string()),
    };
    let script = empty_script();
    let cli = CliStakeNEARTokensAction {
        stake: NearBalance::from_text("10NEAR"),
        public_key: Some(stake_public_key()),
        next_action: Some(Box::new(CliSkipNextAction::AddAction(
            CliStakeNEARTokensAction {
                stake: NearBalance::from_text("20NEAR"),
                public_key: Some(stake_public_key()),
                next_action: Some(Box::new(CliSkipNextAction::Skip(CliSkipAction {
                    sign_option: Some(CliSignTransaction::SignPrivateKey {
                        signer_private_key: Some(key_literal()),
                    }),
                }))),
            },
        ))),
    };
    let action = StakeNEARTokensAction::from(Some(cli), &context, &dir, &script).unwrap();
    let outcome = action.process(UnsignedTransaction::empty()).unwrap();
    match outcome {
        SignOutcome::Signed(rec) => {
            assert_eq!(rec.transaction.actions.len(), 2);
            match &rec.transaction.actions[0] {
                Action::Stake { stake, .. } => assert_eq!(*stake, 10 * NEAR),
                other => panic!("expected a stake, got {:?}", other),
            }
            match &rec.transaction.actions[1] {
                Action::Stake { stake, .. } => assert_eq!(*stake, 20 * NEAR),
                other => panic!("expected a stake, got {:?}", other),
            }
        }
        other => panic!("expected a signed record, got {:?}", other),
    }
}

#[test]
fn stake_over_balance_is_rejected() {
    let dir = {
        let mut d = AccountDirectory::new();
        d.add("val.test".to_string(), NEAR);
        d
    };
    let context = SenderContext {
        connection_config: Some(ConnectionConfig::Testnet),
        sender_account_id: AccountId("val.test".to_string()),
    };
    let script = empty_script();
    let cli = CliStakeNEARTokensAction {
        stake: NearBalance::from_text("10NEAR"),
        public_key: Some(stake_public_key()),
        next_action: None,
    };
    assert!(StakeNEARTokensAction::from(Some(cli), &context, &dir, &script).is_err());
}

#[test]
fn stake_chain_prints_its_flags_back() {
    let cli = CliStakeNEARTokensAction {
        stake: Some(NearBalance::from_yoctonear(100)),
        public_key: Some(stake_public_key()),
        next_action: Some(Box::new(CliSkipNextAction::Skip(CliSkipAction {
            sign_option: Some(CliSignTransaction::SignWithKeychain),
        }))),
    };
    let args: Vec<String> = cli.to_cli_args().into_iter().collect();
    assert_eq!(args.len(), 3);
    assert_eq!(args[0], "100yoctonear");
    assert_eq!(args[1], stake_public_key().text);
    assert_eq!(args[2], "sign-with-keychain");
}

#[test]
fn full_access_grant_prints_and_stages() {
    let empty = CliFullAccessType { sign_option: None };
    assert_eq!(empty.to_cli_args().len(), 0);

    let cli = CliFullAccessType {
        sign_option: Some(CliSignTransaction::SignPrivateKey {
            signer_private_key: Some(key_literal()),
        }),
    };
    let args: Vec<String> = cli.to_cli_args().into_iter().collect();
    assert_eq!(args[0], "sign-private-key");
    assert_eq!(args[1], key_literal());

    let script = empty_script();
    let step = FullAccessType::from(cli, 0, &script.entered_keys, &script.keychain_key).unwrap();
    let tx = UnsignedTransaction::empty().with_signer_and_receiver(
        "owner.test".to_string(),
        "owner.test".to_string(),
    );
    match step.process(7, tx, stake_public_key()).unwrap() {
        SignOutcome::Signed(rec) => {
            assert_eq!(rec.transaction.actions.len(), 1);
            match &rec.transaction.actions[0] {
                Action::AddFullAccessKey { nonce, .. } => assert_eq!(*nonce, 7),
                other => panic!("expected a key grant, got {:?}", other),
            }
        }
        other => panic!("expected a signed record, got {:?}", other),
    }
}

#[test]
fn deleted_account_signs_its_own_deletion() {
    let dir = {
        let mut d = AccountDirectory::new();
        d.add("doomed.test".to_string(), NEAR);
        d.add("heir.test".to_string(), 0);
        d
    };
    let conn = Some(ConnectionConfig::Testnet);
    let script = empty_script();
    let cli = delete_account::CliSender {
        sender_account_id: Some("doomed.test".to_string()),
        send_to: Some(delete_account::CliSendTo::Beneficiary(
            delete_account::CliDeleteAccountAction {
                beneficiary_id: Some(AccountId("heir.test".to_string())),
                sign_option: Some(CliSignTransaction::SignPrivateKey {
                    signer_private_key: Some(key_literal()),
                }),
            },
        )),
    };
    let sender = delete_account::Sender::from(cli, &conn, &dir, &script).unwrap();
    match sender.process(UnsignedTransaction::empty()).unwrap() {
        SignOutcome::Signed(rec) => {
            assert_eq!(rec.transaction.signer_id, "doomed.test");
            assert_eq!(rec.transaction.receiver_id, "doomed.test");
            match &rec.transaction.actions[0] {
                Action::DeleteAccount { beneficiary_id } => {
                    assert_eq!(beneficiary_id, "heir.test")
                }
                other => panic!("expected a deletion, got {:?}", other),
            }
        }
        other => panic!("expected a signed record, got {:?}", other),
    }
}

#[test]
fn context_narrows_without_changing_the_connection() {
    let parent = TransferCommandNetworkContext {
        connection_config: Some(ConnectionConfig::Mainnet),
    };
    let child =
        SenderContext::from_previous_context(parent, AccountId("signer.test".to_string()));
    match child.connection_config {
        Some(ConnectionConfig::Mainnet) => {}
        other => panic!("the connection must pass down unchanged, got {:?}", other),
    }
    assert_eq!(child.sender_account_id.0, "signer.test");

    let parent2 = DeleteAccessKeyCommandNetworkContext { connection_config: None };
    let child2 = SenderContext::from_previous_context_for_delete_access_key(
        parent2,
        AccountId("x".to_string()),
    );
    assert!(child2.connection_config.is_none());
}

#[test]
fn resolved_stake_collapses_to_the_terminal_flag_form() {
    let resolved = {
        let dir = {
            let mut d = AccountDirectory::new();
            d.add("val.test".to_string(), 100 * NEAR);
            d
        };
        let context = SenderContext {
            connection_config: Some(ConnectionConfig::Testnet),
            sender_account_id: AccountId("val.test".to_string()),
        };
        let cli = CliStakeNEARTokensAction {
            stake: Some(NearBalance::from_yoctonear(500)),
            public_key: Some(stake_public_key()),
            next_action: None,
        };
        let mut script = empty_script();
        script.sign_menu_selection = 2;
        StakeNEARTokensAction::from(Some(cli), &context, &dir, &script).unwrap()
    };
    let flags = CliStakeNEARTokensAction::from_stake_action(resolved);
    let args: Vec<String> = flags.to_cli_args().into_iter().collect();
    // The continuation collapses to the bare skip marker, which prints no
    // words of its own.
    assert_eq!(args, vec!["500yoctonear".to_string(), stake_public_key().text]);
}

#[test]
fn appended_actions_stay_in_order_with_no_drops() {
    let mut tx = UnsignedTransaction::empty();
    let appended = vec![
        Action::Transfer { deposit: 1 },
        Action::DeleteAccount {
            beneficiary_id: "heir.test".to_string(),
        },
        Action::Transfer { deposit: 2 },
    ];
    tx.append_actions(appended);
    assert_eq!(tx.actions.len(), 3);
    assert!(matches!(tx.actions[0], Action::Transfer { deposit: 1 }));
    assert!(matches!(tx.actions[1], Action::DeleteAccount { .. }));
    assert!(matches!(tx.actions[2], Action::Transfer { deposit: 2 }));
}

#[test]
fn companion_struct_plan_suffixes_and_wraps() {
    let args = StructArgs {
        ident: "Transfer".to_string(),
        fields: vec![
            FieldArgs {
                ident: Some("amount".to_string()),
                ty: "Balance".to_string(),
                single: false,
                subcommand: false,
            },
            FieldArgs {
                ident: Some("next".to_string()),
                ty: "NextStep".to_string(),
                single: true,
                subcommand: true,
            },
        ],
    };
    let plan = gen(&args);
    assert_eq!(plan.name, "TransferClapVariant");
    assert_eq!(plan.fields.len(), 2);
    assert_eq!(plan.fields[0].ty, "Option<Balance>");
    assert_eq!(plan.fields[1].ty, "Option<TransferClapVariantPassThru>");
    let passthru = plan.passthru.unwrap();
    assert_eq!(passthru.ident, "TransferClapVariantPassThru");
    assert_eq!(passthru.inner_ty, "NextStep");
}
