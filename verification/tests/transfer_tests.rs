//! The whole transfer pipeline over a scripted operator and a stubbed
//! network.

use near_cli::account::{AccountDirectory, AccountId};
use near_cli::balance::NearBalance;
use near_cli::context::ConnectionConfig;
use near_cli::commands::transfer::{
    run_transfer_command, CliMode, CliNetworkArgs, CliOfflineArgs, CliOperationMode, CliReceiver,
    CliSender, CliTransfer, CliTransferNEARTokensAction,
};
use near_cli::resolver::OperatorScript;
use near_cli::sign::{CliSignTransaction, SignOutcome};
use near_cli::submit::{BroadcastReply, ExecutionOutcome, RpcErrorInfo, SubmitOutcome};
use near_cli::transaction::{Action, UnsignedTransaction};
use near_cli::PipelineError;

const NEAR: u128 = 1_000_000_000_000_000_000_000_000;

fn empty_script() -> OperatorScript {
    OperatorScript {
        mode_selection: 0,
        server_selection: 0,
        sender_answers: vec![],
        receiver_answers: vec![],
        amount_answers: vec![],
        public_key_answers: vec![],
        sign_menu_selection: 0,
        entered_keys: vec![],
        keychain_key: None,
        submit_selection: 0,
    }
}

fn key_literal() -> String {
    near_crypto::SecretKey::from_seed(near_crypto::KeyType::ED25519, "transfer-test").to_string()
}

fn ledger() -> AccountDirectory {
    let mut dir = AccountDirectory::new();
    dir.add("a".to_string(), 10 * NEAR);
    dir.add("b".to_string(), NEAR);
    dir
}

fn online_cli(amount: &str) -> CliOperationMode {
    CliOperationMode {
        mode: Some(CliMode::Network(CliNetworkArgs {
            connection_config: Some(ConnectionConfig::Testnet),
            send_from: Some(CliSender {
                sender_account_id: Some(AccountId("a".to_string())),
                send_to: Some(CliReceiver {
                    receiver_account_id: Some(AccountId("b".to_string())),
                    transfer: Some(CliTransfer::Amount(CliTransferNEARTokensAction {
                        amount: NearBalance::from_text(amount),
                        sign_option: Some(CliSignTransaction::SignPrivateKey {
                            signer_private_key: Some(key_literal()),
                        }),
                    })),
                }),
            }),
        })),
    }
}

#[test]
fn online_transfer_commits_and_stages_one_action() {
    let dir = ledger();
    let script = empty_script();
    let replies = vec![BroadcastReply::Committed(ExecutionOutcome {
        transaction_hash: "9zXr5wEv".to_string(),
    })];
    let run = run_transfer_command(
        online_cli("5NEAR"),
        UnsignedTransaction::empty(),
        &dir,
        &script,
        replies,
    )
    .unwrap();
    match &run.sign_outcome {
        SignOutcome::Signed(rec) => {
            assert_eq!(rec.transaction.signer_id, "a");
            assert_eq!(rec.transaction.receiver_id, "b");
            assert_eq!(rec.transaction.actions.len(), 1);
            match &rec.transaction.actions[0] {
                Action::Transfer { deposit } => assert_eq!(*deposit, 5 * NEAR),
                other => panic!("expected a transfer, got {:?}", other),
            }
        }
        other => panic!("expected a signed record, got {:?}", other),
    }
    match &run.submit_outcome {
        SubmitOutcome::Sent { outcome, attempts } => {
            assert_eq!(*attempts, 1);
            assert_eq!(outcome.transaction_hash, "9zXr5wEv");
        }
        other => panic!("expected a commit, got {:?}", other),
    }
}

#[test]
fn over_balance_amount_fails_in_a_scripted_run() {
    let dir = ledger();
    let script = empty_script();
    let r = run_transfer_command(
        online_cli("15NEAR"),
        UnsignedTransaction::empty(),
        &dir,
        &script,
        vec![],
    );
    match r {
        Err(PipelineError::Resolve(_)) => {}
        other => panic!("expected a validation error, got {:?}", other),
    }
}

#[test]
fn over_balance_amount_takes_the_reentered_value() {
    let dir = ledger();
    let mut script = empty_script();
    script.amount_answers = vec![
        NearBalance::from_text("12NEAR").unwrap(),
        NearBalance::from_text("9NEAR").unwrap(),
    ];
    let replies = vec![BroadcastReply::Committed(ExecutionOutcome {
        transaction_hash: "h".to_string(),
    })];
    let run = run_transfer_command(
        online_cli("15NEAR"),
        UnsignedTransaction::empty(),
        &dir,
        &script,
        replies,
    )
    .unwrap();
    match &run.sign_outcome {
        SignOutcome::Signed(rec) => match &rec.transaction.actions[0] {
            Action::Transfer { deposit } => assert_eq!(*deposit, 9 * NEAR),
            other => panic!("expected a transfer, got {:?}", other),
        },
        other => panic!("expected a signed record, got {:?}", other),
    }
}

#[test]
fn transient_errors_are_retried_to_the_commit() {
    let dir = ledger();
    let script = empty_script();
    let replies = vec![
        BroadcastReply::Failed(RpcErrorInfo {
            payload: Some("Timeout".to_string()),
        }),
        BroadcastReply::Failed(RpcErrorInfo {
            payload: Some("Timeout".to_string()),
        }),
        BroadcastReply::Committed(ExecutionOutcome {
            transaction_hash: "h2".to_string(),
        }),
    ];
    let run = run_transfer_command(
        online_cli("5NEAR"),
        UnsignedTransaction::empty(),
        &dir,
        &script,
        replies,
    )
    .unwrap();
    match &run.submit_outcome {
        SubmitOutcome::Sent { attempts, .. } => assert_eq!(*attempts, 3),
        other => panic!("expected a commit, got {:?}", other),
    }
}

#[test]
fn offline_run_displays_and_never_validates() {
    let dir = AccountDirectory::new();
    let mut script = empty_script();
    script.submit_selection = 0;
    let cli = CliOperationMode {
        mode: Some(CliMode::Offline(CliOfflineArgs {
            send_from: Some(CliSender {
                sender_account_id: Some(AccountId("no such account ~~".to_string())),
                send_to: Some(CliReceiver {
                    receiver_account_id: Some(AccountId("also made up".to_string())),
                    transfer: Some(CliTransfer::Amount(CliTransferNEARTokensAction {
                        amount: NearBalance::from_text("3NEAR"),
                        sign_option: Some(CliSignTransaction::SignPrivateKey {
                            signer_private_key: Some(key_literal()),
                        }),
                    })),
                }),
            }),
        })),
    };
    let run = run_transfer_command(cli, UnsignedTransaction::empty(), &dir, &script, vec![])
        .unwrap();
    match &run.sign_outcome {
        SignOutcome::Signed(rec) => {
            assert_eq!(rec.transaction.signer_id, "no such account ~~");
            assert_eq!(rec.transaction.receiver_id, "also made up");
            match &run.submit_outcome {
                SubmitOutcome::Displayed { encoded } => {
                    assert_eq!(*encoded, rec.base64_text);
                }
                other => panic!("offline must only display, got {:?}", other),
            }
        }
        other => panic!("expected a signed record, got {:?}", other),
    }
}

#[test]
fn bad_credential_aborts_the_run() {
    let dir = ledger();
    let script = empty_script();
    let mut cli = online_cli("5NEAR");
    if let Some(CliMode::Network(args)) = &mut cli.mode {
        if let Some(sender) = &mut args.send_from {
            if let Some(recv) = &mut sender.send_to {
                if let Some(CliTransfer::Amount(t)) = &mut recv.transfer {
                    t.sign_option = Some(CliSignTransaction::SignPrivateKey {
                        signer_private_key: Some("ed25519:garbage".to_string()),
                    });
                }
            }
        }
    }
    let r = run_transfer_command(cli, UnsignedTransaction::empty(), &dir, &script, vec![]);
    match r {
        Err(PipelineError::Sign(_)) => {}
        other => panic!("expected a signing error, got {:?}", other),
    }
}

#[test]
fn keychain_credential_is_missing_without_a_key() {
    let dir = ledger();
    let script = empty_script();
    let mut cli = online_cli("5NEAR");
    if let Some(CliMode::Network(args)) = &mut cli.mode {
        if let Some(sender) = &mut args.send_from {
            if let Some(recv) = &mut sender.send_to {
                if let Some(CliTransfer::Amount(t)) = &mut recv.transfer {
                    t.sign_option = Some(CliSignTransaction::SignWithKeychain);
                }
            }
        }
    }
    let r = run_transfer_command(cli, UnsignedTransaction::empty(), &dir, &script, vec![]);
    match r {
        Err(PipelineError::Sign(_)) => {}
        other => panic!("expected a credential error, got {:?}", other),
    }
}
