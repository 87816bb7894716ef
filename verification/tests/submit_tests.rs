//! The submission step: error classification, the retry loop, and the
//! offline-forced display mode.

use near_cli::context::ConnectionConfig;
use near_cli::submit::{
    available_submit_options, classify_error_payload, classify_rpc_error_value, contains_timeout,
    run_broadcast_retries, BroadcastDecision, BroadcastReply, ExecutionOutcome, RpcErrorInfo,
    Submit, SubmitOutcome, broadcast_reply_decision,
};

fn transient() -> BroadcastReply {
    BroadcastReply::Failed(RpcErrorInfo {
        payload: Some("Timeout while waiting for the commit".to_string()),
    })
}

fn committed(hash: &str) -> BroadcastReply {
    BroadcastReply::Committed(ExecutionOutcome {
        transaction_hash: hash.to_string(),
    })
}

#[test]
fn timeout_marker_is_found_exactly() {
    assert!(contains_timeout(&"Timeout".to_string()));
    assert!(contains_timeout(&"server said: Timeout(21s)".to_string()));
    assert!(!contains_timeout(&"timeout".to_string()));
    assert!(!contains_timeout(&"Timeou".to_string()));
    assert!(!contains_timeout(&"".to_string()));
}

#[test]
fn only_timeout_payloads_are_transient() {
    assert!(classify_error_payload(&RpcErrorInfo {
        payload: Some("Timeout".to_string()),
    }));
    assert!(!classify_error_payload(&RpcErrorInfo {
        payload: Some("InvalidTxError".to_string()),
    }));
    assert!(!classify_error_payload(&RpcErrorInfo { payload: None }));
}

#[test]
fn json_string_payloads_classify_through_extraction() {
    let v = serde_json::Value::String("Timeout expired".to_string());
    assert!(classify_rpc_error_value(Some(&v)));
    let structured = serde_json::Value::Bool(true);
    assert!(!classify_rpc_error_value(Some(&structured)));
    let wrong_string = serde_json::Value::String("rejected".to_string());
    assert!(!classify_rpc_error_value(Some(&wrong_string)));
    assert!(!classify_rpc_error_value(None));
}

#[test]
fn retries_exactly_n_times_then_returns_the_commit() {
    let replies = vec![transient(), transient(), transient(), committed("HASH1")];
    match run_broadcast_retries(replies) {
        SubmitOutcome::Sent { outcome, attempts } => {
            assert_eq!(attempts, 4);
            assert_eq!(outcome.transaction_hash, "HASH1");
        }
        other => panic!("expected a commit, got {:?}", other),
    }
}

#[test]
fn immediate_commit_takes_one_attempt() {
    match run_broadcast_retries(vec![committed("H")]) {
        SubmitOutcome::Sent { attempts, .. } => assert_eq!(attempts, 1),
        other => panic!("expected a commit, got {:?}", other),
    }
}

#[test]
fn structured_rejection_is_not_retried() {
    let replies = vec![
        transient(),
        BroadcastReply::Failed(RpcErrorInfo {
            payload: Some("the ledger refused it".to_string()),
        }),
        committed("NEVER"),
    ];
    match run_broadcast_retries(replies) {
        SubmitOutcome::Rejected => {}
        other => panic!("expected a rejection, got {:?}", other),
    }
}

#[test]
fn all_transient_replies_leave_the_step_pending() {
    match run_broadcast_retries(vec![transient(), transient()]) {
        SubmitOutcome::Pending => {}
        other => panic!("expected pending, got {:?}", other),
    }
}

#[test]
fn single_reply_decisions() {
    assert_eq!(broadcast_reply_decision(&committed("H")), BroadcastDecision::Done);
    assert_eq!(broadcast_reply_decision(&transient()), BroadcastDecision::Retry);
    assert_eq!(
        broadcast_reply_decision(&BroadcastReply::Failed(RpcErrorInfo { payload: None })),
        BroadcastDecision::Abort
    );
}

#[test]
fn offline_offers_and_resolves_only_display() {
    let offline: Option<ConnectionConfig> = None;
    assert_eq!(available_submit_options(&offline), vec![Submit::Display]);
    assert_eq!(Submit::choose_submit(&offline, 0), Submit::Display);
    assert_eq!(Submit::choose_submit(&offline, 5), Submit::Display);

    let online = Some(ConnectionConfig::Testnet);
    assert_eq!(
        available_submit_options(&online),
        vec![Submit::Send, Submit::Display]
    );
    assert_eq!(Submit::choose_submit(&online, 0), Submit::Send);
    assert_eq!(Submit::choose_submit(&online, 1), Submit::Display);
}
