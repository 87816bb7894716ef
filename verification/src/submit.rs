//! The submission step: broadcast the signed transaction and wait for the
//! commit, retrying transient failures, or display its encoding for manual
//! handling.
//!
//! The network replies arrive as values here; the caller performs the actual
//! broadcast and hands each reply in (a test hands in a stub's script). A
//! reply's error is transient exactly when its decodable payload is a string
//! naming a timeout; only those are retried, and only here.

use vstd::prelude::*;

verus! {

use crate::context::ConnectionConfig;

/// What the operator chose to do with the signed transaction.
#[derive(Debug, Clone, Copy, PartialEq, Eq, Structural)]
pub enum Submit {
    Send,
    Display,
}

/// What the ledger reports for a committed transaction.
#[derive(Debug)]
pub struct ExecutionOutcome {
    pub transaction_hash: String,
}

impl Clone for ExecutionOutcome {
    fn clone(&self) -> (r: Self)
        ensures
            r == *self,
    {
        ExecutionOutcome { transaction_hash: self.transaction_hash.clone() }
    }
}

/// The decodable part of a broadcast error reply.
#[derive(Debug, Clone)]
pub struct RpcErrorInfo {
    pub payload: Option<String>,
}

/// One reply of the broadcast capability.
#[derive(Debug, Clone)]
pub enum BroadcastReply {
    Committed(ExecutionOutcome),
    Failed(RpcErrorInfo),
}

/// How the submission step ended.
#[derive(Debug)]
pub enum SubmitOutcome {
    /// The network committed the transaction on the given attempt.
    Sent { outcome: ExecutionOutcome, attempts: usize },
    /// The ledger rejected the transaction for semantic reasons: reported,
    /// never retried.
    Rejected,
    /// The transaction was only displayed; nothing was broadcast.
    Displayed { encoded: String },
    /// Every scripted reply was a transient error: the step would still be
    /// retrying.
    Pending,
}

/// The bytes of the marker that names a transient, retryable failure.
pub open spec fn timeout_marker() -> Seq<u8> {
    seq![84u8, 105u8, 109u8, 101u8, 111u8, 117u8, 116u8]
}

/// Whether `needle` occurs contiguously inside `haystack`.
pub open spec fn contains_subrange(haystack: Seq<u8>, needle: Seq<u8>) -> bool {
    exists|i: int|
        0 <= i && i + needle.len() <= haystack.len() && #[trigger] haystack.subrange(
            i,
            i + needle.len(),
        ) == needle
}

/// Whether the text names a timeout, the transient-failure marker.
#[verifier::loop_isolation(false)]
pub fn contains_timeout(s: &String) -> (r: bool)
    ensures
        r == contains_subrange(vstd::utf8::encode_utf8(s@), timeout_marker()),
{
    let bytes: &[u8] = s.as_str().as_bytes();
    let marker: [u8; 7] = [84, 105, 109, 101, 111, 117, 116];
    let n = bytes.len();
    if n < 7 {
        proof {
            assert(!contains_subrange(bytes@, timeout_marker()));
        }
        return false;
    }
    let mut i: usize = 0;
    while i <= n - 7
        invariant
            0 <= i <= n - 7 + 1,
            n == bytes@.len(),
            n >= 7,
            marker@ =~= timeout_marker(),
            forall|j: int| 0 <= j < i ==> #[trigger] bytes@.subrange(j, j + 7) != timeout_marker(),
        decreases n - i,
    {
        let mut k: usize = 0;
        let mut matched = true;
        while k < 7
            invariant
                0 <= k <= 7,
                i + 7 <= n,
                n == bytes@.len(),
                marker@ =~= timeout_marker(),
                matched == (forall|m: int| 0 <= m < k ==> #[trigger] bytes@[i + m] == timeout_marker()[m]),
            decreases 7 - k,
        {
            if bytes[i + k] != marker[k] {
                proof {
                    assert(bytes@[i + k as int] != timeout_marker()[k as int]);
                }
                matched = false;
                k = 7;
            } else {
                proof {
                    if matched {
                        assert(forall|m: int| 0 <= m < k + 1 ==> #[trigger] bytes@[i + m] == timeout_marker()[m]);
                    }
                }
                k = k + 1;
            }
        }
        if matched {
            proof {
                assert(forall|m: int| 0 <= m < 7 ==> #[trigger] bytes@.subrange(
                    i as int,
                    i as int + 7,
                )[m] == bytes@[i + m]);
                assert(bytes@.subrange(i as int, i as int + 7) =~= timeout_marker());
                assert(contains_subrange(bytes@, timeout_marker()));
            }
            return true;
        }
        proof {
            if bytes@.subrange(i as int, i as int + 7) == timeout_marker() {
                assert(forall|m: int| 0 <= m < 7 ==> #[trigger] bytes@.subrange(
                    i as int,
                    i as int + 7,
                )[m] == bytes@[i + m]);
                assert(false);
            }
        }
        i = i + 1;
    }
    proof {
        assert(forall|j: int| 0 <= j && j + 7 <= n ==> #[trigger] bytes@.subrange(j, j + 7)
            != timeout_marker());
    }
    false
}

/// Whether the error is of the transient, retryable class: its payload is a
/// string that names a timeout.
pub open spec fn spec_is_transient(e: RpcErrorInfo) -> bool {
    e.payload is Some && contains_subrange(
        vstd::utf8::encode_utf8(e.payload->0@),
        timeout_marker(),
    )
}

/// Classifies an error reply's decoded payload: `true` is the transient
/// class, retried; `false` is a structured rejection, reported and not
/// retried.
pub fn classify_error_payload(e: &RpcErrorInfo) -> (r: bool)
    ensures
        r == spec_is_transient(*e),
{
    match &e.payload {
        Some(s) => contains_timeout(s),
        None => false,
    }
}

/// Classifies a broadcast error by its decodable reply data: transient
/// exactly when the data is a string value naming a timeout. What the string
/// extraction hands back is decided outside; the classification of whatever
/// came back is `classify_error_payload`'s exact contract, and an error with
/// no data at all is never transient.
pub fn classify_rpc_error_value(data: Option<&serde_json::Value>) -> (r: bool)
    ensures
        data is None ==> r == false,
        r ==> data is Some,
{
    let payload = match data {
        Some(v) => crate::crypto::json_string_payload(v),
        None => None,
    };
    classify_error_payload(&RpcErrorInfo { payload })
}

/// The submit choices offered: offline only the display choice exists.
pub fn available_submit_options(connection: &Option<ConnectionConfig>) -> (r: Vec<Submit>)
    ensures
        connection is None ==> r@ =~= seq![Submit::Display],
        connection is Some ==> r@ =~= seq![Submit::Send, Submit::Display],
{
    let mut options: Vec<Submit> = Vec::new();
    if connection.is_some() {
        options.push(Submit::Send);
    }
    options.push(Submit::Display);
    options
}

impl Submit {
    /// Turns the operator's menu selection into a submit mode. Offline the
    /// menu holds only the display choice, so whatever was selected the
    /// transaction is only displayed; network submission is never resolved
    /// without a connection.
    pub fn choose_submit(connection: &Option<ConnectionConfig>, selected: usize) -> (r: Submit)
        ensures
            r == spec_choose_submit(connection is Some, selected as int),
            connection is None ==> r == Submit::Display,
    {
        let options = available_submit_options(connection);
        if selected < options.len() {
            options[selected]
        } else {
            Submit::Display
        }
    }

    /// The display-only path: the transaction's transport encoding is handed
    /// back to be printed, and there is no commit outcome.
    pub fn process_offline(self, serialize_to_base64: String) -> (r: SubmitOutcome)
        ensures
            r is Displayed && r->Displayed_encoded == serialize_to_base64,
    {
        SubmitOutcome::Displayed { encoded: serialize_to_base64 }
    }

    /// The online handling of a signed transaction: the send choice runs the
    /// broadcast retry loop over the network's replies, the display choice
    /// hands the transport text back instead.
    pub fn process_online(self, serialize_to_base64: String, replies: Vec<BroadcastReply>) -> (r:
        SubmitOutcome)
        ensures
            self is Send ==> r == spec_broadcast_outcome(replies@),
            self is Display ==> r is Displayed && r->Displayed_encoded == serialize_to_base64,
    {
        match self {
            Submit::Send => run_broadcast_retries(replies),
            Submit::Display => SubmitOutcome::Displayed { encoded: serialize_to_base64 },
        }
    }
}

/// The index of the first reply that ends the retry loop: a commit, or an
/// error that is not transient.
pub open spec fn spec_first_decisive(replies: Seq<BroadcastReply>) -> Option<int>
    decreases replies.len(),
{
    if replies.len() == 0 {
        None
    } else if !(replies[0] is Failed && spec_is_transient(replies[0]->Failed_0)) {
        Some(0)
    } else {
        match spec_first_decisive(replies.drop_first()) {
            Some(i) => Some(i + 1),
            None => None,
        }
    }
}

/// What the retry loop ends in for a given reply sequence: the first commit
/// after only transient errors, with the attempt count; a rejection at the
/// first structured error; pending where the sequence holds transient errors
/// alone.
pub open spec fn spec_broadcast_outcome(replies: Seq<BroadcastReply>) -> SubmitOutcome {
    match spec_first_decisive(replies) {
        Some(k) => match replies[k] {
            BroadcastReply::Committed(outcome) => SubmitOutcome::Sent {
                outcome,
                attempts: (k + 1) as usize,
            },
            BroadcastReply::Failed(_) => SubmitOutcome::Rejected,
        },
        None => SubmitOutcome::Pending,
    }
}

/// The submit mode the menu selection resolves to: without a connection
/// always the display mode.
pub open spec fn spec_choose_submit(online: bool, selected: int) -> Submit {
    if !online {
        Submit::Display
    } else if selected == 0 {
        Submit::Send
    } else {
        Submit::Display
    }
}

/// Runs the broadcast-and-wait-for-commit loop over the replies the network
/// gives, in order: transient errors are retried and anything else decides.
/// With `n` transient errors before a commit, the commit is returned and the
/// count of attempts is `n + 1`; a structured rejection ends the step with no
/// outcome; and a script of transient errors alone leaves the step pending.
pub fn run_broadcast_retries(replies: Vec<BroadcastReply>) -> (r: SubmitOutcome)
    ensures
        r == spec_broadcast_outcome(replies@),
{
    let n = replies.len();
    let mut i: usize = 0;
    proof {
        assert(replies@.skip(0) =~= replies@);
    }
    while i < n
        invariant
            0 <= i <= n,
            n == replies@.len(),
            spec_first_decisive(replies@) == match spec_first_decisive(replies@.skip(i as int)) {
                Some(k) => Some(k + i),
                None => None::<int>,
            },
        decreases n - i,
    {
        proof {
            assert(replies@.skip(i as int).drop_first() =~= replies@.skip(i as int + 1));
            assert(replies@.skip(i as int)[0] == replies@[i as int]);
        }
        match &replies[i] {
            BroadcastReply::Committed(outcome) => {
                proof {
                    assert(spec_first_decisive(replies@.skip(i as int)) == Some(0int));
                    assert(spec_first_decisive(replies@) == Some(i as int));
                }
                return SubmitOutcome::Sent { outcome: outcome.clone(), attempts: i + 1 };
            },
            BroadcastReply::Failed(info) => {
                if !classify_error_payload(info) {
                    proof {
                        assert(spec_first_decisive(replies@.skip(i as int)) == Some(0int));
                        assert(spec_first_decisive(replies@) == Some(i as int));
                    }
                    return SubmitOutcome::Rejected;
                }
            },
        }
        i = i + 1;
    }
    SubmitOutcome::Pending
}

/// The retry law: where the network answers with transient errors exactly
/// `n` times and then commits, the retry loop retries exactly `n` times and
/// returns the commit as attempt `n + 1`.
pub proof fn lemma_retry_count(replies: Seq<BroadcastReply>, n: int)
    requires
        0 <= n < replies.len(),
        forall|i: int| 0 <= i < n ==> #[trigger] replies[i] is Failed && spec_is_transient(
            replies[i]->Failed_0,
        ),
        replies[n] is Committed,
    ensures
        spec_first_decisive(replies) == Some(n),
        spec_broadcast_outcome(replies) == (SubmitOutcome::Sent {
            outcome: replies[n]->Committed_0,
            attempts: (n + 1) as usize,
        }),
    decreases n,
{
    if n == 0 {
    } else {
        let rest = replies.drop_first();
        assert(forall|i: int| 0 <= i < n - 1 ==> #[trigger] rest[i] == replies[i + 1]);
        assert(rest[n - 1] == replies[n]);
        lemma_retry_count(rest, n - 1);
        assert(replies[0] is Failed && spec_is_transient(replies[0]->Failed_0));
    }
}

/// One decision of the retry loop, for a caller that performs the broadcast
/// itself: retry on a transient error, otherwise the reply decides.
#[derive(Debug, Clone, Copy, PartialEq, Eq, Structural)]
pub enum BroadcastDecision {
    Done,
    Retry,
    Abort,
}

/// Decides what the retry loop does with one reply.
pub fn broadcast_reply_decision(reply: &BroadcastReply) -> (r: BroadcastDecision)
    ensures
        reply is Committed ==> r == BroadcastDecision::Done,
        reply is Failed && spec_is_transient(reply->Failed_0) ==> r == BroadcastDecision::Retry,
        reply is Failed && !spec_is_transient(reply->Failed_0) ==> r == BroadcastDecision::Abort,
{
    match reply {
        BroadcastReply::Committed(_) => BroadcastDecision::Done,
        BroadcastReply::Failed(info) => {
            if classify_error_payload(info) {
                BroadcastDecision::Retry
            } else {
                BroadcastDecision::Abort
            }
        },
    }
}

} // verus!
