//! The field resolver: one field's value from a pre-supplied value or from
//! the operator's answers, validated where the pipeline is online.
//!
//! Interactive prompting is driven from outside; here the operator's answers
//! arrive as a script, already parsed, and the resolver takes the first one
//! that the validation accepts. An empty or exhausted script is the
//! non-interactive case, which fails at once instead of blocking.

use vstd::prelude::*;

verus! {

use crate::account::{AccountDirectory, AccountId, AccountRecord, is_64_len_hex, spec_is_64_len_hex,
    spec_lookup};
use crate::balance::NearBalance;
use crate::context::ConnectionConfig;
use crate::transaction::PublicKey;

/// Why resolution failed: the pre-supplied value (if any) was rejected and no
/// scripted answer passed validation either.
#[derive(Debug, Clone, Copy, PartialEq, Eq, Structural)]
pub enum ResolveError {
    ValidationExhausted,
}

/// The operator's decisions for one run, as a non-interactive harness
/// supplies them: each prompt takes the first acceptable answer from the
/// list for its kind of field, and each menu its selection. A live run
/// prompts instead and never consults this.
#[derive(Debug)]
pub struct OperatorScript {
    pub mode_selection: usize,
    pub server_selection: usize,
    pub sender_answers: Vec<AccountId>,
    pub receiver_answers: Vec<AccountId>,
    pub amount_answers: Vec<NearBalance>,
    pub public_key_answers: Vec<PublicKey>,
    pub sign_menu_selection: usize,
    pub entered_keys: Vec<String>,
    pub keychain_key: Option<String>,
    pub submit_selection: usize,
}

/// The index of the first amount within the bound, if any.
pub open spec fn spec_first_within(answers: Seq<u128>, bound: u128) -> Option<int>
    decreases answers.len(),
{
    if answers.len() == 0 {
        None
    } else if answers[0] <= bound {
        Some(0)
    } else {
        match spec_first_within(answers.drop_first(), bound) {
            Some(i) => Some(i + 1),
            None => None,
        }
    }
}

/// The resolved amount: the pre-supplied value where it passes (or where no
/// bound applies), else the first answer within the bound; `None` where the
/// script runs out.
pub open spec fn spec_resolve_amount(
    pre: Option<u128>,
    bound: Option<u128>,
    answers: Seq<u128>,
) -> Option<u128> {
    match bound {
        None => match pre {
            Some(a) => Some(a),
            None => if answers.len() > 0 {
                Some(answers[0])
            } else {
                None
            },
        },
        Some(b) => if pre is Some && pre->0 <= b {
            pre
        } else {
            match spec_first_within(answers, b) {
                Some(i) => Some(answers[i]),
                None => None,
            }
        },
    }
}

/// Resolves an amount field. With no bound (offline, or a field with no
/// ceiling) a pre-supplied value is accepted as-is without validation; with a
/// bound, a pre-supplied value within it is accepted unchanged and one over it
/// is rejected, after which the scripted answers stand for the operator's
/// re-entries and the first one within the bound is taken.
#[verifier::loop_isolation(false)]
pub fn resolve_amount(
    pre: Option<NearBalance>,
    bound: Option<NearBalance>,
    answers: &Vec<NearBalance>,
) -> (r: Result<NearBalance, ResolveError>)
    ensures
        ({
            let pre_y = match pre {
                Some(a) => Some(a.yocto),
                None => None,
            };
            let bound_y = match bound {
                Some(b) => Some(b.yocto),
                None => None,
            };
            let resolved = spec_resolve_amount(pre_y, bound_y, answers@.map_values(|a: NearBalance| a.yocto));
            match r {
                Ok(v) => resolved == Some(v.yocto),
                Err(_) => resolved is None,
            }
        }),
{
    let ghost ys: Seq<u128> = answers@.map_values(|a: NearBalance| a.yocto);
    match bound {
        None => match pre {
            Some(a) => Ok(a),
            None => {
                if answers.len() > 0 {
                    Ok(answers[0])
                } else {
                    Err(ResolveError::ValidationExhausted)
                }
            },
        },
        Some(b) => {
            if let Some(a) = pre {
                if a.yocto <= b.yocto {
                    return Ok(a);
                }
            }
            let n = answers.len();
            let mut i: usize = 0;
            proof {
                assert(ys.skip(0) =~= ys);
            }
            while i < n
                invariant
                    0 <= i <= n,
                    n == answers@.len(),
                    ys == answers@.map_values(|a: NearBalance| a.yocto),
                    match pre {
                        Some(a) => a.yocto > b.yocto,
                        None => true,
                    },
                    spec_first_within(ys, b.yocto) == match spec_first_within(
                        ys.skip(i as int),
                        b.yocto,
                    ) {
                        Some(k) => Some(k + i),
                        None => None::<int>,
                    },
                decreases n - i,
            {
                proof {
                    assert(ys.skip(i as int).drop_first() =~= ys.skip(i as int + 1));
                    assert(ys.skip(i as int)[0] == ys[i as int]);
                }
                if answers[i].yocto <= b.yocto {
                    proof {
                        assert(spec_first_within(ys.skip(i as int), b.yocto) == Some(0int));
                        assert(spec_first_within(ys, b.yocto) == Some(i as int));
                        assert(ys[i as int] == answers@[i as int].yocto);
                    }
                    return Ok(answers[i]);
                }
                i = i + 1;
            }
            Err(ResolveError::ValidationExhausted)
        },
    }
}

/// Whatever `resolve_amount` returns under a bound never exceeds that bound,
/// and a pre-supplied value within the bound comes back unchanged: the amount
/// resolver cannot overdraw the queried balance, and does not touch a value it
/// had no reason to reject.
pub proof fn lemma_resolved_amount_bounded(pre: Option<u128>, bound: u128, answers: Seq<u128>)
    ensures
        spec_resolve_amount(pre, Some(bound), answers) is Some ==> spec_resolve_amount(
            pre,
            Some(bound),
            answers,
        )->0 <= bound,
        pre is Some && pre->0 <= bound ==> spec_resolve_amount(pre, Some(bound), answers) == pre,
    decreases answers.len(),
{
    if !(pre is Some && pre->0 <= bound) {
        lemma_first_within_le(answers, bound);
    }
}

/// The first answer within the bound is within the bound.
proof fn lemma_first_within_le(answers: Seq<u128>, bound: u128)
    ensures
        match spec_first_within(answers, bound) {
            Some(i) => 0 <= i < answers.len() && answers[i] <= bound,
            None => true,
        },
    decreases answers.len(),
{
    if answers.len() > 0 && answers[0] > bound {
        lemma_first_within_le(answers.drop_first(), bound);
    }
}

/// Whether the account identifier passes resolution: offline everything
/// passes unvalidated; online the account must be known to the query service,
/// or, where implicit identifiers are allowed, be 64 hexadecimal digits.
pub open spec fn spec_account_acceptable(
    online: bool,
    records: Seq<AccountRecord>,
    allow_hex64: bool,
    id: Seq<char>,
) -> bool {
    !online || spec_lookup(records, id) is Some || (allow_hex64 && spec_is_64_len_hex(
        vstd::utf8::encode_utf8(id),
    ))
}

/// The index of the first acceptable answer, if any.
pub open spec fn spec_first_acceptable(
    answers: Seq<AccountId>,
    online: bool,
    records: Seq<AccountRecord>,
    allow_hex64: bool,
) -> Option<int>
    decreases answers.len(),
{
    if answers.len() == 0 {
        None
    } else if spec_account_acceptable(online, records, allow_hex64, answers[0]@) {
        Some(0)
    } else {
        match spec_first_acceptable(answers.drop_first(), online, records, allow_hex64) {
            Some(i) => Some(i + 1),
            None => None,
        }
    }
}

/// The resolved account identifier: the pre-supplied one where acceptable
/// (offline, always), else the first acceptable answer.
pub open spec fn spec_resolve_account(
    pre: Option<AccountId>,
    online: bool,
    records: Seq<AccountRecord>,
    answers: Seq<AccountId>,
    allow_hex64: bool,
) -> Option<AccountId> {
    if pre is Some && spec_account_acceptable(online, records, allow_hex64, pre->0@) {
        pre
    } else {
        match spec_first_acceptable(answers, online, records, allow_hex64) {
            Some(i) => Some(answers[i]),
            None => None,
        }
    }
}

/// One validation decision on one candidate, for a caller that queries the
/// account state itself and loops on its own prompt.
pub fn account_candidate_accepted(
    online: bool,
    query_found: bool,
    allow_hex64: bool,
    id: &String,
) -> (r: bool)
    ensures
        r == (!online || query_found || (allow_hex64 && spec_is_64_len_hex(
            vstd::utf8::encode_utf8(id@),
        ))),
{
    if !online || query_found {
        true
    } else if allow_hex64 {
        is_64_len_hex(id)
    } else {
        false
    }
}

/// Resolves an account identifier field. Offline, a pre-supplied identifier
/// of any syntactic form is accepted as-is and no network validation runs;
/// online, the identifier must name a known account (or, where allowed, be an
/// implicit 64-digit identifier), and a rejected or missing value falls to the
/// scripted answers.
#[verifier::loop_isolation(false)]
pub fn resolve_account_id(
    pre: Option<AccountId>,
    connection: &Option<ConnectionConfig>,
    dir: &AccountDirectory,
    answers: Vec<AccountId>,
    allow_hex64: bool,
) -> (r: Result<AccountId, ResolveError>)
    ensures
        ({
            let resolved = spec_resolve_account(
                pre,
                connection is Some,
                dir.records@,
                answers@,
                allow_hex64,
            );
            match r {
                Ok(v) => resolved == Some(v),
                Err(_) => resolved is None,
            }
        }),
        connection is None && pre is Some ==> r == Ok::<AccountId, ResolveError>(pre->0),
{
    let online = connection.is_some();
    let ghost strs: Seq<AccountId> = answers@;
    let ghost pre0: Option<AccountId> = pre;
    if let Some(p) = pre {
        let found = if online {
            dir.has_account(&p.0)
        } else {
            false
        };
        if account_candidate_accepted(online, found, allow_hex64, &p.0) {
            return Ok(p);
        }
    }
    let ghost orig: Seq<AccountId> = answers@;
    let mut rest = answers;
    proof {
        assert(strs.skip(0) =~= strs);
    }
    let ghost mut consumed: int = 0;
    while rest.len() > 0
        invariant
            0 <= consumed <= strs.len(),
            rest@ =~= orig.skip(consumed),
            strs == orig,
            online == (connection is Some),
            match pre0 {
                Some(p) => !spec_account_acceptable(online, dir.records@, allow_hex64, p@),
                None => true,
            },
            pre0 == pre,
            spec_first_acceptable(strs, online, dir.records@, allow_hex64)
                == match spec_first_acceptable(
                strs.skip(consumed),
                online,
                dir.records@,
                allow_hex64,
            ) {
                Some(k) => Some(k + consumed),
                None => None::<int>,
            },
        decreases rest@.len(),
    {
        proof {
            assert(strs.skip(consumed).drop_first() =~= strs.skip(consumed + 1));
            assert(strs.skip(consumed)[0] == strs[consumed]);
        }
        let candidate = rest.remove(0);
        let found = if online {
            dir.has_account(&candidate.0)
        } else {
            false
        };
        if account_candidate_accepted(online, found, allow_hex64, &candidate.0) {
            proof {
                assert(spec_account_acceptable(online, dir.records@, allow_hex64, candidate.0@));
                assert(strs.skip(consumed)[0] == strs[consumed]);
                assert(spec_first_acceptable(strs.skip(consumed), online, dir.records@, allow_hex64)
                    == Some(0int));
                assert(spec_first_acceptable(strs, online, dir.records@, allow_hex64) == Some(
                    consumed,
                ));
                assert(candidate == orig[consumed]);
            }
            return Ok(candidate);
        }
        proof {
            assert(!spec_account_acceptable(online, dir.records@, allow_hex64, candidate.0@));
            consumed = consumed + 1;
        }
    }
    Err(ResolveError::ValidationExhausted)
}

} // verus!

