//! Construction, signing and submission of ledger transactions, as a library:
//! each step of the pipeline resolves its inputs from pre-supplied values or a
//! script of operator answers, accumulates ledger actions in order, and ends in
//! a signed transaction that is either broadcast or displayed.

pub mod account;
pub mod balance;
pub mod clapgen;
pub mod commands;
pub mod context;
pub mod crypto;
pub mod encoding;
pub mod resolver;
pub mod sign;
pub mod submit;
pub mod transaction;

use vstd::prelude::*;

verus! {

/// Why a pipeline run ended without a transaction: a field could not be
/// resolved, or the signing credential was missing or unusable.
#[derive(Debug, Clone, Copy, PartialEq, Eq, Structural)]
pub enum PipelineError {
    Resolve(crate::resolver::ResolveError),
    Sign(crate::sign::SignError),
}

/// The smallest unit of the ledger's token; one NEAR is 10^24 of these.
pub const YOCTO_PER_NEAR: u128 = 1_000_000_000_000_000_000_000_000;

} // verus!
