//! Viewing an account at a chosen block: the choice of block reference is
//! resolved here; the queries and their display happen outside, against the
//! request this step hands out.

use vstd::prelude::*;

verus! {

use crate::account::AccountId;

/// A viewing step pinned to a block height.
#[derive(Debug, Clone, Copy, PartialEq, Eq, Structural)]
pub struct BlockIdHeight {
    pub block_id_height: u64,
}

/// A viewing step pinned to a block hash.
#[derive(Debug)]
pub struct BlockIdHash {
    pub block_id_hash: Vec<u8>,
}

/// The operator's choice of block to view at.
#[derive(Debug)]
pub enum BlockId {
    AtFinalBlock,
    AtBlockHeight(BlockIdHeight),
    AtBlockHash(BlockIdHash),
}

/// The block a query is pinned to.
#[derive(Debug)]
pub enum BlockReference {
    Final,
    Height(u64),
    Hash(Vec<u8>),
}

/// What the view command asks the network for: one account's state and key
/// list at one block.
#[derive(Debug)]
pub struct ViewRequest {
    pub account_id: AccountId,
    pub reference: BlockReference,
}

impl BlockId {
    /// Turns the choice into the query request the network collaborator
    /// serves: the final block, or exactly the chosen height or hash.
    pub fn process(self, account_id: AccountId) -> (r: ViewRequest)
        ensures
            r.account_id == account_id,
            self is AtFinalBlock ==> r.reference is Final,
            self is AtBlockHeight ==> r.reference is Height && r.reference->Height_0
                == self->AtBlockHeight_0.block_id_height,
            self is AtBlockHash ==> r.reference is Hash && r.reference->Hash_0
                == self->AtBlockHash_0.block_id_hash,
    {
        let reference = match self {
            BlockId::AtFinalBlock => BlockReference::Final,
            BlockId::AtBlockHeight(block_id_height) => BlockReference::Height(
                block_id_height.block_id_height,
            ),
            BlockId::AtBlockHash(block_id_hash) => BlockReference::Hash(
                block_id_hash.block_id_hash,
            ),
        };
        ViewRequest { account_id, reference }
    }
}

} // verus!
