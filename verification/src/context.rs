//! The resolution context each pipeline stage hands to its children.
//!
//! A context is derived, never mutated: a stage combines its parent's context
//! with its own newly resolved fields into a new, narrower value. The network
//! connection travels in the root context and is the single source of truth
//! for online or offline operation; no stage changes it mid-pipeline.

use vstd::prelude::*;

verus! {

use crate::account::AccountId;

/// Where the pipeline talks to the network; its absence is offline mode.
#[derive(Debug)]
pub enum ConnectionConfig {
    Testnet,
    Mainnet,
    Betanet,
    Custom { url: String },
}

impl ConnectionConfig {
    /// The address the network's node answers on.
    pub fn rpc_url_text(&self) -> (r: String)
        ensures
            self is Custom ==> r@ == self->url@,
    {
        match self {
            ConnectionConfig::Testnet => "https://rpc.testnet.near.org".to_owned(),
            ConnectionConfig::Mainnet => "https://rpc.mainnet.near.org".to_owned(),
            ConnectionConfig::Betanet => "https://rpc.betanet.near.org".to_owned(),
            ConnectionConfig::Custom { url } => url.clone(),
        }
    }
}

impl Clone for ConnectionConfig {
    fn clone(&self) -> (r: Self)
        ensures
            r == *self,
    {
        match self {
            ConnectionConfig::Testnet => ConnectionConfig::Testnet,
            ConnectionConfig::Mainnet => ConnectionConfig::Mainnet,
            ConnectionConfig::Betanet => ConnectionConfig::Betanet,
            ConnectionConfig::Custom { url } => ConnectionConfig::Custom { url: url.clone() },
        }
    }
}

/// The root context of a transfer: only the connection is resolved yet.
#[derive(Debug)]
pub struct TransferCommandNetworkContext {
    pub connection_config: Option<ConnectionConfig>,
}

/// The root context of a contract deployment.
#[derive(Debug)]
pub struct AddContractCodeCommandNetworkContext {
    pub connection_config: Option<ConnectionConfig>,
}

/// The root context of an access-key deletion.
#[derive(Debug)]
pub struct DeleteAccessKeyCommandNetworkContext {
    pub connection_config: Option<ConnectionConfig>,
}

/// The root context of a contract call.
#[derive(Debug)]
pub struct ExecuteChangeMethodCommandNetworkContext {
    pub connection_config: Option<ConnectionConfig>,
}

/// The context below sender resolution: the connection inherited from the
/// parent plus the resolved sender.
#[derive(Debug)]
pub struct SenderContext {
    pub connection_config: Option<ConnectionConfig>,
    pub sender_account_id: AccountId,
}

impl SenderContext {
    /// Derives the sender context of a transfer from its parent context and
    /// the freshly resolved sender; the connection is passed down unchanged.
    pub fn from_previous_context(
        previous_context: TransferCommandNetworkContext,
        sender_account_id: AccountId,
    ) -> (r: SenderContext)
        ensures
            r.connection_config == previous_context.connection_config,
            r.sender_account_id == sender_account_id,
    {
        SenderContext { connection_config: previous_context.connection_config, sender_account_id }
    }

    /// Derives the sender context of a contract deployment; the connection is
    /// passed down unchanged.
    pub fn from_previous_context_for_add_contract_code(
        previous_context: AddContractCodeCommandNetworkContext,
        sender_account_id: AccountId,
    ) -> (r: SenderContext)
        ensures
            r.connection_config == previous_context.connection_config,
            r.sender_account_id == sender_account_id,
    {
        SenderContext { connection_config: previous_context.connection_config, sender_account_id }
    }

    /// Derives the sender context of an access-key deletion; the connection is
    /// passed down unchanged.
    pub fn from_previous_context_for_delete_access_key(
        previous_context: DeleteAccessKeyCommandNetworkContext,
        sender_account_id: AccountId,
    ) -> (r: SenderContext)
        ensures
            r.connection_config == previous_context.connection_config,
            r.sender_account_id == sender_account_id,
    {
        SenderContext { connection_config: previous_context.connection_config, sender_account_id }
    }
}

} // verus!
