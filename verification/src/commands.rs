//! The command families the pipeline serves: each resolves its own fields,
//! narrows the context for its children, stages its actions on the record,
//! and hands the record to the sign step.

pub mod add_access_key;
pub mod add_contract;
pub mod delete_access_key;
pub mod delete_account;
pub mod execute;
pub mod stake;
pub mod transfer;
pub mod view;
