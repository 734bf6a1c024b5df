//! Provisioning of an append-only hash tree on a ledger.
//!
//! The crate validates that the requesting party can afford a new tree,
//! builds the request that allocates the account for the tree's state and
//! the byte-exact request that asks the tree engine to initialise it, and
//! sequences the two delegated calls as one unit of work.

pub mod allocation;
pub mod call;
pub mod config;
pub mod counter;
pub mod dispatch;
pub mod failure;
pub mod payload;
pub mod request;
