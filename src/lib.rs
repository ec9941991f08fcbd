//! Milestone escrow: a ledger that releases a developer's pay as three
//! milestones progress, and a policy engine that filters relayer
//! attestations before they reach the ledger.
pub mod identity;
pub mod milestones;
pub mod escrow;
pub mod escrow_command;
pub mod policy;
pub mod policy_command;
pub mod wire;
pub mod deployment;
pub mod laws;
pub mod value_ledger;
pub mod ledger_command;
