//! A milestone escrow: a depositor locks funds for a beneficiary, pays them
//! out milestone by milestone, and an arbiter settles disputed milestones.
//!
//! Every operation is a transition of [`EscrowContract`], checked against the
//! rules of the escrow state machine in [`state`]. Operations that move funds
//! run in two phases: the first validates, takes the reentrancy guard and
//! hands back the transfers to perform; [`EscrowContract::settle`] then
//! commits the change if the transfers went through and releases the guard
//! in every case. [`laws`] states and proves what holds across operations.

mod types;
pub mod model;
mod totals;
mod escrow;
pub mod transitions;
pub mod state;
mod contract;
pub mod lease;
pub mod laws;

pub use contract::{plan_view, EscrowContract};
pub use escrow::EscrowData;
pub use types::{
    Account, EscrowCreated, EscrowError, EscrowStatus, Identity, Milestone, MilestoneApproved,
    MilestoneStatus, MilestoneSubmitted, Settled, Transfer, WorkStarted,
};
