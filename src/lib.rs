//! A payment-streaming ledger: vesting streams with pause accounting, top-ups,
//! withdrawal and cancellation, multi-approver funding proposals, and a role
//! registry. Every entry point is a state transition on `StellarStreamContract`;
//! token movements and events are queued for the host to carry out.
pub mod error;
pub mod types;
pub mod vesting;
pub mod ledger;
pub mod lifecycle;
pub mod governance;
pub mod access;

pub use error::Error;
pub use ledger::StellarStreamContract;
pub use types::{
    AccountId, CurveType, Event, Milestone, Movement, Role, RoleGrant, Settlement, Stream,
    StreamProposal, StreamReceipt,
};
