//! Milestone payment-attestation ledger.
//!
//! A registry records, for each milestone of one project, two attestations:
//! the oracle's "work verified" and the client's "payment confirmed".  No
//! funds are held or moved here; the ledger only keeps the trail and says
//! which event has to be appended to the external log.
//!
//! The host that runs the ledger supplies what the ledger cannot know: who
//! the caller is, what time it is, what the caller's input decodes to, and
//! whether the log took an event.  Every operation takes these as plain
//! arguments and decides the rest.

pub mod access;
pub mod error;
pub mod identity;
pub mod laws;
pub mod ledger;
pub mod lifecycle;
pub mod messages;
pub mod query;
pub mod trace;
pub mod transition;

pub use access::{authorize, Role};
pub use error::ContractError;
pub use identity::{AccountAddress, Address, ContractAddress};
pub use ledger::{Hash32, Milestone, MilestoneId, Phase, State, Timestamp, TxHash};
pub use lifecycle::init;
pub use messages::{
    AttestedEvent, ConfirmParam, InitParams, MilestoneView, ReleaseRequestedEvent, RequestParam,
    ViewParam,
};
pub use query::view_milestone;
pub use transition::{confirm_payment, request_release, Staged};
