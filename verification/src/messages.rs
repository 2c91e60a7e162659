//! What callers hand to the operations, and what the operations hand back:
//! parameters, the query's snapshot, and the events for the external log.

use vstd::prelude::*;
use crate::identity::AccountAddress;
use crate::ledger::{Hash32, Milestone, MilestoneId, Timestamp, TxHash};

verus! {

/// Configuration from which a registry is created.
#[derive(Clone, Debug, PartialEq, Eq)]
pub struct InitParams {
    /// Display name of the project.
    pub project_id: String,
    /// The payer.
    pub client: AccountAddress,
    /// The payee.
    pub freelancer: AccountAddress,
    /// The verifier.
    pub oracle: AccountAddress,
    /// One amount per milestone, in minor units, in milestone order.
    pub amounts: Vec<u128>,
    /// Decimals of the payment unit, for display only.
    pub plt_decimals: u8,
}

/// The oracle's request to release a milestone.
#[derive(Clone, Copy, Debug, PartialEq, Eq)]
pub struct RequestParam {
    pub milestone_id: MilestoneId,
    /// Digest of the verified work.
    pub work_hash: Hash32,
}

/// The client's confirmation that a milestone was paid.
#[derive(Clone, Copy, Debug, PartialEq, Eq)]
pub struct ConfirmParam {
    pub milestone_id: MilestoneId,
    /// The amount the client says it paid, in minor units.
    pub paid_amount_minor: u128,
    /// Reference of the payment transaction.
    pub plt_tx_hash: TxHash,
}

/// A query for one milestone.
#[derive(Clone, Copy, Debug, PartialEq, Eq, Structural)]
pub struct ViewParam {
    pub milestone_id: MilestoneId,
}

/// Snapshot of a milestone, as a query returns it.
#[derive(Clone, Copy, Debug, PartialEq, Eq)]
pub struct MilestoneView {
    pub amount_minor: u128,
    pub requested: bool,
    pub released: bool,
    pub work_hash: Option<Hash32>,
    pub plt_tx_hash: Option<TxHash>,
    pub requested_at_ms: Option<Timestamp>,
    pub attested_at_ms: Option<Timestamp>,
}

impl MilestoneView {
    /// The snapshot that shows milestone `m`.
    pub open spec fn of(m: Milestone) -> MilestoneView {
        MilestoneView {
            amount_minor: m.amount_minor,
            requested: m.requested,
            released: m.released,
            work_hash: m.work_hash,
            plt_tx_hash: m.plt_tx_hash,
            requested_at_ms: m.requested_at_ms,
            attested_at_ms: m.attested_at_ms,
        }
    }
}

/// Record of the oracle having requested release of a milestone.
#[derive(Clone, Debug, PartialEq, Eq)]
pub struct ReleaseRequestedEvent {
    pub project_id: String,
    pub milestone_id: MilestoneId,
    pub work_hash: Hash32,
    pub requested_at_ms: Timestamp,
}

/// Record of the client having confirmed payment of a milestone.
#[derive(Clone, Debug, PartialEq, Eq)]
pub struct AttestedEvent {
    pub project_id: String,
    pub milestone_id: MilestoneId,
    pub work_hash: Hash32,
    pub plt_tx_hash: TxHash,
    pub amount_minor: u128,
    pub block_time_ms: Timestamp,
}

} // verus!
