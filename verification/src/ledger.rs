//! The persistent data: one registry per project, holding its milestones.

use vstd::prelude::*;
use crate::identity::AccountAddress;

verus! {

/// Milestones are identified by their position in the registry.
pub type MilestoneId = u32;

/// 32-byte digest of the delivered work.
pub type Hash32 = [u8; 32];

/// 32-byte identifier of the external payment transaction.
pub type TxHash = [u8; 32];

/// A point in time, in milliseconds since the Unix epoch, as read from the
/// host's clock.
#[derive(Clone, Copy, Debug, PartialEq, Eq, Structural)]
pub struct Timestamp {
    pub millis: u64,
}

/// One unit of agreed work and the two attestations recorded for it.
#[derive(Clone, Copy, Debug, PartialEq, Eq)]
pub struct Milestone {
    /// Agreed amount, in minor units.  Fixed when the registry is created.
    pub amount_minor: u128,
    /// The oracle has verified the work.
    pub requested: bool,
    /// The client has confirmed the payment.
    pub released: bool,
    /// Digest of the work, given by the oracle.
    pub work_hash: Option<Hash32>,
    /// Reference of the payment, given by the client.
    pub plt_tx_hash: Option<TxHash>,
    /// When release was requested.
    pub requested_at_ms: Option<Timestamp>,
    /// When payment was confirmed.
    pub attested_at_ms: Option<Timestamp>,
}

/// Where a milestone stands in its life: it only ever moves forward, one
/// phase at a time.
#[derive(Clone, Copy, Debug, PartialEq, Eq, Structural)]
pub enum Phase {
    NotRequested,
    Requested,
    Released,
}

impl Milestone {
    /// A milestone as the registry creates it: the amount and nothing else.
    pub open spec fn fresh(amount: u128) -> Milestone {
        Milestone {
            amount_minor: amount,
            requested: false,
            released: false,
            work_hash: None,
            plt_tx_hash: None,
            requested_at_ms: None,
            attested_at_ms: None,
        }
    }

    /// The attestations agree with each other: payment is confirmed only
    /// after work was verified, and each flag comes with its evidence.
    pub open spec fn consistent(self) -> bool {
        &&& self.released ==> self.requested
        &&& self.requested ==> self.work_hash is Some && self.requested_at_ms is Some
        &&& self.released ==> self.plt_tx_hash is Some && self.attested_at_ms is Some
    }

    /// Payment was not confirmed before release was requested.
    pub open spec fn chronological(self) -> bool {
        self.released && self.requested_at_ms is Some && self.attested_at_ms is Some
            ==> self.requested_at_ms->0.millis <= self.attested_at_ms->0.millis
    }

    /// No time stored in the milestone is later than `t`.
    pub open spec fn not_after(self, t: Timestamp) -> bool {
        &&& self.requested_at_ms matches Some(r) ==> r.millis <= t.millis
        &&& self.attested_at_ms matches Some(a) ==> a.millis <= t.millis
    }

    /// The phase that the two flags put the milestone in.
    pub open spec fn phase(self) -> Phase {
        if self.released {
            Phase::Released
        } else if self.requested {
            Phase::Requested
        } else {
            Phase::NotRequested
        }
    }

    /// A milestone of the given amount, with nothing attested yet.
    pub fn new(amount_minor: u128) -> (m: Milestone)
        ensures
            m == Milestone::fresh(amount_minor),
    {
        Milestone {
            amount_minor,
            requested: false,
            released: false,
            work_hash: None,
            plt_tx_hash: None,
            requested_at_ms: None,
            attested_at_ms: None,
        }
    }

    /// The phase the milestone is in.
    pub fn current_phase(&self) -> (phase: Phase)
        ensures
            phase == self.phase(),
    {
        if self.released {
            Phase::Released
        } else if self.requested {
            Phase::Requested
        } else {
            Phase::NotRequested
        }
    }
}

/// The registry of one project as it is stored.
#[derive(Clone, Debug, PartialEq, Eq)]
pub struct State {
    /// Display name of the project, repeated in every event.
    pub project_id: String,
    /// The payer, who confirms payments.
    pub client: AccountAddress,
    /// The payee.
    pub freelancer: AccountAddress,
    /// The verifier, who requests releases.
    pub oracle: AccountAddress,
    /// Decimals of the payment unit, for display only.
    pub plt_decimals: u8,
    /// The milestones, in the order given at creation.
    pub milestones: Vec<Milestone>,
}

/// What a `State` holds, as mathematical values.
pub struct Registry {
    pub project_id: Seq<char>,
    pub client: AccountAddress,
    pub freelancer: AccountAddress,
    pub oracle: AccountAddress,
    pub plt_decimals: u8,
    pub milestones: Seq<Milestone>,
}

impl View for State {
    type V = Registry;

    open spec fn view(&self) -> Registry {
        Registry {
            project_id: self.project_id@,
            client: self.client,
            freelancer: self.freelancer,
            oracle: self.oracle,
            plt_decimals: self.plt_decimals,
            milestones: self.milestones@,
        }
    }
}

impl Registry {
    /// Every milestone's attestations agree with each other.
    pub open spec fn consistent(self) -> bool {
        forall|i: int| 0 <= i < self.milestones.len() ==> (#[trigger] self.milestones[i]).consistent()
    }

    /// No milestone was paid before it was requested.
    pub open spec fn chronological(self) -> bool {
        forall|i: int|
            0 <= i < self.milestones.len() ==> (#[trigger] self.milestones[i]).chronological()
    }

    /// No time stored in the registry is later than `t`.
    pub open spec fn not_after(self, t: Timestamp) -> bool {
        forall|i: int| 0 <= i < self.milestones.len() ==> (#[trigger] self.milestones[i]).not_after(t)
    }

    /// The registry with milestone `id` replaced by `m`; unchanged when `id`
    /// names no milestone.
    pub open spec fn with_milestone(self, id: int, m: Milestone) -> Registry {
        if 0 <= id < self.milestones.len() {
            Registry { milestones: self.milestones.update(id, m), ..self }
        } else {
            self
        }
    }
}

} // verus!
