//! The two transitions of a milestone.
//!
//! ```text
//! NotRequested --request_release (oracle)--> Requested --confirm_payment (client)--> Released
//! ```
//!
//! A transition changes the registry and appends an event to the external
//! log, both or neither.  The log is not in reach from here, so a transition
//! runs in two steps.  `request_release` and `confirm_payment` check the call
//! against the registry and stage the outcome: the milestone as it will be,
//! and the event to append.  The caller appends the event and reports to
//! `Staged::commit` whether that worked; only then is the registry written.

use vstd::prelude::*;
use concordium_std::ParseError;
use crate::access::{authorize, Role};
use crate::error::ContractError;
use crate::identity::Address;
use crate::ledger::{Hash32, Milestone, MilestoneId, Registry, State, Timestamp, TxHash};
use crate::messages::{AttestedEvent, ConfirmParam, ReleaseRequestedEvent, RequestParam};

verus! {

impl Milestone {
    /// The milestone after the oracle requested its release at `now`.
    pub open spec fn request(self, work_hash: Hash32, now: Timestamp) -> Milestone {
        Milestone {
            requested: true,
            work_hash: Some(work_hash),
            requested_at_ms: Some(now),
            ..self
        }
    }

    /// The milestone after the client confirmed its payment at `now`.
    pub open spec fn confirm(self, plt_tx_hash: TxHash, now: Timestamp) -> Milestone {
        Milestone {
            released: true,
            plt_tx_hash: Some(plt_tx_hash),
            attested_at_ms: Some(now),
            ..self
        }
    }
}

impl ReleaseRequestedEvent {
    /// The event tells of exactly this request.
    pub open spec fn reports(
        self,
        project_id: Seq<char>,
        milestone_id: MilestoneId,
        work_hash: Hash32,
        now: Timestamp,
    ) -> bool {
        &&& self.project_id@ == project_id
        &&& self.milestone_id == milestone_id
        &&& self.work_hash == work_hash
        &&& self.requested_at_ms == now
    }
}

impl AttestedEvent {
    /// The event tells of exactly this confirmation.
    pub open spec fn reports(
        self,
        project_id: Seq<char>,
        milestone_id: MilestoneId,
        work_hash: Hash32,
        plt_tx_hash: TxHash,
        amount_minor: u128,
        now: Timestamp,
    ) -> bool {
        &&& self.project_id@ == project_id
        &&& self.milestone_id == milestone_id
        &&& self.work_hash == work_hash
        &&& self.plt_tx_hash == plt_tx_hash
        &&& self.amount_minor == amount_minor
        &&& self.block_time_ms == now
    }
}

/// Why a release request is refused, if it is.  The checks are made in this
/// order, and the first that fails decides.
pub open spec fn release_refusal(
    reg: Registry,
    sender: Address,
    param: Result<RequestParam, ParseError>,
) -> Option<ContractError> {
    if !reg.permits(sender, Role::Oracle) {
        Some(ContractError::Unauthorized)
    } else if param is Err {
        Some(ContractError::ParseError)
    } else if param->Ok_0.milestone_id >= reg.milestones.len() {
        Some(ContractError::InvalidMilestone)
    } else if reg.milestones[param->Ok_0.milestone_id as int].released {
        Some(ContractError::AlreadyReleased)
    } else if reg.milestones[param->Ok_0.milestone_id as int].requested {
        Some(ContractError::AlreadyRequested)
    } else {
        None
    }
}

/// Why a payment confirmation is refused, if it is.  The checks are made in
/// this order, and the first that fails decides.  The amount is looked at
/// before the request: a differing amount on a milestone that is not released
/// is `AmountMismatch`, whether or not its release was requested.  A released
/// milestone is `AlreadyReleased` whatever the amount.
pub open spec fn confirm_refusal(
    reg: Registry,
    sender: Address,
    param: Result<ConfirmParam, ParseError>,
) -> Option<ContractError> {
    if !reg.permits(sender, Role::Client) {
        Some(ContractError::Unauthorized)
    } else if param is Err {
        Some(ContractError::ParseError)
    } else if param->Ok_0.milestone_id >= reg.milestones.len() {
        Some(ContractError::InvalidMilestone)
    } else if !reg.milestones[param->Ok_0.milestone_id as int].released
        && param->Ok_0.paid_amount_minor
        != reg.milestones[param->Ok_0.milestone_id as int].amount_minor {
        Some(ContractError::AmountMismatch)
    } else if !reg.milestones[param->Ok_0.milestone_id as int].requested {
        Some(ContractError::NotRequested)
    } else if reg.milestones[param->Ok_0.milestone_id as int].released {
        Some(ContractError::AlreadyReleased)
    } else if reg.milestones[param->Ok_0.milestone_id as int].work_hash is None {
        Some(ContractError::InternalInvariantViolation)
    } else {
        None
    }
}

/// A transition that passed every check and waits for its event to be
/// appended to the external log.
#[derive(Clone, Debug, PartialEq, Eq)]
pub struct Staged<E> {
    /// The milestone that changes.
    pub milestone_id: MilestoneId,
    /// The milestone as it will be.
    pub milestone: Milestone,
    /// The event to append.
    pub event: E,
}

/// The oracle reports that the work of a milestone is verified.
///
/// `sender` is the caller as the host authenticated it, `now` the host's
/// clock, `param` what decoding the caller's input gave.  The registry is
/// only read.  The call is refused, with the error of the first check that
/// fails, exactly when `release_refusal` says so.  Otherwise the result holds
/// the milestone marked as requested, with the digest and `now`, and the
/// event that reports this.  The staged milestone is consistent.
pub fn request_release(
    state: &State,
    sender: &Address,
    now: Timestamp,
    param: Result<RequestParam, ParseError>,
) -> (r: Result<Staged<ReleaseRequestedEvent>, ContractError>)
    ensures
        match r {
            Ok(staged) => {
                &&& release_refusal(state@, *sender, param) is None
                &&& staged.milestone_id == param->Ok_0.milestone_id
                &&& staged.milestone == state@.milestones[staged.milestone_id as int].request(
                    param->Ok_0.work_hash,
                    now,
                )
                &&& staged.event.reports(
                    state@.project_id,
                    staged.milestone_id,
                    param->Ok_0.work_hash,
                    now,
                )
            },
            Err(e) => release_refusal(state@, *sender, param) == Some(e),
        },
        !state@.permits(*sender, Role::Oracle) ==> r is Err && r->Err_0
            == ContractError::Unauthorized,
        r is Ok ==> r->Ok_0.milestone.consistent() && r->Ok_0.milestone.chronological(),
{
    match authorize(state, sender, Role::Oracle) {
        Ok(()) => {},
        Err(e) => {
            return Err(e);
        },
    }
    let p = match param {
        Ok(p) => p,
        Err(e) => {
            return Err(ContractError::from(e));
        },
    };
    let index: usize = p.milestone_id as usize;
    if index >= state.milestones.len() {
        return Err(ContractError::InvalidMilestone);
    }
    let current = &state.milestones[index];
    if current.released {
        return Err(ContractError::AlreadyReleased);
    }
    if current.requested {
        return Err(ContractError::AlreadyRequested);
    }
    let milestone = Milestone {
        amount_minor: current.amount_minor,
        requested: true,
        released: current.released,
        work_hash: Some(p.work_hash),
        plt_tx_hash: current.plt_tx_hash,
        requested_at_ms: Some(now),
        attested_at_ms: current.attested_at_ms,
    };
    let event = ReleaseRequestedEvent {
        project_id: state.project_id.clone(),
        milestone_id: p.milestone_id,
        work_hash: p.work_hash,
        requested_at_ms: now,
    };
    Ok(Staged { milestone_id: p.milestone_id, milestone, event })
}

/// The client reports that a milestone was paid.
///
/// `sender` is the caller as the host authenticated it, `now` the host's
/// clock, `param` what decoding the caller's input gave.  The registry is
/// only read.  The call is refused, with the error of the first check that
/// fails, exactly when `confirm_refusal` says so.  Otherwise the result holds
/// the milestone marked as released, with the payment reference and `now`,
/// and the event that reports this together with the digest that the oracle
/// gave and the configured amount.  The staged milestone is consistent if the
/// stored one was, and chronological if `now` is not before the time of the
/// request.
pub fn confirm_payment(
    state: &State,
    sender: &Address,
    now: Timestamp,
    param: Result<ConfirmParam, ParseError>,
) -> (r: Result<Staged<AttestedEvent>, ContractError>)
    ensures
        match r {
            Ok(staged) => {
                &&& confirm_refusal(state@, *sender, param) is None
                &&& staged.milestone_id == param->Ok_0.milestone_id
                &&& staged.milestone == state@.milestones[staged.milestone_id as int].confirm(
                    param->Ok_0.plt_tx_hash,
                    now,
                )
                &&& staged.event.reports(
                    state@.project_id,
                    staged.milestone_id,
                    state@.milestones[staged.milestone_id as int].work_hash->0,
                    param->Ok_0.plt_tx_hash,
                    state@.milestones[staged.milestone_id as int].amount_minor,
                    now,
                )
            },
            Err(e) => confirm_refusal(state@, *sender, param) == Some(e),
        },
        !state@.permits(*sender, Role::Client) ==> r is Err && r->Err_0
            == ContractError::Unauthorized,
        r is Ok && state@.milestones[r->Ok_0.milestone_id as int].consistent()
            ==> r->Ok_0.milestone.consistent(),
        r is Ok && state@.milestones[r->Ok_0.milestone_id as int].not_after(now)
            ==> r->Ok_0.milestone.chronological(),
{
    match authorize(state, sender, Role::Client) {
        Ok(()) => {},
        Err(e) => {
            return Err(e);
        },
    }
    let p = match param {
        Ok(p) => p,
        Err(e) => {
            return Err(ContractError::from(e));
        },
    };
    let index: usize = p.milestone_id as usize;
    if index >= state.milestones.len() {
        return Err(ContractError::InvalidMilestone);
    }
    let current = &state.milestones[index];
    if !current.released && p.paid_amount_minor != current.amount_minor {
        return Err(ContractError::AmountMismatch);
    }
    if !current.requested {
        return Err(ContractError::NotRequested);
    }
    if current.released {
        return Err(ContractError::AlreadyReleased);
    }
    let work_hash = match current.work_hash {
        Some(h) => h,
        None => {
            return Err(ContractError::InternalInvariantViolation);
        },
    };
    let milestone = Milestone {
        amount_minor: current.amount_minor,
        requested: current.requested,
        released: true,
        work_hash: current.work_hash,
        plt_tx_hash: Some(p.plt_tx_hash),
        requested_at_ms: current.requested_at_ms,
        attested_at_ms: Some(now),
    };
    let event = AttestedEvent {
        project_id: state.project_id.clone(),
        milestone_id: p.milestone_id,
        work_hash,
        plt_tx_hash: p.plt_tx_hash,
        amount_minor: current.amount_minor,
        block_time_ms: now,
    };
    Ok(Staged { milestone_id: p.milestone_id, milestone, event })
}

impl<E> Staged<E> {
    /// Why the staged transition is dropped, if it is: its event was not
    /// appended, or it names no milestone of `reg`.
    pub open spec fn commit_refusal(self, reg: Registry, appended: bool) -> Option<ContractError> {
        if !appended {
            Some(ContractError::LogError)
        } else if self.milestone_id >= reg.milestones.len() {
            Some(ContractError::InvalidMilestone)
        } else {
            None
        }
    }

    /// Concludes a staged transition once the log has answered.
    ///
    /// `appended` says whether the event was appended to the external log.
    /// If it was, the staged milestone is written to the registry and nothing
    /// else changes.  If it was not, the transition is dropped: the registry
    /// stays as it was and the error is `LogError`.  Writing a consistent
    /// milestone keeps a consistent registry consistent.
    pub fn commit(self, state: &mut State, appended: bool) -> (r: Result<(), ContractError>)
        ensures
            match r {
                Ok(()) => {
                    &&& self.commit_refusal(old(state)@, appended) is None
                    &&& final(state)@ == old(state)@.with_milestone(
                        self.milestone_id as int,
                        self.milestone,
                    )
                },
                Err(e) => {
                    &&& self.commit_refusal(old(state)@, appended) == Some(e)
                    &&& *final(state) == *old(state)
                },
            },
            old(state)@.consistent() && self.milestone.consistent() ==> final(state)@.consistent(),
            old(state)@.chronological() && self.milestone.chronological()
                ==> final(state)@.chronological(),
    {
        if !appended {
            return Err(ContractError::LogError);
        }
        let index: usize = self.milestone_id as usize;
        if index >= state.milestones.len() {
            return Err(ContractError::InvalidMilestone);
        }
        state.milestones.set(index, self.milestone);
        Ok(())
    }
}

} // verus!
