//! Read-only lookup of a milestone.

use vstd::prelude::*;
use concordium_std::ParseError;
use crate::error::ContractError;
use crate::ledger::{MilestoneId, Registry, State};
use crate::messages::{MilestoneView, ViewParam};

verus! {

impl Registry {
    /// The snapshot of milestone `id`, or nothing where `id` names none.
    pub open spec fn snapshot(self, id: MilestoneId) -> Option<MilestoneView> {
        if id < self.milestones.len() {
            Some(MilestoneView::of(self.milestones[id as int]))
        } else {
            None
        }
    }
}

/// Shows a milestone as it stands.  Anyone may ask.
///
/// `param` is what decoding the caller's input gave; input that could not be
/// decoded is the only error.  An id that names no milestone is answered with
/// `None`.
pub fn view_milestone(state: &State, param: Result<ViewParam, ParseError>) -> (r: Result<
    Option<MilestoneView>,
    ContractError,
>)
    ensures
        match r {
            Ok(found) => param is Ok && found == state@.snapshot(param->Ok_0.milestone_id),
            Err(e) => param is Err && e == ContractError::ParseError,
        },
        param is Ok && param->Ok_0.milestone_id >= state@.milestones.len() ==> r is Ok && r->Ok_0
            is None,
{
    let p = match param {
        Ok(p) => p,
        Err(e) => {
            return Err(ContractError::from(e));
        },
    };
    let index: usize = p.milestone_id as usize;
    if index >= state.milestones.len() {
        return Ok(None);
    }
    let m = &state.milestones[index];
    Ok(
        Some(
            MilestoneView {
                amount_minor: m.amount_minor,
                requested: m.requested,
                released: m.released,
                work_hash: m.work_hash,
                plt_tx_hash: m.plt_tx_hash,
                requested_at_ms: m.requested_at_ms,
                attested_at_ms: m.attested_at_ms,
            },
        ),
    )
}

} // verus!
