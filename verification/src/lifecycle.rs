//! Creation of a registry.

use vstd::prelude::*;
use concordium_std::ParseError;
use crate::error::ContractError;
use crate::ledger::{Milestone, Registry, State};
use crate::messages::InitParams;

verus! {

/// The registry that `p` describes: its identities and display data, and one
/// fresh milestone per amount, in order.
pub open spec fn genesis(p: InitParams) -> Registry {
    Registry {
        project_id: p.project_id@,
        client: p.client,
        freelancer: p.freelancer,
        oracle: p.oracle,
        plt_decimals: p.plt_decimals,
        milestones: Seq::new(p.amounts@.len(), |i: int| Milestone::fresh(p.amounts@[i])),
    }
}

/// The input can be made into a registry: it was decoded and lists at least
/// one amount.
pub open spec fn configures(params: Result<InitParams, ParseError>) -> bool {
    params matches Ok(p) && p.amounts@.len() > 0
}

/// Creates the registry from its configuration.
///
/// `params` is what decoding the caller's input gave.  Input that could not be
/// decoded, or that lists no amount, is refused with `ParseError`.  The three
/// identities are taken as they are; they need not differ.
pub fn init(params: Result<InitParams, ParseError>) -> (r: Result<State, ContractError>)
    ensures
        match r {
            Ok(state) => configures(params) && state@ == genesis(params->Ok_0),
            Err(e) => !configures(params) && e == ContractError::ParseError,
        },
{
    let p = match params {
        Ok(p) => p,
        Err(e) => {
            return Err(ContractError::from(e));
        },
    };
    if p.amounts.len() == 0 {
        return Err(ContractError::ParseError);
    }
    let mut milestones: Vec<Milestone> = Vec::new();
    let mut i: usize = 0;
    while i < p.amounts.len()
        invariant
            i <= p.amounts@.len(),
            milestones@.len() == i,
            forall|j: int| 0 <= j < i ==> milestones@[j] == Milestone::fresh(p.amounts@[j]),
        decreases p.amounts@.len() - i,
    {
        milestones.push(Milestone::new(p.amounts[i]));
        i += 1;
    }
    let ghost spec_p = p;
    let state = State {
        project_id: p.project_id,
        client: p.client,
        freelancer: p.freelancer,
        oracle: p.oracle,
        plt_decimals: p.plt_decimals,
        milestones,
    };
    assert(state@.milestones =~= genesis(spec_p).milestones);
    Ok(state)
}

} // verus!
