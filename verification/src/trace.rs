//! Histories of a registry: the calls made on it, in order, and where they
//! lead.  This is the vocabulary in which the ledger's laws are stated.

use vstd::prelude::*;
use concordium_std::ParseError;
use crate::access::Role;
use crate::error::ContractError;
use crate::identity::Address;
use crate::ledger::{Registry, Timestamp};
use crate::messages::{ConfirmParam, RequestParam};
use crate::transition::{confirm_refusal, release_refusal};

verus! {

/// One state-changing call, with all that the outside world adds to it: who
/// called, what the clock showed, what decoding the input gave, and whether
/// the log took the event.
pub enum Call {
    RequestRelease(Address, Timestamp, Result<RequestParam, ParseError>, bool),
    ConfirmPayment(Address, Timestamp, Result<ConfirmParam, ParseError>, bool),
}

impl Call {
    /// The role that the call is reserved for.
    pub open spec fn role(self) -> Role {
        match self {
            Call::RequestRelease(..) => Role::Oracle,
            Call::ConfirmPayment(..) => Role::Client,
        }
    }

    /// Who made the call.
    pub open spec fn sender(self) -> Address {
        match self {
            Call::RequestRelease(sender, _, _, _) => sender,
            Call::ConfirmPayment(sender, _, _, _) => sender,
        }
    }

    /// What the clock showed when the call was made.
    pub open spec fn now(self) -> Timestamp {
        match self {
            Call::RequestRelease(_, now, _, _) => now,
            Call::ConfirmPayment(_, now, _, _) => now,
        }
    }

    /// The error the caller gets from making the call on `reg`, if any:
    /// that of the staging step, else `LogError` where the log did not take
    /// the event.
    pub open spec fn refusal(self, reg: Registry) -> Option<ContractError> {
        match self {
            Call::RequestRelease(sender, _, param, appended) => {
                let staged = release_refusal(reg, sender, param);
                if staged is None && !appended {
                    Some(ContractError::LogError)
                } else {
                    staged
                }
            },
            Call::ConfirmPayment(sender, _, param, appended) => {
                let staged = confirm_refusal(reg, sender, param);
                if staged is None && !appended {
                    Some(ContractError::LogError)
                } else {
                    staged
                }
            },
        }
    }
}

impl Registry {
    /// The registry after `call`: staged and committed where nothing refuses
    /// it, untouched otherwise.
    pub open spec fn after(self, call: Call) -> Registry {
        if call.refusal(self) is Some {
            self
        } else {
            match call {
                Call::RequestRelease(_, now, param, _) => {
                    let p = param->Ok_0;
                    self.with_milestone(
                        p.milestone_id as int,
                        self.milestones[p.milestone_id as int].request(p.work_hash, now),
                    )
                },
                Call::ConfirmPayment(_, now, param, _) => {
                    let p = param->Ok_0;
                    self.with_milestone(
                        p.milestone_id as int,
                        self.milestones[p.milestone_id as int].confirm(p.plt_tx_hash, now),
                    )
                },
            }
        }
    }

    /// The registry after all of `calls`, made in order.
    pub open spec fn after_all(self, calls: Seq<Call>) -> Registry
        decreases calls.len(),
    {
        if calls.len() == 0 {
            self
        } else {
            self.after_all(calls.drop_last()).after(calls.last())
        }
    }
}

/// The clock never ran backwards between the calls.
pub open spec fn clock_ordered(calls: Seq<Call>) -> bool {
    forall|i: int, j: int|
        0 <= i <= j < calls.len() ==> (#[trigger] calls[i]).now().millis <= (
        #[trigger] calls[j]).now().millis
}

} // verus!
