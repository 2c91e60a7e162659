//! Who may do what: each state-changing operation belongs to one role, and
//! only the account configured for that role may perform it.

use vstd::prelude::*;
use crate::error::ContractError;
use crate::identity::{AccountAddress, Address};
use crate::ledger::{Registry, State};

verus! {

/// The roles that may change a registry.
#[derive(Clone, Copy, Debug, PartialEq, Eq, Structural)]
pub enum Role {
    /// Requests releases.
    Oracle,
    /// Confirms payments.
    Client,
}

impl Registry {
    /// The account configured for `role`.
    pub open spec fn holder(self, role: Role) -> AccountAddress {
        match role {
            Role::Oracle => self.oracle,
            Role::Client => self.client,
        }
    }

    /// `sender` may act in `role`: it is an account, not a contract, and it is
    /// the account configured for that role.
    pub open spec fn permits(self, sender: Address, role: Role) -> bool {
        sender matches Address::Account(account) && account == self.holder(role)
    }
}

/// Decides whether `sender` may perform an operation reserved for `role`.
pub fn authorize(state: &State, sender: &Address, role: Role) -> (r: Result<(), ContractError>)
    ensures
        state@.permits(*sender, role) ==> r == Ok::<(), ContractError>(()),
        !state@.permits(*sender, role) ==> r == Err::<(), ContractError>(
            ContractError::Unauthorized,
        ),
{
    match sender {
        Address::Account(account) => {
            let holder = match role {
                Role::Oracle => &state.oracle,
                Role::Client => &state.client,
            };
            if *account == *holder {
                Ok(())
            } else {
                Err(ContractError::Unauthorized)
            }
        },
        Address::Contract(_) => Err(ContractError::Unauthorized),
    }
}

} // verus!
