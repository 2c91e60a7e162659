//! Error kinds reported by the ledger's operations.

use vstd::prelude::*;
use vstd::std_specs::convert::FromSpecImpl;

verus! {

/// `concordium_std::ParseError`, the error the host's parameter cursor gives
/// when input cannot be decoded.  It is carried as an opaque value: nothing is
/// assumed about what it holds.
#[verifier::external_type_specification]
#[verifier::external_body]
pub struct ExParseError(concordium_std::ParseError);

/// Why an operation was refused.  Every error leaves the registry as it was.
#[derive(Clone, Copy, Debug, PartialEq, Eq, Structural)]
pub enum ContractError {
    /// The caller is not the account configured for the required role.
    Unauthorized,
    /// The milestone id is not below the number of milestones.
    InvalidMilestone,
    /// Release was already requested for this milestone.
    AlreadyRequested,
    /// Payment is confirmed before release was requested.
    NotRequested,
    /// The milestone is already released.
    AlreadyReleased,
    /// The amount the client reports differs from the configured amount.
    AmountMismatch,
    /// The event could not be appended to the external log.
    LogError,
    /// Input was malformed or absent.
    ParseError,
    /// A requested milestone carries no work digest.
    InternalInvariantViolation,
}

impl From<concordium_std::ParseError> for ContractError {
    fn from(e: concordium_std::ParseError) -> (r: Self) {
        ContractError::ParseError
    }
}

impl FromSpecImpl<concordium_std::ParseError> for ContractError {
    open spec fn obeys_from_spec() -> bool {
        true
    }

    open spec fn from_spec(e: concordium_std::ParseError) -> Self {
        ContractError::ParseError
    }
}

} // verus!
