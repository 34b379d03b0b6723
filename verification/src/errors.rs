use vstd::prelude::*;

verus! {

/// Every reason an operation of the contract can refuse to act.
///
/// A refused operation aborts as a whole: the caller gets the error and the
/// contract state is exactly what it was before the call.
#[derive(Clone, Copy, Debug, PartialEq, Eq, Structural)]
pub enum ContractError {
    /// Rejected at deployment: royalties above 100%, a zero token amount,
    /// or a zero per-address limit.
    ConfigurationError,
    /// The token class was already issued, or an issuance is in flight.
    AlreadyIssued,
    /// The token class has not been issued yet.
    TokenNotIssued,
    /// The contract lacks the create-unit role for its token class.
    RoleMissing,
    /// Minting is paused or has not been started yet.
    MintingPaused,
    /// The requested count exceeds the remaining global or per-drop supply.
    SupplyExhausted,
    /// The caller would exceed their per-wallet mint cap.
    PerAddressLimitExceeded,
    /// The supplied payment is not exactly the count times the unit price.
    InvalidPayment,
}

} // verus!
