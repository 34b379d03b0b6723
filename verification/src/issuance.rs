//! The token issuance controller: the one-time asynchronous request that
//! creates the token class, its callback, and the later special-role grant.
//!
//! The asynchronous sub-call is the only suspension point of the contract.
//! Dispatching returns a plain description of the request for the runtime
//! to perform; the triggering operation changes nothing past the dispatch,
//! and every consequential state change (storing the token id, refunding a
//! failed payment) happens in the callback, which the runtime delivers
//! exactly once as its own atomic invocation.

use vstd::prelude::*;

verus! {

/// The fixed capability set requested for the token class: create-only —
/// no freeze, wipe, pause, owner change or upgrade, but special roles may
/// be granted later.
#[derive(Clone, Copy, Debug, PartialEq, Eq, Structural)]
pub struct TokenProperties {
    pub can_freeze: bool,
    pub can_wipe: bool,
    pub can_pause: bool,
    pub can_change_owner: bool,
    pub can_upgrade: bool,
    pub can_add_special_roles: bool,
}

/// The capability set every issuance request carries.
pub open spec fn spec_issue_properties() -> TokenProperties {
    TokenProperties {
        can_freeze: false,
        can_wipe: false,
        can_pause: false,
        can_change_owner: false,
        can_upgrade: false,
        can_add_special_roles: true,
    }
}

/// An issuance request for the runtime to dispatch as an asynchronous
/// sub-call, with its outcome delivered to `issue_callback`.
#[derive(Debug)]
pub struct IssueAction {
    /// The native-currency payment forwarded to the issuance primitive.
    pub issue_cost: u128,
    /// Display name of the token class.
    pub token_name: Vec<u8>,
    /// Ticker of the token class.
    pub token_ticker: Vec<u8>,
    /// The requested capability set.
    pub properties: TokenProperties,
}

/// A special-role grant request for the runtime to dispatch: grant the
/// create-unit role on the token class to the contract's own address.
#[derive(Debug)]
pub struct SetRolesAction {
    /// The token class to grant the role on.
    pub token_id: Vec<u8>,
}

/// The resolved outcome of the issuance sub-call, as the runtime delivers
/// it to the callback.
pub enum IssueOutcome {
    /// The runtime created the token class under this handle.
    Success { token_id: Vec<u8> },
    /// The sub-call failed; the runtime returned this payment alongside,
    /// native currency or not.
    Failure { returned_token_is_native: bool, returned_amount: u128 },
}

/// A refund owed to the contract owner after a failed issuance.
pub struct OwnerRefund {
    /// The full returned amount, in native currency.
    pub amount: u128,
}

} // verus!
