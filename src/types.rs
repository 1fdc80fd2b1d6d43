use vstd::prelude::*;

use crate::account::AccountId;

verus! {

/// Identifier of a registered property: issued from 1 upwards, never reused.
pub type PropId = u64;

/// Amount of the ledger's currency.
pub type Balance = u128;

/// Price of a property for one month.
pub type PricePerMth = Balance;

/// Ledger time of a call.
pub type Timestamp = u64;

/// Number of paid months.
pub type Duration = u64;

/// Every way in which an operation of the registry can fail.
#[derive(Debug, Clone, Copy, PartialEq, Eq, Structural)]
pub enum Error {
    NotEnoughRights,
    PropertyDoesntExist,
    UnsufficientRent,
    NotApprovedTenant,
    NoApprovedTenant,
    PriceIsntSet,
    FailedTransferFunds,
    TimespanDoesntExist,
}

/// Emitted when the owner registers a property for a landlord.
#[derive(Debug, Clone, Copy, PartialEq, Eq)]
pub struct PropertyApproved {
    pub property: PropId,
    pub landlord: AccountId,
}

/// Emitted when a landlord approves a tenant.
#[derive(Debug, Clone, Copy, PartialEq, Eq)]
pub struct TenantApproved {
    pub property: PropId,
    pub tenant: AccountId,
}

/// Emitted when a landlord sets the monthly price.
#[derive(Debug, Clone, Copy, PartialEq, Eq)]
pub struct PriceSet {
    pub property: PropId,
    pub price: PricePerMth,
}

/// One entry of the registry's append-only notification log.
#[derive(Debug, Clone, Copy, PartialEq, Eq)]
pub enum Event {
    PropertyApproved(PropertyApproved),
    TenantApproved(TenantApproved),
    PriceSet(PriceSet),
}


} // verus!
