//! A property-rental registry. The owner registers properties for landlords;
//! a landlord sets a monthly price and approves a tenant; the tenant pays
//! rent, of which the landlord receives ninety per cent, and the registry
//! records the months paid for.
//!
//! The host ledger (caller identity, transferred value, block time, the
//! transfer itself) stays outside: operations take those as plain values,
//! and a rent payment is validated by `Land::pay_rent` and recorded by
//! `Land::settle_rent` once the host has made the transfer.

pub mod account;
pub mod land;
pub mod laws;
pub mod model;
pub mod timespans;
pub mod types;

pub use account::AccountId;
pub use land::{Land, RentPayment};
pub use model::{LandModel, RentTerms};
pub use timespans::TimespanTable;
pub use types::{
    Balance, Duration, Error, Event, PriceSet, PricePerMth, PropId, PropertyApproved, TenantApproved,
    Timestamp,
};
