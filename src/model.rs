use vstd::prelude::*;

use crate::account::AccountId;
use crate::types::{
    Balance, Duration, Error, Event, PriceSet, PricePerMth, PropId, PropertyApproved,
    TenantApproved, Timestamp,
};

verus! {

/// The registry's state as mathematical values, and the rules of every
/// operation as transitions on it.
pub struct LandModel {
    pub owner: AccountId,
    pub last_property_id: PropId,
    pub landlords: Map<PropId, AccountId>,
    pub tenants: Map<PropId, AccountId>,
    pub prices: Map<PropId, PricePerMth>,
    pub timespans: Map<(PropId, AccountId), (Timestamp, Duration)>,
    pub events: Seq<Event>,
}

/// A validated rent payment: who pays for what, the payout to the landlord,
/// and the number of months bought.
pub struct RentTerms {
    pub property: PropId,
    pub tenant: AccountId,
    pub landlord: AccountId,
    pub amount: Balance,
    pub duration: Duration,
}

/// What the landlord receives of a transferred value: ninety per cent of
/// every whole hundred.
pub open spec fn landlord_share(value: Balance) -> int {
    (value / 100) * 90
}

impl LandModel {
    /// An empty registry administered by `owner`.
    pub open spec fn initial(owner: AccountId) -> LandModel {
        LandModel {
            owner,
            last_property_id: 0,
            landlords: Map::empty(),
            tenants: Map::empty(),
            prices: Map::empty(),
            timespans: Map::empty(),
            events: Seq::empty(),
        }
    }

    /// Every registered id, and every id with a paid period, was issued; a
    /// tenant or a price is only recorded for a registered property.
    pub open spec fn well_formed(self) -> bool {
        &&& forall|p: PropId| #[trigger]
            self.landlords.contains_key(p) ==> 1 <= p <= self.last_property_id
        &&& forall|p: PropId| #[trigger]
            self.tenants.contains_key(p) ==> self.landlords.contains_key(p)
        &&& forall|p: PropId| #[trigger]
            self.prices.contains_key(p) ==> self.landlords.contains_key(p)
        &&& forall|k: (PropId, AccountId)| #[trigger]
            self.timespans.contains_key(k) ==> 1 <= k.0 <= self.last_property_id
    }

    pub open spec fn landlord_of(self, property: PropId) -> Result<AccountId, Error> {
        if self.landlords.contains_key(property) {
            Ok(self.landlords[property])
        } else {
            Err(Error::PropertyDoesntExist)
        }
    }

    pub open spec fn price_of(self, property: PropId) -> Result<PricePerMth, Error> {
        if self.prices.contains_key(property) {
            Ok(self.prices[property])
        } else {
            Err(Error::PriceIsntSet)
        }
    }

    pub open spec fn tenant_of(self, property: PropId) -> Result<AccountId, Error> {
        if self.tenants.contains_key(property) {
            Ok(self.tenants[property])
        } else {
            Err(Error::NoApprovedTenant)
        }
    }

    pub open spec fn timespan_of(self, property: PropId, tenant: AccountId) -> Result<
        (Timestamp, Duration),
        Error,
    > {
        if self.timespans.contains_key((property, tenant)) {
            Ok(self.timespans[(property, tenant)])
        } else {
            Err(Error::TimespanDoesntExist)
        }
    }

    /// The owner registers a property of `landlord` under the next id.
    pub open spec fn approve_property(self, caller: AccountId, landlord: AccountId) -> (
        Result<PropId, Error>,
        LandModel,
    ) {
        if caller != self.owner {
            (Err(Error::NotEnoughRights), self)
        } else {
            let id = (self.last_property_id + 1) as PropId;
            (
                Ok(id),
                LandModel {
                    last_property_id: id,
                    landlords: self.landlords.insert(id, landlord),
                    events: self.events.push(
                        Event::PropertyApproved(PropertyApproved { property: id, landlord }),
                    ),
                    ..self
                },
            )
        }
    }

    /// Whether `caller` may change `property` as its landlord.
    pub open spec fn landlord_check(self, caller: AccountId, property: PropId) -> Result<(), Error> {
        if !self.landlords.contains_key(property) {
            Err(Error::PropertyDoesntExist)
        } else if caller != self.landlords[property] {
            Err(Error::NotEnoughRights)
        } else {
            Ok(())
        }
    }

    /// The landlord or the owner removes a property with its tenant, that
    /// tenant's paid period and its price.
    pub open spec fn remove_property(self, caller: AccountId, property: PropId) -> (
        Result<(), Error>,
        LandModel,
    ) {
        if !self.landlords.contains_key(property) {
            (Err(Error::PropertyDoesntExist), self)
        } else if caller != self.landlords[property] && caller != self.owner {
            (Err(Error::NotEnoughRights), self)
        } else {
            (
                Ok(()),
                LandModel {
                    landlords: self.landlords.remove(property),
                    tenants: self.tenants.remove(property),
                    prices: self.prices.remove(property),
                    timespans: if self.tenants.contains_key(property) {
                        self.timespans.remove((property, self.tenants[property]))
                    } else {
                        self.timespans
                    },
                    ..self
                },
            )
        }
    }

    /// The landlord sets the monthly price, replacing an earlier one.
    pub open spec fn set_price(self, caller: AccountId, property: PropId, price: PricePerMth) -> (
        Result<(), Error>,
        LandModel,
    ) {
        match self.landlord_check(caller, property) {
            Err(e) => (Err(e), self),
            Ok(_) => (
                Ok(()),
                LandModel {
                    prices: self.prices.insert(property, price),
                    events: self.events.push(Event::PriceSet(PriceSet { property, price })),
                    ..self
                },
            ),
        }
    }

    /// The landlord approves a tenant, replacing an earlier one.
    pub open spec fn approve_tenant(self, caller: AccountId, property: PropId, tenant: AccountId) -> (
        Result<(), Error>,
        LandModel,
    ) {
        match self.landlord_check(caller, property) {
            Err(e) => (Err(e), self),
            Ok(_) => (
                Ok(()),
                LandModel {
                    tenants: self.tenants.insert(property, tenant),
                    events: self.events.push(
                        Event::TenantApproved(TenantApproved { property, tenant }),
                    ),
                    ..self
                },
            ),
        }
    }

    /// The checks of a rent payment, in their order: price set, enough value,
    /// tenant approved, caller is that tenant.
    pub open spec fn rent_check(self, caller: AccountId, property: PropId, value: Balance) -> Result<
        (),
        Error,
    > {
        if !self.prices.contains_key(property) {
            Err(Error::PriceIsntSet)
        } else if value < self.prices[property] {
            Err(Error::UnsufficientRent)
        } else if !self.tenants.contains_key(property) {
            Err(Error::NoApprovedTenant)
        } else if self.tenants[property] != caller {
            Err(Error::NotApprovedTenant)
        } else {
            Ok(())
        }
    }

    /// A payment that passes the checks buys a number of months that fits in
    /// a `Duration`.
    pub open spec fn rent_duration_fits(
        self,
        caller: AccountId,
        property: PropId,
        value: Balance,
    ) -> bool {
        self.rent_check(caller, property, value) is Ok ==> {
            &&& self.prices[property] > 0
            &&& value / self.prices[property] <= u64::MAX
        }
    }

    /// The transfer and the period that a payment of `value` calls for.
    pub open spec fn pay_rent(self, caller: AccountId, property: PropId, value: Balance) -> Result<
        RentTerms,
        Error,
    > {
        match self.rent_check(caller, property, value) {
            Err(e) => Err(e),
            Ok(_) => Ok(
                RentTerms {
                    property,
                    tenant: caller,
                    landlord: self.landlords[property],
                    amount: landlord_share(value) as Balance,
                    duration: (value / self.prices[property]) as Duration,
                },
            ),
        }
    }

    /// After the host's transfer: record the paid period, or fail if the
    /// transfer did not go through.
    pub open spec fn settle_rent(self, terms: RentTerms, transferred: bool, now: Timestamp) -> (
        Result<(), Error>,
        LandModel,
    ) {
        if !transferred {
            (Err(Error::FailedTransferFunds), self)
        } else {
            (
                Ok(()),
                LandModel {
                    timespans: self.timespans.insert(
                        (terms.property, terms.tenant),
                        (now, terms.duration),
                    ),
                    ..self
                },
            )
        }
    }
}

} // verus!
