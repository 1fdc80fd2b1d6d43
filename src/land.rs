use vstd::prelude::*;

use std::collections::HashMap;

use crate::account::AccountId;
use crate::model::{LandModel, RentTerms};
use crate::timespans::TimespanTable;
use crate::types::{
    Balance, Duration, Error, Event, PriceSet, PricePerMth, PropId, PropertyApproved,
    TenantApproved, Timestamp,
};

verus! {

broadcast use vstd::std_specs::hash::group_hash_axioms;

/// A validated rent payment, made only by `Land::pay_rent`: the transfer to
/// make and the period it buys.
#[derive(Debug)]
pub struct RentPayment {
    property: PropId,
    tenant: AccountId,
    landlord: AccountId,
    amount: Balance,
    duration: Duration,
}

impl View for RentPayment {
    type V = RentTerms;

    closed spec fn view(&self) -> RentTerms {
        RentTerms {
            property: self.property,
            tenant: self.tenant,
            landlord: self.landlord,
            amount: self.amount,
            duration: self.duration,
        }
    }
}

impl RentPayment {
    pub fn property(&self) -> (r: PropId)
        ensures
            r == self@.property,
    {
        self.property
    }

    pub fn tenant(&self) -> (r: AccountId)
        ensures
            r == self@.tenant,
    {
        self.tenant
    }

    /// The account the payout goes to.
    pub fn landlord(&self) -> (r: AccountId)
        ensures
            r == self@.landlord,
    {
        self.landlord
    }

    /// The payout to transfer to the landlord.
    pub fn amount(&self) -> (r: Balance)
        ensures
            r == self@.amount,
    {
        self.amount
    }

    /// The number of months paid for.
    pub fn duration(&self) -> (r: Duration)
        ensures
            r == self@.duration,
    {
        self.duration
    }
}

/// The property registry: landlords, tenants, prices and paid periods,
/// administered by one owner, with a log of the notifications it emitted.
/// Fractional shares of ownership are not tracked: no operation uses them.
#[derive(Debug)]
pub struct Land {
    owner: AccountId,
    last_property_id: PropId,
    landlords: HashMap<PropId, AccountId>,
    tenants: HashMap<PropId, AccountId>,
    prices: HashMap<PropId, PricePerMth>,
    timespans: TimespanTable,
    events: Vec<Event>,
}

impl View for Land {
    type V = LandModel;

    closed spec fn view(&self) -> LandModel {
        LandModel {
            owner: self.owner,
            last_property_id: self.last_property_id,
            landlords: self.landlords@,
            tenants: self.tenants@,
            prices: self.prices@,
            timespans: self.timespans@,
            events: self.events@,
        }
    }
}

impl Land {
    pub open spec fn wf(&self) -> bool {
        self@.well_formed()
    }

    /// An empty registry administered by `owner`.
    pub fn new(owner: AccountId) -> (r: Land)
        ensures
            r.wf(),
            r@ == LandModel::initial(owner),
    {
        let r = Land {
            owner,
            last_property_id: 0,
            landlords: HashMap::new(),
            tenants: HashMap::new(),
            prices: HashMap::new(),
            timespans: TimespanTable::new(),
            events: Vec::new(),
        };
        assert(r.events@ =~= Seq::<Event>::empty());
        r
    }

    /// The administrator of the registry.
    pub fn owner(&self) -> (r: AccountId)
        ensures
            r == self@.owner,
    {
        self.owner
    }

    /// The id issued last; 0 before the first.
    pub fn last_property_id(&self) -> (r: PropId)
        ensures
            r == self@.last_property_id,
    {
        self.last_property_id
    }

    /// The notifications emitted so far, oldest first.
    pub fn events(&self) -> (r: &Vec<Event>)
        ensures
            r@ == self@.events,
    {
        &self.events
    }

    /// The landlord of `property`.
    pub fn get_landlord(&self, property: PropId) -> (r: Result<AccountId, Error>)
        ensures
            r == self@.landlord_of(property),
    {
        match self.landlords.get(&property) {
            Some(a) => Ok(*a),
            None => Err(Error::PropertyDoesntExist),
        }
    }

    /// The monthly price of `property`.
    pub fn get_price(&self, property: PropId) -> (r: Result<Balance, Error>)
        ensures
            r == self@.price_of(property),
    {
        match self.prices.get(&property) {
            Some(p) => Ok(*p),
            None => Err(Error::PriceIsntSet),
        }
    }

    /// The approved tenant of `property`.
    pub fn get_tenant(&self, property: PropId) -> (r: Result<AccountId, Error>)
        ensures
            r == self@.tenant_of(property),
    {
        match self.tenants.get(&property) {
            Some(a) => Ok(*a),
            None => Err(Error::NoApprovedTenant),
        }
    }

    /// The start and the length in months of the period that `tenant` last
    /// paid for on `property`.
    pub fn get_timespan(&self, property: PropId, tenant: AccountId) -> (r: Result<
        (Timestamp, Duration),
        Error,
    >)
        ensures
            r == self@.timespan_of(property, tenant),
    {
        match self.timespans.get(property, &tenant) {
            Some(t) => Ok(t),
            None => Err(Error::TimespanDoesntExist),
        }
    }

    /// Registers a new property of `landlord`. Only the owner may do so. The
    /// new id is one more than the last one issued, and a `PropertyApproved`
    /// notification is logged.
    pub fn approve_property(&mut self, caller: AccountId, landlord: AccountId) -> (r: Result<
        PropId,
        Error,
    >)
        requires
            old(self).wf(),
            old(self)@.last_property_id < u64::MAX,
        ensures
            final(self).wf(),
            (r, final(self)@) == old(self)@.approve_property(caller, landlord),
    {
        if !caller.same(&self.owner) {
            return Err(Error::NotEnoughRights);
        }
        let id: PropId = self.last_property_id + 1;
        self.last_property_id = id;
        self.landlords.insert(id, landlord);
        self.events.push(Event::PropertyApproved(PropertyApproved { property: id, landlord }));
        assert(self@.timespans == old(self)@.timespans);
        assert(self@.tenants == old(self)@.tenants);
        assert(self@.prices == old(self)@.prices);
        assert forall|p: PropId| #[trigger] self@.landlords.contains_key(p) implies 1 <= p
            <= self@.last_property_id by {
            if p != id {
                assert(old(self)@.landlords.contains_key(p));
            }
        }
        Ok(id)
    }

    /// Removes `property` with its tenant, that tenant's paid period and its
    /// price. Its landlord and the owner may do so; the id is not issued
    /// again.
    ///
    /// A removal that is allowed takes effect and reports success: a registry
    /// that reported `NotEnoughRights` after clearing would leave its callers
    /// unable to tell a refused removal from a completed one.
    pub fn remove_property(&mut self, caller: AccountId, property: PropId) -> (r: Result<(), Error>)
        requires
            old(self).wf(),
        ensures
            final(self).wf(),
            (r, final(self)@) == old(self)@.remove_property(caller, property),
    {
        let landlord = match self.get_landlord(property) {
            Ok(l) => l,
            Err(e) => return Err(e),
        };
        if !caller.same(&landlord) && !caller.same(&self.owner) {
            return Err(Error::NotEnoughRights);
        }
        self.landlords.remove(&property);
        match self.tenants.remove(&property) {
            Some(tenant) => self.timespans.remove(property, &tenant),
            None => {},
        }
        self.prices.remove(&property);
        assert forall|p: PropId| #[trigger] self@.tenants.contains_key(p) implies self@.landlords.contains_key(p) by {
            assert(old(self)@.tenants.contains_key(p));
        }
        assert forall|p: PropId| #[trigger] self@.prices.contains_key(p) implies self@.landlords.contains_key(p) by {
            assert(old(self)@.prices.contains_key(p));
        }
        assert forall|p: PropId| #[trigger] self@.landlords.contains_key(p) implies 1 <= p
            <= self@.last_property_id by {
            assert(old(self)@.landlords.contains_key(p));
        }
        assert forall|k: (PropId, AccountId)| #[trigger] self@.timespans.contains_key(k) implies 1
            <= k.0 <= self@.last_property_id by {
            assert(old(self)@.timespans.contains_key(k));
        }
        Ok(())
    }

    /// Sets the monthly price of `property`, replacing an earlier one. Only
    /// its landlord may do so; a `PriceSet` notification is logged.
    pub fn set_price(&mut self, caller: AccountId, property: PropId, price: PricePerMth) -> (r:
        Result<(), Error>)
        requires
            old(self).wf(),
        ensures
            final(self).wf(),
            (r, final(self)@) == old(self)@.set_price(caller, property, price),
    {
        let landlord = match self.get_landlord(property) {
            Ok(l) => l,
            Err(e) => return Err(e),
        };
        if !caller.same(&landlord) {
            return Err(Error::NotEnoughRights);
        }
        self.prices.insert(property, price);
        self.events.push(Event::PriceSet(PriceSet { property, price }));
        assert(self@.timespans == old(self)@.timespans);
        assert(self@.landlords == old(self)@.landlords);
        assert(self@.tenants == old(self)@.tenants);
        assert forall|p: PropId| #[trigger] self@.prices.contains_key(p) implies self@.landlords.contains_key(p) by {
            if p != property {
                assert(old(self)@.prices.contains_key(p));
            }
        }
        Ok(())
    }

    /// Approves `tenant` for `property`, replacing an earlier tenant, whose
    /// paid period stays on record. Only the landlord may do so; a
    /// `TenantApproved` notification is logged.
    pub fn approve_tenant(&mut self, caller: AccountId, property: PropId, tenant: AccountId) -> (r:
        Result<(), Error>)
        requires
            old(self).wf(),
        ensures
            final(self).wf(),
            (r, final(self)@) == old(self)@.approve_tenant(caller, property, tenant),
    {
        let landlord = match self.get_landlord(property) {
            Ok(l) => l,
            Err(e) => return Err(e),
        };
        if !caller.same(&landlord) {
            return Err(Error::NotEnoughRights);
        }
        self.tenants.insert(property, tenant);
        self.events.push(Event::TenantApproved(TenantApproved { property, tenant }));
        assert(self@.timespans == old(self)@.timespans);
        assert(self@.landlords == old(self)@.landlords);
        assert(self@.prices == old(self)@.prices);
        assert forall|p: PropId| #[trigger] self@.tenants.contains_key(p) implies self@.landlords.contains_key(p) by {
            if p != property {
                assert(old(self)@.tenants.contains_key(p));
            }
        }
        Ok(())
    }

    /// Validates a rent payment of `value` by `caller` for `property` and
    /// works out the transfer it calls for. Nothing is written: the host makes
    /// the transfer and hands its outcome to `settle_rent`.
    ///
    /// The checks come in this order: a price is set (`PriceIsntSet`), the
    /// value covers one month (`UnsufficientRent`), a tenant is approved
    /// (`NoApprovedTenant`), and the caller is that tenant
    /// (`NotApprovedTenant`). The landlord gets `floor(value / 100) * 90`; the
    /// rest stays with the registry. The period bought is
    /// `floor(value / price)` months.
    pub fn pay_rent(&self, caller: AccountId, property: PropId, value: Balance) -> (r: Result<
        RentPayment,
        Error,
    >)
        requires
            self.wf(),
            self@.rent_duration_fits(caller, property, value),
        ensures
            match r {
                Ok(pay) => self@.pay_rent(caller, property, value) == Ok::<RentTerms, Error>(pay@),
                Err(e) => self@.pay_rent(caller, property, value) == Err::<RentTerms, Error>(e),
            },
    {
        let price = match self.get_price(property) {
            Ok(p) => p,
            Err(e) => return Err(e),
        };
        if value < price {
            return Err(Error::UnsufficientRent);
        }
        let tenant = match self.get_tenant(property) {
            Ok(t) => t,
            Err(e) => return Err(e),
        };
        if !caller.same(&tenant) {
            return Err(Error::NotApprovedTenant);
        }
        let landlord = match self.get_landlord(property) {
            Ok(l) => l,
            Err(e) => return Err(e),
        };
        let amount: Balance = value / 100 * 90;
        let duration: Duration = (value / price) as Duration;
        Ok(RentPayment { property, tenant, landlord, amount, duration })
    }

    /// Completes a payment validated by `pay_rent`, given whether the host's
    /// transfer to the landlord went through. On success the tenant's paid
    /// period on the property becomes `(now, duration)`, replacing an earlier
    /// one; after a failed transfer nothing changes.
    pub fn settle_rent(&mut self, payment: &RentPayment, transferred: bool, now: Timestamp) -> (r:
        Result<(), Error>)
        requires
            old(self).wf(),
            old(self)@.landlords.contains_key(payment@.property),
        ensures
            final(self).wf(),
            (r, final(self)@) == old(self)@.settle_rent(payment@, transferred, now),
    {
        if !transferred {
            return Err(Error::FailedTransferFunds);
        }
        self.timespans.insert(payment.property, payment.tenant, now, payment.duration);
        assert forall|k: (PropId, AccountId)| #[trigger] self@.timespans.contains_key(k) implies 1
            <= k.0 <= self@.last_property_id by {
            if k != (payment@.property, payment@.tenant) {
                assert(old(self)@.timespans.contains_key(k));
            }
        }
        assert(self@.landlords == old(self)@.landlords && self@.tenants == old(self)@.tenants
            && self@.prices == old(self)@.prices && self@.last_property_id == old(
            self,
        )@.last_property_id);
        Ok(())
    }
}

} // verus!
