use vstd::prelude::*;

use crate::account::AccountId;
use crate::model::{landlord_share, LandModel, RentTerms};
use crate::types::{
    Balance, Error, Event, PriceSet, PricePerMth, PropId, PropertyApproved, TenantApproved,
    Timestamp,
};

verus! {

/// An id that was never issued has no landlord, price, tenant or paid
/// period; every change to it is refused as a missing property, and a rent
/// payment for it finds no price.
pub proof fn lemma_unissued_id(
    m: LandModel,
    id: PropId,
    caller: AccountId,
    tenant: AccountId,
    price: PricePerMth,
    value: Balance,
)
    requires
        m.well_formed(),
        id == 0 || id > m.last_property_id,
    ensures
        m.landlord_of(id) == Err::<AccountId, Error>(Error::PropertyDoesntExist),
        m.price_of(id) == Err::<PricePerMth, Error>(Error::PriceIsntSet),
        m.tenant_of(id) == Err::<AccountId, Error>(Error::NoApprovedTenant),
        m.timespan_of(id, tenant) == Err::<(Timestamp, u64), Error>(Error::TimespanDoesntExist),
        m.set_price(caller, id, price) == (Err::<(), Error>(Error::PropertyDoesntExist), m),
        m.approve_tenant(caller, id, tenant) == (Err::<(), Error>(Error::PropertyDoesntExist), m),
        m.remove_property(caller, id) == (Err::<(), Error>(Error::PropertyDoesntExist), m),
        m.pay_rent(caller, id, value) == Err::<RentTerms, Error>(Error::PriceIsntSet),
{
    if m.timespans.contains_key((id, tenant)) {
        assert(1 <= id <= m.last_property_id);
    }
    if m.landlords.contains_key(id) {
        assert(1 <= id <= m.last_property_id);
    }
}

/// A fresh registry issues 1 as its first id.
pub proof fn lemma_first_id(owner: AccountId, landlord: AccountId)
    ensures
        LandModel::initial(owner).approve_property(owner, landlord).0 == Ok::<PropId, Error>(1),
{
}

/// Only the owner registers properties; each registration logs exactly one
/// `PropertyApproved` notification, and nothing else on a refusal.
pub proof fn lemma_approve_property_rights(m: LandModel, caller: AccountId, landlord: AccountId)
    requires
        m.well_formed(),
        m.last_property_id < u64::MAX,
    ensures
        ({
            let (r, after) = m.approve_property(caller, landlord);
            &&& r is Ok <==> caller == m.owner
            &&& r is Ok ==> after.events == m.events.push(
                Event::PropertyApproved(PropertyApproved { property: r->Ok_0, landlord }),
            )
            &&& r is Err ==> after == m
        }),
{
}

/// Ids strictly increase: a registration issues an id above every id in use,
/// and the next registration issues a larger one still.
pub proof fn lemma_ids_increase(m: LandModel, first: AccountId, second: AccountId)
    requires
        m.well_formed(),
        m.last_property_id < u64::MAX - 1,
    ensures
        ({
            let (r1, m1) = m.approve_property(m.owner, first);
            let (r2, m2) = m1.approve_property(m1.owner, second);
            &&& r1 is Ok && r2 is Ok
            &&& r1->Ok_0 < r2->Ok_0
            &&& forall|p: PropId| #[trigger] m.landlords.contains_key(p) ==> p < r1->Ok_0
        }),
{
}

/// Only the landlord sets the price or approves a tenant; each success logs
/// exactly one notification of its kind.
pub proof fn lemma_landlord_rights(
    m: LandModel,
    caller: AccountId,
    property: PropId,
    price: PricePerMth,
    tenant: AccountId,
)
    ensures
        ({
            let (r, after) = m.set_price(caller, property, price);
            &&& r is Ok <==> m.landlords.contains_key(property) && m.landlords[property] == caller
            &&& r is Ok ==> after.events == m.events.push(
                Event::PriceSet(PriceSet { property, price }),
            )
            &&& r is Err ==> after == m
        }),
        ({
            let (r, after) = m.approve_tenant(caller, property, tenant);
            &&& r is Ok <==> m.landlords.contains_key(property) && m.landlords[property] == caller
            &&& r is Ok ==> after.events == m.events.push(
                Event::TenantApproved(TenantApproved { property, tenant }),
            )
            &&& r is Err ==> after == m
        }),
{
}

/// A second price replaces the first instead of adding to it.
pub proof fn lemma_set_price_overwrites(
    m: LandModel,
    caller: AccountId,
    property: PropId,
    first: PricePerMth,
    second: PricePerMth,
)
    requires
        m.set_price(caller, property, first).0 is Ok,
    ensures
        ({
            let (_, m1) = m.set_price(caller, property, first);
            let (r2, m2) = m1.set_price(caller, property, second);
            &&& r2 is Ok
            &&& m2.prices == m.prices.insert(property, second)
            &&& m2.price_of(property) == Ok::<PricePerMth, Error>(second)
        }),
{
    let (_, m1) = m.set_price(caller, property, first);
    let (_, m2) = m1.set_price(caller, property, second);
    assert(m2.prices =~= m.prices.insert(property, second));
}

/// A second tenant replaces the first; the first tenant's paid period stays
/// on record.
pub proof fn lemma_approve_tenant_overwrites(
    m: LandModel,
    caller: AccountId,
    property: PropId,
    first: AccountId,
    second: AccountId,
)
    requires
        m.approve_tenant(caller, property, first).0 is Ok,
    ensures
        ({
            let (_, m1) = m.approve_tenant(caller, property, first);
            let (r2, m2) = m1.approve_tenant(caller, property, second);
            &&& r2 is Ok
            &&& m2.tenants == m.tenants.insert(property, second)
            &&& m2.tenant_of(property) == Ok::<AccountId, Error>(second)
            &&& m2.timespans == m.timespans
        }),
{
    let (_, m1) = m.approve_tenant(caller, property, first);
    let (_, m2) = m1.approve_tenant(caller, property, second);
    assert(m2.tenants =~= m.tenants.insert(property, second));
}

/// A payment of `value` at price `price` by the approved tenant pays the
/// landlord `floor(value / 100) * 90` and, once that transfer went through,
/// records a period of `floor(value / price)` months starting at `now`.
pub proof fn lemma_rent_settlement(
    m: LandModel,
    caller: AccountId,
    property: PropId,
    value: Balance,
    now: Timestamp,
)
    requires
        m.well_formed(),
        m.prices.contains_key(property),
        m.prices[property] > 0,
        value >= m.prices[property],
        value / m.prices[property] <= u64::MAX,
        m.tenants.contains_key(property),
        m.tenants[property] == caller,
    ensures
        m.pay_rent(caller, property, value) is Ok,
        ({
            let terms = m.pay_rent(caller, property, value)->Ok_0;
            let (r, after) = m.settle_rent(terms, true, now);
            &&& terms.landlord == m.landlords[property]
            &&& terms.amount == landlord_share(value)
            &&& terms.duration == value / m.prices[property]
            &&& r is Ok
            &&& after.timespan_of(property, caller) == Ok::<(Timestamp, u64), Error>(
                (now, (value / m.prices[property]) as u64),
            )
        }),
{
    assert(landlord_share(value) <= value) by (nonlinear_arith);
}

/// Setting the same price twice changes nothing beyond a second `PriceSet`
/// notification.
pub proof fn lemma_set_price_idempotent(
    m: LandModel,
    caller: AccountId,
    property: PropId,
    price: PricePerMth,
)
    requires
        m.set_price(caller, property, price).0 is Ok,
    ensures
        ({
            let (_, m1) = m.set_price(caller, property, price);
            let (r2, m2) = m1.set_price(caller, property, price);
            &&& r2 is Ok
            &&& m2 == (LandModel {
                events: m1.events.push(Event::PriceSet(PriceSet { property, price })),
                ..m1
            })
        }),
{
    let (_, m1) = m.set_price(caller, property, price);
    assert(m1.prices.insert(property, price) =~= m1.prices);
}

} // verus!
