use land::{AccountId, Balance, Error, Event, Land, PriceSet, PropId, Timestamp};

fn account(byte: u8) -> AccountId {
    AccountId::from([byte; 32])
}

fn alice() -> AccountId {
    account(0x01)
}

fn bob() -> AccountId {
    account(0x02)
}

fn charlie() -> AccountId {
    account(0x03)
}

fn eve() -> AccountId {
    account(0x05)
}

/// Runs a rent payment end to end, crediting the payout to `landlord_balance`.
fn pay(
    land: &mut Land,
    caller: AccountId,
    property: PropId,
    value: Balance,
    now: Timestamp,
    landlord_balance: &mut Balance,
) -> Result<(), Error> {
    let payment = land.pay_rent(caller, property, value)?;
    *landlord_balance += payment.amount();
    land.settle_rent(&payment, true, now)
}

#[test]
fn new_works() {
    let land = Land::new(alice());
    assert_eq!(land.owner(), alice());
    assert_eq!(land.last_property_id(), 0);
    assert!(land.events().is_empty());
}

#[test]
fn approve_property_works() {
    let mut land = Land::new(alice());
    let landlord = AccountId::from([0x1; 32]);
    let property = land.approve_property(alice(), landlord).unwrap();
    assert_eq!(land.get_landlord(property).unwrap(), landlord);
    assert_eq!(land.approve_property(bob(), landlord), Err(Error::NotEnoughRights));
    assert_eq!(land.events().len(), 1);
}

#[test]
fn approve_tenant_works() {
    let mut land = Land::new(alice());
    let property = land.approve_property(alice(), bob()).unwrap();
    let tenant = AccountId::from([0x0; 32]);
    assert!(!land.approve_tenant(bob(), property, tenant).is_err());
    assert_eq!(land.get_tenant(property), Ok(tenant));
    assert_eq!(land.approve_tenant(eve(), 12345, tenant), Err(Error::PropertyDoesntExist));
    assert_eq!(land.approve_tenant(eve(), property, tenant), Err(Error::NotEnoughRights));
    assert_eq!(land.events().len(), 2);
}

#[test]
fn set_price_works() {
    let mut land = Land::new(alice());
    let property = land.approve_property(alice(), bob()).unwrap();
    assert!(!land.set_price(bob(), property, 12000).is_err());
    assert_eq!(land.set_price(bob(), 12345, 12000), Err(Error::PropertyDoesntExist));
    assert_eq!(land.set_price(eve(), property, 12000), Err(Error::NotEnoughRights));
    assert_eq!(land.events().len(), 2);
}

#[test]
fn pay_rent_works() {
    let mut land = Land::new(alice());
    let property = land.approve_property(alice(), bob()).unwrap();
    let mut tenant = eve();
    let landlord = bob();
    let mut landlord_balance: Balance = 0;
    assert!(!land.set_price(landlord, property, 12000).is_err());
    assert!(!land.approve_tenant(landlord, property, tenant).is_err());
    assert_eq!(
        pay(&mut land, tenant, property, 0, 7, &mut landlord_balance),
        Err(Error::UnsufficientRent)
    );
    assert_eq!(
        pay(&mut land, tenant, property, 11999, 7, &mut landlord_balance),
        Err(Error::UnsufficientRent)
    );
    assert!(!pay(&mut land, tenant, property, 24000, 7, &mut landlord_balance).is_err());
    let (_, duration) = land.get_timespan(property, tenant).unwrap();
    assert_eq!(duration, 2);
    assert_eq!(landlord_balance, 21600);
    tenant = charlie();
    assert_eq!(
        pay(&mut land, tenant, property, 30000, 8, &mut landlord_balance),
        Err(Error::NotApprovedTenant)
    );
}

#[test]
fn unissued_id_queries_fail() {
    let mut land = Land::new(alice());
    let property = land.approve_property(alice(), bob()).unwrap();
    for id in [0, property + 1, 77] {
        assert_eq!(land.get_landlord(id), Err(Error::PropertyDoesntExist));
        assert_eq!(land.get_price(id), Err(Error::PriceIsntSet));
        assert_eq!(land.get_tenant(id), Err(Error::NoApprovedTenant));
        assert_eq!(land.get_timespan(id, eve()), Err(Error::TimespanDoesntExist));
        assert_eq!(land.set_price(bob(), id, 1), Err(Error::PropertyDoesntExist));
        assert_eq!(land.approve_tenant(bob(), id, eve()), Err(Error::PropertyDoesntExist));
        assert_eq!(land.remove_property(alice(), id), Err(Error::PropertyDoesntExist));
        assert_eq!(land.pay_rent(eve(), id, 100).err(), Some(Error::PriceIsntSet));
    }
}

#[test]
fn ids_increase_from_one() {
    let mut land = Land::new(alice());
    assert_eq!(land.approve_property(alice(), bob()), Ok(1));
    assert_eq!(land.approve_property(alice(), charlie()), Ok(2));
    assert_eq!(land.remove_property(alice(), 2), Ok(()));
    assert_eq!(land.approve_property(alice(), eve()), Ok(3));
    assert_eq!(land.approve_property(eve(), eve()), Err(Error::NotEnoughRights));
    assert_eq!(land.events().len(), 3);
    assert_eq!(land.get_landlord(3), Ok(eve()));
    assert_eq!(land.get_landlord(2), Err(Error::PropertyDoesntExist));
}

#[test]
fn landlord_overwrites_price_and_tenant() {
    let mut land = Land::new(alice());
    let property = land.approve_property(alice(), bob()).unwrap();
    assert_eq!(land.set_price(alice(), property, 5), Err(Error::NotEnoughRights));
    assert_eq!(land.approve_tenant(alice(), property, eve()), Err(Error::NotEnoughRights));
    assert_eq!(land.set_price(bob(), property, 5), Ok(()));
    assert_eq!(land.set_price(bob(), property, 9), Ok(()));
    assert_eq!(land.get_price(property), Ok(9));
    assert_eq!(land.approve_tenant(bob(), property, eve()), Ok(()));
    assert_eq!(land.approve_tenant(bob(), property, charlie()), Ok(()));
    assert_eq!(land.get_tenant(property), Ok(charlie()));
    assert_eq!(land.events().len(), 5);
}

#[test]
fn rent_settlement_formula() {
    let mut land = Land::new(alice());
    let property = land.approve_property(alice(), bob()).unwrap();
    land.set_price(bob(), property, 1000).unwrap();
    land.approve_tenant(bob(), property, eve()).unwrap();
    let payment = land.pay_rent(eve(), property, 12345).unwrap();
    assert_eq!(payment.property(), property);
    assert_eq!(payment.tenant(), eve());
    assert_eq!(payment.landlord(), bob());
    assert_eq!(payment.amount(), 11070);
    assert_eq!(payment.duration(), 12);
    assert_eq!(land.get_timespan(property, eve()), Err(Error::TimespanDoesntExist));
    assert_eq!(land.settle_rent(&payment, true, 1_700_000), Ok(()));
    assert_eq!(land.get_timespan(property, eve()), Ok((1_700_000, 12)));
}

#[test]
fn rent_scenario_price_12000() {
    let mut land = Land::new(alice());
    let property = land.approve_property(alice(), bob()).unwrap();
    land.set_price(bob(), property, 12000).unwrap();
    land.approve_tenant(bob(), property, eve()).unwrap();
    assert_eq!(land.pay_rent(eve(), property, 11999).err(), Some(Error::UnsufficientRent));
    let payment = land.pay_rent(eve(), property, 24000).unwrap();
    assert_eq!(payment.amount(), 21600);
    assert_eq!(payment.duration(), 2);
    assert_eq!(land.settle_rent(&payment, true, 42), Ok(()));
    assert_eq!(land.get_timespan(property, eve()), Ok((42, 2)));
}

#[test]
fn replaced_tenant_cannot_pay() {
    let mut land = Land::new(alice());
    let mut landlord_balance: Balance = 0;
    let property = land.approve_property(alice(), bob()).unwrap();
    land.set_price(bob(), property, 100).unwrap();
    land.approve_tenant(bob(), property, eve()).unwrap();
    assert_eq!(pay(&mut land, eve(), property, 300, 10, &mut landlord_balance), Ok(()));
    land.approve_tenant(bob(), property, charlie()).unwrap();
    assert_eq!(pay(&mut land, charlie(), property, 200, 20, &mut landlord_balance), Ok(()));
    assert_eq!(
        pay(&mut land, eve(), property, 300, 30, &mut landlord_balance),
        Err(Error::NotApprovedTenant)
    );
    assert_eq!(land.get_timespan(property, eve()), Ok((10, 3)));
    assert_eq!(land.get_timespan(property, charlie()), Ok((20, 2)));
    assert_eq!(landlord_balance, 270 + 180);
}

#[test]
fn set_price_twice_only_adds_event() {
    let mut land = Land::new(alice());
    let property = land.approve_property(alice(), bob()).unwrap();
    land.set_price(bob(), property, 700).unwrap();
    let events_after_one = land.events().len();
    land.set_price(bob(), property, 700).unwrap();
    assert_eq!(land.get_price(property), Ok(700));
    assert_eq!(land.events().len(), events_after_one + 1);
    assert_eq!(land.events()[events_after_one], Event::PriceSet(PriceSet { property, price: 700 }));
}

#[test]
fn rent_check_order() {
    let mut land = Land::new(alice());
    let property = land.approve_property(alice(), bob()).unwrap();
    assert_eq!(land.pay_rent(eve(), property, 100).err(), Some(Error::PriceIsntSet));
    land.set_price(bob(), property, 100).unwrap();
    assert_eq!(land.pay_rent(eve(), property, 99).err(), Some(Error::UnsufficientRent));
    assert_eq!(land.pay_rent(eve(), property, 100).err(), Some(Error::NoApprovedTenant));
    land.approve_tenant(bob(), property, eve()).unwrap();
    assert_eq!(land.pay_rent(charlie(), property, 100).err(), Some(Error::NotApprovedTenant));
    assert!(land.pay_rent(eve(), property, 100).is_ok());
}

#[test]
fn failed_transfer_writes_nothing() {
    let mut land = Land::new(alice());
    let property = land.approve_property(alice(), bob()).unwrap();
    land.set_price(bob(), property, 100).unwrap();
    land.approve_tenant(bob(), property, eve()).unwrap();
    let payment = land.pay_rent(eve(), property, 100).unwrap();
    assert_eq!(land.settle_rent(&payment, false, 5), Err(Error::FailedTransferFunds));
    assert_eq!(land.get_timespan(property, eve()), Err(Error::TimespanDoesntExist));
}

#[test]
fn repeated_payment_replaces_period() {
    let mut land = Land::new(alice());
    let mut landlord_balance: Balance = 0;
    let property = land.approve_property(alice(), bob()).unwrap();
    land.set_price(bob(), property, 50).unwrap();
    land.approve_tenant(bob(), property, eve()).unwrap();
    assert_eq!(pay(&mut land, eve(), property, 150, 1, &mut landlord_balance), Ok(()));
    assert_eq!(pay(&mut land, eve(), property, 50, 2, &mut landlord_balance), Ok(()));
    assert_eq!(land.get_timespan(property, eve()), Ok((2, 1)));
    assert_eq!(landlord_balance, 90 + 0);
}

#[test]
fn remove_property_clears_records() {
    let mut land = Land::new(alice());
    let mut landlord_balance: Balance = 0;
    let property = land.approve_property(alice(), bob()).unwrap();
    land.set_price(bob(), property, 10).unwrap();
    land.approve_tenant(bob(), property, eve()).unwrap();
    assert_eq!(pay(&mut land, eve(), property, 10, 3, &mut landlord_balance), Ok(()));
    assert_eq!(land.remove_property(eve(), property), Err(Error::NotEnoughRights));
    assert_eq!(land.get_landlord(property), Ok(bob()));
    assert_eq!(land.remove_property(bob(), property), Ok(()));
    assert_eq!(land.get_landlord(property), Err(Error::PropertyDoesntExist));
    assert_eq!(land.get_price(property), Err(Error::PriceIsntSet));
    assert_eq!(land.get_tenant(property), Err(Error::NoApprovedTenant));
    assert_eq!(land.get_timespan(property, eve()), Err(Error::TimespanDoesntExist));
    assert_eq!(land.remove_property(bob(), property), Err(Error::PropertyDoesntExist));
}

#[test]
fn owner_may_remove_property() {
    let mut land = Land::new(alice());
    let property = land.approve_property(alice(), bob()).unwrap();
    assert_eq!(land.remove_property(alice(), property), Ok(()));
    assert_eq!(land.get_landlord(property), Err(Error::PropertyDoesntExist));
}

#[test]
fn accounts_compare_by_bytes() {
    let mut bytes = [0x07; 32];
    assert_eq!(AccountId::from(bytes), AccountId::from([0x07; 32]));
    bytes[31] = 0x08;
    assert_ne!(AccountId::from(bytes), AccountId::from([0x07; 32]));
    assert!(AccountId::from(bytes).same(&AccountId::from(bytes)));
}
