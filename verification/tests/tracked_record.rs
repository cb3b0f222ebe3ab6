use oracle_client::SyncError;
use oracle_client::price::ATTOS_PER_UNIT;
use oracle_client::price::Decimal;
use oracle_client::price::PriceData;
use oracle_client::record::AdminAuthority;
use oracle_client::record::TrackedClient;
use oracle_client::record::TrackedRecord;

const ADMIN_BADGE: u64 = 1;
const RECORD_RESOURCE: u64 = 2;

#[test]
fn instantiate_starts_at_sentinel() {
    let (client, token) = TrackedClient::instantiate_client(ADMIN_BADGE, RECORD_RESOURCE);
    assert_eq!(client.price(), Decimal::zero());
    assert_eq!(client.timestamp(), 0);
    assert_eq!(token.resource_address(), RECORD_RESOURCE);
    assert_eq!(token.quantity().attos, ATTOS_PER_UNIT);
}

#[test]
fn no_data_leaves_record_unchanged() {
    let (mut client, _token) = TrackedClient::instantiate_client(ADMIN_BADGE, RECORD_RESOURCE);
    client.update_token(Some(PriceData { price: Decimal::from_units(7), timestamp: 99 }));
    client.update_token(None);
    assert_eq!(client.price(), Decimal::from_units(7));
    assert_eq!(client.timestamp(), 99);
}

#[test]
fn reading_overwrites_both_fields() {
    // The oracle reports (price = 42.5, timestamp = 1000).
    let (mut client, _token) = TrackedClient::instantiate_client(ADMIN_BADGE, RECORD_RESOURCE);
    let half = ATTOS_PER_UNIT / 2;
    let price = Decimal::from_attos(42 * ATTOS_PER_UNIT + half);
    client.update_token(Some(PriceData { price, timestamp: 1000 }));
    assert_eq!(client.price(), price);
    assert_eq!(client.timestamp(), 1000);
}

#[test]
fn second_reading_overwrites_first() {
    // (10, 5), then (3, 6): the record ends at (3, 6) — overwrite, not
    // maximum and not accumulation.
    let (mut client, _token) = TrackedClient::instantiate_client(ADMIN_BADGE, RECORD_RESOURCE);
    client.update_token(Some(PriceData { price: Decimal::from_units(10), timestamp: 5 }));
    client.update_token(Some(PriceData { price: Decimal::from_units(3), timestamp: 6 }));
    assert_eq!(client.price(), Decimal::from_units(3));
    assert_eq!(client.timestamp(), 6);
}

#[test]
fn repeated_reading_is_idempotent() {
    let reading = PriceData { price: Decimal::from_units(11), timestamp: 44 };
    let (mut once, _t1) = TrackedClient::instantiate_client(ADMIN_BADGE, RECORD_RESOURCE);
    once.update_token(Some(reading));
    let (mut twice, _t2) = TrackedClient::instantiate_client(ADMIN_BADGE, RECORD_RESOURCE);
    twice.update_token(Some(reading));
    twice.update_token(Some(reading));
    assert_eq!(once.price(), twice.price());
    assert_eq!(once.timestamp(), twice.timestamp());
}

#[test]
fn negative_price_is_stored_as_published() {
    // The tracked-record path has no sign restriction: it mirrors whatever
    // the oracle published.
    let (mut client, _token) = TrackedClient::instantiate_client(ADMIN_BADGE, RECORD_RESOURCE);
    client.update_token(Some(PriceData { price: Decimal::from_units(-5), timestamp: 3 }));
    assert_eq!(client.price(), Decimal::from_units(-5));
    assert_eq!(client.timestamp(), 3);
}

#[test]
fn foreign_credential_cannot_mutate() {
    let owner = AdminAuthority::new(ADMIN_BADGE);
    let mut record = TrackedRecord::new(&owner);
    let intruder = AdminAuthority::new(ADMIN_BADGE + 1);
    let outcome = record.apply_authorized(&intruder, Decimal::from_units(9), 77);
    assert_eq!(outcome, Err(SyncError::Unauthorized));
    assert_eq!(record.price(), Decimal::zero());
    assert_eq!(record.timestamp(), 0);
}

#[test]
fn owning_credential_mutates_both_fields_together() {
    let owner = AdminAuthority::new(ADMIN_BADGE);
    let mut record = TrackedRecord::new(&owner);
    let outcome = record.apply_authorized(&owner, Decimal::from_units(9), 77);
    assert_eq!(outcome, Ok(()));
    assert_eq!(record.price(), Decimal::from_units(9));
    assert_eq!(record.timestamp(), 77);
}
