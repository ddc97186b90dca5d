//! Exercises the registry end to end: registration, payment accounting,
//! the dispatch gate, and tracking authorization.

use parcel_tracker::registry::DEPOSIT_UNITS_PER_CHARGE;
use parcel_tracker::Contract;
use parcel_tracker::ParcelError;
use parcel_tracker::PaymentStatus;

#[test]
fn test_new_parcel() {
    let mut contract = Contract::default();

    contract.new_parcel(
        "joe".to_string(),
        12345678,
        "doe".to_string(),
        87654321,
        200,
        "juja".to_string(),
        true,
        "10-6-2022".to_string(),
    );

    assert_eq!(1, contract.parcel_count())
}

#[test]
fn test_pay() {
    let mut contract = Contract::default();

    contract.new_parcel(
        "joe".to_string(),
        12345678,
        "doe".to_string(),
        87654321,
        100,
        "juja".to_string(),
        true,
        "10-6-2022".to_string(),
    );
    contract.pay(1, 100 * 10u128.pow(22)).unwrap();

    assert!(contract.get_parcel(1).unwrap().delivery_charges < 1);
}

#[test]
fn test_dispatch() {
    let mut contract = Contract::default();

    contract.new_parcel(
        "joe".to_string(),
        12345678,
        "doe".to_string(),
        87654321,
        100,
        "juja".to_string(),
        true,
        "10-6-2022".to_string(),
    );
    contract.pay(1, 100 * 10u128.pow(22)).unwrap();
    contract.dispatch(1, "tudor".to_string()).unwrap();

    assert_eq!(1, contract.tracker_count())
}

fn register_default(contract: &mut Contract, charges: u32) -> u16 {
    contract.new_parcel(
        "joe".to_string(),
        123,
        "doe".to_string(),
        456,
        charges,
        "juja".to_string(),
        true,
        "2022-06-10".to_string(),
    )
}

#[test]
fn registration_stores_the_given_fields() {
    let mut contract = Contract::default();
    let id = register_default(&mut contract, 200);
    let parcel = contract.get_parcel(id).unwrap();
    assert_eq!(parcel.sender_name, "joe");
    assert_eq!(parcel.sender_phone_no, 123);
    assert_eq!(parcel.receiver_name, "doe");
    assert_eq!(parcel.receiver_phone_no, 456);
    assert_eq!(parcel.delivery_charges, 200);
    assert_eq!(parcel.destination, "juja");
    assert!(parcel.is_fragile);
    assert_eq!(parcel.date_sent, "2022-06-10");
    assert_eq!(parcel.date_received, "");
    assert!(!parcel.is_received);
}

#[test]
fn registration_issues_increasing_identifiers() {
    let mut contract = Contract::default();
    let first = register_default(&mut contract, 10);
    let second = register_default(&mut contract, 20);
    let third = register_default(&mut contract, 30);
    assert_eq!(first, 1);
    assert_eq!(second, 2);
    assert_eq!(third, 3);
    assert_eq!(contract.parcel_count(), 3);
}

#[test]
fn payment_reduces_the_charge_at_the_exchange_rate() {
    let mut contract = Contract::default();
    let id = register_default(&mut contract, 200);
    let status = contract.pay(id, 100 * DEPOSIT_UNITS_PER_CHARGE).unwrap();
    assert_eq!(status, PaymentStatus::StillOwed(100));
    assert_eq!(contract.get_parcel(id).unwrap().delivery_charges, 100);
}

#[test]
fn payment_saturates_at_zero_on_overpayment() {
    let mut contract = Contract::default();
    let id = register_default(&mut contract, 5);
    let status = contract.pay(id, 10 * DEPOSIT_UNITS_PER_CHARGE).unwrap();
    assert_eq!(status, PaymentStatus::ReadyForDispatch);
    assert_eq!(contract.get_parcel(id).unwrap().delivery_charges, 0);
}

#[test]
fn payment_below_one_charge_unit_changes_nothing() {
    let mut contract = Contract::default();
    let id = register_default(&mut contract, 7);
    let status = contract.pay(id, DEPOSIT_UNITS_PER_CHARGE - 1).unwrap();
    assert_eq!(status, PaymentStatus::StillOwed(7));
    assert_eq!(contract.get_parcel(id).unwrap().delivery_charges, 7);
}

#[test]
fn payment_never_underflows_even_at_the_largest_deposit() {
    let mut contract = Contract::default();
    let id = register_default(&mut contract, 4_294_967_295);
    let status = contract.pay(id, u128::MAX).unwrap();
    assert_eq!(status, PaymentStatus::ReadyForDispatch);
    assert_eq!(contract.get_parcel(id).unwrap().delivery_charges, 0);
}

#[test]
fn payment_on_unknown_identifier_is_not_found() {
    let mut contract = Contract::default();
    assert_eq!(
        contract.pay(9, DEPOSIT_UNITS_PER_CHARGE),
        Err(ParcelError::NotFound)
    );
}

#[test]
fn full_payment_then_dispatch_creates_the_tracker() {
    let mut contract = Contract::default();
    let id = register_default(&mut contract, 200);
    assert_eq!(
        contract.pay(id, 100 * DEPOSIT_UNITS_PER_CHARGE),
        Ok(PaymentStatus::StillOwed(100))
    );
    assert_eq!(
        contract.pay(id, 100 * DEPOSIT_UNITS_PER_CHARGE),
        Ok(PaymentStatus::ReadyForDispatch)
    );
    assert_eq!(contract.dispatch(id, "depot".to_string()), Ok(()));
    let tracker = contract.get_tracker(id).unwrap();
    assert_eq!(tracker.parcel_id, id);
    assert_eq!(tracker.current_location, "depot");
    assert!(!tracker.has_arrived);
}

#[test]
fn dispatch_with_charge_above_threshold_is_payment_pending() {
    let mut contract = Contract::default();
    let id = register_default(&mut contract, 50);
    assert_eq!(
        contract.dispatch(id, "depot".to_string()),
        Err(ParcelError::PaymentPending)
    );
    assert_eq!(contract.tracker_count(), 0);
    assert_eq!(contract.get_parcel(id).unwrap().delivery_charges, 50);
}

#[test]
fn dispatch_at_the_threshold_succeeds() {
    let mut contract = Contract::default();
    let id = register_default(&mut contract, 10);
    assert_eq!(contract.dispatch(id, "depot".to_string()), Ok(()));
    assert_eq!(contract.tracker_count(), 1);
}

#[test]
fn dispatch_just_above_the_threshold_is_payment_pending() {
    let mut contract = Contract::default();
    let id = register_default(&mut contract, 11);
    assert_eq!(
        contract.dispatch(id, "depot".to_string()),
        Err(ParcelError::PaymentPending)
    );
    assert_eq!(contract.tracker_count(), 0);
}

#[test]
fn dispatch_on_unknown_identifier_is_not_found() {
    let mut contract = Contract::default();
    assert_eq!(
        contract.dispatch(4, "depot".to_string()),
        Err(ParcelError::NotFound)
    );
}

#[test]
fn second_dispatch_is_rejected_and_keeps_the_first_tracker() {
    let mut contract = Contract::default();
    let id = register_default(&mut contract, 0);
    assert_eq!(contract.dispatch(id, "depot".to_string()), Ok(()));
    assert_eq!(
        contract.dispatch(id, "river".to_string()),
        Err(ParcelError::AlreadyDispatched)
    );
    assert_eq!(contract.tracker_count(), 1);
    assert_eq!(contract.get_tracker(id).unwrap().current_location, "depot");
}

#[test]
fn tracking_with_the_sender_phone_returns_the_location() {
    let mut contract = Contract::default();
    let id = register_default(&mut contract, 0);
    contract.dispatch(id, "depot".to_string()).unwrap();
    assert_eq!(contract.track_package(id, 123), Ok("depot".to_string()));
}

#[test]
fn tracking_with_another_phone_is_unauthorized() {
    let mut contract = Contract::default();
    let id = register_default(&mut contract, 0);
    contract.dispatch(id, "depot".to_string()).unwrap();
    assert_eq!(contract.track_package(id, 999), Err(ParcelError::Unauthorized));
}

#[test]
fn tracking_before_dispatch_is_not_found() {
    let mut contract = Contract::default();
    let id = register_default(&mut contract, 0);
    assert_eq!(contract.track_package(id, 123), Err(ParcelError::NotFound));
}

#[test]
fn tracking_an_unknown_identifier_is_not_found() {
    let contract = Contract::default();
    assert_eq!(contract.track_package(3, 123), Err(ParcelError::NotFound));
}

#[test]
fn reading_an_unknown_parcel_is_not_found() {
    let contract = Contract::default();
    assert!(matches!(contract.get_parcel(1), Err(ParcelError::NotFound)));
    assert!(matches!(contract.get_tracker(1), Err(ParcelError::NotFound)));
}
