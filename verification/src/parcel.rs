//! The two record types the registry stores: a [`Parcel`] per shipment
//! request and a [`ParcelTracker`] per dispatched shipment.

use vstd::prelude::*;

verus! {

/// One shipment record. Created by registration; only `delivery_charges`
/// is ever mutated afterwards (by payments), and the record is never
/// deleted. `sender_phone_no` doubles as the credential a tracking query
/// must present.
#[derive(Debug)]
pub struct Parcel {
    pub sender_name: String,
    pub sender_phone_no: usize,
    pub receiver_name: String,
    pub receiver_phone_no: usize,
    /// Outstanding balance owed, in charge units; decremented by payments
    /// and never allowed to underflow.
    pub delivery_charges: u32,
    pub destination: String,
    pub is_fragile: bool,
    /// Caller-supplied, opaque to the registry.
    pub date_sent: String,
    /// Empty until delivery is recorded (no operation here sets it).
    pub date_received: String,
    pub is_received: bool,
}

/// The tracking record of one dispatched parcel: absent until dispatch
/// succeeds, present (exactly once, under the parcel's own identifier)
/// from then on.
#[derive(Debug)]
pub struct ParcelTracker {
    /// Identifier of the parcel this tracker belongs to.
    pub parcel_id: u16,
    pub current_location: String,
    pub has_arrived: bool,
}

/// Field-by-field description of the parcel that registration builds from
/// its arguments: the caller's data is stored unchanged, the received-date
/// is empty and the received-flag is down.
pub open spec fn registered_parcel(
    p: Parcel,
    sender_name: String,
    sender_phone: usize,
    receiver_name: String,
    receiver_phone: usize,
    charges: u32,
    destination: String,
    is_fragile: bool,
    date: String,
) -> bool {
    &&& p.sender_name == sender_name
    &&& p.sender_phone_no == sender_phone
    &&& p.receiver_name == receiver_name
    &&& p.receiver_phone_no == receiver_phone
    &&& p.delivery_charges == charges
    &&& p.destination == destination
    &&& p.is_fragile == is_fragile
    &&& p.date_sent == date
    &&& p.date_received@ == Seq::<char>::empty()
    &&& !p.is_received
}

/// True when `after` is `before` with at most its outstanding charge
/// changed: a payment touches no other field.
pub open spec fn same_parcel_but_charge(before: Parcel, after: Parcel) -> bool {
    &&& after.sender_name == before.sender_name
    &&& after.sender_phone_no == before.sender_phone_no
    &&& after.receiver_name == before.receiver_name
    &&& after.receiver_phone_no == before.receiver_phone_no
    &&& after.destination == before.destination
    &&& after.is_fragile == before.is_fragile
    &&& after.date_sent == before.date_sent
    &&& after.date_received == before.date_received
    &&& after.is_received == before.is_received
}

} // verus!
