//! The registry aggregate: identifier allocation, the parcel and tracker
//! stores, payment accounting, the dispatch gate and the tracking
//! authorizer, behind four public operations.

use vstd::prelude::*;
use std::collections::HashMap;
use crate::parcel::{Parcel, ParcelTracker, registered_parcel, same_parcel_but_charge};

verus! {

broadcast use vstd::std_specs::hash::group_hash_axioms;

/// Largest outstanding charge (in charge units) a parcel may still carry
/// and be dispatched.
pub const DISPATCH_THRESHOLD: u32 = 10;

/// Fixed exchange rate: how many smallest deposit units pay off one charge
/// unit (ten to the twenty-second power).
pub const DEPOSIT_UNITS_PER_CHARGE: u128 = 10_000_000_000_000_000_000_000;

/// Why an operation was rejected. Every rejection is explicit: no
/// operation signals failure through a log line alone, and none panics.
#[derive(Clone, Copy, Debug, PartialEq, Eq, Structural)]
pub enum ParcelError {
    /// The identifier is unknown to the store the operation consulted.
    NotFound,
    /// Dispatch was attempted while the outstanding charge still exceeds
    /// the threshold; the registry is left unchanged.
    PaymentPending,
    /// Dispatch was attempted on a parcel that already has a tracker;
    /// the existing tracker is kept, never overwritten.
    AlreadyDispatched,
    /// A tracking query presented a phone number other than the sender's;
    /// no location is revealed.
    Unauthorized,
}

/// What a successful payment reports back, so the caller can relay the
/// status to the user.
#[derive(Clone, Copy, Debug, PartialEq, Eq, Structural)]
pub enum PaymentStatus {
    /// The charge is not yet cleared; this much is still owed.
    StillOwed(u32),
    /// The charge is fully paid; the parcel may be dispatched.
    ReadyForDispatch,
}

/// The outstanding charge after a payment of `paid` charge units against a
/// charge of `charge`: the subtraction saturates at zero, it never
/// underflows.
pub open spec fn charge_after_payment(charge: int, paid: int) -> int {
    if charge - paid > 0 {
        charge - paid
    } else {
        0
    }
}

/// The single authoritative record store: parcels by identifier, trackers
/// by the same identifier (only for dispatched parcels), and the next
/// identifier to issue.
pub struct Contract {
    trackers: HashMap<u16, ParcelTracker>,
    parcels: HashMap<u16, Parcel>,
    ids: u16,
}

impl Contract {
    /// The parcel store, as a map from identifier to record.
    pub closed spec fn parcel_map(&self) -> Map<u16, Parcel> {
        self.parcels@
    }

    /// The tracker store, as a map from identifier to record.
    pub closed spec fn tracker_map(&self) -> Map<u16, ParcelTracker> {
        self.trackers@
    }

    /// The identifier the next registration will be given.
    pub closed spec fn next_id(&self) -> u16 {
        self.ids
    }

    /// The registry's invariant: identifiers are issued from 1 upwards and
    /// `next_id` stays above every identifier in use; a tracker exists only
    /// for a stored parcel, is keyed by that parcel's own identifier, and
    /// only for a parcel whose charge has been paid down to the dispatch
    /// threshold.
    pub open spec fn wf(&self) -> bool {
        &&& self.next_id() >= 1
        &&& forall|k: u16| #[trigger]
            self.parcel_map().contains_key(k) ==> 1 <= k < self.next_id()
        &&& forall|k: u16| #[trigger]
            self.tracker_map().contains_key(k) ==> {
                &&& self.parcel_map().contains_key(k)
                &&& self.tracker_map()[k].parcel_id == k
                &&& self.parcel_map()[k].delivery_charges <= DISPATCH_THRESHOLD
            }
    }

    /// Registers a new shipment: allocates the next identifier, stores a
    /// parcel built from the arguments and returns the identifier. Never
    /// fails; the arguments are stored as given.
    pub fn new_parcel(
        &mut self,
        sender_name: String,
        sender_phone: usize,
        receiver_name: String,
        receiver_phone: usize,
        charges: u32,
        destination: String,
        is_fragile: bool,
        date: String,
    ) -> (id: u16)
        requires
            old(self).wf(),
            old(self).next_id() < u16::MAX,
        ensures
            final(self).wf(),
            register_allocates(*old(self), *final(self), id),
            final(self).parcel_map() == old(self).parcel_map().insert(
                id,
                final(self).parcel_map()[id],
            ),
            registered_parcel(
                final(self).parcel_map()[id],
                sender_name,
                sender_phone,
                receiver_name,
                receiver_phone,
                charges,
                destination,
                is_fragile,
                date,
            ),
            final(self).tracker_map() == old(self).tracker_map(),
    {
        let id = self.ids;
        let new_parcel = Parcel {
            sender_name,
            sender_phone_no: sender_phone,
            receiver_name,
            receiver_phone_no: receiver_phone,
            delivery_charges: charges,
            destination,
            is_fragile,
            date_sent: date,
            date_received: String::new(),
            is_received: false,
        };
        self.parcels.insert(id, new_parcel);
        self.ids = self.ids + 1;
        proof {
            assert forall|k: u16| #[trigger] self.parcel_map().contains_key(k) implies 1 <= k
                < self.next_id() by {
                if k != id {
                    assert(old(self).parcel_map().contains_key(k));
                }
            }
            assert forall|k: u16| #[trigger] self.tracker_map().contains_key(k) implies {
                &&& self.parcel_map().contains_key(k)
                &&& self.tracker_map()[k].parcel_id == k
                &&& self.parcel_map()[k].delivery_charges <= DISPATCH_THRESHOLD
            } by {
                assert(old(self).tracker_map().contains_key(k));
                assert(old(self).parcel_map().contains_key(k));
                assert(k < id);
            }
        }
        id
    }

    /// Applies a payment of `deposit` smallest deposit units to the parcel
    /// `id`: the deposit is converted to charge units at the fixed exchange
    /// rate and subtracted from the outstanding charge, saturating at zero.
    /// Succeeds exactly when the parcel exists, and then reports whether
    /// anything is still owed; the payment itself never dispatches.
    pub fn pay(&mut self, id: u16, deposit: u128) -> (r: Result<PaymentStatus, ParcelError>)
        requires
            old(self).wf(),
        ensures
            final(self).wf(),
            final(self).next_id() == old(self).next_id(),
            final(self).tracker_map() == old(self).tracker_map(),
            !old(self).parcel_map().contains_key(id) ==> {
                &&& r == Err::<PaymentStatus, ParcelError>(ParcelError::NotFound)
                &&& final(self).parcel_map() == old(self).parcel_map()
            },
            old(self).parcel_map().contains_key(id) ==> {
                let paid = deposit / DEPOSIT_UNITS_PER_CHARGE;
                let before = old(self).parcel_map()[id];
                let after = final(self).parcel_map()[id];
                &&& final(self).parcel_map() == old(self).parcel_map().insert(id, after)
                &&& same_parcel_but_charge(before, after)
                &&& after.delivery_charges == charge_after_payment(
                    before.delivery_charges as int,
                    paid as int,
                )
                &&& after.delivery_charges > 0 ==> r == Ok::<PaymentStatus, ParcelError>(
                    PaymentStatus::StillOwed(after.delivery_charges),
                )
                &&& after.delivery_charges == 0 ==> r == Ok::<PaymentStatus, ParcelError>(
                    PaymentStatus::ReadyForDispatch,
                )
            },
    {
        let paid: u128 = deposit / DEPOSIT_UNITS_PER_CHARGE;
        match self.parcels.remove(&id) {
            None => {
                proof {
                    assert(self.parcel_map() =~= old(self).parcel_map());
                    assert forall|k: u16| #[trigger] self.tracker_map().contains_key(k) implies {
                        &&& self.parcel_map().contains_key(k)
                        &&& self.tracker_map()[k].parcel_id == k
                        &&& self.parcel_map()[k].delivery_charges <= DISPATCH_THRESHOLD
                    } by {
                        assert(old(self).tracker_map().contains_key(k));
                        assert(old(self).parcel_map().contains_key(k));
                    }
                }
                Err(ParcelError::NotFound)
            },
            Some(mut parcel) => {
                let new_charge: u32 = if paid >= parcel.delivery_charges as u128 {
                    0
                } else {
                    parcel.delivery_charges - (paid as u32)
                };
                parcel.delivery_charges = new_charge;
                self.parcels.insert(id, parcel);
                proof {
                    assert(self.parcel_map() =~= old(self).parcel_map().insert(
                        id,
                        self.parcel_map()[id],
                    ));
                    assert forall|k: u16| #[trigger] self.parcel_map().contains_key(k) implies 1
                        <= k < self.next_id() by {
                        assert(old(self).parcel_map().contains_key(k));
                    }
                    assert forall|k: u16| #[trigger] self.tracker_map().contains_key(k) implies {
                        &&& self.parcel_map().contains_key(k)
                        &&& self.tracker_map()[k].parcel_id == k
                        &&& self.parcel_map()[k].delivery_charges <= DISPATCH_THRESHOLD
                    } by {
                        assert(old(self).tracker_map().contains_key(k));
                        assert(old(self).parcel_map().contains_key(k));
                        assert(old(self).parcel_map()[k].delivery_charges <= DISPATCH_THRESHOLD);
                    }
                }
                if new_charge > 0 {
                    Ok(PaymentStatus::StillOwed(new_charge))
                } else {
                    Ok(PaymentStatus::ReadyForDispatch)
                }
            },
        }
    }

    /// Dispatches the parcel `id`, placing it at `location`:
    /// succeeds exactly when the parcel exists, has no tracker yet, and its
    /// outstanding charge is within the dispatch threshold; then a tracker
    /// for it (and only for it) is created. On any rejection the registry
    /// is unchanged: a parcel is never dispatched twice (the first tracker
    /// is kept, never overwritten) and never before it is paid down.
    pub fn dispatch(&mut self, id: u16, location: String) -> (r: Result<(), ParcelError>)
        requires
            old(self).wf(),
        ensures
            final(self).wf(),
            final(self).next_id() == old(self).next_id(),
            final(self).parcel_map() == old(self).parcel_map(),
            r is Ok <==> {
                &&& old(self).parcel_map().contains_key(id)
                &&& !old(self).tracker_map().contains_key(id)
                &&& old(self).parcel_map()[id].delivery_charges <= DISPATCH_THRESHOLD
            },
            r is Ok ==> final(self).tracker_map() == old(self).tracker_map().insert(
                id,
                (ParcelTracker { parcel_id: id, current_location: location, has_arrived: false }),
            ),
            r is Err ==> final(self).tracker_map() == old(self).tracker_map(),
            !old(self).parcel_map().contains_key(id) ==> r == Err::<(), ParcelError>(
                ParcelError::NotFound,
            ),
            old(self).parcel_map().contains_key(id) && old(self).tracker_map().contains_key(id)
                ==> r == Err::<(), ParcelError>(ParcelError::AlreadyDispatched),
            old(self).parcel_map().contains_key(id) && !old(self).tracker_map().contains_key(id)
                && old(self).parcel_map()[id].delivery_charges > DISPATCH_THRESHOLD ==> r
                == Err::<(), ParcelError>(ParcelError::PaymentPending),
    {
        match self.parcels.get(&id) {
            None => Err(ParcelError::NotFound),
            Some(parcel) => {
                if self.trackers.contains_key(&id) {
                    Err(ParcelError::AlreadyDispatched)
                } else if parcel.delivery_charges > DISPATCH_THRESHOLD {
                    Err(ParcelError::PaymentPending)
                } else {
                    let new_tracker = ParcelTracker {
                        parcel_id: id,
                        current_location: location,
                        has_arrived: false,
                    };
                    self.trackers.insert(id, new_tracker);
                    proof {
                        assert forall|k: u16| #[trigger]
                            self.parcel_map().contains_key(k) implies 1 <= k < self.next_id() by {
                            assert(old(self).parcel_map().contains_key(k));
                        }
                        assert forall|k: u16| #[trigger]
                            self.tracker_map().contains_key(k) implies {
                            &&& self.parcel_map().contains_key(k)
                            &&& self.tracker_map()[k].parcel_id == k
                            &&& self.parcel_map()[k].delivery_charges <= DISPATCH_THRESHOLD
                        } by {
                            if k != id {
                                assert(old(self).tracker_map().contains_key(k));
                            }
                        }
                    }
                    Ok(())
                }
            },
        }
    }

    /// Answers a tracking query on parcel `id` from the holder of
    /// `phone`: reveals the current location exactly when the parcel
    /// exists, the query presents the registered sender's phone number,
    /// and the parcel has been dispatched. A query with any other phone
    /// number is refused outright, whether or not a tracker exists.
    pub fn track_package(&self, id: u16, phone: usize) -> (r: Result<String, ParcelError>)
        ensures
            !self.parcel_map().contains_key(id) ==> r == Err::<String, ParcelError>(
                ParcelError::NotFound,
            ),
            self.parcel_map().contains_key(id) && phone != self.parcel_map()[id].sender_phone_no
                ==> r == Err::<String, ParcelError>(ParcelError::Unauthorized),
            self.parcel_map().contains_key(id) && phone == self.parcel_map()[id].sender_phone_no
                && !self.tracker_map().contains_key(id) ==> r == Err::<String, ParcelError>(
                ParcelError::NotFound,
            ),
            self.parcel_map().contains_key(id) && phone == self.parcel_map()[id].sender_phone_no
                && self.tracker_map().contains_key(id) ==> r == Ok::<String, ParcelError>(
                self.tracker_map()[id].current_location,
            ),
    {
        match self.parcels.get(&id) {
            None => Err(ParcelError::NotFound),
            Some(parcel) => {
                if parcel.sender_phone_no != phone {
                    Err(ParcelError::Unauthorized)
                } else {
                    match self.trackers.get(&id) {
                        None => Err(ParcelError::NotFound),
                        Some(tracker) => Ok(tracker.current_location.clone()),
                    }
                }
            },
        }
    }

    /// Looks a tracker up by its parcel's identifier; fails with
    /// `NotFound` exactly when the parcel has not been dispatched.
    pub fn get_tracker(&self, id: u16) -> (r: Result<&ParcelTracker, ParcelError>)
        ensures
            self.tracker_map().contains_key(id) ==> (r matches Ok(t) && *t
                == self.tracker_map()[id]),
            !self.tracker_map().contains_key(id) ==> r == Err::<&ParcelTracker, ParcelError>(
                ParcelError::NotFound,
            ),
    {
        match self.trackers.get(&id) {
            Some(tracker) => Ok(tracker),
            None => Err(ParcelError::NotFound),
        }
    }

    /// The identifier the next registration will be given; once it reaches
    /// `u16::MAX` the allocator is exhausted and no further parcel can be
    /// registered.
    pub fn next_parcel_id(&self) -> (n: u16)
        ensures
            n == self.next_id(),
    {
        self.ids
    }

    /// How many parcels the registry holds.
    pub fn parcel_count(&self) -> (n: usize)
        ensures
            n == self.parcel_map().len(),
    {
        self.parcels.len()
    }

    /// How many trackers the registry holds.
    pub fn tracker_count(&self) -> (n: usize)
        ensures
            n == self.tracker_map().len(),
    {
        self.trackers.len()
    }

    /// Looks a parcel up by identifier; fails with `NotFound` exactly when
    /// the identifier is absent from the parcel store.
    pub fn get_parcel(&self, id: u16) -> (r: Result<&Parcel, ParcelError>)
        ensures
            self.parcel_map().contains_key(id) ==> (r matches Ok(p) && *p
                == self.parcel_map()[id]),
            !self.parcel_map().contains_key(id) ==> r == Err::<&Parcel, ParcelError>(
                ParcelError::NotFound,
            ),
    {
        match self.parcels.get(&id) {
            Some(parcel) => Ok(parcel),
            None => Err(ParcelError::NotFound),
        }
    }
}

/// One registration step: the identifier handed out is exactly the
/// `next_id` of the state before the call, and the allocator moves past it,
/// so no later registration can issue it again.
pub open spec fn register_allocates(pre: Contract, post: Contract, id: u16) -> bool {
    &&& id == pre.next_id()
    &&& post.next_id() == pre.next_id() + 1
}

impl Default for Contract {
    /// The empty registry: no parcels, no trackers, identifiers start at 1.
    fn default() -> (c: Self)
        ensures
            c.wf(),
            c.next_id() == 1,
            c.parcel_map() == Map::<u16, Parcel>::empty(),
            c.tracker_map() == Map::<u16, ParcelTracker>::empty(),
    {
        Contract { trackers: HashMap::new(), parcels: HashMap::new(), ids: 1 }
    }
}

} // verus!
