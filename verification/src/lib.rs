//! Parcel delivery bookkeeping: registration of shipments, payment of
//! delivery charges, a gated dispatch step, and owner-only location tracking.
//!
//! The [`registry::Contract`] aggregate owns all state; every operation on it
//! carries a contract that pins down the successor state and the exact
//! conditions under which each error is returned.

pub mod laws;
pub mod parcel;
pub mod registry;

pub use parcel::Parcel;
pub use parcel::ParcelTracker;
pub use registry::Contract;
pub use registry::ParcelError;
pub use registry::PaymentStatus;
