//! Token-gated, time-limited access to off-chain datasets.
//!
//! Whoever holds a given asset may read the dataset that belongs to it, as
//! long as the lease on it runs. Each asset has one access record
//! ([`DataAccount`]); every decision is taken anew from that record, from the
//! caller's balance of the asset as the ownership oracle reports it, and from
//! the time that the clock gives. Nothing about a past decision is stored.
//!
//! The library decides and never acts on the world: callers query the oracle
//! and the clock before they call, and publish notices and carry out fee
//! transfers as the results tell them to.
//!
//! - [`record`]: the access record and its creation.
//! - [`access`]: the eligibility check and plain access.
//! - [`clock`]: the same decisions at the time that the runtime's clock gives.
//! - [`fee`]: access against a fee, in two halves around the payment.
//! - [`lease`]: extending a lease.
//! - [`ownership`]: handing a record to a new authority.
//! - [`store`]: the records of all assets, one per asset.
//! - [`lifecycle`]: what holds of a record over any series of requests.

pub mod access;
pub mod clock;
pub mod error;
pub mod fee;
pub mod identity;
pub mod lease;
pub mod lifecycle;
pub mod ownership;
pub mod record;
pub mod store;

pub use access::{check_access, check_holding, grant_access, Access, AccessGranted};
pub use clock::{
    check_access_at_reading, check_access_now, grant_access_now, grant_access_with_fee_now,
    TimedError,
};
pub use error::CustomError;
pub use fee::{grant_access_with_fee, FeeTransfer, PaymentOutcome, PendingAccess};
pub use identity::Identity;
pub use lease::extend_lease;
pub use ownership::transfer_ownership;
pub use record::{initialize, DataAccount};
pub use store::AccessRecordStore;
