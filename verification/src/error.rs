use vstd::prelude::*;

verus! {

/// Why an operation on an access record was refused.
#[derive(Clone, Copy, Debug, PartialEq, Eq, Structural)]
pub enum CustomError {
    /// A record already exists for the asset.
    DuplicateRecord,
    /// The caller holds none of the gating asset.
    NoAssetHeld,
    /// The lease ended before the moment of access.
    AccessExpired,
    /// The caller is not the record's authority.
    Unauthorized,
    /// The payment ledger refused the fee transfer.
    PaymentTransferFailed,
    /// A lease extension of zero or fewer seconds was asked for.
    InvalidDuration,
}

} // verus!
