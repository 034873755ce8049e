use vstd::prelude::*;
use crate::access::check_holding;
use crate::error::CustomError;
use crate::record::{DataAccount, DataAccountView};

verus! {

/// Whether a lease extension is accepted: the caller must hold the asset and
/// ask for at least one second. The lease's expiry plays no part, so a lapsed
/// lease can be extended.
pub open spec fn extension_decision(balance: u64, additional_seconds: int) -> Result<
    (),
    CustomError,
> {
    if balance == 0 {
        Err(CustomError::NoAssetHeld)
    } else if additional_seconds <= 0 {
        Err(CustomError::InvalidDuration)
    } else {
        Ok(())
    }
}

/// The record with `additional_seconds` added to its expiry.
pub open spec fn extended(record: DataAccountView, additional_seconds: int) -> DataAccountView {
    DataAccountView { expiry: record.expiry + additional_seconds, ..record }
}

/// The record as a request for extension leaves it.
pub open spec fn after_extend_lease(
    record: DataAccountView,
    balance: u64,
    additional_seconds: int,
) -> DataAccountView {
    if extension_decision(balance, additional_seconds) is Ok {
        extended(record, additional_seconds)
    } else {
        record
    }
}

/// Extends the lease by `additional_seconds` on behalf of a holder whose
/// balance of the gating asset is `balance`, and returns the new expiry.
/// A refused request leaves the record as it was.
///
/// The new expiry has to fit in an `i64`.
pub fn extend_lease(record: &mut DataAccount, balance: u64, additional_seconds: i64) -> (extension:
    Result<i64, CustomError>)
    requires
        extension_decision(balance, additional_seconds as int) is Ok ==> old(record).expiry
            + additional_seconds <= i64::MAX,
    ensures
        final(record)@ == after_extend_lease(old(record)@, balance, additional_seconds as int),
        final(record)@.expiry >= old(record)@.expiry,
        match extension {
            Ok(new_expiry) => {
                &&& extension_decision(balance, additional_seconds as int) is Ok
                &&& new_expiry == old(record).expiry + additional_seconds
                &&& new_expiry == final(record).expiry
            },
            Err(reason) => {
                &&& extension_decision(balance, additional_seconds as int) == Err::<
                    (),
                    CustomError,
                >(reason)
                &&& *final(record) == *old(record)
            },
        },
{
    if let Err(reason) = check_holding(balance) {
        return Err(reason);
    }
    if additional_seconds <= 0 {
        return Err(CustomError::InvalidDuration);
    }
    let new_expiry: i64 = record.expiry + additional_seconds;
    record.expiry = new_expiry;
    Ok(new_expiry)
}

/// No request for extension, accepted or refused, moves the expiry back, and
/// an accepted one moves it forward by exactly the seconds asked for. Nothing
/// else in the record changes.
pub proof fn extension_only_lengthens(record: DataAccountView, balance: u64, additional_seconds: int)
    ensures
        after_extend_lease(record, balance, additional_seconds).expiry >= record.expiry,
        extension_decision(balance, additional_seconds) is Ok <==> balance > 0
            && additional_seconds > 0,
        extension_decision(balance, additional_seconds) is Ok ==> after_extend_lease(
            record,
            balance,
            additional_seconds,
        ).expiry == record.expiry + additional_seconds,
        after_extend_lease(record, balance, additional_seconds) == (DataAccountView {
            expiry: after_extend_lease(record, balance, additional_seconds).expiry,
            ..record
        }),
{
}

} // verus!
