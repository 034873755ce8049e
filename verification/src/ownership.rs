use vstd::prelude::*;
use crate::error::CustomError;
use crate::identity::Identity;
use crate::record::{DataAccount, DataAccountView};

verus! {

/// Whether `requester` may hand the record to a new authority: only the
/// record's current authority may. Holding the asset plays no part.
pub open spec fn transfer_decision(record: DataAccountView, requester: Seq<u8>) -> Result<
    (),
    CustomError,
> {
    if requester == record.authority {
        Ok(())
    } else {
        Err(CustomError::Unauthorized)
    }
}

/// The record with `new_authority` as its authority.
pub open spec fn transferred(record: DataAccountView, new_authority: Seq<u8>) -> DataAccountView {
    DataAccountView { authority: new_authority, ..record }
}

/// The record as a request for transfer leaves it.
pub open spec fn after_transfer_ownership(
    record: DataAccountView,
    requester: Seq<u8>,
    new_authority: Seq<u8>,
) -> DataAccountView {
    if transfer_decision(record, requester) is Ok {
        transferred(record, new_authority)
    } else {
        record
    }
}

/// Makes `new_authority` the record's authority, if `requester` is the
/// current one. A refused request leaves the record as it was.
pub fn transfer_ownership(record: &mut DataAccount, requester: &Identity, new_authority: Identity) -> (
    transfer: Result<(), CustomError>)
    ensures
        transfer == transfer_decision(old(record)@, requester@),
        final(record)@ == after_transfer_ownership(old(record)@, requester@, new_authority@),
        transfer is Ok ==> final(record).authority == new_authority,
        transfer is Err ==> *final(record) == *old(record),
{
    if !requester.same_as(&record.authority) {
        return Err(CustomError::Unauthorized);
    }
    record.authority = new_authority;
    Ok(())
}

/// Once a record has passed from its authority to a different principal, the
/// former authority is refused as `Unauthorized` and the new one is accepted.
pub proof fn transfer_hands_authority_over(
    record: DataAccountView,
    requester: Seq<u8>,
    new_authority: Seq<u8>,
)
    requires
        transfer_decision(record, requester) is Ok,
        new_authority != record.authority,
    ensures
        requester == record.authority,
        transfer_decision(
            after_transfer_ownership(record, requester, new_authority),
            record.authority,
        ) == Err::<(), CustomError>(CustomError::Unauthorized),
        transfer_decision(
            after_transfer_ownership(record, requester, new_authority),
            new_authority,
        ) is Ok,
{
}

/// Whoever asks and whatever the answer, a request for transfer changes
/// nothing in the record but, when accepted, its authority.
pub proof fn transfer_touches_only_authority(
    record: DataAccountView,
    requester: Seq<u8>,
    new_authority: Seq<u8>,
)
    ensures
        after_transfer_ownership(record, requester, new_authority) == (DataAccountView {
            authority: after_transfer_ownership(record, requester, new_authority).authority,
            ..record
        }),
        after_transfer_ownership(record, requester, new_authority).expiry == record.expiry,
        transfer_decision(record, requester) is Ok <==> requester == record.authority,
{
}

} // verus!
