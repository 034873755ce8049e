use vstd::prelude::*;
use crate::lease::after_extend_lease;
use crate::ownership::after_transfer_ownership;
use crate::record::DataAccountView;

verus! {

/// A request that can reach a record once it has been made.
pub ghost enum Request {
    /// A holder asks for access, with or without a fee.
    Access { balance: u64, now: int },
    /// A holder asks for a longer lease.
    ExtendLease { balance: u64, additional_seconds: int },
    /// Someone asks to hand the record to a new authority.
    TransferOwnership { requester: Seq<u8>, new_authority: Seq<u8> },
}

/// The record as one request, accepted or refused, leaves it. A request for
/// access never changes it.
pub open spec fn after(record: DataAccountView, request: Request) -> DataAccountView {
    match request {
        Request::Access { .. } => record,
        Request::ExtendLease { balance, additional_seconds } => after_extend_lease(
            record,
            balance,
            additional_seconds,
        ),
        Request::TransferOwnership { requester, new_authority } => after_transfer_ownership(
            record,
            requester,
            new_authority,
        ),
    }
}

/// The record as a series of requests, taken in order, leaves it.
pub open spec fn after_all(record: DataAccountView, requests: Seq<Request>) -> DataAccountView
    decreases requests.len(),
{
    if requests.len() == 0 {
        record
    } else {
        after(after_all(record, requests.drop_last()), requests.last())
    }
}

/// Whether `principal` asks for a transfer somewhere in the series.
pub open spec fn asks_for_transfer(requests: Seq<Request>, principal: Seq<u8>) -> bool {
    exists|i: int|
        0 <= i < requests.len() && (#[trigger] requests[i] matches Request::TransferOwnership {
            requester,
            ..
        } && requester == principal)
}

/// Whatever requests reach a record, and however each is answered, the
/// dataset identifier, the metadata location and the bump stay as they were
/// made, and the expiry never moves back.
pub proof fn record_keeps_its_shape(record: DataAccountView, requests: Seq<Request>)
    ensures
        after_all(record, requests).dataset_id == record.dataset_id,
        after_all(record, requests).metadata_url == record.metadata_url,
        after_all(record, requests).bump == record.bump,
        after_all(record, requests).expiry >= record.expiry,
    decreases requests.len(),
{
    if requests.len() > 0 {
        record_keeps_its_shape(record, requests.drop_last());
    }
}

/// Nobody but the authority can reassign a record: as long as the authority
/// itself asks for no transfer, it stays the authority.
pub proof fn only_the_authority_reassigns(record: DataAccountView, requests: Seq<Request>)
    requires
        !asks_for_transfer(requests, record.authority),
    ensures
        after_all(record, requests).authority == record.authority,
    decreases requests.len(),
{
    if requests.len() > 0 {
        let earlier = requests.drop_last();
        assert forall|i: int| 0 <= i < earlier.len() implies !(#[trigger] earlier[i] matches Request::TransferOwnership {
            requester,
            ..
        } && requester == record.authority) by {
            assert(earlier[i] == requests[i]);
        }
        only_the_authority_reassigns(record, earlier);
        let last = requests[requests.len() - 1];
        assert(requests.last() == last);
    }
}

} // verus!
