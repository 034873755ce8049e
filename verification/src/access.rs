use vstd::prelude::*;
use crate::error::CustomError;
use crate::identity::Identity;
use crate::record::{DataAccount, DataAccountView};

verus! {

/// The notice owed to outside observers when access has been granted.
#[derive(Clone, Debug, PartialEq, Eq)]
pub struct AccessGranted {
    /// The holder who was given access.
    pub user: Identity,
    /// The dataset that the holder was given access to.
    pub dataset_id: String,
}

/// What an [`AccessGranted`] holds, as mathematical values.
pub ghost struct AccessGrantedView {
    pub user: Seq<u8>,
    pub dataset_id: Seq<char>,
}

impl View for AccessGranted {
    type V = AccessGrantedView;

    open spec fn view(&self) -> AccessGrantedView {
        AccessGrantedView { user: self.user@, dataset_id: self.dataset_id@ }
    }
}

/// What a granted access hands back: the dataset's identifier and metadata
/// location for the holder, and the notice for the caller to publish.
#[derive(Clone, Debug, PartialEq, Eq)]
pub struct Access {
    pub dataset_id: String,
    pub metadata_url: String,
    pub notice: AccessGranted,
}

/// What an [`Access`] holds, as mathematical values.
pub ghost struct AccessView {
    pub dataset_id: Seq<char>,
    pub metadata_url: Seq<char>,
    pub notice: AccessGrantedView,
}

impl View for Access {
    type V = AccessView;

    open spec fn view(&self) -> AccessView {
        AccessView {
            dataset_id: self.dataset_id@,
            metadata_url: self.metadata_url@,
            notice: self.notice@,
        }
    }
}

/// Whether the holder's balance of the gating asset makes them eligible.
pub open spec fn holder_eligible(balance: u64) -> bool {
    balance > 0
}

/// Whether `now` still lies within the lease; the expiry second itself does.
pub open spec fn within_lease(record: DataAccountView, now: int) -> bool {
    now <= record.expiry
}

/// The access decision: the holding is looked at first, then the lease.
pub open spec fn access_decision(record: DataAccountView, balance: u64, now: int) -> Result<
    (),
    CustomError,
> {
    if !holder_eligible(balance) {
        Err(CustomError::NoAssetHeld)
    } else if !within_lease(record, now) {
        Err(CustomError::AccessExpired)
    } else {
        Ok(())
    }
}

/// The notice that tells of `holder`'s access to the record's dataset.
pub open spec fn notice_of(record: DataAccountView, holder: Seq<u8>) -> AccessGrantedView {
    AccessGrantedView { user: holder, dataset_id: record.dataset_id }
}

/// What `holder` is handed when access to the record's dataset is granted.
pub open spec fn access_to(record: DataAccountView, holder: Seq<u8>) -> AccessView {
    AccessView {
        dataset_id: record.dataset_id,
        metadata_url: record.metadata_url,
        notice: notice_of(record, holder),
    }
}

/// Access is allowed exactly to a holder of the asset who comes within the
/// lease. A refusal names what failed: `NoAssetHeld` for an empty holding,
/// whatever the time, and `AccessExpired` for a holder who comes too late.
pub proof fn access_needs_holding_and_lease(record: DataAccountView, balance: u64, now: int)
    ensures
        access_decision(record, balance, now) is Ok <==> balance > 0 && now <= record.expiry,
        balance == 0 ==> access_decision(record, balance, now) == Err::<(), CustomError>(
            CustomError::NoAssetHeld,
        ),
        balance > 0 && now > record.expiry ==> access_decision(record, balance, now) == Err::<
            (),
            CustomError,
        >(CustomError::AccessExpired),
{
}

/// The answer to the first question of every holder's request: does the
/// caller hold the asset?
pub open spec fn holding_decision(balance: u64) -> Result<(), CustomError> {
    if holder_eligible(balance) {
        Ok(())
    } else {
        Err(CustomError::NoAssetHeld)
    }
}

/// Decides whether a balance of the gating asset makes its holder eligible.
pub fn check_holding(balance: u64) -> (decision: Result<(), CustomError>)
    ensures
        decision == holding_decision(balance),
{
    if balance > 0 {
        Ok(())
    } else {
        Err(CustomError::NoAssetHeld)
    }
}

/// Decides whether a holder may access the dataset at `now`, given the
/// balance of the gating asset that the ownership oracle reports for them.
/// The record is only read.
pub fn check_access(record: &DataAccount, balance: u64, now: i64) -> (decision: Result<
    (),
    CustomError,
>)
    ensures
        decision == access_decision(record@, balance, now as int),
{
    match check_holding(balance) {
        Err(reason) => Err(reason),
        Ok(()) => if now > record.expiry {
            Err(CustomError::AccessExpired)
        } else {
            Ok(())
        },
    }
}

/// Makes what a granted access hands back.
pub(crate) fn hand_out(record: &DataAccount, holder: Identity) -> (access: Access)
    ensures
        access@ == access_to(record@, holder@),
{
    Access {
        dataset_id: record.dataset_id.clone(),
        metadata_url: record.metadata_url.clone(),
        notice: AccessGranted { user: holder, dataset_id: record.dataset_id.clone() },
    }
}

/// Grants `holder` access to the dataset if [`check_access`] allows it, and
/// hands back what the holder came for together with the notice to publish.
/// A refusal carries the reason of the check and nothing else.
pub fn grant_access(record: &DataAccount, holder: Identity, balance: u64, now: i64) -> (granted:
    Result<Access, CustomError>)
    ensures
        match granted {
            Ok(access) => {
                &&& access_decision(record@, balance, now as int) is Ok
                &&& access@ == access_to(record@, holder@)
            },
            Err(reason) => access_decision(record@, balance, now as int) == Err::<(), CustomError>(
                reason,
            ),
        },
{
    match check_access(record, balance, now) {
        Ok(()) => Ok(hand_out(record, holder)),
        Err(reason) => Err(reason),
    }
}

} // verus!
