use vstd::prelude::*;
use solana_program::clock::Clock;
use solana_program::program_error::ProgramError;
use solana_program::sysvar::Sysvar;
use crate::access::{
    access_decision, access_to, check_access, check_holding, hand_out, holder_eligible, Access,
};
use crate::error::CustomError;
use crate::fee::{hold_for_fee, pending_access, PendingAccess};
use crate::identity::Identity;
use crate::record::{DataAccount, DataAccountView};

verus! {

/// The runtime's error type, which the clock answers with when it gives no
/// time. The library carries such a value through and never looks inside.
#[verifier::external_type_specification]
#[verifier::external_body]
pub struct ExProgramError(ProgramError);

/// Why a request that asks the clock itself came to nothing.
#[derive(Debug, PartialEq, Eq)]
pub enum TimedError {
    /// The request was refused, for the reason given.
    Refused(CustomError),
    /// The runtime gave no time, with the error given; nothing was decided.
    ClockUnavailable(ProgramError),
}

/// Asks the runtime for the time: calls `Sysvar::get` of `solana_program` on
/// `Clock` and hands back the clock's `unix_timestamp`, or the error that the
/// runtime answered with. Nothing is claimed of the answer: it changes from
/// call to call, and outside a cluster the clock is not served at all.
#[verifier::external_body]
fn read_clock() -> (reading: Result<i64, ProgramError>) {
    match Clock::get() {
        Ok(clock) => Ok(clock.unix_timestamp),
        Err(fault) => Err(fault),
    }
}

/// The access decision for a holder who comes when the clock reads
/// `reading`. The holding is looked at before the clock: without the asset
/// the request is refused whatever the clock says, and only a holder can
/// fail for want of a time.
pub open spec fn timed_access_decision(
    record: DataAccountView,
    balance: u64,
    reading: Result<i64, ProgramError>,
) -> Result<(), TimedError> {
    if !holder_eligible(balance) {
        Err(TimedError::Refused(CustomError::NoAssetHeld))
    } else {
        match reading {
            Err(fault) => Err(TimedError::ClockUnavailable(fault)),
            Ok(now) => match access_decision(record, balance, now as int) {
                Ok(()) => Ok(()),
                Err(reason) => Err(TimedError::Refused(reason)),
            },
        }
    }
}

/// Decides whether a holder may access the dataset, given what the clock
/// answered when it was asked for the time.
pub fn check_access_at_reading(
    record: &DataAccount,
    balance: u64,
    reading: Result<i64, ProgramError>,
) -> (decision: Result<(), TimedError>)
    ensures
        decision == timed_access_decision(record@, balance, reading),
{
    match check_holding(balance) {
        Err(reason) => Err(TimedError::Refused(reason)),
        Ok(()) => match reading {
            Err(fault) => Err(TimedError::ClockUnavailable(fault)),
            Ok(now) => match check_access(record, balance, now) {
                Ok(()) => Ok(()),
                Err(reason) => Err(TimedError::Refused(reason)),
            },
        },
    }
}

/// Decides whether a holder may access the dataset at the time that the
/// runtime's clock gives. The clock is asked only for a holder of the asset;
/// the decision is the one of [`check_access_at_reading`] for what the clock
/// answered.
pub fn check_access_now(record: &DataAccount, balance: u64) -> (decision: Result<(), TimedError>)
    ensures
        balance == 0 ==> decision == Err::<(), TimedError>(
            TimedError::Refused(CustomError::NoAssetHeld),
        ),
        exists|reading: Result<i64, ProgramError>|
            decision == timed_access_decision(record@, balance, reading),
{
    match check_holding(balance) {
        Err(reason) => {
            assert(timed_access_decision(record@, balance, Ok(0i64)) == Err::<(), TimedError>(
                TimedError::Refused(reason),
            ));
            Err(TimedError::Refused(reason))
        },
        Ok(()) => check_access_at_reading(record, balance, read_clock()),
    }
}

/// Grants `holder` access to the dataset if [`check_access_now`] allows it,
/// as [`crate::access::grant_access`] does for a time that the caller gives.
pub fn grant_access_now(record: &DataAccount, holder: Identity, balance: u64) -> (granted: Result<
    Access,
    TimedError,
>)
    ensures
        balance == 0 ==> granted == Err::<Access, TimedError>(
            TimedError::Refused(CustomError::NoAssetHeld),
        ),
        exists|reading: Result<i64, ProgramError>|
            match granted {
                Ok(access) => {
                    &&& #[trigger] timed_access_decision(record@, balance, reading) is Ok
                    &&& access@ == access_to(record@, holder@)
                },
                Err(failure) => timed_access_decision(record@, balance, reading) == Err::<
                    (),
                    TimedError,
                >(failure),
            },
{
    match check_access_now(record, balance) {
        Ok(()) => Ok(hand_out(record, holder)),
        Err(failure) => Err(failure),
    }
}

/// First half of a fee-gated access at the time that the runtime's clock
/// gives: orders the fee transfer if [`check_access_now`] allows the access,
/// as [`crate::fee::grant_access_with_fee`] does for a time that the caller
/// gives. The second half is [`PendingAccess::settle`].
pub fn grant_access_with_fee_now(
    record: &DataAccount,
    holder: Identity,
    balance: u64,
    fee: u64,
    payer: Identity,
    payee: Identity,
) -> (pending: Result<PendingAccess, TimedError>)
    ensures
        balance == 0 ==> pending == Err::<PendingAccess, TimedError>(
            TimedError::Refused(CustomError::NoAssetHeld),
        ),
        exists|reading: Result<i64, ProgramError>|
            match pending {
                Ok(access) => {
                    &&& #[trigger] timed_access_decision(record@, balance, reading) is Ok
                    &&& access@ == pending_access(record@, holder@, fee, payer@, payee@)
                },
                Err(failure) => timed_access_decision(record@, balance, reading) == Err::<
                    (),
                    TimedError,
                >(failure),
            },
{
    match check_access_now(record, balance) {
        Ok(()) => Ok(hold_for_fee(record, holder, fee, payer, payee)),
        Err(failure) => Err(failure),
    }
}

} // verus!
