use vstd::prelude::*;
use crate::access::{access_decision, check_access, notice_of, AccessGranted, AccessGrantedView};
use crate::error::CustomError;
use crate::identity::Identity;
use crate::record::{DataAccount, DataAccountView};

verus! {

/// An order to the payment ledger: move `amount` from `from` to `to`, signed
/// by `authority`.
#[derive(Clone, Copy, Debug, PartialEq, Eq)]
pub struct FeeTransfer {
    pub from: Identity,
    pub to: Identity,
    pub authority: Identity,
    pub amount: u64,
}

/// What a [`FeeTransfer`] holds, as mathematical values.
pub ghost struct FeeTransferView {
    pub from: Seq<u8>,
    pub to: Seq<u8>,
    pub authority: Seq<u8>,
    pub amount: u64,
}

impl View for FeeTransfer {
    type V = FeeTransferView;

    open spec fn view(&self) -> FeeTransferView {
        FeeTransferView {
            from: self.from@,
            to: self.to@,
            authority: self.authority@,
            amount: self.amount,
        }
    }
}

/// What the payment ledger answered to a [`FeeTransfer`].
#[derive(Clone, Copy, Debug, PartialEq, Eq, Structural)]
pub enum PaymentOutcome {
    /// The whole amount has moved.
    Settled,
    /// Nothing has moved.
    Rejected,
}

/// An access that the eligibility check has allowed and that waits for its
/// fee: the transfer to perform, and the notice to publish once it settled.
#[derive(Clone, Debug, PartialEq, Eq)]
pub struct PendingAccess {
    pub transfer: FeeTransfer,
    pub notice: AccessGranted,
}

/// What a [`PendingAccess`] holds, as mathematical values.
pub ghost struct PendingAccessView {
    pub transfer: FeeTransferView,
    pub notice: AccessGrantedView,
}

impl View for PendingAccess {
    type V = PendingAccessView;

    open spec fn view(&self) -> PendingAccessView {
        PendingAccessView { transfer: self.transfer@, notice: self.notice@ }
    }
}

/// The order that charges the access fee: `fee` moves from `payer` to
/// `payee`, and the holder signs.
pub open spec fn fee_order(
    holder: Seq<u8>,
    fee: u64,
    payer: Seq<u8>,
    payee: Seq<u8>,
) -> FeeTransferView {
    FeeTransferView { from: payer, to: payee, authority: holder, amount: fee }
}

/// The access that waits for `holder`'s fee.
pub open spec fn pending_access(
    record: DataAccountView,
    holder: Seq<u8>,
    fee: u64,
    payer: Seq<u8>,
    payee: Seq<u8>,
) -> PendingAccessView {
    PendingAccessView {
        transfer: fee_order(holder, fee, payer, payee),
        notice: notice_of(record, holder),
    }
}

/// What settling a pending access yields for each answer of the ledger.
pub open spec fn settlement(outcome: PaymentOutcome) -> Result<(), CustomError> {
    match outcome {
        PaymentOutcome::Settled => Ok(()),
        PaymentOutcome::Rejected => Err(CustomError::PaymentTransferFailed),
    }
}

/// Whether the first half of a fee-gated access orders a transfer.
pub open spec fn transfer_ordered(record: DataAccountView, balance: u64, now: int) -> bool {
    access_decision(record, balance, now) is Ok
}

/// The decision of both halves of a fee-gated access taken together, for a
/// ledger that would answer an order with `outcome`.
pub open spec fn fee_gated_decision(
    record: DataAccountView,
    balance: u64,
    now: int,
    outcome: PaymentOutcome,
) -> Result<(), CustomError> {
    if transfer_ordered(record, balance, now) {
        settlement(outcome)
    } else {
        access_decision(record, balance, now)
    }
}

/// First half of a fee-gated access: runs the eligibility check of
/// [`check_access`] and, only if it passes, orders the transfer of `fee` from
/// `payer` to `payee`, signed by `holder`. A refusal carries the reason of the
/// check and orders no transfer, so no funds can move.
pub fn grant_access_with_fee(
    record: &DataAccount,
    holder: Identity,
    balance: u64,
    now: i64,
    fee: u64,
    payer: Identity,
    payee: Identity,
) -> (pending: Result<PendingAccess, CustomError>)
    ensures
        pending is Ok <==> transfer_ordered(record@, balance, now as int),
        match pending {
            Ok(access) => {
                &&& access_decision(record@, balance, now as int) is Ok
                &&& access@ == pending_access(record@, holder@, fee, payer@, payee@)
            },
            Err(reason) => access_decision(record@, balance, now as int) == Err::<(), CustomError>(
                reason,
            ),
        },
{
    match check_access(record, balance, now) {
        Ok(()) => Ok(hold_for_fee(record, holder, fee, payer, payee)),
        Err(reason) => Err(reason),
    }
}

/// Makes the access that waits for `holder`'s fee.
pub(crate) fn hold_for_fee(
    record: &DataAccount,
    holder: Identity,
    fee: u64,
    payer: Identity,
    payee: Identity,
) -> (pending: PendingAccess)
    ensures
        pending@ == pending_access(record@, holder@, fee, payer@, payee@),
{
    PendingAccess {
        transfer: FeeTransfer { from: payer, to: payee, authority: holder, amount: fee },
        notice: AccessGranted { user: holder, dataset_id: record.dataset_id.clone() },
    }
}

impl PendingAccess {
    /// Second half of a fee-gated access: takes the ledger's answer to the
    /// ordered transfer. A settled payment grants the access and hands back
    /// the notice, which names the dataset; a rejected one fails the whole
    /// operation with `PaymentTransferFailed`, and no access is granted.
    pub fn settle(self, outcome: PaymentOutcome) -> (granted: Result<AccessGranted, CustomError>)
        ensures
            match granted {
                Ok(notice) => settlement(outcome) is Ok && notice@ == self@.notice,
                Err(reason) => settlement(outcome) == Err::<(), CustomError>(reason),
            },
    {
        match outcome {
            PaymentOutcome::Settled => Ok(self.notice),
            PaymentOutcome::Rejected => Err(CustomError::PaymentTransferFailed),
        }
    }
}

/// A fee-gated access is granted exactly when the holder is eligible and the
/// payment settled. An ineligible holder is refused with the reason of the
/// eligibility check before any transfer is ordered; an eligible one whose
/// payment is rejected is refused with `PaymentTransferFailed`.
pub proof fn fee_gated_access_is_all_or_nothing(
    record: DataAccountView,
    balance: u64,
    now: int,
    outcome: PaymentOutcome,
)
    ensures
        fee_gated_decision(record, balance, now, outcome) is Ok <==> balance > 0 && now
            <= record.expiry && outcome == PaymentOutcome::Settled,
        access_decision(record, balance, now) is Err ==> fee_gated_decision(
            record,
            balance,
            now,
            outcome,
        ) == access_decision(record, balance, now) && !transfer_ordered(record, balance, now),
        access_decision(record, balance, now) is Ok && outcome == PaymentOutcome::Rejected
            ==> fee_gated_decision(record, balance, now, outcome) == Err::<(), CustomError>(
            CustomError::PaymentTransferFailed,
        ),
{
}

} // verus!
