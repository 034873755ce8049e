use vstd::prelude::*;
use crate::error::CustomError;
use crate::identity::Identity;
use crate::lease::{after_extend_lease, extend_lease, extension_decision};
use crate::ownership::{after_transfer_ownership, transfer_decision, transfer_ownership};
use crate::record::{initial_record, initialize, DataAccount, DataAccountView};

verus! {

/// One record of the store, with the asset that it belongs to.
struct Entry {
    asset: Identity,
    record: DataAccount,
}

/// The access records of all datasets, one per gating asset and found by the
/// asset's identifier. Records are made once, changed in place, and never
/// removed.
///
/// Requests that change a record go through the store. Access reads the
/// record that [`AccessRecordStore::get`] lends out.
pub struct AccessRecordStore {
    entries: Vec<Entry>,
}

/// No asset has two entries.
spec fn assets_distinct(entries: Seq<Entry>) -> bool {
    forall|i: int, j: int|
        0 <= i < entries.len() && 0 <= j < entries.len() && i != j ==> entries[i].asset@
            != entries[j].asset@
}

/// Whether some entry belongs to `asset`.
spec fn holds(entries: Seq<Entry>, asset: Seq<u8>) -> bool {
    exists|i: int| 0 <= i < entries.len() && #[trigger] entries[i].asset@ == asset
}

/// The place of an entry that belongs to `asset`, if there is one.
spec fn place(entries: Seq<Entry>, asset: Seq<u8>) -> int {
    choose|i: int| 0 <= i < entries.len() && #[trigger] entries[i].asset@ == asset
}

/// The records by asset.
spec fn records(entries: Seq<Entry>) -> Map<Seq<u8>, DataAccountView> {
    Map::new(
        |asset: Seq<u8>| holds(entries, asset),
        |asset: Seq<u8>| entries[place(entries, asset)].record@,
    )
}

/// Each entry is found under its own asset.
proof fn entry_is_recorded(entries: Seq<Entry>, i: int)
    requires
        assets_distinct(entries),
        0 <= i < entries.len(),
    ensures
        records(entries).dom().contains(entries[i].asset@),
        records(entries)[entries[i].asset@] == entries[i].record@,
        place(entries, entries[i].asset@) == i,
{
    assert(holds(entries, entries[i].asset@));
}

/// An asset has a record exactly if it has an entry.
proof fn records_by_entry(entries: Seq<Entry>, asset: Seq<u8>)
    ensures
        records(entries).dom().contains(asset) <==> holds(entries, asset),
{
}

/// Changing the record of one entry changes the record of its asset and
/// nothing else.
proof fn records_after_change(before: Seq<Entry>, after: Seq<Entry>, i: int)
    requires
        assets_distinct(before),
        0 <= i < before.len(),
        after.len() == before.len(),
        forall|j: int| 0 <= j < before.len() ==> after[j].asset@ == before[j].asset@,
        forall|j: int| 0 <= j < before.len() && j != i ==> after[j].record@ == before[j].record@,
    ensures
        assets_distinct(after),
        records(after) == records(before).insert(before[i].asset@, after[i].record@),
{
    assert(assets_distinct(after));
    assert forall|k: Seq<u8>| #[trigger]
        records(after).dom().contains(k) == records(before).insert(
            before[i].asset@,
            after[i].record@,
        ).dom().contains(k) by {
        if holds(after, k) {
            assert(before[place(after, k)].asset@ == k);
        }
        if holds(before, k) {
            assert(after[place(before, k)].asset@ == k);
        }
        if k == before[i].asset@ {
            assert(after[i].asset@ == k);
        }
    }
    assert forall|k: Seq<u8>| #[trigger]
        records(after).dom().contains(k) implies records(after)[k] == records(before).insert(
        before[i].asset@,
        after[i].record@,
    )[k] by {
        let j = place(after, k);
        entry_is_recorded(after, j);
        entry_is_recorded(before, j);
    }
    assert(records(after) =~= records(before).insert(before[i].asset@, after[i].record@));
}

/// A new entry for an asset that had none adds its record and changes
/// nothing else.
proof fn records_after_push(before: Seq<Entry>, after: Seq<Entry>)
    requires
        assets_distinct(before),
        after.len() == before.len() + 1,
        forall|j: int| 0 <= j < before.len() ==> after[j] == before[j],
        !holds(before, after.last().asset@),
    ensures
        assets_distinct(after),
        records(after) == records(before).insert(after.last().asset@, after.last().record@),
{
    let added = after.last();
    assert(assets_distinct(after)) by {
        assert forall|i: int, j: int|
            0 <= i < after.len() && 0 <= j < after.len() && i != j implies after[i].asset@
            != after[j].asset@ by {
            if i < before.len() && j < before.len() {
                assert(before[i].asset@ != before[j].asset@);
            } else if i < before.len() {
                assert(before[i].asset@ != added.asset@);
            } else {
                assert(before[j].asset@ != added.asset@);
            }
        }
    }
    assert forall|k: Seq<u8>| #[trigger]
        records(after).dom().contains(k) == records(before).insert(
            added.asset@,
            added.record@,
        ).dom().contains(k) by {
        if holds(after, k) && place(after, k) < before.len() {
            assert(before[place(after, k)].asset@ == k);
        }
        if holds(before, k) {
            assert(after[place(before, k)].asset@ == k);
        }
        if k == added.asset@ {
            assert(after[before.len() as int].asset@ == k);
        }
    }
    assert forall|k: Seq<u8>| #[trigger]
        records(after).dom().contains(k) implies records(after)[k] == records(before).insert(
        added.asset@,
        added.record@,
    )[k] by {
        let j = place(after, k);
        entry_is_recorded(after, j);
        if k != added.asset@ {
            entry_is_recorded(before, j);
        }
    }
    assert(records(after) =~= records(before).insert(added.asset@, added.record@));
}

impl View for AccessRecordStore {
    type V = Map<Seq<u8>, DataAccountView>;

    closed spec fn view(&self) -> Map<Seq<u8>, DataAccountView> {
        records(self.entries@)
    }
}

/// Whether a record may be made for `asset`: only where none exists yet.
pub open spec fn create_decision(store: Map<Seq<u8>, DataAccountView>, asset: Seq<u8>) -> Result<
    (),
    CustomError,
> {
    if store.dom().contains(asset) {
        Err(CustomError::DuplicateRecord)
    } else {
        Ok(())
    }
}

/// The store as a request to make `record` for `asset` leaves it.
pub open spec fn after_create(
    store: Map<Seq<u8>, DataAccountView>,
    asset: Seq<u8>,
    record: DataAccountView,
) -> Map<Seq<u8>, DataAccountView> {
    if create_decision(store, asset) is Ok {
        store.insert(asset, record)
    } else {
        store
    }
}

impl AccessRecordStore {
    #[verifier::type_invariant]
    spec fn distinct(&self) -> bool {
        assets_distinct(self.entries@)
    }

    /// A store without records.
    pub fn new() -> (store: AccessRecordStore)
        ensures
            store@ == Map::<Seq<u8>, DataAccountView>::empty(),
    {
        let store = AccessRecordStore { entries: Vec::new() };
        proof {
            assert(store@ =~= Map::<Seq<u8>, DataAccountView>::empty());
        }
        store
    }

    /// The place of the entry of `asset`.
    fn find(&self, asset: &Identity) -> (found: Option<usize>)
        ensures
            match found {
                Some(i) => i < self.entries@.len() && self.entries@[i as int].asset@ == asset@,
                None => !holds(self.entries@, asset@),
            },
    {
        let mut i: usize = 0;
        while i < self.entries.len()
            invariant
                i <= self.entries@.len(),
                forall|k: int| 0 <= k < i ==> self.entries@[k].asset@ != asset@,
            decreases self.entries@.len() - i,
        {
            if self.entries[i].asset.same_as(asset) {
                return Some(i);
            }
            i += 1;
        }
        None
    }

    /// Whether the store has a record for `asset`.
    pub fn contains(&self, asset: &Identity) -> (present: bool)
        ensures
            present == self@.dom().contains(asset@),
    {
        proof {
            use_type_invariant(self);
            records_by_entry(self.entries@, asset@);
        }
        self.find(asset).is_some()
    }

    /// The record of `asset`, if the store has one.
    pub fn get(&self, asset: &Identity) -> (record: Option<&DataAccount>)
        ensures
            match record {
                Some(r) => self@.dom().contains(asset@) && r@ == self@[asset@],
                None => !self@.dom().contains(asset@),
            },
    {
        proof {
            use_type_invariant(self);
            records_by_entry(self.entries@, asset@);
        }
        match self.find(asset) {
            Some(i) => {
                proof {
                    entry_is_recorded(self.entries@, i as int);
                }
                Some(&self.entries[i].record)
            },
            None => None,
        }
    }

    /// Makes the record of `asset` from the given fields, with
    /// `requesting_authority` as its authority, and hands back a copy of it.
    /// If `asset` has a record already, the request fails with
    /// `DuplicateRecord` and the store, that record included, stays as it was.
    pub fn create(
        &mut self,
        asset: Identity,
        dataset_id: String,
        metadata_url: String,
        requesting_authority: Identity,
        derivation_bump: u8,
        expiry: i64,
    ) -> (created: Result<DataAccount, CustomError>)
        ensures
            final(self)@ == after_create(
                old(self)@,
                asset@,
                initial_record(
                    dataset_id@,
                    metadata_url@,
                    requesting_authority@,
                    derivation_bump,
                    expiry as int,
                ),
            ),
            match created {
                Ok(record) => {
                    &&& create_decision(old(self)@, asset@) is Ok
                    &&& record@ == initial_record(
                        dataset_id@,
                        metadata_url@,
                        requesting_authority@,
                        derivation_bump,
                        expiry as int,
                    )
                },
                Err(reason) => create_decision(old(self)@, asset@) == Err::<(), CustomError>(
                    reason,
                ),
            },
    {
        proof {
            use_type_invariant(&*self);
            records_by_entry(self.entries@, asset@);
        }
        if self.find(&asset).is_some() {
            return Err(CustomError::DuplicateRecord);
        }
        let copy = initialize(
            dataset_id.clone(),
            metadata_url.clone(),
            requesting_authority,
            derivation_bump,
            expiry,
        );
        let record = initialize(
            dataset_id,
            metadata_url,
            requesting_authority,
            derivation_bump,
            expiry,
        );
        let ghost before = self.entries@;
        let mut entries: Vec<Entry> = Vec::new();
        core::mem::swap(&mut self.entries, &mut entries);
        entries.push(Entry { asset, record });
        proof {
            records_after_push(before, entries@);
        }
        self.entries = entries;
        Ok(copy)
    }

    /// Extends the lease of the record of `asset` as [`extend_lease`] does,
    /// and returns what it returned. `None` says that the store has no record
    /// for `asset`; nothing has changed then.
    ///
    /// The new expiry has to fit in an `i64`.
    pub fn extend_lease(&mut self, asset: &Identity, balance: u64, additional_seconds: i64) -> (
        extension: Option<Result<i64, CustomError>>)
        requires
            old(self)@.dom().contains(asset@) && extension_decision(
                balance,
                additional_seconds as int,
            ) is Ok ==> old(self)@[asset@].expiry + additional_seconds <= i64::MAX,
        ensures
            match extension {
                None => !old(self)@.dom().contains(asset@) && final(self)@ == old(self)@,
                Some(outcome) => {
                    &&& old(self)@.dom().contains(asset@)
                    &&& final(self)@ == old(self)@.insert(
                        asset@,
                        after_extend_lease(old(self)@[asset@], balance, additional_seconds as int),
                    )
                    &&& match outcome {
                        Ok(new_expiry) => {
                            &&& extension_decision(balance, additional_seconds as int) is Ok
                            &&& new_expiry == old(self)@[asset@].expiry + additional_seconds
                        },
                        Err(reason) => extension_decision(balance, additional_seconds as int)
                            == Err::<(), CustomError>(reason),
                    }
                },
            },
    {
        proof {
            use_type_invariant(&*self);
            records_by_entry(self.entries@, asset@);
        }
        match self.find(asset) {
            None => None,
            Some(i) => {
                let mut entries: Vec<Entry> = Vec::new();
                core::mem::swap(&mut self.entries, &mut entries);
                let ghost before = entries@;
                proof {
                    entry_is_recorded(before, i as int);
                }
                let outcome = extend_lease(&mut entries[i].record, balance, additional_seconds);
                proof {
                    records_after_change(before, entries@, i as int);
                }
                self.entries = entries;
                Some(outcome)
            },
        }
    }

    /// Hands the record of `asset` to `new_authority` as
    /// [`transfer_ownership`] does, and returns what it returned. `None` says
    /// that the store has no record for `asset`; nothing has changed then.
    pub fn transfer_ownership(
        &mut self,
        asset: &Identity,
        requester: &Identity,
        new_authority: Identity,
    ) -> (transfer: Option<Result<(), CustomError>>)
        ensures
            match transfer {
                None => !old(self)@.dom().contains(asset@) && final(self)@ == old(self)@,
                Some(outcome) => {
                    &&& old(self)@.dom().contains(asset@)
                    &&& final(self)@ == old(self)@.insert(
                        asset@,
                        after_transfer_ownership(old(self)@[asset@], requester@, new_authority@),
                    )
                    &&& outcome == transfer_decision(old(self)@[asset@], requester@)
                },
            },
    {
        proof {
            use_type_invariant(&*self);
            records_by_entry(self.entries@, asset@);
        }
        match self.find(asset) {
            None => None,
            Some(i) => {
                let mut entries: Vec<Entry> = Vec::new();
                core::mem::swap(&mut self.entries, &mut entries);
                let ghost before = entries@;
                proof {
                    entry_is_recorded(before, i as int);
                }
                let outcome = transfer_ownership(&mut entries[i].record, requester, new_authority);
                proof {
                    records_after_change(before, entries@, i as int);
                }
                self.entries = entries;
                Some(outcome)
            },
        }
    }
}

/// A second request to make a record for an asset is refused as
/// `DuplicateRecord`, whatever fields it brings, and the store, with the
/// record that the first request made, stays as it was.
pub proof fn create_rejects_duplicates(
    store: Map<Seq<u8>, DataAccountView>,
    asset: Seq<u8>,
    first: DataAccountView,
    second: DataAccountView,
)
    ensures
        create_decision(after_create(store, asset, first), asset) == Err::<(), CustomError>(
            CustomError::DuplicateRecord,
        ),
        after_create(after_create(store, asset, first), asset, second) == after_create(
            store,
            asset,
            first,
        ),
        create_decision(store, asset) is Ok ==> after_create(store, asset, first)[asset] == first,
        create_decision(store, asset) is Ok <==> !store.dom().contains(asset),
{
}

} // verus!
