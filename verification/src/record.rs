use vstd::prelude::*;
use crate::identity::Identity;

verus! {

/// The access record of one dataset, kept per gating asset.
///
/// `dataset_id`, `metadata_url` and `bump` are fixed when the record is made.
/// `expiry` moves only through a lease extension, `authority` only through a
/// transfer of ownership. Whether a holder is eligible is never stored here.
#[derive(Clone, Debug, PartialEq, Eq)]
pub struct DataAccount {
    /// Identifier of the off-chain dataset.
    pub dataset_id: String,
    /// Where the dataset's descriptive metadata can be found.
    pub metadata_url: String,
    /// The principal who may hand the record to a new authority.
    pub authority: Identity,
    /// Bump with which the record's storage address is derived from the asset.
    pub bump: u8,
    /// Last second, as an absolute timestamp, at which access is still valid.
    pub expiry: i64,
}

/// What a [`DataAccount`] holds, as mathematical values.
pub ghost struct DataAccountView {
    pub dataset_id: Seq<char>,
    pub metadata_url: Seq<char>,
    pub authority: Seq<u8>,
    pub bump: u8,
    pub expiry: int,
}

impl View for DataAccount {
    type V = DataAccountView;

    open spec fn view(&self) -> DataAccountView {
        DataAccountView {
            dataset_id: self.dataset_id@,
            metadata_url: self.metadata_url@,
            authority: self.authority@,
            bump: self.bump,
            expiry: self.expiry as int,
        }
    }
}

/// The record that creation yields from its arguments.
pub open spec fn initial_record(
    dataset_id: Seq<char>,
    metadata_url: Seq<char>,
    authority: Seq<u8>,
    bump: u8,
    expiry: int,
) -> DataAccountView {
    DataAccountView { dataset_id, metadata_url, authority, bump, expiry }
}

/// Makes the access record of a dataset. The requesting authority becomes the
/// record's authority; no eligibility is looked at, since creation is an
/// administrative act.
pub fn initialize(
    dataset_id: String,
    metadata_url: String,
    authority: Identity,
    bump: u8,
    expiry: i64,
) -> (record: DataAccount)
    ensures
        record@ == initial_record(dataset_id@, metadata_url@, authority@, bump, expiry as int),
{
    DataAccount { dataset_id, metadata_url, authority, bump, expiry }
}

} // verus!
