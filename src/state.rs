use crate::address::Address;
use vstd::prelude::*;

verus! {

/// The persisted authority record: the collection it anchors and, once a
/// tree has been set up, the tree that items are minted into.
#[derive(Clone, Copy, Debug)]
pub struct CentralStateData {
    pub collection_address: Address,
    pub merkle_tree_address: Option<Address>,
}

impl CentralStateData {
    /// Bytes reserved for the record after its discriminator.
    pub const MAX_SIZE: usize = 32 * 3;

    pub fn new(collection_address: Address) -> (r: CentralStateData)
        ensures
            r.collection_address == collection_address,
            r.merkle_tree_address is None,
    {
        CentralStateData { collection_address, merkle_tree_address: None }
    }
}

/// A change to the authority record that a successful instruction commits.
#[derive(Clone, Copy, Debug)]
pub enum RecordUpdate {
    /// The record stays as it is.
    Keep,
    /// The record is created for this collection, with no tree yet.
    Create(Address),
    /// The record's tree becomes this one.
    SetTree(Address),
}

/// The record after `u` is committed.
pub open spec fn apply_update(rec: Option<CentralStateData>, u: RecordUpdate) -> Option<
    CentralStateData,
> {
    match u {
        RecordUpdate::Keep => rec,
        RecordUpdate::Create(c) => Some(
            CentralStateData { collection_address: c, merkle_tree_address: None },
        ),
        RecordUpdate::SetTree(t) => match rec {
            Some(d) => Some(CentralStateData { merkle_tree_address: Some(t), ..d }),
            None => None,
        },
    }
}

/// The record and the instruction's result once the delegated calls have
/// come back with `outcome` (the error code of the first that failed).
pub open spec fn settled(
    rec: Option<CentralStateData>,
    u: RecordUpdate,
    outcome: Result<(), u64>,
) -> (Option<CentralStateData>, Result<(), crate::error::VaultError>) {
    match outcome {
        Ok(()) => (apply_update(rec, u), Ok(())),
        Err(code) => (rec, Err(crate::error::VaultError::External(code))),
    }
}

/// Commits `update` to the record if the delegated calls succeeded, and
/// leaves the record untouched if one of them failed.
pub fn settle(
    record: &mut Option<CentralStateData>,
    update: RecordUpdate,
    outcome: Result<(), u64>,
) -> (r: Result<(), crate::error::VaultError>)
    ensures
        (*final(record), r) == settled(*old(record), update, outcome),
{
    match outcome {
        Err(code) => Err(crate::error::VaultError::External(code)),
        Ok(()) => {
            match update {
                RecordUpdate::Keep => {},
                RecordUpdate::Create(c) => {
                    *record = Some(CentralStateData::new(c));
                },
                RecordUpdate::SetTree(t) => {
                    if let Some(d) = record {
                        d.merkle_tree_address = Some(t);
                    }
                },
            }
            Ok(())
        },
    }
}

} // verus!
