use crate::address::Address;
use crate::error::{MyError, VaultError};
use crate::state::CentralStateData;
use vstd::prelude::*;

verus! {

/// The byte length of a tree account: a tree of depth 14 with a change
/// buffer of 64 entries and a canopy of depth 11, with its header.
pub const REQUIRED_TREE_ACCOUNT_SIZE: usize = 162_808;

/// An account handed to an instruction: its address and how it was passed.
#[derive(Clone, Copy, Debug)]
pub struct AccountRef {
    pub key: Address,
    pub is_signer: bool,
    pub is_writable: bool,
}

/// The first failed check of a list of checks, in order.
pub open spec fn first_error(s: Seq<Option<VaultError>>) -> Option<VaultError>
    decreases s.len(),
{
    if s.len() == 0 {
        None
    } else if s[0] is Some {
        s[0]
    } else {
        first_error(s.drop_first())
    }
}

/// No check of the list failed.
pub open spec fn all_clear(s: Seq<Option<VaultError>>) -> bool {
    forall|j: int| 0 <= j < s.len() ==> (#[trigger] s[j]) is None
}

/// The first failed check is the one at `k` when all before it passed.
pub proof fn lemma_first_error_at(s: Seq<Option<VaultError>>, k: int)
    requires
        0 <= k < s.len(),
        s[k] is Some,
        forall|j: int| 0 <= j < k ==> (#[trigger] s[j]) is None,
    ensures
        first_error(s) == s[k],
    decreases k,
{
    if k > 0 {
        assert(s[0] is None);
        let t = s.drop_first();
        assert forall|j: int| 0 <= j < k - 1 implies (#[trigger] t[j]) is None by {
            assert(t[j] == s[j + 1]);
        }
        lemma_first_error_at(t, k - 1);
    }
}

/// A list of checks finds no error exactly when each check passes.
pub proof fn lemma_first_error_none(s: Seq<Option<VaultError>>)
    ensures
        first_error(s) is None <==> all_clear(s),
    decreases s.len(),
{
    if s.len() > 0 {
        let t = s.drop_first();
        lemma_first_error_none(t);
        if all_clear(s) {
            assert forall|j: int| 0 <= j < t.len() implies (#[trigger] t[j]) is None by {
                assert(t[j] == s[j + 1]);
            }
        }
        if first_error(s) is None {
            assert forall|j: int| 0 <= j < s.len() implies (#[trigger] s[j]) is None by {
                if j > 0 {
                    assert(s[j] == t[j - 1]);
                }
            }
        }
    }
}

/// Runs the checks in order and returns the first that failed.
pub fn first_failed(checks: Vec<Option<VaultError>>) -> (r: Option<VaultError>)
    ensures
        r == first_error(checks@),
{
    let mut i: usize = 0;
    assert(checks@.skip(0) =~= checks@);
    while i < checks.len()
        invariant
            0 <= i <= checks@.len(),
            first_error(checks@) == first_error(checks@.skip(i as int)),
        decreases checks@.len() - i,
    {
        let ghost s = checks@.skip(i as int);
        assert(s[0] == checks@[i as int]);
        if checks[i].is_some() {
            return checks[i];
        }
        assert(s.drop_first() =~= checks@.skip(i + 1));
        i = i + 1;
    }
    assert(checks@.skip(i as int).len() == 0);
    None
}

pub open spec fn signer_error(a: AccountRef) -> Option<VaultError> {
    if a.is_signer {
        None
    } else {
        Some(VaultError::AccountNotSigner)
    }
}

pub open spec fn writable_error(a: AccountRef) -> Option<VaultError> {
    if a.is_writable {
        None
    } else {
        Some(VaultError::AccountNotMutable)
    }
}

pub open spec fn program_error(a: AccountRef, id: Seq<u8>) -> Option<VaultError> {
    if a.key@ == id {
        None
    } else {
        Some(VaultError::InvalidProgramId)
    }
}

pub open spec fn sysvar_error(a: AccountRef, id: Seq<u8>) -> Option<VaultError> {
    if a.key@ == id {
        None
    } else {
        Some(VaultError::AccountSysvarMismatch)
    }
}

/// `e` unless the account sits at the derived address `d`.
pub open spec fn derived_error(a: AccountRef, d: Option<(Seq<u8>, u8)>, e: VaultError) -> Option<
    VaultError,
> {
    match d {
        Some((addr, _)) => if a.key@ == addr {
            None
        } else {
            Some(e)
        },
        None => Some(e),
    }
}

pub open spec fn record_exists_error(rec: Option<CentralStateData>) -> Option<VaultError> {
    match rec {
        Some(_) => None,
        None => Some(VaultError::AccountNotInitialized),
    }
}

pub open spec fn record_absent_error(rec: Option<CentralStateData>) -> Option<VaultError> {
    match rec {
        Some(_) => Some(VaultError::AccountAlreadyInUse),
        None => None,
    }
}

/// A fresh account starts with eight zero bytes where its discriminator goes.
pub open spec fn zero_error(discriminator: Option<u64>) -> Option<VaultError> {
    match discriminator {
        None => Some(VaultError::AccountDiscriminatorNotFound),
        Some(d) => if d == 0 {
            None
        } else {
            Some(VaultError::ConstraintZero)
        },
    }
}

/// The tree handed in must be the one that the record holds.
pub open spec fn tree_error(rec: Option<CentralStateData>, tree: Seq<u8>) -> Option<VaultError> {
    match rec {
        Some(d) => match d.merkle_tree_address {
            Some(t) => if t@ == tree {
                None
            } else {
                Some(VaultError::Program(MyError::InvalidMerkleTree))
            },
            None => Some(VaultError::Program(MyError::InvalidMerkleTree)),
        },
        None => Some(VaultError::Program(MyError::InvalidMerkleTree)),
    }
}

/// The collection handed in must be the one that the record holds.
pub open spec fn collection_error(rec: Option<CentralStateData>, collection: Seq<u8>) -> Option<
    VaultError,
> {
    match rec {
        Some(d) => if d.collection_address@ == collection {
            None
        } else {
            Some(VaultError::Program(MyError::InvalidCollection))
        },
        None => Some(VaultError::Program(MyError::InvalidCollection)),
    }
}

pub open spec fn size_error(len: usize) -> Option<VaultError> {
    if len == REQUIRED_TREE_ACCOUNT_SIZE {
        None
    } else {
        Some(VaultError::Program(MyError::UnsupportedTreeAccountSize))
    }
}

pub fn check_signer(a: &AccountRef) -> (r: Option<VaultError>)
    ensures
        r == signer_error(*a),
{
    if a.is_signer {
        None
    } else {
        Some(VaultError::AccountNotSigner)
    }
}

pub fn check_writable(a: &AccountRef) -> (r: Option<VaultError>)
    ensures
        r == writable_error(*a),
{
    if a.is_writable {
        None
    } else {
        Some(VaultError::AccountNotMutable)
    }
}

pub fn check_program(a: &AccountRef, id: &Address) -> (r: Option<VaultError>)
    ensures
        r == program_error(*a, id@),
{
    if a.key.same_as(id) {
        None
    } else {
        Some(VaultError::InvalidProgramId)
    }
}

pub fn check_sysvar(a: &AccountRef, id: &Address) -> (r: Option<VaultError>)
    ensures
        r == sysvar_error(*a, id@),
{
    if a.key.same_as(id) {
        None
    } else {
        Some(VaultError::AccountSysvarMismatch)
    }
}

pub fn check_derived(a: &AccountRef, d: &Option<(Address, u8)>, e: VaultError) -> (r: Option<
    VaultError,
>)
    ensures
        r == derived_error(*a, crate::pda::found_view(*d), e),
{
    match d {
        Some((addr, _)) => if a.key.same_as(addr) {
            None
        } else {
            Some(e)
        },
        None => Some(e),
    }
}

pub fn check_record_exists(rec: &Option<CentralStateData>) -> (r: Option<VaultError>)
    ensures
        r == record_exists_error(*rec),
{
    match rec {
        Some(_) => None,
        None => Some(VaultError::AccountNotInitialized),
    }
}

pub fn check_record_absent(rec: &Option<CentralStateData>) -> (r: Option<VaultError>)
    ensures
        r == record_absent_error(*rec),
{
    match rec {
        Some(_) => Some(VaultError::AccountAlreadyInUse),
        None => None,
    }
}

pub fn check_zero(discriminator: Option<u64>) -> (r: Option<VaultError>)
    ensures
        r == zero_error(discriminator),
{
    match discriminator {
        None => Some(VaultError::AccountDiscriminatorNotFound),
        Some(d) => if d == 0 {
            None
        } else {
            Some(VaultError::ConstraintZero)
        },
    }
}

pub fn check_tree(rec: &Option<CentralStateData>, tree: &Address) -> (r: Option<VaultError>)
    ensures
        r == tree_error(*rec, tree@),
{
    match rec {
        Some(d) => match &d.merkle_tree_address {
            Some(t) => if t.same_as(tree) {
                None
            } else {
                Some(VaultError::Program(MyError::InvalidMerkleTree))
            },
            None => Some(VaultError::Program(MyError::InvalidMerkleTree)),
        },
        None => Some(VaultError::Program(MyError::InvalidMerkleTree)),
    }
}

pub fn check_collection(rec: &Option<CentralStateData>, collection: &Address) -> (r: Option<
    VaultError,
>)
    ensures
        r == collection_error(*rec, collection@),
{
    match rec {
        Some(d) => if d.collection_address.same_as(collection) {
            None
        } else {
            Some(VaultError::Program(MyError::InvalidCollection))
        },
        None => Some(VaultError::Program(MyError::InvalidCollection)),
    }
}

pub fn check_size(len: usize) -> (r: Option<VaultError>)
    ensures
        r == size_error(len),
{
    if len == REQUIRED_TREE_ACCOUNT_SIZE {
        None
    } else {
        Some(VaultError::Program(MyError::UnsupportedTreeAccountSize))
    }
}

} // verus!
