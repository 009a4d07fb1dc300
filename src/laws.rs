use crate::accounts::{BurnAccs, Init, MerkleTree, MintCNft};
use crate::checks::{
    all_clear, first_error, lemma_first_error_at, lemma_first_error_none,
    REQUIRED_TREE_ACCOUNT_SIZE,
};
use crate::error::{MyError, VaultError};
use crate::instructions::{
    burn_account_checks, burn_checks, burn_result, initialize_checks,
    initialize_result, initialize_tree_checks, initialize_tree_result, mint_account_checks,
    mint_checks, mint_result, transaction, tree_account_checks,
};
use crate::state::{CentralStateData, RecordUpdate};
use vstd::prelude::*;

verus! {

/// A list of checks in which one fails finds an error.
proof fn lemma_some_failed(s: Seq<Option<VaultError>>, k: int)
    requires
        0 <= k < s.len(),
        s[k] is Some,
    ensures
        first_error(s) is Some,
{
    lemma_first_error_none(s);
    assert(!all_clear(s));
}

/// The tree that the record holds is not `tree`: none is recorded, or
/// another one is.
pub open spec fn tree_not_recorded(rec: Option<CentralStateData>, tree: Seq<u8>) -> bool {
    match rec {
        Some(d) => match d.merkle_tree_address {
            Some(t) => t@ != tree,
            None => true,
        },
        None => true,
    }
}

/// Initialization happens once: where the record exists, `initialize`
/// fails whatever the delegated calls would do, and the record stays as it
/// was. Where the signer and the authority account pass their checks, the
/// failure is that the record is already in use.
pub proof fn lemma_initialize_exactly_once(
    accounts: Init,
    record: Option<CentralStateData>,
    outcome: Result<(), u64>,
)
    requires
        record is Some,
    ensures
        transaction(record, initialize_result(accounts, record), outcome).0 == record,
        transaction(record, initialize_result(accounts, record), outcome).1 is Err,
        ({
            let s = initialize_checks(accounts, record);
            s[0] is None && s[1] is None && s[2] is None ==> initialize_result(accounts, record)
                == Err::<RecordUpdate, VaultError>(VaultError::AccountAlreadyInUse)
        }),
{
    let s = initialize_checks(accounts, record);
    lemma_some_failed(s, 3);
    if s[0] is None && s[1] is None && s[2] is None {
        lemma_first_error_at(s, 3);
    }
}

/// Minting is bound to the recorded tree: where no tree is recorded, or
/// another one is, `mint_cnft` fails and leaves the record; where the
/// accounts pass their checks, the failure is `InvalidMerkleTree`.
pub proof fn lemma_mint_bound_to_tree(
    accounts: MintCNft,
    record: Option<CentralStateData>,
    outcome: Result<(), u64>,
)
    requires
        tree_not_recorded(record, accounts.merkle_tree.key@),
    ensures
        transaction(record, mint_result(accounts, record), outcome).0 == record,
        transaction(record, mint_result(accounts, record), outcome).1 is Err,
        all_clear(mint_account_checks(accounts, record)) ==> mint_result(accounts, record)
            == Err::<RecordUpdate, VaultError>(VaultError::Program(MyError::InvalidMerkleTree)),
{
    let acc = mint_account_checks(accounts, record);
    let s = mint_checks(accounts, record);
    assert(s[acc.len() as int] == s[12]);
    lemma_some_failed(s, 12);
    if all_clear(acc) {
        assert forall|j: int| 0 <= j < 12 implies (#[trigger] s[j]) is None by {
            assert(s[j] == acc[j]);
        }
        lemma_first_error_at(s, 12);
    }
}

/// Burning is bound to the recorded tree: where no tree is recorded, or
/// another one is, `burn_cnft` fails and leaves the record; where the
/// accounts pass their checks, the failure is `InvalidMerkleTree`.
pub proof fn lemma_burn_bound_to_tree(
    accounts: BurnAccs,
    record: Option<CentralStateData>,
    outcome: Result<(), u64>,
)
    requires
        tree_not_recorded(record, accounts.merkle_tree.key@),
    ensures
        transaction(record, burn_result(accounts, record), outcome).0 == record,
        transaction(record, burn_result(accounts, record), outcome).1 is Err,
        all_clear(burn_account_checks(accounts, record)) ==> burn_result(accounts, record)
            == Err::<RecordUpdate, VaultError>(VaultError::Program(MyError::InvalidMerkleTree)),
{
    let acc = burn_account_checks(accounts, record);
    let s = burn_checks(accounts, record);
    lemma_some_failed(s, 9);
    if all_clear(acc) {
        assert forall|j: int| 0 <= j < 9 implies (#[trigger] s[j]) is None by {
            assert(s[j] == acc[j]);
        }
        lemma_first_error_at(s, 9);
    }
}

/// Minting is bound to the recorded collection: where the collection
/// handed in is not the recorded one, `mint_cnft` produces no call and
/// leaves the record; where the accounts and the tree pass their checks,
/// the failure is `InvalidCollection`.
pub proof fn lemma_mint_bound_to_collection(
    accounts: MintCNft,
    record: Option<CentralStateData>,
    outcome: Result<(), u64>,
)
    requires
        record is Some,
        record->Some_0.collection_address@ != accounts.collection_mint.key@,
    ensures
        mint_result(accounts, record) is Err,
        transaction(record, mint_result(accounts, record), outcome).0 == record,
        all_clear(mint_account_checks(accounts, record)) && !tree_not_recorded(
            record,
            accounts.merkle_tree.key@,
        ) ==> mint_result(accounts, record) == Err::<RecordUpdate, VaultError>(
            VaultError::Program(MyError::InvalidCollection),
        ),
{
    let acc = mint_account_checks(accounts, record);
    let s = mint_checks(accounts, record);
    lemma_some_failed(s, 13);
    if all_clear(acc) && !tree_not_recorded(record, accounts.merkle_tree.key@) {
        assert forall|j: int| 0 <= j < 13 implies (#[trigger] s[j]) is None by {
            if j < 12 {
                assert(s[j] == acc[j]);
            }
        }
        lemma_first_error_at(s, 13);
    }
}

/// Tree setup takes only accounts of the one supported size: for any
/// other length `initialize_tree` fails and leaves the record; where the
/// accounts pass their checks, the failure is `UnsupportedTreeAccountSize`.
pub proof fn lemma_tree_size_required(
    accounts: MerkleTree,
    record: Option<CentralStateData>,
    outcome: Result<(), u64>,
)
    requires
        accounts.merkle_tree_data_len != REQUIRED_TREE_ACCOUNT_SIZE,
    ensures
        transaction(record, initialize_tree_result(accounts, record), outcome).0 == record,
        transaction(record, initialize_tree_result(accounts, record), outcome).1 is Err,
        all_clear(tree_account_checks(accounts, record)) ==> initialize_tree_result(
            accounts,
            record,
        ) == Err::<RecordUpdate, VaultError>(
            VaultError::Program(MyError::UnsupportedTreeAccountSize),
        ),
{
    let acc = tree_account_checks(accounts, record);
    let s = initialize_tree_checks(accounts, record);
    lemma_some_failed(s, 13);
    if all_clear(acc) {
        assert forall|j: int| 0 <= j < 13 implies (#[trigger] s[j]) is None by {
            assert(s[j] == acc[j]);
        }
        lemma_first_error_at(s, 13);
    }
}

/// A failed delegated call leaves nothing behind: whatever the checks
/// decided, when a call fails the record is the one from before and the
/// instruction fails.
pub proof fn lemma_failed_call_keeps_record(
    record: Option<CentralStateData>,
    validated: Result<RecordUpdate, VaultError>,
    code: u64,
)
    ensures
        transaction(record, validated, Err(code)).0 == record,
        transaction(record, validated, Err(code)).1 is Err,
{
}

/// Minting never changes the record: not when its call fails, and not
/// when it succeeds; a failed call is reported as that call's error.
pub proof fn lemma_mint_keeps_record(
    accounts: MintCNft,
    record: Option<CentralStateData>,
    outcome: Result<(), u64>,
)
    ensures
        transaction(record, mint_result(accounts, record), outcome).0 == record,
        mint_result(accounts, record) is Ok && outcome is Err ==> transaction(
            record,
            mint_result(accounts, record),
            outcome,
        ).1 == Err::<(), VaultError>(VaultError::External(outcome->Err_0)),
{
}

/// A successful `initialize` creates the record with the new mint as its
/// collection and no tree yet.
pub proof fn lemma_initialize_creates_record(accounts: Init, record: Option<CentralStateData>)
    requires
        initialize_result(accounts, record) is Ok,
    ensures
        record is None,
        ({
            let after = transaction(record, initialize_result(accounts, record), Ok(())).0;
            &&& after is Some
            &&& after->Some_0.collection_address == accounts.mint.key
            &&& after->Some_0.merkle_tree_address is None
        }),
{
    let s = initialize_checks(accounts, record);
    lemma_first_error_none(s);
    assert(s[3] is None);
}

/// A successful tree setup records exactly the tree account it was given
/// and keeps the collection.
pub proof fn lemma_tree_setup_records_tree(accounts: MerkleTree, record: Option<CentralStateData>)
    requires
        initialize_tree_result(accounts, record) is Ok,
    ensures
        record is Some,
        ({
            let after = transaction(record, initialize_tree_result(accounts, record), Ok(())).0;
            &&& after is Some
            &&& after->Some_0.merkle_tree_address == Some(accounts.merkle_tree.key)
            &&& after->Some_0.collection_address == record->Some_0.collection_address
        }),
{
    let s = initialize_tree_checks(accounts, record);
    lemma_first_error_none(s);
    assert(s[3] is None);
}

} // verus!
