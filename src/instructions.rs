use crate::accounts::{BurnAccs, Init, MerkleTree, MintCNft};
use crate::address::Address;
use crate::checks::{
    check_collection, check_derived, check_program, check_record_absent, check_record_exists,
    check_signer, check_size, check_sysvar, check_tree, check_writable, check_zero,
    collection_error, derived_error, first_error, first_failed, lemma_first_error_none,
    program_error, record_absent_error, record_exists_error, signer_error, size_error,
    sysvar_error, tree_error, writable_error, zero_error,
};
use crate::error::VaultError;
use crate::pda::{
    associated_token_seeds, authority_seeds, edition_seeds, find_associated_token_account, find_central_authority, find_master_edition_account,
    find_metadata_account, metadata_seeds, program_address_of, seeds_view, signer_seeds,
    signer_seeds_of,
};
use crate::programs::{
    associated_token_program, associated_token_program_id, bubblegum_program, bubblegum_program_id,
    compression_program, compression_program_id, noop_program, noop_program_id, program,
    program_id, rent_sysvar, rent_sysvar_id, system_program, system_program_id, token_metadata_program,
    token_metadata_program_id, token_program, token_program_id,
};
use crate::state::{settled, CentralStateData, RecordUpdate};
use vstd::prelude::*;

verus! {

/// Depth of the trees that the program sets up.
pub const MAX_TREE_DEPTH: u32 = 14;

/// Number of concurrent changes that the program's trees buffer.
pub const MAX_TREE_BUFFER_SIZE: u32 = 64;

/// The program's signing authority and its bump seed.
pub open spec fn authority_of() -> Option<(Seq<u8>, u8)> {
    program_address_of(authority_seeds(), program_id())
}

pub open spec fn authority_bump() -> u8 {
    authority_of()->Some_0.1
}

/// The record and result of a whole instruction: its checks, and when they
/// pass, the delegated calls that come back with `outcome`.
pub open spec fn transaction(
    rec: Option<CentralStateData>,
    validated: Result<RecordUpdate, VaultError>,
    outcome: Result<(), u64>,
) -> (Option<CentralStateData>, Result<(), VaultError>) {
    match validated {
        Err(e) => (rec, Err(e)),
        Ok(u) => settled(rec, u, outcome),
    }
}

pub open spec fn validated(checks: Seq<Option<VaultError>>, u: RecordUpdate) -> Result<
    RecordUpdate,
    VaultError,
> {
    match first_error(checks) {
        Some(e) => Err(e),
        None => Ok(u),
    }
}

fn authority_signer_seeds(authority: &Option<(Address, u8)>) -> (r: Vec<Vec<u8>>)
    requires
        authority is Some,
    ensures
        seeds_view(r@) == signer_seeds_of(authority->Some_0.1),
{
    match authority {
        Some((_, bump)) => signer_seeds(*bump),
        None => Vec::new(),
    }
}

// ---------------------------------------------------------------- collection

/// The descriptive fields of the collection token.
#[derive(Clone, Debug)]
pub struct TokenData {
    pub name: String,
    pub symbol: String,
    pub uri: String,
    pub seller_fee_basis_points: u16,
}

/// What `initialize` hands to the token and metadata programs: mint
/// `mint_amount` to the holding account, create the metadata with `data`,
/// then the master edition with `max_supply`.
#[derive(Clone, Debug)]
pub struct InitializePlan {
    pub signer_seeds: Vec<Vec<u8>>,
    pub mint_amount: u64,
    pub data: TokenData,
    pub is_mutable: bool,
    pub update_authority_is_signer: bool,
    pub collection_size: u64,
    pub max_supply: Option<u64>,
    pub update: RecordUpdate,
}

/// The account checks of `initialize`, in order.
pub open spec fn initialize_checks(a: Init, rec: Option<CentralStateData>) -> Seq<
    Option<VaultError>,
> {
    seq![
        signer_error(a.signer),
        writable_error(a.signer),
        derived_error(a.central_authority, authority_of(), VaultError::ConstraintSeeds),
        record_absent_error(rec),
        writable_error(a.central_authority),
        signer_error(a.mint),
        writable_error(a.mint),
        derived_error(
            a.associated_token_account,
            program_address_of(
                associated_token_seeds(a.central_authority.key@, a.mint.key@),
                associated_token_program_id(),
            ),
            VaultError::ConstraintAssociated,
        ),
        writable_error(a.associated_token_account),
        derived_error(
            a.metadata_account,
            program_address_of(metadata_seeds(a.mint.key@), token_metadata_program_id()),
            VaultError::ConstraintAddress,
        ),
        writable_error(a.metadata_account),
        derived_error(
            a.master_edition_account,
            program_address_of(edition_seeds(a.mint.key@), token_metadata_program_id()),
            VaultError::ConstraintAddress,
        ),
        writable_error(a.master_edition_account),
        program_error(a.token_program, token_program_id()),
        program_error(a.associated_token_program, associated_token_program_id()),
        program_error(a.token_metadata_program, token_metadata_program_id()),
        program_error(a.system_program, system_program_id()),
        sysvar_error(a.rent, rent_sysvar_id()),
    ]
}

pub open spec fn initialize_result(a: Init, rec: Option<CentralStateData>) -> Result<
    RecordUpdate,
    VaultError,
> {
    validated(initialize_checks(a, rec), RecordUpdate::Create(a.mint.key))
}

/// Checks the accounts that create the collection. On success the plan
/// mints one token of the new mint to the authority's holding account,
/// gives it mutable metadata with the given name, symbol and uri, no
/// royalty and a collection size of one, and a master edition that allows
/// no prints, all signed by the program's authority; it then creates the
/// record with that mint as its collection.
pub fn initialize(
    accounts: &Init,
    record: &Option<CentralStateData>,
    name: String,
    symbol: String,
    uri: String,
) -> (r: Result<InitializePlan, VaultError>)
    ensures
        match r {
            Ok(p) => {
                &&& initialize_result(*accounts, *record) == Ok::<RecordUpdate, VaultError>(
                    p.update,
                )
                &&& seeds_view(p.signer_seeds@) == signer_seeds_of(authority_bump())
                &&& p.mint_amount == 1
                &&& p.data.name@ == name@
                &&& p.data.symbol@ == symbol@
                &&& p.data.uri@ == uri@
                &&& p.data.seller_fee_basis_points == 0
                &&& p.is_mutable
                &&& p.update_authority_is_signer
                &&& p.collection_size == 1
                &&& p.max_supply == Some(0u64)
            },
            Err(e) => initialize_result(*accounts, *record) == Err::<RecordUpdate, VaultError>(e),
        },
{
    let a = accounts;
    let authority = find_central_authority(&program());
    let holding = find_associated_token_account(&a.central_authority.key, &a.mint.key);
    let metadata = find_metadata_account(&a.mint.key);
    let edition = find_master_edition_account(&a.mint.key);
    let checks: Vec<Option<VaultError>> = vec![
        check_signer(&a.signer),
        check_writable(&a.signer),
        check_derived(&a.central_authority, &authority, VaultError::ConstraintSeeds),
        check_record_absent(record),
        check_writable(&a.central_authority),
        check_signer(&a.mint),
        check_writable(&a.mint),
        check_derived(&a.associated_token_account, &holding, VaultError::ConstraintAssociated),
        check_writable(&a.associated_token_account),
        check_derived(&a.metadata_account, &metadata, VaultError::ConstraintAddress),
        check_writable(&a.metadata_account),
        check_derived(&a.master_edition_account, &edition, VaultError::ConstraintAddress),
        check_writable(&a.master_edition_account),
        check_program(&a.token_program, &token_program()),
        check_program(&a.associated_token_program, &associated_token_program()),
        check_program(&a.token_metadata_program, &token_metadata_program()),
        check_program(&a.system_program, &system_program()),
        check_sysvar(&a.rent, &rent_sysvar()),
    ];
    assert(checks@ =~= initialize_checks(*a, *record));
    match first_failed(checks) {
        Some(e) => Err(e),
        None => {
            proof {
                lemma_first_error_none(checks@);
                assert(checks@[2] is None);
            }
            let data = TokenData { name, symbol, uri, seller_fee_basis_points: 0 };
            Ok(
                InitializePlan {
                    signer_seeds: authority_signer_seeds(&authority),
                    mint_amount: 1,
                    data,
                    is_mutable: true,
                    update_authority_is_signer: true,
                    collection_size: 1,
                    max_supply: Some(0),
                    update: RecordUpdate::Create(a.mint.key),
                },
            )
        },
    }
}

// ---------------------------------------------------------------- tree setup

/// What `initialize_tree` hands to the tree program.
#[derive(Clone, Debug)]
pub struct TreePlan {
    pub signer_seeds: Vec<Vec<u8>>,
    pub max_depth: u32,
    pub max_buffer_size: u32,
    pub update: RecordUpdate,
}

/// The account checks of `initialize_tree`, in order.
pub open spec fn tree_account_checks(a: MerkleTree, rec: Option<CentralStateData>) -> Seq<
    Option<VaultError>,
> {
    seq![
        signer_error(a.payer),
        writable_error(a.payer),
        derived_error(a.central_authority, authority_of(), VaultError::ConstraintSeeds),
        record_exists_error(rec),
        writable_error(a.central_authority),
        zero_error(a.merkle_tree_discriminator),
        writable_error(a.merkle_tree),
        signer_error(a.merkle_tree),
        writable_error(a.tree_config),
        program_error(a.bubblegum_program, bubblegum_program_id()),
        program_error(a.system_program, system_program_id()),
        program_error(a.log_wrapper, noop_program_id()),
        program_error(a.compression_program, compression_program_id()),
    ]
}

/// All checks of `initialize_tree`: the accounts, then the tree's size.
pub open spec fn initialize_tree_checks(a: MerkleTree, rec: Option<CentralStateData>) -> Seq<
    Option<VaultError>,
> {
    tree_account_checks(a, rec) + seq![size_error(a.merkle_tree_data_len)]
}

pub open spec fn initialize_tree_result(a: MerkleTree, rec: Option<CentralStateData>) -> Result<
    RecordUpdate,
    VaultError,
> {
    validated(initialize_tree_checks(a, rec), RecordUpdate::SetTree(a.merkle_tree.key))
}

/// Checks the accounts of a tree setup. On success the plan configures a
/// tree of depth 14 with a buffer of 64 in the given account, signed by the
/// program's authority, and records that tree in place of any earlier one.
pub fn initialize_tree(accounts: &MerkleTree, record: &Option<CentralStateData>) -> (r: Result<
    TreePlan,
    VaultError,
>)
    ensures
        match r {
            Ok(p) => {
                &&& initialize_tree_result(*accounts, *record) == Ok::<RecordUpdate, VaultError>(
                    p.update,
                )
                &&& seeds_view(p.signer_seeds@) == signer_seeds_of(authority_bump())
                &&& p.max_depth == MAX_TREE_DEPTH
                &&& p.max_buffer_size == MAX_TREE_BUFFER_SIZE
            },
            Err(e) => initialize_tree_result(*accounts, *record) == Err::<RecordUpdate, VaultError>(
                e,
            ),
        },
{
    let a = accounts;
    let authority = find_central_authority(&program());
    let checks: Vec<Option<VaultError>> = vec![
        check_signer(&a.payer),
        check_writable(&a.payer),
        check_derived(&a.central_authority, &authority, VaultError::ConstraintSeeds),
        check_record_exists(record),
        check_writable(&a.central_authority),
        check_zero(a.merkle_tree_discriminator),
        check_writable(&a.merkle_tree),
        check_signer(&a.merkle_tree),
        check_writable(&a.tree_config),
        check_program(&a.bubblegum_program, &bubblegum_program()),
        check_program(&a.system_program, &system_program()),
        check_program(&a.log_wrapper, &noop_program()),
        check_program(&a.compression_program, &compression_program()),
        check_size(a.merkle_tree_data_len),
    ];
    assert(checks@ =~= initialize_tree_checks(*a, *record));
    match first_failed(checks) {
        Some(e) => Err(e),
        None => {
            proof {
                lemma_first_error_none(checks@);
                assert(checks@[2] is None);
            }
            Ok(
                TreePlan {
                    signer_seeds: authority_signer_seeds(&authority),
                    max_depth: MAX_TREE_DEPTH,
                    max_buffer_size: MAX_TREE_BUFFER_SIZE,
                    update: RecordUpdate::SetTree(a.merkle_tree.key),
                },
            )
        },
    }
}

// -------------------------------------------------------------- minting

/// The metadata of a compressed item as the tree program stores it.
#[derive(Clone, Debug)]
pub struct CompressedMetadata {
    pub name: String,
    pub symbol: String,
    pub uri: String,
    pub seller_fee_basis_points: u16,
    pub primary_sale_happened: bool,
    pub is_mutable: bool,
    pub edition_nonce: Option<u8>,
    pub collection: Address,
    pub collection_verified: bool,
}

/// The parameters of a mint that a client sends along with its uri.
#[derive(Clone, Debug)]
pub struct MintParams {
    pub uri: String,
}

/// What `mint_cnft` hands to the tree program.
#[derive(Clone, Debug)]
pub struct MintPlan {
    pub signer_seeds: Vec<Vec<u8>>,
    pub metadata: CompressedMetadata,
    pub update: RecordUpdate,
}

/// The account checks of `mint_cnft`, in order.
pub open spec fn mint_account_checks(a: MintCNft, rec: Option<CentralStateData>) -> Seq<
    Option<VaultError>,
> {
    seq![
        signer_error(a.payer),
        writable_error(a.tree_config),
        writable_error(a.merkle_tree),
        signer_error(a.tree_delegate),
        derived_error(a.central_authority, authority_of(), VaultError::ConstraintSeeds),
        record_exists_error(rec),
        writable_error(a.collection_metadata),
        program_error(a.log_wrapper, noop_program_id()),
        program_error(a.compression_program, compression_program_id()),
        program_error(a.token_metadata_program, token_metadata_program_id()),
        program_error(a.bubblegum_program, bubblegum_program_id()),
        program_error(a.system_program, system_program_id()),
    ]
}

/// All checks of `mint_cnft`: the accounts, then the tree, then the collection.
pub open spec fn mint_checks(a: MintCNft, rec: Option<CentralStateData>) -> Seq<Option<VaultError>> {
    mint_account_checks(a, rec) + seq![
        tree_error(rec, a.merkle_tree.key@),
        collection_error(rec, a.collection_mint.key@),
    ]
}

pub open spec fn mint_result(a: MintCNft, rec: Option<CentralStateData>) -> Result<
    RecordUpdate,
    VaultError,
> {
    validated(mint_checks(a, rec), RecordUpdate::Keep)
}

/// Checks the accounts of a mint. On success the plan mints one item with
/// the given name, symbol, uri and royalty into the recorded tree, as a
/// verified, immutable member of the recorded collection, signed by the
/// program's authority as tree delegate and collection authority; the
/// record is left as it is.
pub fn mint_cnft(
    accounts: &MintCNft,
    record: &Option<CentralStateData>,
    name: String,
    symbol: String,
    uri: String,
    seller_fee_basis_points: u16,
) -> (r: Result<MintPlan, VaultError>)
    ensures
        match r {
            Ok(p) => {
                &&& mint_result(*accounts, *record) == Ok::<RecordUpdate, VaultError>(p.update)
                &&& seeds_view(p.signer_seeds@) == signer_seeds_of(authority_bump())
                &&& p.metadata.name@ == name@
                &&& p.metadata.symbol@ == symbol@
                &&& p.metadata.uri@ == uri@
                &&& p.metadata.seller_fee_basis_points == seller_fee_basis_points
                &&& !p.metadata.primary_sale_happened
                &&& !p.metadata.is_mutable
                &&& p.metadata.edition_nonce == Some(0u8)
                &&& p.metadata.collection@ == accounts.collection_mint.key@
                &&& p.metadata.collection_verified
            },
            Err(e) => mint_result(*accounts, *record) == Err::<RecordUpdate, VaultError>(e),
        },
{
    let a = accounts;
    let authority = find_central_authority(&program());
    let checks: Vec<Option<VaultError>> = vec![
        check_signer(&a.payer),
        check_writable(&a.tree_config),
        check_writable(&a.merkle_tree),
        check_signer(&a.tree_delegate),
        check_derived(&a.central_authority, &authority, VaultError::ConstraintSeeds),
        check_record_exists(record),
        check_writable(&a.collection_metadata),
        check_program(&a.log_wrapper, &noop_program()),
        check_program(&a.compression_program, &compression_program()),
        check_program(&a.token_metadata_program, &token_metadata_program()),
        check_program(&a.bubblegum_program, &bubblegum_program()),
        check_program(&a.system_program, &system_program()),
        check_tree(record, &a.merkle_tree.key),
        check_collection(record, &a.collection_mint.key),
    ];
    assert(checks@ =~= mint_checks(*a, *record));
    match first_failed(checks) {
        Some(e) => Err(e),
        None => {
            proof {
                lemma_first_error_none(checks@);
                assert(checks@[4] is None);
            }
            let metadata = CompressedMetadata {
                name,
                symbol,
                uri,
                seller_fee_basis_points,
                primary_sale_happened: false,
                is_mutable: false,
                edition_nonce: Some(0),
                collection: a.collection_mint.key,
                collection_verified: true,
            };
            Ok(
                MintPlan {
                    signer_seeds: authority_signer_seeds(&authority),
                    metadata,
                    update: RecordUpdate::Keep,
                },
            )
        },
    }
}

// -------------------------------------------------------------- burning

/// What `burn_cnft` hands to the tree program, with the proof path.
#[derive(Clone, Copy, Debug)]
pub struct BurnPlan {
    pub root: [u8; 32],
    pub data_hash: [u8; 32],
    pub creator_hash: [u8; 32],
    pub nonce: u64,
    pub index: u32,
    pub update: RecordUpdate,
}

/// The account checks of `burn_cnft`, in order.
pub open spec fn burn_account_checks(a: BurnAccs, rec: Option<CentralStateData>) -> Seq<
    Option<VaultError>,
> {
    seq![
        derived_error(a.central_authority, authority_of(), VaultError::ConstraintSeeds),
        record_exists_error(rec),
        signer_error(a.leaf_owner),
        writable_error(a.leaf_owner),
        writable_error(a.merkle_tree),
        program_error(a.log_wrapper, noop_program_id()),
        program_error(a.compression_program, compression_program_id()),
        program_error(a.bubblegum_program, bubblegum_program_id()),
        program_error(a.system_program, system_program_id()),
    ]
}

/// All checks of `burn_cnft`: the accounts, then the tree.
pub open spec fn burn_checks(a: BurnAccs, rec: Option<CentralStateData>) -> Seq<Option<VaultError>> {
    burn_account_checks(a, rec) + seq![tree_error(rec, a.merkle_tree.key@)]
}

pub open spec fn burn_result(a: BurnAccs, rec: Option<CentralStateData>) -> Result<
    RecordUpdate,
    VaultError,
> {
    validated(burn_checks(a, rec), RecordUpdate::Keep)
}

/// Checks the accounts of a burn. On success the plan burns the leaf that
/// the root, hashes, nonce and index name, with the leaf owner signing as
/// owner and delegate; the record is left as it is.
pub fn burn_cnft(
    accounts: &BurnAccs,
    record: &Option<CentralStateData>,
    root: [u8; 32],
    data_hash: [u8; 32],
    creator_hash: [u8; 32],
    nonce: u64,
    index: u32,
) -> (r: Result<BurnPlan, VaultError>)
    ensures
        match r {
            Ok(p) => {
                &&& burn_result(*accounts, *record) == Ok::<RecordUpdate, VaultError>(p.update)
                &&& p.root == root
                &&& p.data_hash == data_hash
                &&& p.creator_hash == creator_hash
                &&& p.nonce == nonce
                &&& p.index == index
            },
            Err(e) => burn_result(*accounts, *record) == Err::<RecordUpdate, VaultError>(e),
        },
{
    let a = accounts;
    let authority = find_central_authority(&program());
    let checks: Vec<Option<VaultError>> = vec![
        check_derived(&a.central_authority, &authority, VaultError::ConstraintSeeds),
        check_record_exists(record),
        check_signer(&a.leaf_owner),
        check_writable(&a.leaf_owner),
        check_writable(&a.merkle_tree),
        check_program(&a.log_wrapper, &noop_program()),
        check_program(&a.compression_program, &compression_program()),
        check_program(&a.bubblegum_program, &bubblegum_program()),
        check_program(&a.system_program, &system_program()),
        check_tree(record, &a.merkle_tree.key),
    ];
    assert(checks@ =~= burn_checks(*a, *record));
    match first_failed(checks) {
        Some(e) => Err(e),
        None => Ok(BurnPlan { root, data_hash, creator_hash, nonce, index, update: RecordUpdate::Keep }),
    }
}

} // verus!
