use cnft_vault::accounts::{BurnAccs, Init, MerkleTree, MintCNft};
use cnft_vault::address::Address;
use cnft_vault::checks::{AccountRef, REQUIRED_TREE_ACCOUNT_SIZE};
use cnft_vault::error::{MyError, VaultError};
use cnft_vault::instructions::{
    burn_cnft, initialize, initialize_tree, mint_cnft, MintParams, MAX_TREE_BUFFER_SIZE,
    MAX_TREE_DEPTH,
};
use cnft_vault::pda::{
    find_associated_token_account, find_central_authority, find_master_edition_account,
    find_metadata_account, signer_seeds,
};
use cnft_vault::programs::{
    associated_token_program, bubblegum_program, compression_program, noop_program, program,
    rent_sysvar, system_program, token_metadata_program, token_program,
};
use cnft_vault::state::{settle, CentralStateData, RecordUpdate};

fn acc(key: Address, is_signer: bool, is_writable: bool) -> AccountRef {
    AccountRef { key, is_signer, is_writable }
}

fn plain(key: Address) -> AccountRef {
    acc(key, false, false)
}

fn addr(b: u8) -> Address {
    Address::new([b; 32])
}

fn authority() -> (Address, u8) {
    find_central_authority(&program()).unwrap()
}

const MINT: u8 = 40;
const TREE: u8 = 50;

fn init_accounts() -> Init {
    let (auth, _) = authority();
    let mint = addr(MINT);
    Init {
        signer: acc(addr(1), true, true),
        central_authority: acc(auth, false, true),
        mint: acc(mint, true, true),
        associated_token_account: acc(find_associated_token_account(&auth, &mint).unwrap().0, false, true),
        metadata_account: acc(find_metadata_account(&mint).unwrap().0, false, true),
        master_edition_account: acc(find_master_edition_account(&mint).unwrap().0, false, true),
        token_program: plain(token_program()),
        associated_token_program: plain(associated_token_program()),
        token_metadata_program: plain(token_metadata_program()),
        system_program: plain(system_program()),
        rent: plain(rent_sysvar()),
    }
}

fn tree_accounts() -> MerkleTree {
    MerkleTree {
        payer: acc(addr(1), true, true),
        central_authority: acc(authority().0, false, true),
        merkle_tree: acc(addr(TREE), true, true),
        merkle_tree_data_len: REQUIRED_TREE_ACCOUNT_SIZE,
        merkle_tree_discriminator: Some(0),
        tree_config: acc(addr(51), false, true),
        bubblegum_program: plain(bubblegum_program()),
        system_program: plain(system_program()),
        log_wrapper: plain(noop_program()),
        compression_program: plain(compression_program()),
    }
}

fn mint_accounts() -> MintCNft {
    MintCNft {
        payer: acc(addr(1), true, true),
        tree_config: acc(addr(51), false, true),
        leaf_owner: plain(addr(2)),
        merkle_tree: acc(addr(TREE), false, true),
        tree_delegate: acc(addr(1), true, false),
        central_authority: plain(authority().0),
        collection_mint: plain(addr(MINT)),
        collection_metadata: acc(addr(60), false, true),
        edition_account: plain(addr(61)),
        bubblegum_signer: plain(addr(62)),
        log_wrapper: plain(noop_program()),
        compression_program: plain(compression_program()),
        token_metadata_program: plain(token_metadata_program()),
        bubblegum_program: plain(bubblegum_program()),
        system_program: plain(system_program()),
    }
}

fn burn_accounts() -> BurnAccs {
    BurnAccs {
        central_authority: plain(authority().0),
        leaf_owner: acc(addr(2), true, true),
        merkle_tree: acc(addr(TREE), false, true),
        tree_config: plain(addr(51)),
        log_wrapper: plain(noop_program()),
        compression_program: plain(compression_program()),
        bubblegum_program: plain(bubblegum_program()),
        system_program: plain(system_program()),
    }
}

fn record_with_tree() -> Option<CentralStateData> {
    Some(CentralStateData { collection_address: addr(MINT), merkle_tree_address: Some(addr(TREE)) })
}

fn s(x: &str) -> String {
    x.to_string()
}

#[test]
fn initialize_plans_collection_and_creates_record() {
    let accounts = init_accounts();
    let mut record: Option<CentralStateData> = None;
    let plan = initialize(&accounts, &record, s("Coll"), s("COL"), s("https://x/c.json")).unwrap();
    assert_eq!(plan.signer_seeds, signer_seeds(authority().1));
    assert_eq!(plan.mint_amount, 1);
    assert_eq!(plan.data.name, "Coll");
    assert_eq!(plan.data.symbol, "COL");
    assert_eq!(plan.data.uri, "https://x/c.json");
    assert_eq!(plan.data.seller_fee_basis_points, 0);
    assert!(plan.is_mutable);
    assert!(plan.update_authority_is_signer);
    assert_eq!(plan.collection_size, 1);
    assert_eq!(plan.max_supply, Some(0));
    assert_eq!(settle(&mut record, plan.update, Ok(())), Ok(()));
    let rec = record.unwrap();
    assert_eq!(rec.collection_address, addr(MINT));
    assert!(rec.merkle_tree_address.is_none());
}

#[test]
fn second_initialize_fails_and_keeps_record() {
    let accounts = init_accounts();
    let record = record_with_tree();
    let r = initialize(&accounts, &record, s("A"), s("B"), s("u"));
    assert_eq!(r.unwrap_err(), VaultError::AccountAlreadyInUse);
    let rec = record.unwrap();
    assert_eq!(rec.collection_address, addr(MINT));
    assert_eq!(rec.merkle_tree_address, Some(addr(TREE)));
}

#[test]
fn initialize_rejects_each_misplaced_account() {
    let mut a = init_accounts();
    a.signer.is_signer = false;
    assert_eq!(initialize(&a, &None, s("A"), s("B"), s("u")).unwrap_err(), VaultError::AccountNotSigner);
    let mut a = init_accounts();
    a.signer.is_writable = false;
    assert_eq!(initialize(&a, &None, s("A"), s("B"), s("u")).unwrap_err(), VaultError::AccountNotMutable);
    let mut a = init_accounts();
    a.central_authority.key = addr(9);
    assert_eq!(initialize(&a, &None, s("A"), s("B"), s("u")).unwrap_err(), VaultError::ConstraintSeeds);
    let mut a = init_accounts();
    a.associated_token_account.key = addr(9);
    assert_eq!(initialize(&a, &None, s("A"), s("B"), s("u")).unwrap_err(), VaultError::ConstraintAssociated);
    let mut a = init_accounts();
    a.metadata_account.key = addr(9);
    assert_eq!(initialize(&a, &None, s("A"), s("B"), s("u")).unwrap_err(), VaultError::ConstraintAddress);
    let mut a = init_accounts();
    a.master_edition_account.key = a.metadata_account.key;
    assert_eq!(initialize(&a, &None, s("A"), s("B"), s("u")).unwrap_err(), VaultError::ConstraintAddress);
    let mut a = init_accounts();
    a.token_program.key = system_program();
    assert_eq!(initialize(&a, &None, s("A"), s("B"), s("u")).unwrap_err(), VaultError::InvalidProgramId);
    let mut a = init_accounts();
    a.rent.key = addr(9);
    assert_eq!(initialize(&a, &None, s("A"), s("B"), s("u")).unwrap_err(), VaultError::AccountSysvarMismatch);
}

#[test]
fn initialize_tree_plans_depth_14_buffer_64() {
    let mut record = Some(CentralStateData::new(addr(MINT)));
    let plan = initialize_tree(&tree_accounts(), &record).unwrap();
    assert_eq!(plan.max_depth, 14);
    assert_eq!(plan.max_buffer_size, 64);
    assert_eq!(MAX_TREE_DEPTH, 14);
    assert_eq!(MAX_TREE_BUFFER_SIZE, 64);
    assert_eq!(plan.signer_seeds, signer_seeds(authority().1));
    assert_eq!(settle(&mut record, plan.update, Ok(())), Ok(()));
    assert_eq!(record.unwrap().merkle_tree_address, Some(addr(TREE)));
    assert_eq!(record.unwrap().collection_address, addr(MINT));
}

#[test]
fn initialize_tree_rejects_other_sizes() {
    let record = Some(CentralStateData::new(addr(MINT)));
    for len in [0usize, 1, 162_807, 162_809, 1 << 20] {
        let mut a = tree_accounts();
        a.merkle_tree_data_len = len;
        assert_eq!(
            initialize_tree(&a, &record).unwrap_err(),
            VaultError::Program(MyError::UnsupportedTreeAccountSize)
        );
    }
    assert_eq!(REQUIRED_TREE_ACCOUNT_SIZE, 162_808);
}

#[test]
fn initialize_tree_needs_fresh_signed_account_and_record() {
    let mut a = tree_accounts();
    a.merkle_tree_discriminator = Some(7);
    let record = Some(CentralStateData::new(addr(MINT)));
    assert_eq!(initialize_tree(&a, &record).unwrap_err(), VaultError::ConstraintZero);
    a.merkle_tree_discriminator = None;
    assert_eq!(initialize_tree(&a, &record).unwrap_err(), VaultError::AccountDiscriminatorNotFound);
    let mut a = tree_accounts();
    a.merkle_tree.is_signer = false;
    assert_eq!(initialize_tree(&a, &record).unwrap_err(), VaultError::AccountNotSigner);
    assert_eq!(initialize_tree(&tree_accounts(), &None).unwrap_err(), VaultError::AccountNotInitialized);
}

#[test]
fn second_tree_setup_replaces_recorded_tree() {
    let mut record = record_with_tree();
    let mut a = tree_accounts();
    a.merkle_tree.key = addr(77);
    let plan = initialize_tree(&a, &record).unwrap();
    assert_eq!(settle(&mut record, plan.update, Ok(())), Ok(()));
    assert_eq!(record.unwrap().merkle_tree_address, Some(addr(77)));
}

#[test]
fn mint_plans_verified_collection_item() {
    let record = record_with_tree();
    let plan = mint_cnft(&mint_accounts(), &record, s("A"), s("B"), s("uri"), 500).unwrap();
    assert_eq!(plan.metadata.name, "A");
    assert_eq!(plan.metadata.symbol, "B");
    assert_eq!(plan.metadata.uri, "uri");
    assert_eq!(plan.metadata.seller_fee_basis_points, 500);
    assert!(!plan.metadata.primary_sale_happened);
    assert!(!plan.metadata.is_mutable);
    assert_eq!(plan.metadata.edition_nonce, Some(0));
    assert_eq!(plan.metadata.collection, addr(MINT));
    assert!(plan.metadata.collection_verified);
    assert_eq!(plan.signer_seeds, signer_seeds(authority().1));
    assert!(matches!(plan.update, RecordUpdate::Keep));
}

#[test]
fn mint_rejects_unrecorded_or_other_tree() {
    let no_tree = Some(CentralStateData::new(addr(MINT)));
    assert_eq!(
        mint_cnft(&mint_accounts(), &no_tree, s("A"), s("B"), s("u"), 0).unwrap_err(),
        VaultError::Program(MyError::InvalidMerkleTree)
    );
    let mut a = mint_accounts();
    a.merkle_tree.key = addr(99);
    assert_eq!(
        mint_cnft(&a, &record_with_tree(), s("A"), s("B"), s("u"), 0).unwrap_err(),
        VaultError::Program(MyError::InvalidMerkleTree)
    );
}

#[test]
fn mint_rejects_other_collection() {
    let mut a = mint_accounts();
    a.collection_mint.key = addr(98);
    assert_eq!(
        mint_cnft(&a, &record_with_tree(), s("A"), s("B"), s("u"), 0).unwrap_err(),
        VaultError::Program(MyError::InvalidCollection)
    );
}

#[test]
fn failed_mint_call_leaves_record() {
    let mut record = record_with_tree();
    let plan = mint_cnft(&mint_accounts(), &record, s("A"), s("B"), s("u"), 0).unwrap();
    assert_eq!(settle(&mut record, plan.update, Err(6001)), Err(VaultError::External(6001)));
    let rec = record.unwrap();
    assert_eq!(rec.collection_address, addr(MINT));
    assert_eq!(rec.merkle_tree_address, Some(addr(TREE)));
}

#[test]
fn failed_initialize_call_creates_no_record() {
    let mut record: Option<CentralStateData> = None;
    let plan = initialize(&init_accounts(), &record, s("A"), s("B"), s("u")).unwrap();
    assert_eq!(settle(&mut record, plan.update, Err(1)), Err(VaultError::External(1)));
    assert!(record.is_none());
}

#[test]
fn burn_passes_leaf_fields_through() {
    let record = record_with_tree();
    let plan = burn_cnft(&burn_accounts(), &record, [1; 32], [2; 32], [3; 32], 4, 5).unwrap();
    assert_eq!(plan.root, [1; 32]);
    assert_eq!(plan.data_hash, [2; 32]);
    assert_eq!(plan.creator_hash, [3; 32]);
    assert_eq!(plan.nonce, 4);
    assert_eq!(plan.index, 5);
}

#[test]
fn burn_rejects_unrecorded_or_other_tree_and_unsigned_owner() {
    let mut a = burn_accounts();
    a.merkle_tree.key = addr(99);
    assert_eq!(
        burn_cnft(&a, &record_with_tree(), [0; 32], [0; 32], [0; 32], 0, 0).unwrap_err(),
        VaultError::Program(MyError::InvalidMerkleTree)
    );
    let no_tree = Some(CentralStateData::new(addr(MINT)));
    assert_eq!(
        burn_cnft(&burn_accounts(), &no_tree, [0; 32], [0; 32], [0; 32], 0, 0).unwrap_err(),
        VaultError::Program(MyError::InvalidMerkleTree)
    );
    let mut a = burn_accounts();
    a.leaf_owner.is_signer = false;
    assert_eq!(
        burn_cnft(&a, &record_with_tree(), [0; 32], [0; 32], [0; 32], 0, 0).unwrap_err(),
        VaultError::AccountNotSigner
    );
    let mut a = burn_accounts();
    a.bubblegum_program.key = noop_program();
    assert_eq!(
        burn_cnft(&a, &record_with_tree(), [0; 32], [0; 32], [0; 32], 0, 0).unwrap_err(),
        VaultError::InvalidProgramId
    );
}

#[test]
fn end_to_end_collection_tree_mint_burn() {
    let mut record: Option<CentralStateData> = None;
    let plan = initialize(&init_accounts(), &record, s("Coll"), s("C"), s("c")).unwrap();
    assert_eq!(settle(&mut record, plan.update, Ok(())), Ok(()));

    let plan = initialize_tree(&tree_accounts(), &record).unwrap();
    assert_eq!((plan.max_depth, plan.max_buffer_size), (14, 64));
    assert_eq!(settle(&mut record, plan.update, Ok(())), Ok(()));

    let mint = mint_accounts();
    let plan = mint_cnft(&mint, &record, s("A"), s("B"), s("uri"), 500).unwrap();
    assert_eq!(settle(&mut record, plan.update, Ok(())), Ok(()));
    assert_eq!(record.unwrap().merkle_tree_address, Some(mint.merkle_tree.key));

    let plan = burn_cnft(&burn_accounts(), &record, [1; 32], [2; 32], [3; 32], 0, 0).unwrap();
    assert_eq!(settle(&mut record, plan.update, Ok(())), Ok(()));

    // the tree program refuses a burn whose root does not match the tree
    let plan = burn_cnft(&burn_accounts(), &record, [9; 32], [2; 32], [3; 32], 0, 0).unwrap();
    assert_eq!(settle(&mut record, plan.update, Err(6002)), Err(VaultError::External(6002)));
    assert_eq!(record.unwrap().merkle_tree_address, Some(addr(TREE)));
    assert_eq!(record.unwrap().collection_address, addr(MINT));
}

#[test]
fn error_codes_follow_declaration_order() {
    assert_eq!(MyError::NoSigner.code(), 6000);
    assert_eq!(MyError::UnsupportedTreeAccountSize.code(), 6001);
    assert_eq!(MyError::InvalidMerkleTree.code(), 6002);
    assert_eq!(MyError::InvalidCollection.code(), 6003);
}

#[test]
fn record_size_and_params() {
    assert_eq!(CentralStateData::MAX_SIZE, 96);
    let p = MintParams { uri: s("u") };
    assert_eq!(p.uri, "u");
}
