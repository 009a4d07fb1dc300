use crate::checks::AccountRef;
use vstd::prelude::*;

verus! {

/// The accounts of `initialize`.
#[derive(Clone, Copy, Debug)]
pub struct Init {
    pub signer: AccountRef,
    pub central_authority: AccountRef,
    pub mint: AccountRef,
    pub associated_token_account: AccountRef,
    pub metadata_account: AccountRef,
    pub master_edition_account: AccountRef,
    pub token_program: AccountRef,
    pub associated_token_program: AccountRef,
    pub token_metadata_program: AccountRef,
    pub system_program: AccountRef,
    pub rent: AccountRef,
}

/// The accounts of `initialize_tree`, with what the tree account holds:
/// its length and, where it has eight bytes, its leading discriminator.
#[derive(Clone, Copy, Debug)]
pub struct MerkleTree {
    pub payer: AccountRef,
    pub central_authority: AccountRef,
    pub merkle_tree: AccountRef,
    pub merkle_tree_data_len: usize,
    pub merkle_tree_discriminator: Option<u64>,
    pub tree_config: AccountRef,
    pub bubblegum_program: AccountRef,
    pub system_program: AccountRef,
    pub log_wrapper: AccountRef,
    pub compression_program: AccountRef,
}

/// The accounts of `mint_cnft`.
#[derive(Clone, Copy, Debug)]
pub struct MintCNft {
    pub payer: AccountRef,
    pub tree_config: AccountRef,
    pub leaf_owner: AccountRef,
    pub merkle_tree: AccountRef,
    pub tree_delegate: AccountRef,
    pub central_authority: AccountRef,
    pub collection_mint: AccountRef,
    pub collection_metadata: AccountRef,
    pub edition_account: AccountRef,
    pub bubblegum_signer: AccountRef,
    pub log_wrapper: AccountRef,
    pub compression_program: AccountRef,
    pub token_metadata_program: AccountRef,
    pub bubblegum_program: AccountRef,
    pub system_program: AccountRef,
}

/// The accounts of `burn_cnft`; the proof path follows them and goes to
/// the tree program as it came.
#[derive(Clone, Copy, Debug)]
pub struct BurnAccs {
    pub central_authority: AccountRef,
    pub leaf_owner: AccountRef,
    pub merkle_tree: AccountRef,
    pub tree_config: AccountRef,
    pub log_wrapper: AccountRef,
    pub compression_program: AccountRef,
    pub bubblegum_program: AccountRef,
    pub system_program: AccountRef,
}

} // verus!
