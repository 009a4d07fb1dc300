//! Collection authority for compressed NFTs: the account checks, the
//! derived signing authority and the persisted record of a program that
//! mints and burns compressed items in one managed collection.

pub mod address;
pub mod pda;
pub mod programs;
pub mod error;
pub mod state;
pub mod checks;
pub mod accounts;
pub mod instructions;
pub mod laws;
