use vstd::prelude::*;

verus! {

/// The program's own error codes.
#[derive(Clone, Copy, Debug, PartialEq, Eq, Structural)]
pub enum MyError {
    NoSigner,
    UnsupportedTreeAccountSize,
    InvalidMerkleTree,
    InvalidCollection,
}

/// Why an instruction was refused.
#[derive(Clone, Copy, Debug, PartialEq, Eq, Structural)]
pub enum VaultError {
    /// One of the program's own checks failed.
    Program(MyError),
    /// An account that must sign did not.
    AccountNotSigner,
    /// An account that must be writable was not.
    AccountNotMutable,
    /// The authority account is not the address derived from its seed.
    ConstraintSeeds,
    /// An account is not at the address that the metadata program derives.
    ConstraintAddress,
    /// The holding account is not the authority's associated token account.
    ConstraintAssociated,
    /// An account that must be fresh does not start with a zero discriminator.
    ConstraintZero,
    /// An account that must be fresh is too short to hold a discriminator.
    AccountDiscriminatorNotFound,
    /// A program account is not the expected program.
    InvalidProgramId,
    /// The rent sysvar account is not the rent sysvar.
    AccountSysvarMismatch,
    /// The authority record already exists.
    AccountAlreadyInUse,
    /// The authority record does not exist yet.
    AccountNotInitialized,
    /// A delegated call failed, with the error code it returned.
    External(u64),
}

impl MyError {
    /// The code under which the error is reported to clients.
    pub fn code(&self) -> (r: u32)
        ensures
            r == 6000 + my_error_index(*self),
    {
        match self {
            MyError::NoSigner => 6000,
            MyError::UnsupportedTreeAccountSize => 6001,
            MyError::InvalidMerkleTree => 6002,
            MyError::InvalidCollection => 6003,
        }
    }
}

/// The position of the variant in the declaration.
pub open spec fn my_error_index(e: MyError) -> u32 {
    match e {
        MyError::NoSigner => 0,
        MyError::UnsupportedTreeAccountSize => 1,
        MyError::InvalidMerkleTree => 2,
        MyError::InvalidCollection => 3,
    }
}

} // verus!
