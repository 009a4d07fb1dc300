use crate::address::Address;
use vstd::prelude::*;

verus! {

/// This program's own id.
pub open spec fn program_id() -> Seq<u8> {
    seq![246u8, 228, 232, 6, 220, 65, 164, 7, 14, 33, 29, 63, 86, 179, 48, 33,
        59, 111, 20, 68, 199, 40, 52, 33, 9, 134, 83, 21, 166, 71, 81, 1]
}

/// This program's own id.
pub fn program() -> (r: Address)
    ensures
        r@ == program_id(),
{
    let r = Address::new(
        [
            246, 228, 232, 6, 220, 65, 164, 7, 14, 33, 29, 63, 86, 179, 48, 33,
            59, 111, 20, 68, 199, 40, 52, 33, 9, 134, 83, 21, 166, 71, 81, 1,
        ],
    );
    assert(r@ =~= program_id());
    r
}

/// The compressed-NFT program.
pub open spec fn bubblegum_program_id() -> Seq<u8> {
    seq![152u8, 139, 128, 235, 121, 53, 40, 105, 178, 36, 116, 95, 89, 221, 191, 138,
        38, 88, 202, 19, 220, 104, 129, 33, 38, 53, 28, 174, 7, 193, 165, 165]
}

/// The compressed-NFT program.
pub fn bubblegum_program() -> (r: Address)
    ensures
        r@ == bubblegum_program_id(),
{
    let r = Address::new(
        [
            152, 139, 128, 235, 121, 53, 40, 105, 178, 36, 116, 95, 89, 221, 191, 138,
            38, 88, 202, 19, 220, 104, 129, 33, 38, 53, 28, 174, 7, 193, 165, 165,
        ],
    );
    assert(r@ =~= bubblegum_program_id());
    r
}

/// The token metadata program.
pub open spec fn token_metadata_program_id() -> Seq<u8> {
    seq![11u8, 112, 101, 177, 227, 209, 124, 69, 56, 157, 82, 127, 107, 4, 195, 205,
        88, 184, 108, 115, 26, 160, 253, 181, 73, 182, 209, 188, 3, 248, 41, 70]
}

/// The token metadata program.
pub fn token_metadata_program() -> (r: Address)
    ensures
        r@ == token_metadata_program_id(),
{
    let r = Address::new(
        [
            11, 112, 101, 177, 227, 209, 124, 69, 56, 157, 82, 127, 107, 4, 195, 205,
            88, 184, 108, 115, 26, 160, 253, 181, 73, 182, 209, 188, 3, 248, 41, 70,
        ],
    );
    assert(r@ =~= token_metadata_program_id());
    r
}

/// The log wrapper program that records tree changes for indexers.
pub open spec fn noop_program_id() -> Seq<u8> {
    seq![11u8, 188, 15, 192, 187, 71, 202, 47, 116, 196, 17, 46, 148, 171, 19, 207,
        163, 198, 52, 229, 220, 23, 234, 203, 3, 205, 26, 35, 205, 126, 120, 124]
}

/// The log wrapper program that records tree changes for indexers.
pub fn noop_program() -> (r: Address)
    ensures
        r@ == noop_program_id(),
{
    let r = Address::new(
        [
            11, 188, 15, 192, 187, 71, 202, 47, 116, 196, 17, 46, 148, 171, 19, 207,
            163, 198, 52, 229, 220, 23, 234, 203, 3, 205, 26, 35, 205, 126, 120, 124,
        ],
    );
    assert(r@ =~= noop_program_id());
    r
}

/// The account compression program that stores the trees.
pub open spec fn compression_program_id() -> Seq<u8> {
    seq![9u8, 42, 19, 238, 149, 196, 28, 186, 8, 166, 127, 90, 198, 126, 141, 247,
        225, 218, 17, 98, 94, 29, 100, 19, 127, 143, 79, 35, 131, 3, 127, 20]
}

/// The account compression program that stores the trees.
pub fn compression_program() -> (r: Address)
    ensures
        r@ == compression_program_id(),
{
    let r = Address::new(
        [
            9, 42, 19, 238, 149, 196, 28, 186, 8, 166, 127, 90, 198, 126, 141, 247,
            225, 218, 17, 98, 94, 29, 100, 19, 127, 143, 79, 35, 131, 3, 127, 20,
        ],
    );
    assert(r@ =~= compression_program_id());
    r
}

/// The fungible token program.
pub open spec fn token_program_id() -> Seq<u8> {
    seq![6u8, 221, 246, 225, 215, 101, 161, 147, 217, 203, 225, 70, 206, 235, 121, 172,
        28, 180, 133, 237, 95, 91, 55, 145, 58, 140, 245, 133, 126, 255, 0, 169]
}

/// The fungible token program.
pub fn token_program() -> (r: Address)
    ensures
        r@ == token_program_id(),
{
    let r = Address::new(
        [
            6, 221, 246, 225, 215, 101, 161, 147, 217, 203, 225, 70, 206, 235, 121, 172,
            28, 180, 133, 237, 95, 91, 55, 145, 58, 140, 245, 133, 126, 255, 0, 169,
        ],
    );
    assert(r@ =~= token_program_id());
    r
}

/// The associated token account program.
pub open spec fn associated_token_program_id() -> Seq<u8> {
    seq![140u8, 151, 37, 143, 78, 36, 137, 241, 187, 61, 16, 41, 20, 142, 13, 131,
        11, 90, 19, 153, 218, 255, 16, 132, 4, 142, 123, 216, 219, 233, 248, 89]
}

/// The associated token account program.
pub fn associated_token_program() -> (r: Address)
    ensures
        r@ == associated_token_program_id(),
{
    let r = Address::new(
        [
            140, 151, 37, 143, 78, 36, 137, 241, 187, 61, 16, 41, 20, 142, 13, 131,
            11, 90, 19, 153, 218, 255, 16, 132, 4, 142, 123, 216, 219, 233, 248, 89,
        ],
    );
    assert(r@ =~= associated_token_program_id());
    r
}

/// The system program.
pub open spec fn system_program_id() -> Seq<u8> {
    seq![0u8, 0, 0, 0, 0, 0, 0, 0, 0, 0, 0, 0, 0, 0, 0, 0,
        0, 0, 0, 0, 0, 0, 0, 0, 0, 0, 0, 0, 0, 0, 0, 0]
}

/// The system program.
pub fn system_program() -> (r: Address)
    ensures
        r@ == system_program_id(),
{
    let r = Address::new(
        [
            0, 0, 0, 0, 0, 0, 0, 0, 0, 0, 0, 0, 0, 0, 0, 0,
            0, 0, 0, 0, 0, 0, 0, 0, 0, 0, 0, 0, 0, 0, 0, 0,
        ],
    );
    assert(r@ =~= system_program_id());
    r
}

/// The rent sysvar.
pub open spec fn rent_sysvar_id() -> Seq<u8> {
    seq![6u8, 167, 213, 23, 25, 44, 92, 81, 33, 140, 201, 76, 61, 74, 241, 127,
        88, 218, 238, 8, 155, 161, 253, 68, 227, 219, 217, 138, 0, 0, 0, 0]
}

/// The rent sysvar.
pub fn rent_sysvar() -> (r: Address)
    ensures
        r@ == rent_sysvar_id(),
{
    let r = Address::new(
        [
            6, 167, 213, 23, 25, 44, 92, 81, 33, 140, 201, 76, 61, 74, 241, 127,
            88, 218, 238, 8, 155, 161, 253, 68, 227, 219, 217, 138, 0, 0, 0, 0,
        ],
    );
    assert(r@ =~= rent_sysvar_id());
    r
}

/// The compressed-NFT program, as an account that the instructions take.
#[derive(Clone, Copy, Debug)]
pub struct MplBubblegum;

impl MplBubblegum {
    pub fn id() -> (r: Address)
        ensures
            r@ == bubblegum_program_id(),
    {
        bubblegum_program()
    }
}

/// The token metadata program, as an account that the instructions take.
#[derive(Clone, Copy, Debug)]
pub struct MplTokenMetadata;

impl MplTokenMetadata {
    pub fn id() -> (r: Address)
        ensures
            r@ == token_metadata_program_id(),
    {
        token_metadata_program()
    }
}

/// The log wrapper program, as an account that the instructions take.
#[derive(Clone, Copy, Debug)]
pub struct Noop;

impl Noop {
    pub fn id() -> (r: Address)
        ensures
            r@ == noop_program_id(),
    {
        noop_program()
    }
}

/// The account compression program, as an account that the instructions take.
#[derive(Clone, Copy, Debug)]
pub struct SplAccountCompression;

impl SplAccountCompression {
    pub fn id() -> (r: Address)
        ensures
            r@ == compression_program_id(),
    {
        compression_program()
    }
}

} // verus!
