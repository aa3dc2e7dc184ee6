//! The fixed program addresses this library refers to.

use vstd::prelude::*;
use crate::address::Address;

verus! {

/// The referral program's address, in base58.
pub const REFERRAL_PROGRAM_ID: &'static str = "9vhgK3i91cTwTHQag85zoA3PmJUTfgvgYFc9AJPRNhGn";

/// The address of the referral program (9vhgK3i91cTwTHQag85zoA3PmJUTfgvgYFc9AJPRNhGn).
pub open spec fn referral_program_key() -> Seq<u8> {
    seq![132u8, 159, 69, 214, 98, 224, 223, 166, 162, 165, 91, 97, 177, 117, 70, 71, 179, 102, 51, 108, 100, 218, 141, 227, 83, 66, 171, 93, 63, 88, 202, 123]
}

pub fn referral_program_id() -> (r: Address)
    ensures
        r@ == referral_program_key(),
{
    let r = Address::new([132, 159, 69, 214, 98, 224, 223, 166, 162, 165, 91, 97, 177, 117, 70, 71, 179, 102, 51, 108, 100, 218, 141, 227, 83, 66, 171, 93, 63, 88, 202, 123]);
    assert(r@ =~= referral_program_key());
    r
}

/// The address of the token program (TokenkegQfeZyiNwAJbNbGKPFXCWuBvf9Ss623VQ5DA).
pub open spec fn token_program_key() -> Seq<u8> {
    seq![6u8, 221, 246, 225, 215, 101, 161, 147, 217, 203, 225, 70, 206, 235, 121, 172, 28, 180, 133, 237, 95, 91, 55, 145, 58, 140, 245, 133, 126, 255, 0, 169]
}

pub fn token_program_id() -> (r: Address)
    ensures
        r@ == token_program_key(),
{
    let r = Address::new([6, 221, 246, 225, 215, 101, 161, 147, 217, 203, 225, 70, 206, 235, 121, 172, 28, 180, 133, 237, 95, 91, 55, 145, 58, 140, 245, 133, 126, 255, 0, 169]);
    assert(r@ =~= token_program_key());
    r
}

/// The address of the extended (2022) token program (TokenzQdBNbLqP5VEhdkAS6EPFLC1PHnBqCXEpPxuEb).
pub open spec fn token_2022_program_key() -> Seq<u8> {
    seq![6u8, 221, 246, 225, 238, 117, 143, 222, 24, 66, 93, 188, 228, 108, 205, 218, 182, 26, 252, 77, 131, 185, 13, 39, 254, 189, 249, 40, 216, 161, 139, 252]
}

pub fn token_2022_program_id() -> (r: Address)
    ensures
        r@ == token_2022_program_key(),
{
    let r = Address::new([6, 221, 246, 225, 238, 117, 143, 222, 24, 66, 93, 188, 228, 108, 205, 218, 182, 26, 252, 77, 131, 185, 13, 39, 254, 189, 249, 40, 216, 161, 139, 252]);
    assert(r@ =~= token_2022_program_key());
    r
}

/// The address of the associated-token-account program (ATokenGPvbdGVxr1b2hvZbsiqW5xWH25efTNsLJA8knL).
pub open spec fn associated_token_program_key() -> Seq<u8> {
    seq![140u8, 151, 37, 143, 78, 36, 137, 241, 187, 61, 16, 41, 20, 142, 13, 131, 11, 90, 19, 153, 218, 255, 16, 132, 4, 142, 123, 216, 219, 233, 248, 89]
}

pub fn associated_token_program_id() -> (r: Address)
    ensures
        r@ == associated_token_program_key(),
{
    let r = Address::new([140, 151, 37, 143, 78, 36, 137, 241, 187, 61, 16, 41, 20, 142, 13, 131, 11, 90, 19, 153, 218, 255, 16, 132, 4, 142, 123, 216, 219, 233, 248, 89]);
    assert(r@ =~= associated_token_program_key());
    r
}

} // verus!
