//! The fixed eight-byte tag that opens each instruction's data. Encoder and
//! executor must agree on these byte for byte; they are a table, not derived.

use vstd::prelude::*;

verus! {

pub open spec fn initialize_project_tag() -> Seq<u8> {
    seq![0x5du8, 0x77, 0x84, 0xc5, 0x44, 0xbf, 0x1b, 0x05]
}

pub fn initialize_project_discriminator() -> (r: Vec<u8>)
    ensures
        r@ == initialize_project_tag(),
{
    let r = vec![0x5du8, 0x77, 0x84, 0xc5, 0x44, 0xbf, 0x1b, 0x05];
    assert(r@ =~= initialize_project_tag());
    r
}

pub open spec fn initialize_referral_account_tag() -> Seq<u8> {
    seq![0x81u8, 0x8c, 0x87, 0x4a, 0xf4, 0x18, 0x12, 0xe7]
}

pub fn initialize_referral_account_discriminator() -> (r: Vec<u8>)
    ensures
        r@ == initialize_referral_account_tag(),
{
    let r = vec![0x81u8, 0x8c, 0x87, 0x4a, 0xf4, 0x18, 0x12, 0xe7];
    assert(r@ =~= initialize_referral_account_tag());
    r
}

pub open spec fn initialize_referral_account_with_name_tag() -> Seq<u8> {
    seq![0x3eu8, 0x6b, 0x1c, 0x83, 0x14, 0x5b, 0xd4, 0x79]
}

pub fn initialize_referral_account_with_name_discriminator() -> (r: Vec<u8>)
    ensures
        r@ == initialize_referral_account_with_name_tag(),
{
    let r = vec![0x3eu8, 0x6b, 0x1c, 0x83, 0x14, 0x5b, 0xd4, 0x79];
    assert(r@ =~= initialize_referral_account_with_name_tag());
    r
}

pub open spec fn initialize_referral_token_account_tag() -> Seq<u8> {
    seq![0x9eu8, 0xf0, 0xaa, 0x3a, 0xad, 0xd7, 0x0b, 0x8b]
}

pub fn initialize_referral_token_account_discriminator() -> (r: Vec<u8>)
    ensures
        r@ == initialize_referral_token_account_tag(),
{
    let r = vec![0x9eu8, 0xf0, 0xaa, 0x3a, 0xad, 0xd7, 0x0b, 0x8b];
    assert(r@ =~= initialize_referral_token_account_tag());
    r
}

pub open spec fn claim_tag() -> Seq<u8> {
    seq![0x3eu8, 0xc6, 0x3d, 0x79, 0x46, 0x6a, 0x55, 0x99]
}

pub fn claim_discriminator() -> (r: Vec<u8>)
    ensures
        r@ == claim_tag(),
{
    let r = vec![0x3eu8, 0xc6, 0x3d, 0x79, 0x46, 0x6a, 0x55, 0x99];
    assert(r@ =~= claim_tag());
    r
}

pub open spec fn claim_v2_tag() -> Seq<u8> {
    seq![0xf6u8, 0x5d, 0xb0, 0x91, 0xca, 0xd6, 0x67, 0x89]
}

pub fn claim_v2_discriminator() -> (r: Vec<u8>)
    ensures
        r@ == claim_v2_tag(),
{
    let r = vec![0xf6u8, 0x5d, 0xb0, 0x91, 0xca, 0xd6, 0x67, 0x89];
    assert(r@ =~= claim_v2_tag());
    r
}

pub open spec fn update_project_tag() -> Seq<u8> {
    seq![0x18u8, 0x5a, 0x33, 0x18, 0xf5, 0xec, 0xaf, 0x4b]
}

pub fn update_project_discriminator() -> (r: Vec<u8>)
    ensures
        r@ == update_project_tag(),
{
    let r = vec![0x18u8, 0x5a, 0x33, 0x18, 0xf5, 0xec, 0xaf, 0x4b];
    assert(r@ =~= update_project_tag());
    r
}

pub open spec fn transfer_project_tag() -> Seq<u8> {
    seq![0x7cu8, 0x6f, 0x84, 0x47, 0x1e, 0x4b, 0x30, 0x89]
}

pub fn transfer_project_discriminator() -> (r: Vec<u8>)
    ensures
        r@ == transfer_project_tag(),
{
    let r = vec![0x7cu8, 0x6f, 0x84, 0x47, 0x1e, 0x4b, 0x30, 0x89];
    assert(r@ =~= transfer_project_tag());
    r
}

pub open spec fn update_referral_account_tag() -> Seq<u8> {
    seq![0x77u8, 0xe7, 0xca, 0x82, 0x1c, 0x55, 0xa7, 0x0b]
}

pub fn update_referral_account_discriminator() -> (r: Vec<u8>)
    ensures
        r@ == update_referral_account_tag(),
{
    let r = vec![0x77u8, 0xe7, 0xca, 0x82, 0x1c, 0x55, 0xa7, 0x0b];
    assert(r@ =~= update_referral_account_tag());
    r
}

pub open spec fn withdraw_from_project_tag() -> Seq<u8> {
    seq![0xa8u8, 0x3e, 0x0a, 0x26, 0xeb, 0x0b, 0x45, 0x42]
}

pub fn withdraw_from_project_discriminator() -> (r: Vec<u8>)
    ensures
        r@ == withdraw_from_project_tag(),
{
    let r = vec![0xa8u8, 0x3e, 0x0a, 0x26, 0xeb, 0x0b, 0x45, 0x42];
    assert(r@ =~= withdraw_from_project_tag());
    r
}

pub open spec fn create_admin_token_account_tag() -> Seq<u8> {
    seq![0x48u8, 0xd4, 0x8e, 0x1c, 0x93, 0x84, 0x45, 0x1b]
}

pub fn create_admin_token_account_discriminator() -> (r: Vec<u8>)
    ensures
        r@ == create_admin_token_account_tag(),
{
    let r = vec![0x48u8, 0xd4, 0x8e, 0x1c, 0x93, 0x84, 0x45, 0x1b];
    assert(r@ =~= create_admin_token_account_tag());
    r
}

pub open spec fn transfer_referral_account_tag() -> Seq<u8> {
    seq![0x2fu8, 0x45, 0x89, 0x3b, 0x1c, 0x23, 0x7a, 0x4d]
}

pub fn transfer_referral_account_discriminator() -> (r: Vec<u8>)
    ensures
        r@ == transfer_referral_account_tag(),
{
    let r = vec![0x2fu8, 0x45, 0x89, 0x3b, 0x1c, 0x23, 0x7a, 0x4d];
    assert(r@ =~= transfer_referral_account_tag());
    r
}

pub open spec fn close_referral_token_account_tag() -> Seq<u8> {
    seq![0xa5u8, 0x1c, 0x37, 0x95, 0x2d, 0x4a, 0x6e, 0x8f]
}

pub fn close_referral_token_account_discriminator() -> (r: Vec<u8>)
    ensures
        r@ == close_referral_token_account_tag(),
{
    let r = vec![0xa5u8, 0x1c, 0x37, 0x95, 0x2d, 0x4a, 0x6e, 0x8f];
    assert(r@ =~= close_referral_token_account_tag());
    r
}

pub open spec fn close_referral_token_account_v2_tag() -> Seq<u8> {
    seq![0xc4u8, 0x8a, 0x9f, 0x23, 0x5e, 0x1b, 0x7d, 0x45]
}

pub fn close_referral_token_account_v2_discriminator() -> (r: Vec<u8>)
    ensures
        r@ == close_referral_token_account_v2_tag(),
{
    let r = vec![0xc4u8, 0x8a, 0x9f, 0x23, 0x5e, 0x1b, 0x7d, 0x45];
    assert(r@ =~= close_referral_token_account_v2_tag());
    r
}

} // verus!
