//! Program-derived addresses: the seed table and the bump search.

use vstd::prelude::*;
use vstd::string::{StrSliceExecFns, StringSliceAdditionalSpecFns};
use crate::address::Address;
use crate::program_ids::{associated_token_program_id, associated_token_program_key, token_program_id, token_program_key};

verus! {

/// What `Pubkey::try_find_program_address` returns for these seeds under this
/// program id: the address and bump of the first bump, searched from 255 down,
/// whose hash is off the signing curve; `None` when no bump qualifies or the
/// seeds are out of bounds. It depends on the seeds and program id alone.
pub uninterp spec fn program_address(seeds: Seq<Seq<u8>>, program_id: Seq<u8>) -> Option<(Seq<u8>, u8)>;

/// The seeds as byte sequences.
pub open spec fn seeds_view(seeds: &Vec<Vec<u8>>) -> Seq<Seq<u8>> {
    seeds@.map_values(|s: Vec<u8>| s@)
}

/// Relies on solana_sdk's `Pubkey::try_find_program_address`, which searches the
/// bump seed from 255 down and returns `None` rather than panicking.
#[verifier::external_body]
fn try_find_program_address(seeds: &Vec<Vec<u8>>, program_id: &Address) -> (r: Option<(Address, u8)>)
    ensures
        r matches Some((a, b)) ==> program_address(seeds_view(seeds), program_id@) == Some((a@, b)),
        r is None ==> program_address(seeds_view(seeds), program_id@) is None,
{
    let slices: Vec<&[u8]> = seeds.iter().map(|s| s.as_slice()).collect();
    let id = solana_sdk::pubkey::Pubkey::new_from_array(program_id.bytes);
    solana_sdk::pubkey::Pubkey::try_find_program_address(&slices, &id)
        .map(|(key, bump)| (Address { bytes: key.to_bytes() }, bump))
}

/// The outcome `r` of a derivation agrees with `program_address`.
pub open spec fn derived_as(r: Option<(Address, u8)>, seeds: Seq<Seq<u8>>, program_id: Seq<u8>) -> bool {
    match r {
        Some((a, b)) => program_address(seeds, program_id) == Some((a@, b)),
        None => program_address(seeds, program_id) is None,
    }
}

/// Searches the bump for `seeds` under `program_id`.
pub fn find_address(seeds: &Vec<Vec<u8>>, program_id: &Address) -> (r: Option<(Address, u8)>)
    ensures
        derived_as(r, seeds_view(seeds), program_id@),
{
    try_find_program_address(seeds, program_id)
}

/// A deterministic derivation: the same seeds and program id give the same
/// address and bump on every call.
pub proof fn derivation_is_deterministic(
    seeds1: Seq<Seq<u8>>,
    seeds2: Seq<Seq<u8>>,
    program_id1: Seq<u8>,
    program_id2: Seq<u8>,
    r1: Option<(Address, u8)>,
    r2: Option<(Address, u8)>,
)
    requires
        seeds1 == seeds2,
        program_id1 == program_id2,
        derived_as(r1, seeds1, program_id1),
        derived_as(r2, seeds2, program_id2),
    ensures
        r1 == r2,
{
    if let (Some((a1, _)), Some((a2, _))) = (r1, r2) {
        assert(a1.bytes =~= a2.bytes);
    }
}

// ---- seed tags ----

/// "project"
pub open spec fn project_tag() -> Seq<u8> {
    seq![112u8, 114, 111, 106, 101, 99, 116]
}

/// "project_v2"
pub open spec fn project_v2_tag() -> Seq<u8> {
    seq![112u8, 114, 111, 106, 101, 99, 116, 95, 118, 50]
}

/// "project_authority"
pub open spec fn project_authority_tag() -> Seq<u8> {
    seq![112u8, 114, 111, 106, 101, 99, 116, 95, 97, 117, 116, 104, 111, 114, 105, 116, 121]
}

/// "referral"
pub open spec fn referral_tag() -> Seq<u8> {
    seq![114u8, 101, 102, 101, 114, 114, 97, 108]
}

/// "referral_ata"
pub open spec fn referral_ata_tag() -> Seq<u8> {
    seq![114u8, 101, 102, 101, 114, 114, 97, 108, 95, 97, 116, 97]
}

pub fn project_seed() -> (r: Vec<u8>)
    ensures
        r@ == project_tag(),
{
    let r = vec![112u8, 114, 111, 106, 101, 99, 116];
    assert(r@ =~= project_tag());
    r
}

pub fn project_v2_seed() -> (r: Vec<u8>)
    ensures
        r@ == project_v2_tag(),
{
    let r = vec![112u8, 114, 111, 106, 101, 99, 116, 95, 118, 50];
    assert(r@ =~= project_v2_tag());
    r
}

pub fn project_authority_seed() -> (r: Vec<u8>)
    ensures
        r@ == project_authority_tag(),
{
    let r = vec![112u8, 114, 111, 106, 101, 99, 116, 95, 97, 117, 116, 104, 111, 114, 105, 116, 121];
    assert(r@ =~= project_authority_tag());
    r
}

pub fn referral_seed() -> (r: Vec<u8>)
    ensures
        r@ == referral_tag(),
{
    let r = vec![114u8, 101, 102, 101, 114, 114, 97, 108];
    assert(r@ =~= referral_tag());
    r
}

pub fn referral_ata_seed() -> (r: Vec<u8>)
    ensures
        r@ == referral_ata_tag(),
{
    let r = vec![114u8, 101, 102, 101, 114, 114, 97, 108, 95, 97, 116, 97];
    assert(r@ =~= referral_ata_tag());
    r
}

/// The address's bytes as a vector.
pub fn address_bytes(a: &Address) -> (r: Vec<u8>)
    ensures
        r@ == a@,
{
    let mut r: Vec<u8> = Vec::new();
    let mut i: usize = 0;
    while i < 32
        invariant
            0 <= i <= 32,
            r@ == a@.subrange(0, i as int),
        decreases 32 - i,
    {
        r.push(a.bytes[i]);
        i = i + 1;
        assert(r@ =~= a@.subrange(0, i as int));
    }
    assert(a@.subrange(0, 32) =~= a@);
    r
}

/// Two seeds in order.
pub fn seeds2(a: Vec<u8>, b: Vec<u8>) -> (r: Vec<Vec<u8>>)
    ensures
        seeds_view(&r) == seq![a@, b@],
{
    let ghost (va, vb) = (a@, b@);
    let r = vec![a, b];
    assert(seeds_view(&r) =~= seq![va, vb]);
    r
}

/// Three seeds in order.
pub fn seeds3(a: Vec<u8>, b: Vec<u8>, c: Vec<u8>) -> (r: Vec<Vec<u8>>)
    ensures
        seeds_view(&r) == seq![a@, b@, c@],
{
    let ghost (va, vb, vc) = (a@, b@, c@);
    let r = vec![a, b, c];
    assert(seeds_view(&r) =~= seq![va, vb, vc]);
    r
}

} // verus!

verus! {

// ---- the seed table ----

pub open spec fn project_seeds(base: Seq<u8>) -> Seq<Seq<u8>> {
    seq![project_tag(), base]
}

pub open spec fn project_v2_seeds(admin: Seq<u8>) -> Seq<Seq<u8>> {
    seq![project_v2_tag(), admin]
}

pub open spec fn project_authority_seeds(project: Seq<u8>) -> Seq<Seq<u8>> {
    seq![project_authority_tag(), project]
}

/// The legacy unnamed referral account: one per project.
pub open spec fn legacy_referral_seeds(project: Seq<u8>) -> Seq<Seq<u8>> {
    seq![referral_tag(), project]
}

pub open spec fn named_referral_seeds(project: Seq<u8>, name: Seq<u8>) -> Seq<Seq<u8>> {
    seq![referral_tag(), project, name]
}

pub open spec fn referral_token_seeds(referral_account: Seq<u8>, mint: Seq<u8>) -> Seq<Seq<u8>> {
    seq![referral_ata_tag(), referral_account, mint]
}

/// The canonical token account of `wallet` for `mint`, under the associated-token program.
pub open spec fn associated_token_seeds(wallet: Seq<u8>, mint: Seq<u8>) -> Seq<Seq<u8>> {
    seq![wallet, token_program_key(), mint]
}

/// The canonical token account address of `wallet` for `mint`, where one exists.
pub open spec fn associated_token_key(wallet: Seq<u8>, mint: Seq<u8>) -> Option<Seq<u8>> {
    match program_address(associated_token_seeds(wallet, mint), associated_token_program_key()) {
        Some((a, _)) => Some(a),
        None => None,
    }
}

pub fn project_address(base: &Address, program_id: &Address) -> (r: Option<(Address, u8)>)
    ensures
        derived_as(r, project_seeds(base@), program_id@),
{
    find_address(&seeds2(project_seed(), address_bytes(base)), program_id)
}

pub fn project_v2_address(admin: &Address, program_id: &Address) -> (r: Option<(Address, u8)>)
    ensures
        derived_as(r, project_v2_seeds(admin@), program_id@),
{
    find_address(&seeds2(project_v2_seed(), address_bytes(admin)), program_id)
}

pub fn project_authority_address(project: &Address, program_id: &Address) -> (r: Option<(Address, u8)>)
    ensures
        derived_as(r, project_authority_seeds(project@), program_id@),
{
    find_address(&seeds2(project_authority_seed(), address_bytes(project)), program_id)
}

pub fn legacy_referral_address(project: &Address, program_id: &Address) -> (r: Option<(Address, u8)>)
    ensures
        derived_as(r, legacy_referral_seeds(project@), program_id@),
{
    find_address(&seeds2(referral_seed(), address_bytes(project)), program_id)
}

/// The named referral account; the name enters the seeds as its UTF-8 bytes.
pub fn named_referral_address(project: &Address, name: &str, program_id: &Address) -> (r: Option<(Address, u8)>)
    ensures
        derived_as(r, named_referral_seeds(project@, name.spec_bytes()), program_id@),
{
    let name_bytes = name.as_bytes_vec();
    find_address(&seeds3(referral_seed(), address_bytes(project), name_bytes), program_id)
}

pub fn referral_token_address(referral_account: &Address, mint: &Address, program_id: &Address) -> (r: Option<(Address, u8)>)
    ensures
        derived_as(r, referral_token_seeds(referral_account@, mint@), program_id@),
{
    find_address(&seeds3(referral_ata_seed(), address_bytes(referral_account), address_bytes(mint)), program_id)
}

/// Relies on spl_associated_token_account's `get_associated_token_address`, which
/// finds the program address of [wallet, token program, mint] under the
/// associated-token program, and panics where no bump qualifies.
#[verifier::external_body]
#[allow(deprecated)]
fn get_associated_token_address(wallet: &Address, mint: &Address) -> (r: Address)
    requires
        program_address(associated_token_seeds(wallet@, mint@), associated_token_program_key()) is Some,
    ensures
        associated_token_key(wallet@, mint@) == Some(r@),
{
    let key = spl_associated_token_account::get_associated_token_address(&wallet.bytes.into(), &mint.bytes.into());
    Address { bytes: key.to_bytes() }
}

/// The canonical token account of `wallet` for `mint`; `None` where the bump
/// search finds none.
pub fn associated_token_address(wallet: &Address, mint: &Address) -> (r: Option<Address>)
    ensures
        r matches Some(a) ==> associated_token_key(wallet@, mint@) == Some(a@),
        r is None ==> associated_token_key(wallet@, mint@) is None,
{
    let seeds = seeds3(address_bytes(wallet), address_bytes(&token_program_id()), address_bytes(mint));
    match find_address(&seeds, &associated_token_program_id()) {
        Some(_) => Some(get_associated_token_address(wallet, mint)),
        None => None,
    }
}

} // verus!
