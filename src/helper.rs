//! Building the instructions of the referral program: parameter checks, the
//! addresses each instruction needs, its ordered account list and its data.

use vstd::prelude::*;
use vstd::string::{StrSliceExecFns, StringSliceAdditionalSpecFns};
use vstd::utf8::encode_utf8;
use crate::address::Address;
use crate::discriminator::{
    claim_discriminator, claim_tag, claim_v2_discriminator, claim_v2_tag,
    close_referral_token_account_discriminator, close_referral_token_account_tag,
    close_referral_token_account_v2_discriminator, close_referral_token_account_v2_tag,
    create_admin_token_account_discriminator, create_admin_token_account_tag,
    initialize_project_discriminator, initialize_project_tag,
    initialize_referral_account_discriminator, initialize_referral_account_tag,
    initialize_referral_account_with_name_discriminator, initialize_referral_account_with_name_tag,
    initialize_referral_token_account_discriminator, initialize_referral_token_account_tag,
    transfer_project_discriminator, transfer_project_tag, transfer_referral_account_discriminator,
    transfer_referral_account_tag, update_project_discriminator, update_project_tag,
    update_referral_account_discriminator, update_referral_account_tag,
    withdraw_from_project_discriminator, withdraw_from_project_tag,
};
use crate::instruction::{
    le_bytes, metas, optional_bytes, push_le, push_string, string_bytes, AccountMeta, Instruction,
};
use crate::pda::{
    associated_token_address, associated_token_key, legacy_referral_address, legacy_referral_seeds,
    named_referral_address, named_referral_seeds, program_address, project_address,
    project_authority_address, project_authority_seeds, project_seeds, referral_token_address,
    referral_token_seeds,
};
use crate::program::{is_accepted_token_program, is_token_program};
use crate::program_ids::associated_token_program_id;
use crate::program_ids::associated_token_program_key;

verus! {

/// Why an instruction could not be built.
#[derive(Clone, Copy, Debug, PartialEq, Eq, Structural)]
pub enum HelperError {
    InvalidPubkey,
    InvalidTokenProgram,
    PdaDerivationFailed,
    NameTooLong,
    InvalidShareBps,
}

impl HelperError {
    /// A short description of the error.
    pub fn message(&self) -> (r: &'static str)
        ensures
            *self == HelperError::InvalidPubkey ==> r@ == "Invalid pubkey provided"@,
            *self == HelperError::InvalidTokenProgram ==> r@ == "Invalid token program"@,
            *self == HelperError::PdaDerivationFailed ==> r@ == "Failed to derive PDA"@,
            *self == HelperError::NameTooLong ==> r@ == "Name too long"@,
            *self == HelperError::InvalidShareBps ==> r@ == "Invalid share basis points"@,
    {
        match self {
            HelperError::InvalidPubkey => "Invalid pubkey provided",
            HelperError::InvalidTokenProgram => "Invalid token program",
            HelperError::PdaDerivationFailed => "Failed to derive PDA",
            HelperError::NameTooLong => "Name too long",
            HelperError::InvalidShareBps => "Invalid share basis points",
        }
    }
}

pub type HelperResult<T> = Result<T, HelperError>;

/// Longest project name, in characters, plus one.
pub const PROJECT_NAME_LIMIT: usize = 50;

/// Longest referral name, in characters, plus one.
pub const REFERRAL_NAME_LIMIT: usize = 20;

/// Largest share, in basis points.
pub const MAX_SHARE_BPS: u16 = 10_000;

#[derive(Clone, Debug)]
pub struct InitializeProjectParams {
    pub name: String,
    pub default_share_bps: u16,
}

#[derive(Clone, Copy, Debug)]
pub struct InitializeReferralAccountParams {
    pub project_pubkey: Address,
    pub partner_pubkey: Address,
    pub payer_pubkey: Address,
    pub referral_account_pubkey: Address,
}

#[derive(Clone, Debug)]
pub struct InitializeReferralAccountWithNameParams {
    pub project_pubkey: Address,
    pub partner_pubkey: Address,
    pub payer_pubkey: Address,
    pub name: String,
}

#[derive(Clone, Copy, Debug)]
pub struct InitializeReferralTokenAccountParams {
    pub payer_pubkey: Address,
    pub project_pubkey: Address,
    pub referral_account_pubkey: Address,
    pub mint_pubkey: Address,
    pub token_program_id: Address,
}

#[derive(Clone, Copy, Debug)]
pub struct ClaimParams {
    pub payer_pubkey: Address,
    pub project_pubkey: Address,
    pub admin_pubkey: Address,
    pub referral_account_pubkey: Address,
    pub partner_pubkey: Address,
    pub mint_pubkey: Address,
    pub token_program_id: Address,
}

#[derive(Clone, Copy, Debug)]
pub struct ClaimV2Params {
    pub payer_pubkey: Address,
    pub project_pubkey: Address,
    pub admin_pubkey: Address,
    pub referral_account_pubkey: Address,
    pub partner_pubkey: Address,
    pub mint_pubkey: Address,
    pub token_program_id: Address,
}

#[derive(Clone, Debug)]
pub struct UpdateProjectParams {
    pub admin_pubkey: Address,
    pub project_pubkey: Address,
    pub new_name: Option<String>,
    pub new_default_share_bps: Option<u16>,
}

#[derive(Clone, Copy, Debug)]
pub struct TransferProjectParams {
    pub admin_pubkey: Address,
    pub project_pubkey: Address,
    pub new_admin_pubkey: Address,
}

#[derive(Clone, Copy, Debug)]
pub struct UpdateReferralAccountParams {
    pub admin_pubkey: Address,
    pub project_pubkey: Address,
    pub referral_account_pubkey: Address,
    pub new_share_bps: Option<u16>,
}

#[derive(Clone, Copy, Debug)]
pub struct WithdrawFromProjectParams {
    pub admin_pubkey: Address,
    pub project_pubkey: Address,
    pub mint_pubkey: Address,
    pub amount: u64,
    pub token_program_id: Address,
}

#[derive(Clone, Copy, Debug)]
pub struct CreateAdminTokenAccountParams {
    pub payer_pubkey: Address,
    pub project_pubkey: Address,
    pub admin_pubkey: Address,
    pub mint_pubkey: Address,
    pub token_program_id: Address,
}

#[derive(Clone, Copy, Debug)]
pub struct TransferReferralAccountParams {
    pub partner_pubkey: Address,
    pub referral_account_pubkey: Address,
    pub new_partner_pubkey: Address,
}

#[derive(Clone, Copy, Debug)]
pub struct CloseReferralTokenAccountParams {
    pub admin_pubkey: Address,
    pub project_pubkey: Address,
    pub referral_account_pubkey: Address,
    pub mint_pubkey: Address,
    pub token_program_id: Address,
}

#[derive(Clone, Copy, Debug)]
pub struct CloseReferralTokenAccountV2Params {
    pub admin_pubkey: Address,
    pub project_pubkey: Address,
    pub referral_account_pubkey: Address,
    pub mint_pubkey: Address,
    pub token_program_id: Address,
}

/// The system program's address: all zeros.
pub open spec fn system_program_key() -> Seq<u8> {
    Seq::new(32, |i: int| 0u8)
}

/// The address derived from `seeds`, where there is one.
pub open spec fn derived_key(seeds: Seq<Seq<u8>>, program_id: Seq<u8>) -> Seq<u8> {
    match program_address(seeds, program_id) {
        Some((a, _)) => a,
        None => Seq::empty(),
    }
}

pub open spec fn derivable(seeds: Seq<Seq<u8>>, program_id: Seq<u8>) -> bool {
    program_address(seeds, program_id) is Some
}

/// The canonical token account of `wallet` for `mint`, where there is one.
pub open spec fn ata_key(wallet: Seq<u8>, mint: Seq<u8>) -> Seq<u8> {
    match associated_token_key(wallet, mint) {
        Some(a) => a,
        None => Seq::empty(),
    }
}

/// A derivation's outcome, as these builders report it.
pub open spec fn derivation_result(
    r: HelperResult<(Address, u8)>,
    seeds: Seq<Seq<u8>>,
    program_id: Seq<u8>,
) -> bool {
    match r {
        Ok((a, b)) => program_address(seeds, program_id) == Some((a@, b)),
        Err(e) => e == HelperError::PdaDerivationFailed && program_address(seeds, program_id) is None,
    }
}

/// Deriving twice from the same seeds and program id gives the same outcome:
/// the same address and bump, or the same failure.
pub proof fn derivation_results_agree(
    seeds: Seq<Seq<u8>>,
    program_id: Seq<u8>,
    r1: HelperResult<(Address, u8)>,
    r2: HelperResult<(Address, u8)>,
)
    requires
        derivation_result(r1, seeds, program_id),
        derivation_result(r2, seeds, program_id),
    ensures
        r1 == r2,
{
    if let (Ok((a1, _)), Ok((a2, _))) = (r1, r2) {
        assert(a1.bytes =~= a2.bytes);
    }
}

fn derived(d: Option<(Address, u8)>) -> (r: HelperResult<(Address, u8)>)
    ensures
        d matches Some(p) ==> r == Ok::<(Address, u8), HelperError>(p),
        d is None ==> r == Err::<(Address, u8), HelperError>(HelperError::PdaDerivationFailed),
{
    match d {
        Some(p) => Ok(p),
        None => Err(HelperError::PdaDerivationFailed),
    }
}

/// The project address: ["project", base].
pub fn derive_project_pda(base_pubkey: &Address, program_id: &Address) -> (r: HelperResult<(Address, u8)>)
    ensures
        derivation_result(r, project_seeds(base_pubkey@), program_id@),
{
    derived(project_address(base_pubkey, program_id))
}

/// The project authority address: ["project_authority", project].
pub fn derive_project_authority_pda(project_pubkey: &Address, program_id: &Address) -> (r: HelperResult<(Address, u8)>)
    ensures
        derivation_result(r, project_authority_seeds(project_pubkey@), program_id@),
{
    derived(project_authority_address(project_pubkey, program_id))
}

/// The legacy unnamed referral account: ["referral", project]. It binds to the
/// project alone, so a project has at most one.
pub fn derive_referral_account_pda(project_pubkey: &Address, program_id: &Address) -> (r: HelperResult<(Address, u8)>)
    ensures
        derivation_result(r, legacy_referral_seeds(project_pubkey@), program_id@),
{
    derived(legacy_referral_address(project_pubkey, program_id))
}

/// The named referral account: ["referral", project, name]. A name of 20
/// characters or more is refused.
pub fn derive_referral_account_with_name_pda(
    project_pubkey: &Address,
    name: &str,
    program_id: &Address,
) -> (r: HelperResult<(Address, u8)>)
    ensures
        name@.len() >= 20 ==> r == Err::<(Address, u8), HelperError>(HelperError::NameTooLong),
        name@.len() < 20 ==> derivation_result(r, named_referral_seeds(project_pubkey@, name.spec_bytes()), program_id@),
{
    if name.unicode_len() >= REFERRAL_NAME_LIMIT {
        return Err(HelperError::NameTooLong);
    }
    derived(named_referral_address(project_pubkey, name, program_id))
}

/// The referral token account of the first scheme: ["referral_ata", referral account, mint].
pub fn derive_referral_token_account_pda(
    referral_account_pubkey: &Address,
    mint_pubkey: &Address,
    program_id: &Address,
) -> (r: HelperResult<(Address, u8)>)
    ensures
        derivation_result(r, referral_token_seeds(referral_account_pubkey@, mint_pubkey@), program_id@),
{
    derived(referral_token_address(referral_account_pubkey, mint_pubkey, program_id))
}

/// Accepts the token program and the extended (2022) token program only.
pub fn validate_token_program(token_program_id: &Address) -> (r: HelperResult<()>)
    ensures
        is_token_program(token_program_id@) ==> r is Ok,
        !is_token_program(token_program_id@) ==> r == Err::<(), HelperError>(HelperError::InvalidTokenProgram),
{
    if !is_accepted_token_program(token_program_id) {
        return Err(HelperError::InvalidTokenProgram);
    }
    Ok(())
}

fn system_program() -> (r: Address)
    ensures
        r@ == system_program_key(),
{
    Address::zero()
}

fn canonical_token_account(wallet: &Address, mint: &Address) -> (r: HelperResult<Address>)
    ensures
        associated_token_key(wallet@, mint@) is Some ==> (r matches Ok(a) && a@ == ata_key(wallet@, mint@)),
        associated_token_key(wallet@, mint@) is None
            ==> r == Err::<Address, HelperError>(HelperError::PdaDerivationFailed),
{
    match associated_token_address(wallet, mint) {
        Some(a) => Ok(a),
        None => Err(HelperError::PdaDerivationFailed),
    }
}

} // verus!

verus! {

/// A name is given and has at least `limit` characters.
pub open spec fn name_at_least(name: Option<String>, limit: nat) -> bool {
    match name {
        Some(n) => n@.len() >= limit,
        None => false,
    }
}

/// A share is given and exceeds `limit`.
pub open spec fn share_above(share_bps: Option<u16>, limit: nat) -> bool {
    match share_bps {
        Some(s) => s > limit,
        None => false,
    }
}

/// Data of update_project: a presence byte and the name string, then a
/// presence byte and the share as two little-endian bytes.
pub open spec fn update_project_data(name: Option<Seq<char>>, share_bps: Option<u16>) -> Seq<u8> {
    update_project_tag() + optional_bytes(match name {
        Some(n) => Some(string_bytes(encode_utf8(n))),
        None => None,
    }) + optional_bytes(match share_bps {
        Some(s) => Some(le_bytes(s as nat, 2)),
        None => None,
    })
}

/// An update of a project's name and/or default share. A name of 50 characters
/// or more, or a share above 10000, is refused (the name is checked first).
pub fn create_update_project_instruction(
    params: UpdateProjectParams,
    program_id: Address,
) -> (r: HelperResult<Instruction>)
    ensures
        name_at_least(params.new_name, 50) ==> r == Err::<Instruction, HelperError>(HelperError::NameTooLong),
        !name_at_least(params.new_name, 50) && share_above(params.new_default_share_bps, 10000)
            ==> r == Err::<Instruction, HelperError>(HelperError::InvalidShareBps),
        !name_at_least(params.new_name, 50) && !share_above(params.new_default_share_bps, 10000)
            ==> (r matches Ok(ix) && ix.program_id == program_id
                && ix.data@ == update_project_data(
                    match params.new_name {
                        Some(n) => Some(n@),
                        None => None,
                    },
                    params.new_default_share_bps,
                )
                && metas(ix.accounts@) == seq![
                    (params.admin_pubkey@, true, false),
                    (params.project_pubkey@, false, true),
                ]),
{
    if let Some(name) = &params.new_name {
        if name.as_str().unicode_len() >= PROJECT_NAME_LIMIT {
            return Err(HelperError::NameTooLong);
        }
    }
    if let Some(share_bps) = params.new_default_share_bps {
        if share_bps > MAX_SHARE_BPS {
            return Err(HelperError::InvalidShareBps);
        }
    }
    let mut data = update_project_discriminator();
    let ghost tag = data@;
    match &params.new_name {
        Some(name) => {
            data.push(1u8);
            push_string(&mut data, name.as_str());
            assert(data@ =~= tag + optional_bytes(Some(string_bytes(encode_utf8(name@)))));
        },
        None => {
            data.push(0u8);
            assert(data@ =~= tag + optional_bytes(None));
        },
    }
    let ghost mid = data@;
    match params.new_default_share_bps {
        Some(share_bps) => {
            data.push(1u8);
            push_le(&mut data, share_bps as u64, 2);
            assert(data@ =~= mid + optional_bytes(Some(le_bytes(share_bps as nat, 2))));
        },
        None => {
            data.push(0u8);
            assert(data@ =~= mid + optional_bytes(None));
        },
    }
    let accounts = vec![
        AccountMeta::new_readonly(params.admin_pubkey, true),
        AccountMeta::new(params.project_pubkey, false),
    ];
    assert(metas(accounts@) =~= seq![
        (params.admin_pubkey@, true, false),
        (params.project_pubkey@, false, true),
    ]);
    Ok(Instruction { program_id, accounts, data })
}

/// Data of initialize_project: the name string, then the default share as two
/// little-endian bytes.
pub open spec fn initialize_project_data(name: Seq<char>, default_share_bps: u16) -> Seq<u8> {
    initialize_project_tag() + string_bytes(encode_utf8(name)) + le_bytes(default_share_bps as nat, 2)
}

/// Creation of a project at ["project", base]. A share above 10000 is refused,
/// then a name of 50 characters or more, then a failed derivation.
pub fn create_initialize_project_instruction(
    base_pubkey: Address,
    admin_pubkey: Address,
    payer_pubkey: Address,
    params: InitializeProjectParams,
    program_id: Address,
) -> (r: HelperResult<Instruction>)
    ensures
        params.default_share_bps > 10000 ==> r == Err::<Instruction, HelperError>(HelperError::InvalidShareBps),
        params.default_share_bps <= 10000 && params.name@.len() >= 50
            ==> r == Err::<Instruction, HelperError>(HelperError::NameTooLong),
        params.default_share_bps <= 10000 && params.name@.len() < 50
            && !derivable(project_seeds(base_pubkey@), program_id@)
            ==> r == Err::<Instruction, HelperError>(HelperError::PdaDerivationFailed),
        params.default_share_bps <= 10000 && params.name@.len() < 50
            && derivable(project_seeds(base_pubkey@), program_id@)
            ==> (r matches Ok(ix) && ix.program_id == program_id
                && ix.data@ == initialize_project_data(params.name@, params.default_share_bps)
                && metas(ix.accounts@) == seq![
                    (payer_pubkey@, true, true),
                    (base_pubkey@, true, false),
                    (admin_pubkey@, false, false),
                    (derived_key(project_seeds(base_pubkey@), program_id@), false, true),
                    (system_program_key(), false, false),
                ]),
{
    if params.default_share_bps > MAX_SHARE_BPS {
        return Err(HelperError::InvalidShareBps);
    }
    if params.name.as_str().unicode_len() >= PROJECT_NAME_LIMIT {
        return Err(HelperError::NameTooLong);
    }
    let (project_pubkey, _) = match derive_project_pda(&base_pubkey, &program_id) {
        Ok(p) => p,
        Err(e) => return Err(e),
    };
    let mut data = initialize_project_discriminator();
    push_string(&mut data, params.name.as_str());
    push_le(&mut data, params.default_share_bps as u64, 2);
    let accounts = vec![
        AccountMeta::new(payer_pubkey, true),
        AccountMeta::new_readonly(base_pubkey, true),
        AccountMeta::new_readonly(admin_pubkey, false),
        AccountMeta::new(project_pubkey, false),
        AccountMeta::new_readonly(system_program(), false),
    ];
    assert(metas(accounts@) =~= seq![
        (payer_pubkey@, true, true),
        (base_pubkey@, true, false),
        (admin_pubkey@, false, false),
        (derived_key(project_seeds(base_pubkey@), program_id@), false, true),
        (system_program_key(), false, false),
    ]);
    Ok(Instruction { program_id, accounts, data })
}

/// The nine accounts that both claim layouts open with.
pub open spec fn claim_accounts(
    payer: Seq<u8>,
    project: Seq<u8>,
    admin: Seq<u8>,
    admin_token_account: Seq<u8>,
    referral_account: Seq<u8>,
    referral_token_account: Seq<u8>,
    partner: Seq<u8>,
    partner_token_account: Seq<u8>,
    mint: Seq<u8>,
) -> Seq<(Seq<u8>, bool, bool)> {
    seq![
        (payer, true, true),
        (project, false, false),
        (admin, false, false),
        (admin_token_account, false, true),
        (referral_account, false, false),
        (referral_token_account, false, true),
        (partner, false, false),
        (partner_token_account, false, true),
        (mint, false, false),
    ]
}

/// The programs that close the first claim layout: associated-token, system,
/// token, in the executor's order.
pub open spec fn claim_programs(token_program: Seq<u8>) -> Seq<(Seq<u8>, bool, bool)> {
    seq![
        (associated_token_program_key(), false, false),
        (system_program_key(), false, false),
        (token_program, false, false),
    ]
}

/// The programs that close the second claim layout: system, token,
/// associated-token, in the executor's order.
pub open spec fn claim_v2_programs(token_program: Seq<u8>) -> Seq<(Seq<u8>, bool, bool)> {
    seq![
        (system_program_key(), false, false),
        (token_program, false, false),
        (associated_token_program_key(), false, false),
    ]
}

/// A claim under the first scheme: the referral token account is
/// ["referral_ata", referral account, mint]; the partner's and admin's token
/// accounts are their canonical ones for the mint.
pub fn create_claim_instruction(params: ClaimParams, program_id: Address) -> (r: HelperResult<Instruction>)
    ensures
        !is_token_program(params.token_program_id@)
            ==> r == Err::<Instruction, HelperError>(HelperError::InvalidTokenProgram),
        is_token_program(params.token_program_id@) && (
            !derivable(referral_token_seeds(params.referral_account_pubkey@, params.mint_pubkey@), program_id@)
            || associated_token_key(params.partner_pubkey@, params.mint_pubkey@) is None
            || associated_token_key(params.admin_pubkey@, params.mint_pubkey@) is None)
            ==> r == Err::<Instruction, HelperError>(HelperError::PdaDerivationFailed),
        is_token_program(params.token_program_id@)
            && derivable(referral_token_seeds(params.referral_account_pubkey@, params.mint_pubkey@), program_id@)
            && associated_token_key(params.partner_pubkey@, params.mint_pubkey@) is Some
            && associated_token_key(params.admin_pubkey@, params.mint_pubkey@) is Some
            ==> (r matches Ok(ix) && ix.program_id == program_id && ix.data@ == claim_tag()
                && metas(ix.accounts@) == claim_accounts(
                    params.payer_pubkey@,
                    params.project_pubkey@,
                    params.admin_pubkey@,
                    ata_key(params.admin_pubkey@, params.mint_pubkey@),
                    params.referral_account_pubkey@,
                    derived_key(referral_token_seeds(params.referral_account_pubkey@, params.mint_pubkey@), program_id@),
                    params.partner_pubkey@,
                    ata_key(params.partner_pubkey@, params.mint_pubkey@),
                    params.mint_pubkey@,
                ) + claim_programs(params.token_program_id@)),
{
    if let Err(e) = validate_token_program(&params.token_program_id) {
        return Err(e);
    }
    let (referral_token_account, _) = match derive_referral_token_account_pda(
        &params.referral_account_pubkey,
        &params.mint_pubkey,
        &program_id,
    ) {
        Ok(p) => p,
        Err(e) => return Err(e),
    };
    let partner_token_account = match canonical_token_account(&params.partner_pubkey, &params.mint_pubkey) {
        Ok(a) => a,
        Err(e) => return Err(e),
    };
    let admin_token_account = match canonical_token_account(&params.admin_pubkey, &params.mint_pubkey) {
        Ok(a) => a,
        Err(e) => return Err(e),
    };
    let accounts = vec![
        AccountMeta::new(params.payer_pubkey, true),
        AccountMeta::new_readonly(params.project_pubkey, false),
        AccountMeta::new_readonly(params.admin_pubkey, false),
        AccountMeta::new(admin_token_account, false),
        AccountMeta::new_readonly(params.referral_account_pubkey, false),
        AccountMeta::new(referral_token_account, false),
        AccountMeta::new_readonly(params.partner_pubkey, false),
        AccountMeta::new(partner_token_account, false),
        AccountMeta::new_readonly(params.mint_pubkey, false),
        AccountMeta::new_readonly(associated_token_program_id(), false),
        AccountMeta::new_readonly(system_program(), false),
        AccountMeta::new_readonly(params.token_program_id, false),
    ];
    assert(metas(accounts@) =~= claim_accounts(
        params.payer_pubkey@,
        params.project_pubkey@,
        params.admin_pubkey@,
        admin_token_account@,
        params.referral_account_pubkey@,
        referral_token_account@,
        params.partner_pubkey@,
        partner_token_account@,
        params.mint_pubkey@,
    ) + claim_programs(params.token_program_id@));
    Ok(Instruction { program_id, accounts, data: claim_discriminator() })
}

/// A claim under the second scheme: the referral token account is the
/// referral account's canonical token account.
pub fn create_claim_v2_instruction(params: ClaimV2Params, program_id: Address) -> (r: HelperResult<Instruction>)
    ensures
        !is_token_program(params.token_program_id@)
            ==> r == Err::<Instruction, HelperError>(HelperError::InvalidTokenProgram),
        is_token_program(params.token_program_id@) && (
            associated_token_key(params.referral_account_pubkey@, params.mint_pubkey@) is None
            || associated_token_key(params.partner_pubkey@, params.mint_pubkey@) is None
            || associated_token_key(params.admin_pubkey@, params.mint_pubkey@) is None)
            ==> r == Err::<Instruction, HelperError>(HelperError::PdaDerivationFailed),
        is_token_program(params.token_program_id@)
            && associated_token_key(params.referral_account_pubkey@, params.mint_pubkey@) is Some
            && associated_token_key(params.partner_pubkey@, params.mint_pubkey@) is Some
            && associated_token_key(params.admin_pubkey@, params.mint_pubkey@) is Some
            ==> (r matches Ok(ix) && ix.program_id == program_id && ix.data@ == claim_v2_tag()
                && metas(ix.accounts@) == claim_accounts(
                    params.payer_pubkey@,
                    params.project_pubkey@,
                    params.admin_pubkey@,
                    ata_key(params.admin_pubkey@, params.mint_pubkey@),
                    params.referral_account_pubkey@,
                    ata_key(params.referral_account_pubkey@, params.mint_pubkey@),
                    params.partner_pubkey@,
                    ata_key(params.partner_pubkey@, params.mint_pubkey@),
                    params.mint_pubkey@,
                ) + claim_v2_programs(params.token_program_id@)),
{
    if let Err(e) = validate_token_program(&params.token_program_id) {
        return Err(e);
    }
    let referral_token_account = match canonical_token_account(&params.referral_account_pubkey, &params.mint_pubkey) {
        Ok(a) => a,
        Err(e) => return Err(e),
    };
    let partner_token_account = match canonical_token_account(&params.partner_pubkey, &params.mint_pubkey) {
        Ok(a) => a,
        Err(e) => return Err(e),
    };
    let admin_token_account = match canonical_token_account(&params.admin_pubkey, &params.mint_pubkey) {
        Ok(a) => a,
        Err(e) => return Err(e),
    };
    let accounts = vec![
        AccountMeta::new(params.payer_pubkey, true),
        AccountMeta::new_readonly(params.project_pubkey, false),
        AccountMeta::new_readonly(params.admin_pubkey, false),
        AccountMeta::new(admin_token_account, false),
        AccountMeta::new_readonly(params.referral_account_pubkey, false),
        AccountMeta::new(referral_token_account, false),
        AccountMeta::new_readonly(params.partner_pubkey, false),
        AccountMeta::new(partner_token_account, false),
        AccountMeta::new_readonly(params.mint_pubkey, false),
        AccountMeta::new_readonly(system_program(), false),
        AccountMeta::new_readonly(params.token_program_id, false),
        AccountMeta::new_readonly(associated_token_program_id(), false),
    ];
    assert(metas(accounts@) =~= claim_accounts(
        params.payer_pubkey@,
        params.project_pubkey@,
        params.admin_pubkey@,
        admin_token_account@,
        params.referral_account_pubkey@,
        referral_token_account@,
        params.partner_pubkey@,
        partner_token_account@,
        params.mint_pubkey@,
    ) + claim_v2_programs(params.token_program_id@));
    Ok(Instruction { program_id, accounts, data: claim_v2_discriminator() })
}

} // verus!

verus! {

/// Creation of a legacy referral account at an address the caller chose; the
/// data is the tag alone.
pub fn create_initialize_referral_account_instruction(
    params: InitializeReferralAccountParams,
    program_id: Address,
) -> (r: HelperResult<Instruction>)
    ensures
        r matches Ok(ix) && ix.program_id == program_id && ix.data@ == initialize_referral_account_tag()
            && metas(ix.accounts@) == seq![
                (params.payer_pubkey@, true, true),
                (params.partner_pubkey@, false, false),
                (params.project_pubkey@, false, false),
                (params.referral_account_pubkey@, false, true),
                (system_program_key(), false, false),
            ],
{
    let accounts = vec![
        AccountMeta::new(params.payer_pubkey, true),
        AccountMeta::new_readonly(params.partner_pubkey, false),
        AccountMeta::new_readonly(params.project_pubkey, false),
        AccountMeta::new(params.referral_account_pubkey, false),
        AccountMeta::new_readonly(system_program(), false),
    ];
    assert(metas(accounts@) =~= seq![
        (params.payer_pubkey@, true, true),
        (params.partner_pubkey@, false, false),
        (params.project_pubkey@, false, false),
        (params.referral_account_pubkey@, false, true),
        (system_program_key(), false, false),
    ]);
    Ok(Instruction { program_id, accounts, data: initialize_referral_account_discriminator() })
}

/// Creation of a named referral account at ["referral", project, name]. A name
/// of 20 characters or more is refused, then a failed derivation.
pub fn create_initialize_referral_account_with_name_instruction(
    params: InitializeReferralAccountWithNameParams,
    program_id: Address,
) -> (r: HelperResult<Instruction>)
    ensures
        params.name@.len() >= 20 ==> r == Err::<Instruction, HelperError>(HelperError::NameTooLong),
        params.name@.len() < 20
            && !derivable(named_referral_seeds(params.project_pubkey@, encode_utf8(params.name@)), program_id@)
            ==> r == Err::<Instruction, HelperError>(HelperError::PdaDerivationFailed),
        params.name@.len() < 20
            && derivable(named_referral_seeds(params.project_pubkey@, encode_utf8(params.name@)), program_id@)
            ==> (r matches Ok(ix) && ix.program_id == program_id
                && ix.data@ == initialize_referral_account_with_name_tag() + string_bytes(encode_utf8(params.name@))
                && metas(ix.accounts@) == seq![
                    (params.payer_pubkey@, true, true),
                    (params.partner_pubkey@, false, false),
                    (params.project_pubkey@, false, false),
                    (derived_key(named_referral_seeds(params.project_pubkey@, encode_utf8(params.name@)), program_id@), false, true),
                    (system_program_key(), false, false),
                ]),
{
    if params.name.as_str().unicode_len() >= REFERRAL_NAME_LIMIT {
        return Err(HelperError::NameTooLong);
    }
    let (referral_account_pubkey, _) = match derive_referral_account_with_name_pda(
        &params.project_pubkey,
        params.name.as_str(),
        &program_id,
    ) {
        Ok(p) => p,
        Err(e) => return Err(e),
    };
    let mut data = initialize_referral_account_with_name_discriminator();
    push_string(&mut data, params.name.as_str());
    let accounts = vec![
        AccountMeta::new(params.payer_pubkey, true),
        AccountMeta::new_readonly(params.partner_pubkey, false),
        AccountMeta::new_readonly(params.project_pubkey, false),
        AccountMeta::new(referral_account_pubkey, false),
        AccountMeta::new_readonly(system_program(), false),
    ];
    assert(metas(accounts@) =~= seq![
        (params.payer_pubkey@, true, true),
        (params.partner_pubkey@, false, false),
        (params.project_pubkey@, false, false),
        (referral_account_pubkey@, false, true),
        (system_program_key(), false, false),
    ]);
    Ok(Instruction { program_id, accounts, data })
}

/// Creation of a first-scheme referral token account at
/// ["referral_ata", referral account, mint].
pub fn create_initialize_referral_token_account_instruction(
    params: InitializeReferralTokenAccountParams,
    program_id: Address,
) -> (r: HelperResult<Instruction>)
    ensures
        !is_token_program(params.token_program_id@)
            ==> r == Err::<Instruction, HelperError>(HelperError::InvalidTokenProgram),
        is_token_program(params.token_program_id@)
            && !derivable(referral_token_seeds(params.referral_account_pubkey@, params.mint_pubkey@), program_id@)
            ==> r == Err::<Instruction, HelperError>(HelperError::PdaDerivationFailed),
        is_token_program(params.token_program_id@)
            && derivable(referral_token_seeds(params.referral_account_pubkey@, params.mint_pubkey@), program_id@)
            ==> (r matches Ok(ix) && ix.program_id == program_id
                && ix.data@ == initialize_referral_token_account_tag()
                && metas(ix.accounts@) == seq![
                    (params.payer_pubkey@, true, true),
                    (params.project_pubkey@, false, false),
                    (params.referral_account_pubkey@, false, false),
                    (derived_key(referral_token_seeds(params.referral_account_pubkey@, params.mint_pubkey@), program_id@), false, true),
                    (params.mint_pubkey@, false, false),
                    (system_program_key(), false, false),
                    (params.token_program_id@, false, false),
                ]),
{
    if let Err(e) = validate_token_program(&params.token_program_id) {
        return Err(e);
    }
    let (referral_token_account, _) = match derive_referral_token_account_pda(
        &params.referral_account_pubkey,
        &params.mint_pubkey,
        &program_id,
    ) {
        Ok(p) => p,
        Err(e) => return Err(e),
    };
    let accounts = vec![
        AccountMeta::new(params.payer_pubkey, true),
        AccountMeta::new_readonly(params.project_pubkey, false),
        AccountMeta::new_readonly(params.referral_account_pubkey, false),
        AccountMeta::new(referral_token_account, false),
        AccountMeta::new_readonly(params.mint_pubkey, false),
        AccountMeta::new_readonly(system_program(), false),
        AccountMeta::new_readonly(params.token_program_id, false),
    ];
    assert(metas(accounts@) =~= seq![
        (params.payer_pubkey@, true, true),
        (params.project_pubkey@, false, false),
        (params.referral_account_pubkey@, false, false),
        (referral_token_account@, false, true),
        (params.mint_pubkey@, false, false),
        (system_program_key(), false, false),
        (params.token_program_id@, false, false),
    ]);
    Ok(Instruction { program_id, accounts, data: initialize_referral_token_account_discriminator() })
}

/// A change of a project's admin; the data is the tag alone.
pub fn create_transfer_project_instruction(
    params: TransferProjectParams,
    program_id: Address,
) -> (r: HelperResult<Instruction>)
    ensures
        r matches Ok(ix) && ix.program_id == program_id && ix.data@ == transfer_project_tag()
            && metas(ix.accounts@) == seq![
                (params.admin_pubkey@, true, false),
                (params.new_admin_pubkey@, false, false),
                (params.project_pubkey@, false, true),
            ],
{
    let accounts = vec![
        AccountMeta::new_readonly(params.admin_pubkey, true),
        AccountMeta::new_readonly(params.new_admin_pubkey, false),
        AccountMeta::new(params.project_pubkey, false),
    ];
    assert(metas(accounts@) =~= seq![
        (params.admin_pubkey@, true, false),
        (params.new_admin_pubkey@, false, false),
        (params.project_pubkey@, false, true),
    ]);
    Ok(Instruction { program_id, accounts, data: transfer_project_discriminator() })
}

/// Data of update_referral_account: a presence byte, then the share as two
/// little-endian bytes if given.
pub open spec fn update_referral_account_data(share_bps: u16) -> Seq<u8> {
    update_referral_account_tag() + le_bytes(share_bps as nat, 2)
}

/// A share is missing or exceeds `limit`.
pub open spec fn share_missing_or_above(share_bps: Option<u16>, limit: nat) -> bool {
    match share_bps {
        Some(s) => s > limit,
        None => true,
    }
}

/// A change of a referral account's share. The executor reads the share as a
/// plain two-byte value, so one must be given; a missing share or one above
/// 10000 is refused.
pub fn create_update_referral_account_instruction(
    params: UpdateReferralAccountParams,
    program_id: Address,
) -> (r: HelperResult<Instruction>)
    ensures
        share_missing_or_above(params.new_share_bps, 10000)
            ==> r == Err::<Instruction, HelperError>(HelperError::InvalidShareBps),
        !share_missing_or_above(params.new_share_bps, 10000)
            ==> (r matches Ok(ix) && ix.program_id == program_id
                && ix.data@ == update_referral_account_data(params.new_share_bps->Some_0)
                && metas(ix.accounts@) == seq![
                    (params.admin_pubkey@, true, false),
                    (params.project_pubkey@, false, false),
                    (params.referral_account_pubkey@, false, true),
                ]),
{
    let share_bps = match params.new_share_bps {
        Some(s) => s,
        None => return Err(HelperError::InvalidShareBps),
    };
    if share_bps > MAX_SHARE_BPS {
        return Err(HelperError::InvalidShareBps);
    }
    let mut data = update_referral_account_discriminator();
    push_le(&mut data, share_bps as u64, 2);
    let accounts = vec![
        AccountMeta::new_readonly(params.admin_pubkey, true),
        AccountMeta::new_readonly(params.project_pubkey, false),
        AccountMeta::new(params.referral_account_pubkey, false),
    ];
    assert(metas(accounts@) =~= seq![
        (params.admin_pubkey@, true, false),
        (params.project_pubkey@, false, false),
        (params.referral_account_pubkey@, false, true),
    ]);
    Ok(Instruction { program_id, accounts, data })
}

/// A withdrawal of `amount` from the project authority (["project_authority",
/// project]); the data is the tag and the amount as eight little-endian bytes.
pub fn create_withdraw_from_project_instruction(
    params: WithdrawFromProjectParams,
    program_id: Address,
) -> (r: HelperResult<Instruction>)
    ensures
        !is_token_program(params.token_program_id@)
            ==> r == Err::<Instruction, HelperError>(HelperError::InvalidTokenProgram),
        is_token_program(params.token_program_id@) && (
            !derivable(project_authority_seeds(params.project_pubkey@), program_id@)
            || associated_token_key(params.admin_pubkey@, params.mint_pubkey@) is None)
            ==> r == Err::<Instruction, HelperError>(HelperError::PdaDerivationFailed),
        is_token_program(params.token_program_id@)
            && derivable(project_authority_seeds(params.project_pubkey@), program_id@)
            && associated_token_key(params.admin_pubkey@, params.mint_pubkey@) is Some
            ==> (r matches Ok(ix) && ix.program_id == program_id
                && ix.data@ == withdraw_from_project_tag() + le_bytes(params.amount as nat, 8)
                && metas(ix.accounts@) == seq![
                    (params.admin_pubkey@, true, false),
                    (params.project_pubkey@, false, false),
                    (derived_key(project_authority_seeds(params.project_pubkey@), program_id@), false, true),
                    (ata_key(params.admin_pubkey@, params.mint_pubkey@), false, true),
                    (params.mint_pubkey@, false, false),
                    (params.token_program_id@, false, false),
                ]),
{
    if let Err(e) = validate_token_program(&params.token_program_id) {
        return Err(e);
    }
    let (project_authority, _) = match derive_project_authority_pda(&params.project_pubkey, &program_id) {
        Ok(p) => p,
        Err(e) => return Err(e),
    };
    let admin_token_account = match canonical_token_account(&params.admin_pubkey, &params.mint_pubkey) {
        Ok(a) => a,
        Err(e) => return Err(e),
    };
    let mut data = withdraw_from_project_discriminator();
    push_le(&mut data, params.amount, 8);
    let accounts = vec![
        AccountMeta::new_readonly(params.admin_pubkey, true),
        AccountMeta::new_readonly(params.project_pubkey, false),
        AccountMeta::new(project_authority, false),
        AccountMeta::new(admin_token_account, false),
        AccountMeta::new_readonly(params.mint_pubkey, false),
        AccountMeta::new_readonly(params.token_program_id, false),
    ];
    assert(metas(accounts@) =~= seq![
        (params.admin_pubkey@, true, false),
        (params.project_pubkey@, false, false),
        (project_authority@, false, true),
        (admin_token_account@, false, true),
        (params.mint_pubkey@, false, false),
        (params.token_program_id@, false, false),
    ]);
    Ok(Instruction { program_id, accounts, data })
}

/// Creation of the admin's canonical token account, paid by the project authority.
pub fn create_admin_token_account_instruction(
    params: CreateAdminTokenAccountParams,
    program_id: Address,
) -> (r: HelperResult<Instruction>)
    ensures
        !is_token_program(params.token_program_id@)
            ==> r == Err::<Instruction, HelperError>(HelperError::InvalidTokenProgram),
        is_token_program(params.token_program_id@) && (
            !derivable(project_authority_seeds(params.project_pubkey@), program_id@)
            || associated_token_key(params.admin_pubkey@, params.mint_pubkey@) is None)
            ==> r == Err::<Instruction, HelperError>(HelperError::PdaDerivationFailed),
        is_token_program(params.token_program_id@)
            && derivable(project_authority_seeds(params.project_pubkey@), program_id@)
            && associated_token_key(params.admin_pubkey@, params.mint_pubkey@) is Some
            ==> (r matches Ok(ix) && ix.program_id == program_id
                && ix.data@ == create_admin_token_account_tag()
                && metas(ix.accounts@) == seq![
                    (params.payer_pubkey@, true, true),
                    (params.project_pubkey@, false, false),
                    (params.admin_pubkey@, false, false),
                    (derived_key(project_authority_seeds(params.project_pubkey@), program_id@), false, true),
                    (ata_key(params.admin_pubkey@, params.mint_pubkey@), false, true),
                    (params.mint_pubkey@, false, false),
                    (system_program_key(), false, false),
                    (params.token_program_id@, false, false),
                    (associated_token_program_key(), false, false),
                ]),
{
    if let Err(e) = validate_token_program(&params.token_program_id) {
        return Err(e);
    }
    let (project_authority, _) = match derive_project_authority_pda(&params.project_pubkey, &program_id) {
        Ok(p) => p,
        Err(e) => return Err(e),
    };
    let admin_token_account = match canonical_token_account(&params.admin_pubkey, &params.mint_pubkey) {
        Ok(a) => a,
        Err(e) => return Err(e),
    };
    let accounts = vec![
        AccountMeta::new(params.payer_pubkey, true),
        AccountMeta::new_readonly(params.project_pubkey, false),
        AccountMeta::new_readonly(params.admin_pubkey, false),
        AccountMeta::new(project_authority, false),
        AccountMeta::new(admin_token_account, false),
        AccountMeta::new_readonly(params.mint_pubkey, false),
        AccountMeta::new_readonly(system_program(), false),
        AccountMeta::new_readonly(params.token_program_id, false),
        AccountMeta::new_readonly(associated_token_program_id(), false),
    ];
    assert(metas(accounts@) =~= seq![
        (params.payer_pubkey@, true, true),
        (params.project_pubkey@, false, false),
        (params.admin_pubkey@, false, false),
        (project_authority@, false, true),
        (admin_token_account@, false, true),
        (params.mint_pubkey@, false, false),
        (system_program_key(), false, false),
        (params.token_program_id@, false, false),
        (associated_token_program_key(), false, false),
    ]);
    Ok(Instruction { program_id, accounts, data: create_admin_token_account_discriminator() })
}

/// A change of a referral account's partner, signed by the current partner;
/// the data is the tag alone.
pub fn create_transfer_referral_account_instruction(
    params: TransferReferralAccountParams,
    program_id: Address,
) -> (r: HelperResult<Instruction>)
    ensures
        r matches Ok(ix) && ix.program_id == program_id && ix.data@ == transfer_referral_account_tag()
            && metas(ix.accounts@) == seq![
                (params.partner_pubkey@, true, false),
                (params.new_partner_pubkey@, false, false),
                (params.referral_account_pubkey@, false, true),
            ],
{
    let accounts = vec![
        AccountMeta::new_readonly(params.partner_pubkey, true),
        AccountMeta::new_readonly(params.new_partner_pubkey, false),
        AccountMeta::new(params.referral_account_pubkey, false),
    ];
    assert(metas(accounts@) =~= seq![
        (params.partner_pubkey@, true, false),
        (params.new_partner_pubkey@, false, false),
        (params.referral_account_pubkey@, false, true),
    ]);
    Ok(Instruction { program_id, accounts, data: transfer_referral_account_discriminator() })
}

/// The six accounts of both closing layouts.
pub open spec fn close_accounts(
    admin: Seq<u8>,
    project: Seq<u8>,
    referral_account: Seq<u8>,
    referral_token_account: Seq<u8>,
    mint: Seq<u8>,
    token_program: Seq<u8>,
) -> Seq<(Seq<u8>, bool, bool)> {
    seq![
        (admin, true, false),
        (project, false, false),
        (referral_account, false, false),
        (referral_token_account, false, true),
        (mint, false, false),
        (token_program, false, false),
    ]
}

/// Closing of a first-scheme referral token account.
pub fn create_close_referral_token_account_instruction(
    params: CloseReferralTokenAccountParams,
    program_id: Address,
) -> (r: HelperResult<Instruction>)
    ensures
        !is_token_program(params.token_program_id@)
            ==> r == Err::<Instruction, HelperError>(HelperError::InvalidTokenProgram),
        is_token_program(params.token_program_id@)
            && !derivable(referral_token_seeds(params.referral_account_pubkey@, params.mint_pubkey@), program_id@)
            ==> r == Err::<Instruction, HelperError>(HelperError::PdaDerivationFailed),
        is_token_program(params.token_program_id@)
            && derivable(referral_token_seeds(params.referral_account_pubkey@, params.mint_pubkey@), program_id@)
            ==> (r matches Ok(ix) && ix.program_id == program_id
                && ix.data@ == close_referral_token_account_tag()
                && metas(ix.accounts@) == close_accounts(
                    params.admin_pubkey@,
                    params.project_pubkey@,
                    params.referral_account_pubkey@,
                    derived_key(referral_token_seeds(params.referral_account_pubkey@, params.mint_pubkey@), program_id@),
                    params.mint_pubkey@,
                    params.token_program_id@,
                )),
{
    if let Err(e) = validate_token_program(&params.token_program_id) {
        return Err(e);
    }
    let (referral_token_account, _) = match derive_referral_token_account_pda(
        &params.referral_account_pubkey,
        &params.mint_pubkey,
        &program_id,
    ) {
        Ok(p) => p,
        Err(e) => return Err(e),
    };
    let accounts = vec![
        AccountMeta::new_readonly(params.admin_pubkey, true),
        AccountMeta::new_readonly(params.project_pubkey, false),
        AccountMeta::new_readonly(params.referral_account_pubkey, false),
        AccountMeta::new(referral_token_account, false),
        AccountMeta::new_readonly(params.mint_pubkey, false),
        AccountMeta::new_readonly(params.token_program_id, false),
    ];
    assert(metas(accounts@) =~= close_accounts(
        params.admin_pubkey@,
        params.project_pubkey@,
        params.referral_account_pubkey@,
        referral_token_account@,
        params.mint_pubkey@,
        params.token_program_id@,
    ));
    Ok(Instruction { program_id, accounts, data: close_referral_token_account_discriminator() })
}

/// Closing of a second-scheme referral token account (the referral account's
/// canonical token account).
pub fn create_close_referral_token_account_v2_instruction(
    params: CloseReferralTokenAccountV2Params,
    program_id: Address,
) -> (r: HelperResult<Instruction>)
    ensures
        !is_token_program(params.token_program_id@)
            ==> r == Err::<Instruction, HelperError>(HelperError::InvalidTokenProgram),
        is_token_program(params.token_program_id@)
            && associated_token_key(params.referral_account_pubkey@, params.mint_pubkey@) is None
            ==> r == Err::<Instruction, HelperError>(HelperError::PdaDerivationFailed),
        is_token_program(params.token_program_id@)
            && associated_token_key(params.referral_account_pubkey@, params.mint_pubkey@) is Some
            ==> (r matches Ok(ix) && ix.program_id == program_id
                && ix.data@ == close_referral_token_account_v2_tag()
                && metas(ix.accounts@) == close_accounts(
                    params.admin_pubkey@,
                    params.project_pubkey@,
                    params.referral_account_pubkey@,
                    ata_key(params.referral_account_pubkey@, params.mint_pubkey@),
                    params.mint_pubkey@,
                    params.token_program_id@,
                )),
{
    if let Err(e) = validate_token_program(&params.token_program_id) {
        return Err(e);
    }
    let referral_token_account = match canonical_token_account(&params.referral_account_pubkey, &params.mint_pubkey) {
        Ok(a) => a,
        Err(e) => return Err(e),
    };
    let accounts = vec![
        AccountMeta::new_readonly(params.admin_pubkey, true),
        AccountMeta::new_readonly(params.project_pubkey, false),
        AccountMeta::new_readonly(params.referral_account_pubkey, false),
        AccountMeta::new(referral_token_account, false),
        AccountMeta::new_readonly(params.mint_pubkey, false),
        AccountMeta::new_readonly(params.token_program_id, false),
    ];
    assert(metas(accounts@) =~= close_accounts(
        params.admin_pubkey@,
        params.project_pubkey@,
        params.referral_account_pubkey@,
        referral_token_account@,
        params.mint_pubkey@,
        params.token_program_id@,
    ));
    Ok(Instruction { program_id, accounts, data: close_referral_token_account_v2_discriminator() })
}

} // verus!
