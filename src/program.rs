//! The executing side: records, the checks each instruction demands before it
//! changes anything, and the state change or payout it then makes.
//!
//! Every handler takes the accounts it is given and either returns the new
//! state (or the transfers to make) or the first check that failed; on failure
//! nothing is changed.

use vstd::prelude::*;
use vstd::string::StrSliceExecFns;
use vstd::utf8::encode_utf8;
use crate::address::Address;
use crate::events::{
    ClaimEvent, InitializeProjectEvent, InitializeProjectTokenAccountEvent, InitializeReferralAccountEvent,
    InitializeReferralTokenAccountEvent, UpdateProjectEvent, UpdateReferralAccountEvent,
};
use crate::pda::{
    associated_token_address, associated_token_key, legacy_referral_address, legacy_referral_seeds, named_referral_address, named_referral_seeds, program_address,
    project_address, project_authority_address, project_authority_seeds, project_seeds, project_v2_address,
    project_v2_seeds, referral_token_address, referral_token_seeds,
};
use crate::program_ids::{token_2022_program_id, token_2022_program_key, token_program_id, token_program_key};
use crate::split::{calculate_split, split_of, Split};

verus! {

/// Longest project name, in characters, plus one.
pub const MAX_PROJECT_NAME_CHARS: usize = 50;

/// Longest referral name, in characters, plus one.
pub const MAX_REFERRAL_NAME_CHARS: usize = 20;

/// Largest share, in basis points.
pub const MAX_SHARE_BPS: u16 = 10_000;

#[derive(Clone, Copy, Debug, PartialEq, Eq, Structural)]
pub enum ProgramErrorCode {
    /// The split of a balance does not fit.
    InvalidCalculation,
    /// A share above 10000 basis points.
    InvalidSharePercentage,
    /// A name at or above its length bound.
    NameTooLong,
    /// A record's stored admin, partner or project differs from the account given.
    HasOneMismatch,
    /// An account is not the address derived from its seeds.
    SeedsMismatch,
    /// A token account holds another mint.
    TokenMintMismatch,
    /// A token account's authority is not the expected one.
    TokenOwnerMismatch,
    /// A token account belongs to another token program.
    TokenProgramMismatch,
    /// The token program is neither of the two accepted ones.
    InvalidTokenProgram,
    /// An account that must sign did not.
    MissingSignature,
    /// A named-referral instruction was given an unnamed referral account.
    MissingName,
    /// An account to be created already holds a record.
    AccountAlreadyInUse,
    /// An account holds no record.
    AccountNotInitialized,
    /// An account holds a record of another kind.
    AccountKindMismatch,
}

/// A project, keyed by the address derived from ["project", base].
#[derive(Clone, Debug)]
pub struct Project {
    pub base: Address,
    pub admin: Address,
    pub name: String,
    pub default_share_bps: u16,
}

/// A project keyed by its admin: ["project_v2", admin].
#[derive(Clone, Debug)]
pub struct ProjectV2 {
    pub admin: Address,
    pub name: String,
    pub default_share_bps: u16,
}

/// A partner's referral account under a project.
#[derive(Clone, Debug)]
pub struct ReferralAccount {
    pub partner: Address,
    pub project: Address,
    pub share_bps: u16,
    pub name: Option<String>,
}

impl Project {
    /// Every written project holds a share of at most 10000 and a name under
    /// 50 characters.
    pub open spec fn wf(&self) -> bool {
        self.default_share_bps <= 10000 && self.name@.len() < 50
    }
}

impl ProjectV2 {
    pub open spec fn wf(&self) -> bool {
        self.default_share_bps <= 10000 && self.name@.len() < 50
    }
}

impl ReferralAccount {
    /// Every written referral account holds a share of at most 10000 and, when
    /// named, a name under 20 characters.
    pub open spec fn wf(&self) -> bool {
        &&& self.share_bps <= 10000
        &&& self.name matches Some(n) ==> n@.len() < 20
    }
}

/// What the checks read of a token account.
#[derive(Clone, Copy, Debug)]
pub struct TokenAccount {
    pub key: Address,
    pub mint: Address,
    pub authority: Address,
    pub token_program: Address,
    pub amount: u64,
}

/// A token transfer that the token program is asked to make.
#[derive(Clone, Copy, Debug)]
pub struct Transfer {
    pub from: Address,
    pub to: Address,
    pub authority: Address,
    pub amount: u64,
}

/// `key` is the address derived from `seeds` under `program_id`.
pub open spec fn is_derived(key: Seq<u8>, seeds: Seq<Seq<u8>>, program_id: Seq<u8>) -> bool {
    program_address(seeds, program_id) matches Some((a, _)) && a == key
}

/// One of the two accepted token programs.
pub open spec fn is_token_program(key: Seq<u8>) -> bool {
    key == token_program_key() || key == token_2022_program_key()
}

/// The first way `t` fails to be a token account of `mint` under `authority`
/// (and, where given, of `token_program`).
pub open spec fn token_account_violation(
    t: TokenAccount,
    mint: Seq<u8>,
    authority: Seq<u8>,
    token_program: Option<Seq<u8>>,
) -> Option<ProgramErrorCode> {
    if t.mint@ != mint {
        Some(ProgramErrorCode::TokenMintMismatch)
    } else if t.authority@ != authority {
        Some(ProgramErrorCode::TokenOwnerMismatch)
    } else if token_program matches Some(p) && t.token_program@ != p {
        Some(ProgramErrorCode::TokenProgramMismatch)
    } else {
        None
    }
}

fn check_token_account(
    t: &TokenAccount,
    mint: &Address,
    authority: &Address,
    token_program: Option<&Address>,
) -> (r: Option<ProgramErrorCode>)
    ensures
        r == token_account_violation(*t, mint@, authority@, match token_program {
            Some(p) => Some(p@),
            None => None,
        }),
{
    if !t.mint.same_as(mint) {
        return Some(ProgramErrorCode::TokenMintMismatch);
    }
    if !t.authority.same_as(authority) {
        return Some(ProgramErrorCode::TokenOwnerMismatch);
    }
    match token_program {
        Some(p) => {
            if !t.token_program.same_as(p) {
                return Some(ProgramErrorCode::TokenProgramMismatch);
            }
        },
        None => {},
    }
    None
}

/// Whether `key` is the address of a derivation outcome.
fn is_derived_key(key: &Address, derived: &Option<(Address, u8)>) -> (r: bool)
    ensures
        r == (derived matches Some((a, _)) && a@ == key@),
{
    match derived {
        Some((a, _)) => a.same_as(key),
        None => false,
    }
}

pub fn is_accepted_token_program(key: &Address) -> (r: bool)
    ensures
        r == is_token_program(key@),
{
    key.same_as(&token_program_id()) || key.same_as(&token_2022_program_id())
}

/// The transfers of a split, zero amounts left out: the partner's part first.
pub open spec fn payout(
    from: Address,
    authority: Address,
    partner_to: Address,
    admin_to: Address,
    s: Split,
) -> Seq<Transfer> {
    let to_partner = if s.referral_amount > 0 {
        seq![Transfer { from, to: partner_to, authority, amount: s.referral_amount }]
    } else {
        Seq::empty()
    };
    let to_admin = if s.project_amount > 0 {
        seq![Transfer { from, to: admin_to, authority, amount: s.project_amount }]
    } else {
        Seq::empty()
    };
    to_partner + to_admin
}

fn make_payout(
    from: Address,
    authority: Address,
    partner_to: Address,
    admin_to: Address,
    s: Split,
) -> (r: Vec<Transfer>)
    ensures
        r@ == payout(from, authority, partner_to, admin_to, s),
{
    let mut r: Vec<Transfer> = Vec::new();
    if s.referral_amount > 0 {
        r.push(Transfer { from, to: partner_to, authority, amount: s.referral_amount });
    }
    if s.project_amount > 0 {
        r.push(Transfer { from, to: admin_to, authority, amount: s.project_amount });
    }
    assert(r@ =~= payout(from, authority, partner_to, admin_to, s));
    r
}

/// A claim's transfers and the event that reports them.
#[derive(Clone, Debug)]
pub struct ClaimOutcome {
    pub transfers: Vec<Transfer>,
    pub event: ClaimEvent,
}

/// The accounts of a claim (first scheme: the project is the token authority).
#[derive(Clone, Debug)]
pub struct Claim {
    pub payer_signed: bool,
    pub project_key: Address,
    pub project: Project,
    pub admin: Address,
    pub project_admin_token_account: TokenAccount,
    pub referral_account_key: Address,
    pub referral_account: ReferralAccount,
    pub referral_token_account: TokenAccount,
    pub partner: Address,
    pub partner_token_account: TokenAccount,
    pub mint: Address,
    pub token_program: Address,
}

/// The first check of a claim that fails, in the order the accounts are listed.
pub open spec fn claim_violation(c: Claim, program_id: Seq<u8>) -> Option<ProgramErrorCode> {
    if !c.payer_signed {
        Some(ProgramErrorCode::MissingSignature)
    } else if !is_derived(c.project_key@, project_seeds(c.project.base@), program_id) {
        Some(ProgramErrorCode::SeedsMismatch)
    } else if c.project.admin@ != c.admin@ {
        Some(ProgramErrorCode::HasOneMismatch)
    } else if token_account_violation(c.project_admin_token_account, c.mint@, c.admin@, Some(c.token_program@)) is Some {
        token_account_violation(c.project_admin_token_account, c.mint@, c.admin@, Some(c.token_program@))
    } else if c.referral_account.project@ != c.project_key@ || c.referral_account.partner@ != c.partner@ {
        Some(ProgramErrorCode::HasOneMismatch)
    } else if !is_derived(c.referral_token_account.key@, referral_token_seeds(c.referral_account_key@, c.mint@), program_id) {
        Some(ProgramErrorCode::SeedsMismatch)
    } else if token_account_violation(c.referral_token_account, c.mint@, c.project_key@, None) is Some {
        token_account_violation(c.referral_token_account, c.mint@, c.project_key@, None)
    } else if token_account_violation(c.partner_token_account, c.mint@, c.partner@, Some(c.token_program@)) is Some {
        token_account_violation(c.partner_token_account, c.mint@, c.partner@, Some(c.token_program@))
    } else if !is_token_program(c.token_program@) {
        Some(ProgramErrorCode::InvalidTokenProgram)
    } else {
        None
    }
}

/// The event reported by a successful claim.
pub open spec fn claim_event(c: Claim, s: Split) -> ClaimEvent {
    ClaimEvent {
        project: c.project_key,
        project_admin_token_account: c.project_admin_token_account.key,
        referral_account: c.referral_account_key,
        referral_token_account: c.referral_token_account.key,
        partner_token_account: c.partner_token_account.key,
        mint: c.mint,
        referral_amount: s.referral_amount,
        project_amount: s.project_amount,
    }
}

/// What a claim does once its checks are known: where one failed, that error;
/// else the referral token account's whole balance is split by the referral
/// account's share and paid out, the partner's part to the partner and the rest
/// to the admin, with `authority` signing. No record changes.
pub open spec fn claim_spec(
    c: Claim,
    violation: Option<ProgramErrorCode>,
    authority: Address,
    r: Result<ClaimOutcome, ProgramErrorCode>,
) -> bool {
    match violation {
        Some(e) => r == Err::<ClaimOutcome, ProgramErrorCode>(e),
        None => match split_of(c.referral_token_account.amount, c.referral_account.share_bps) {
            Err(e) => r == Err::<ClaimOutcome, ProgramErrorCode>(e),
            Ok(s) => r matches Ok(o)
                && o.transfers@ == payout(
                    c.referral_token_account.key,
                    authority,
                    c.partner_token_account.key,
                    c.project_admin_token_account.key,
                    s,
                )
                && o.event == claim_event(c, s),
        },
    }
}

fn pay_out(c: &Claim, authority: Address) -> (r: Result<ClaimOutcome, ProgramErrorCode>)
    ensures
        claim_spec(*c, None, authority, r),
{
    let s = match calculate_split(c.referral_token_account.amount, c.referral_account.share_bps) {
        Ok(s) => s,
        Err(e) => return Err(e),
    };
    let transfers = make_payout(
        c.referral_token_account.key,
        authority,
        c.partner_token_account.key,
        c.project_admin_token_account.key,
        s,
    );
    let event = ClaimEvent {
        project: c.project_key,
        project_admin_token_account: c.project_admin_token_account.key,
        referral_account: c.referral_account_key,
        referral_token_account: c.referral_token_account.key,
        partner_token_account: c.partner_token_account.key,
        mint: c.mint,
        referral_amount: s.referral_amount,
        project_amount: s.project_amount,
    };
    Ok(ClaimOutcome { transfers, event })
}

/// Pays out a referral token account under the first scheme, the project
/// signing for its token account.
pub fn claim(ctx: &Claim, program_id: &Address) -> (r: Result<ClaimOutcome, ProgramErrorCode>)
    ensures
        claim_spec(*ctx, claim_violation(*ctx, program_id@), ctx.project_key, r),
{
    let c = ctx;
    if !c.payer_signed {
        return Err(ProgramErrorCode::MissingSignature);
    }
    if !is_derived_key(&c.project_key, &project_address(&c.project.base, program_id)) {
        return Err(ProgramErrorCode::SeedsMismatch);
    }
    if !c.project.admin.same_as(&c.admin) {
        return Err(ProgramErrorCode::HasOneMismatch);
    }
    if let Some(e) = check_token_account(&c.project_admin_token_account, &c.mint, &c.admin, Some(&c.token_program)) {
        return Err(e);
    }
    if !c.referral_account.project.same_as(&c.project_key) || !c.referral_account.partner.same_as(&c.partner) {
        return Err(ProgramErrorCode::HasOneMismatch);
    }
    if !is_derived_key(
        &c.referral_token_account.key,
        &referral_token_address(&c.referral_account_key, &c.mint, program_id),
    ) {
        return Err(ProgramErrorCode::SeedsMismatch);
    }
    if let Some(e) = check_token_account(&c.referral_token_account, &c.mint, &c.project_key, None) {
        return Err(e);
    }
    if let Some(e) = check_token_account(&c.partner_token_account, &c.mint, &c.partner, Some(&c.token_program)) {
        return Err(e);
    }
    if !is_accepted_token_program(&c.token_program) {
        return Err(ProgramErrorCode::InvalidTokenProgram);
    }
    pay_out(c, c.project_key)
}

/// The accounts of a claim under the second scheme have the same shape.
pub type ClaimV2 = Claim;

/// The first check of a second-scheme claim that fails: the referral account
/// must be named and derived from ["referral", project, name], its token
/// account must be its canonical token account for the mint, and it is that
/// token account's authority; the admin's and partner's token accounts must be
/// their canonical token accounts for the mint. Creating those accounts where
/// they are missing is the host's work, not modelled here.
pub open spec fn claim_v2_violation(c: Claim, program_id: Seq<u8>) -> Option<ProgramErrorCode> {
    if !c.payer_signed {
        Some(ProgramErrorCode::MissingSignature)
    } else if !is_derived(c.project_key@, project_seeds(c.project.base@), program_id) {
        Some(ProgramErrorCode::SeedsMismatch)
    } else if c.project.admin@ != c.admin@ {
        Some(ProgramErrorCode::HasOneMismatch)
    } else if associated_token_key(c.admin@, c.mint@) != Some(c.project_admin_token_account.key@) {
        Some(ProgramErrorCode::SeedsMismatch)
    } else if token_account_violation(c.project_admin_token_account, c.mint@, c.admin@, Some(c.token_program@)) is Some {
        token_account_violation(c.project_admin_token_account, c.mint@, c.admin@, Some(c.token_program@))
    } else if c.referral_account.project@ != c.project_key@ || c.referral_account.partner@ != c.partner@ {
        Some(ProgramErrorCode::HasOneMismatch)
    } else if named_referral_violation(c.project_key, c.referral_account_key, c.referral_account, program_id) is Some {
        named_referral_violation(c.project_key, c.referral_account_key, c.referral_account, program_id)
    } else if associated_token_key(c.referral_account_key@, c.mint@) != Some(c.referral_token_account.key@) {
        Some(ProgramErrorCode::SeedsMismatch)
    } else if token_account_violation(c.referral_token_account, c.mint@, c.referral_account_key@, None) is Some {
        token_account_violation(c.referral_token_account, c.mint@, c.referral_account_key@, None)
    } else if associated_token_key(c.partner@, c.mint@) != Some(c.partner_token_account.key@) {
        Some(ProgramErrorCode::SeedsMismatch)
    } else if token_account_violation(c.partner_token_account, c.mint@, c.partner@, Some(c.token_program@)) is Some {
        token_account_violation(c.partner_token_account, c.mint@, c.partner@, Some(c.token_program@))
    } else if !is_token_program(c.token_program@) {
        Some(ProgramErrorCode::InvalidTokenProgram)
    } else {
        None
    }
}

/// Pays out a referral token account under the second scheme, the named
/// referral account signing for its token account.
pub fn claim_v2(ctx: &ClaimV2, program_id: &Address) -> (r: Result<ClaimOutcome, ProgramErrorCode>)
    ensures
        claim_spec(*ctx, claim_v2_violation(*ctx, program_id@), ctx.referral_account_key, r),
{
    let c = ctx;
    if !c.payer_signed {
        return Err(ProgramErrorCode::MissingSignature);
    }
    if !is_derived_key(&c.project_key, &project_address(&c.project.base, program_id)) {
        return Err(ProgramErrorCode::SeedsMismatch);
    }
    if !c.project.admin.same_as(&c.admin) {
        return Err(ProgramErrorCode::HasOneMismatch);
    }
    if !is_canonical_token_account(&c.project_admin_token_account.key, &c.admin, &c.mint) {
        return Err(ProgramErrorCode::SeedsMismatch);
    }
    if let Some(e) = check_token_account(&c.project_admin_token_account, &c.mint, &c.admin, Some(&c.token_program)) {
        return Err(e);
    }
    if !c.referral_account.project.same_as(&c.project_key) || !c.referral_account.partner.same_as(&c.partner) {
        return Err(ProgramErrorCode::HasOneMismatch);
    }
    if let Some(e) = check_named_referral(&c.project_key, &c.referral_account_key, &c.referral_account, program_id) {
        return Err(e);
    }
    if !is_canonical_token_account(&c.referral_token_account.key, &c.referral_account_key, &c.mint) {
        return Err(ProgramErrorCode::SeedsMismatch);
    }
    if let Some(e) = check_token_account(&c.referral_token_account, &c.mint, &c.referral_account_key, None) {
        return Err(e);
    }
    if !is_canonical_token_account(&c.partner_token_account.key, &c.partner, &c.mint) {
        return Err(ProgramErrorCode::SeedsMismatch);
    }
    if let Some(e) = check_token_account(&c.partner_token_account, &c.mint, &c.partner, Some(&c.token_program)) {
        return Err(e);
    }
    if !is_accepted_token_program(&c.token_program) {
        return Err(ProgramErrorCode::InvalidTokenProgram);
    }
    pay_out(c, c.referral_account_key)
}

} // verus!

verus! {

/// A name has at least `limit` characters.
pub open spec fn too_long(name: Seq<char>, limit: nat) -> bool {
    name.len() >= limit
}

// ---- projects ----

#[derive(Clone, Copy, Debug)]
pub struct InitializeProject {
    pub payer_signed: bool,
    pub base: Address,
    pub base_signed: bool,
    pub admin: Address,
    pub project_key: Address,
}

#[derive(Clone, Debug)]
pub struct InitializeProjectParams {
    pub name: String,
    pub default_share_bps: u16,
}

pub open spec fn initialize_project_violation(
    c: InitializeProject,
    params: InitializeProjectParams,
    program_id: Seq<u8>,
) -> Option<ProgramErrorCode> {
    if !c.payer_signed || !c.base_signed {
        Some(ProgramErrorCode::MissingSignature)
    } else if !is_derived(c.project_key@, project_seeds(c.base@), program_id) {
        Some(ProgramErrorCode::SeedsMismatch)
    } else if too_long(params.name@, 50) {
        Some(ProgramErrorCode::NameTooLong)
    } else if params.default_share_bps > 10000 {
        Some(ProgramErrorCode::InvalidSharePercentage)
    } else {
        None
    }
}

/// Creates a project at ["project", base], signed by the payer and the base.
pub fn initialize_project(
    ctx: &InitializeProject,
    params: InitializeProjectParams,
    program_id: &Address,
) -> (r: Result<(Project, InitializeProjectEvent), ProgramErrorCode>)
    ensures
        match initialize_project_violation(*ctx, params, program_id@) {
            Some(e) => r == Err::<(Project, InitializeProjectEvent), ProgramErrorCode>(e),
            None => r matches Ok((p, ev)) && p.wf()
                && p == (Project {
                    base: ctx.base,
                    admin: ctx.admin,
                    name: params.name,
                    default_share_bps: params.default_share_bps,
                })
                && ev.project == ctx.project_key && ev.admin == ctx.admin && ev.name@ == params.name@
                && ev.default_share_bps == params.default_share_bps,
        },
{
    if !ctx.payer_signed || !ctx.base_signed {
        return Err(ProgramErrorCode::MissingSignature);
    }
    if !is_derived_key(&ctx.project_key, &project_address(&ctx.base, program_id)) {
        return Err(ProgramErrorCode::SeedsMismatch);
    }
    if params.name.as_str().unicode_len() >= MAX_PROJECT_NAME_CHARS {
        return Err(ProgramErrorCode::NameTooLong);
    }
    if params.default_share_bps > MAX_SHARE_BPS {
        return Err(ProgramErrorCode::InvalidSharePercentage);
    }
    let event = InitializeProjectEvent {
        project: ctx.project_key,
        admin: ctx.admin,
        name: params.name.clone(),
        default_share_bps: params.default_share_bps,
    };
    let project = Project {
        base: ctx.base,
        admin: ctx.admin,
        name: params.name,
        default_share_bps: params.default_share_bps,
    };
    Ok((project, event))
}

#[derive(Clone, Copy, Debug)]
pub struct InitializeProjectV2 {
    pub payer_signed: bool,
    pub admin: Address,
    pub project_key: Address,
}

pub open spec fn initialize_project_v2_violation(
    c: InitializeProjectV2,
    params: InitializeProjectParams,
    program_id: Seq<u8>,
) -> Option<ProgramErrorCode> {
    if !c.payer_signed {
        Some(ProgramErrorCode::MissingSignature)
    } else if !is_derived(c.project_key@, project_v2_seeds(c.admin@), program_id) {
        Some(ProgramErrorCode::SeedsMismatch)
    } else if too_long(params.name@, 50) {
        Some(ProgramErrorCode::NameTooLong)
    } else if params.default_share_bps > 10000 {
        Some(ProgramErrorCode::InvalidSharePercentage)
    } else {
        None
    }
}

/// Creates an admin-keyed project at ["project_v2", admin].
pub fn initialize_project_v2(
    ctx: &InitializeProjectV2,
    params: InitializeProjectParams,
    program_id: &Address,
) -> (r: Result<(ProjectV2, InitializeProjectEvent), ProgramErrorCode>)
    ensures
        match initialize_project_v2_violation(*ctx, params, program_id@) {
            Some(e) => r == Err::<(ProjectV2, InitializeProjectEvent), ProgramErrorCode>(e),
            None => r matches Ok((p, ev)) && p.wf()
                && p == (ProjectV2 { admin: ctx.admin, name: params.name, default_share_bps: params.default_share_bps })
                && ev.project == ctx.project_key && ev.admin == ctx.admin && ev.name@ == params.name@
                && ev.default_share_bps == params.default_share_bps,
        },
{
    if !ctx.payer_signed {
        return Err(ProgramErrorCode::MissingSignature);
    }
    if !is_derived_key(&ctx.project_key, &project_v2_address(&ctx.admin, program_id)) {
        return Err(ProgramErrorCode::SeedsMismatch);
    }
    if params.name.as_str().unicode_len() >= MAX_PROJECT_NAME_CHARS {
        return Err(ProgramErrorCode::NameTooLong);
    }
    if params.default_share_bps > MAX_SHARE_BPS {
        return Err(ProgramErrorCode::InvalidSharePercentage);
    }
    let event = InitializeProjectEvent {
        project: ctx.project_key,
        admin: ctx.admin,
        name: params.name.clone(),
        default_share_bps: params.default_share_bps,
    };
    let project = ProjectV2 { admin: ctx.admin, name: params.name, default_share_bps: params.default_share_bps };
    Ok((project, event))
}

#[derive(Clone, Copy, Debug)]
pub struct UpdateProject {
    pub admin: Address,
    pub admin_signed: bool,
    pub project_key: Address,
}

#[derive(Clone, Debug)]
pub struct UpdateProjectParams {
    pub name: Option<String>,
    pub default_share_bps: Option<u16>,
}

/// The project with the given fields overwritten.
pub open spec fn updated_project(p: Project, params: UpdateProjectParams) -> Project {
    Project {
        base: p.base,
        admin: p.admin,
        name: match params.name {
            Some(n) => n,
            None => p.name,
        },
        default_share_bps: match params.default_share_bps {
            Some(s) => s,
            None => p.default_share_bps,
        },
    }
}

pub open spec fn update_project_violation(c: UpdateProject, p: Project, params: UpdateProjectParams) -> Option<
    ProgramErrorCode,
> {
    if !c.admin_signed {
        Some(ProgramErrorCode::MissingSignature)
    } else if p.admin@ != c.admin@ {
        Some(ProgramErrorCode::HasOneMismatch)
    } else if params.name matches Some(n) && too_long(n@, 50) {
        Some(ProgramErrorCode::NameTooLong)
    } else if params.default_share_bps matches Some(s) && s > 10000 {
        Some(ProgramErrorCode::InvalidSharePercentage)
    } else {
        None
    }
}

/// Overwrites the fields given, leaving the others as they were; only the
/// project's admin may do so.
pub fn update_project(
    ctx: &UpdateProject,
    project: &mut Project,
    params: UpdateProjectParams,
) -> (r: Result<UpdateProjectEvent, ProgramErrorCode>)
    ensures
        match update_project_violation(*ctx, *old(project), params) {
            Some(e) => r == Err::<UpdateProjectEvent, ProgramErrorCode>(e) && *final(project) == *old(project),
            None => r matches Ok(ev)
                && (old(project).wf() ==> final(project).wf())
                && *final(project) == updated_project(*old(project), params)
                && ev.project == ctx.project_key && ev.name@ == final(project).name@
                && ev.default_share_bps == final(project).default_share_bps,
        },
{
    if !ctx.admin_signed {
        return Err(ProgramErrorCode::MissingSignature);
    }
    if !project.admin.same_as(&ctx.admin) {
        return Err(ProgramErrorCode::HasOneMismatch);
    }
    if let Some(name) = &params.name {
        if name.as_str().unicode_len() >= MAX_PROJECT_NAME_CHARS {
            return Err(ProgramErrorCode::NameTooLong);
        }
    }
    if let Some(share_bps) = params.default_share_bps {
        if share_bps > MAX_SHARE_BPS {
            return Err(ProgramErrorCode::InvalidSharePercentage);
        }
    }
    if let Some(name) = params.name {
        project.name = name;
    }
    if let Some(share_bps) = params.default_share_bps {
        project.default_share_bps = share_bps;
    }
    Ok(UpdateProjectEvent {
        project: ctx.project_key,
        name: project.name.clone(),
        default_share_bps: project.default_share_bps,
    })
}

#[derive(Clone, Copy, Debug)]
pub struct TransferProject {
    pub admin: Address,
    pub admin_signed: bool,
    pub new_admin: Address,
}

#[derive(Clone, Copy, Debug)]
pub struct TransferProjectParams {}

pub open spec fn admin_violation(signed: bool, stored: Address, given: Address) -> Option<ProgramErrorCode> {
    if !signed {
        Some(ProgramErrorCode::MissingSignature)
    } else if stored@ != given@ {
        Some(ProgramErrorCode::HasOneMismatch)
    } else {
        None
    }
}

/// Hands the project to a new admin; only the current admin may do so.
pub fn transfer_project(ctx: &TransferProject, project: &mut Project, params: TransferProjectParams) -> (r: Result<(), ProgramErrorCode>)
    ensures
        match admin_violation(ctx.admin_signed, old(project).admin, ctx.admin) {
            Some(e) => r == Err::<(), ProgramErrorCode>(e) && *final(project) == *old(project),
            None => r is Ok && *final(project) == (Project {
                admin: ctx.new_admin,
                base: old(project).base,
                name: old(project).name,
                default_share_bps: old(project).default_share_bps,
            }),
        },
{
    if !ctx.admin_signed {
        return Err(ProgramErrorCode::MissingSignature);
    }
    if !project.admin.same_as(&ctx.admin) {
        return Err(ProgramErrorCode::HasOneMismatch);
    }
    project.admin = ctx.new_admin;
    Ok(())
}

} // verus!

verus! {

// ---- referral accounts ----

#[derive(Clone, Debug)]
pub struct InitializeReferralAccount {
    pub payer_signed: bool,
    pub partner: Address,
    pub project_key: Address,
    pub project: Project,
    pub referral_account_key: Address,
}

#[derive(Clone, Copy, Debug)]
pub struct InitializeReferralAccountParams {}

pub open spec fn initialize_referral_account_violation(c: InitializeReferralAccount, program_id: Seq<u8>) -> Option<
    ProgramErrorCode,
> {
    if !c.payer_signed {
        Some(ProgramErrorCode::MissingSignature)
    } else if !is_derived(c.project_key@, project_seeds(c.project.base@), program_id) {
        Some(ProgramErrorCode::SeedsMismatch)
    } else if !is_derived(c.referral_account_key@, legacy_referral_seeds(c.project_key@), program_id) {
        Some(ProgramErrorCode::SeedsMismatch)
    } else {
        None
    }
}

/// Creates the project's unnamed (legacy) referral account at
/// ["referral", project]; a project has at most one. Its share is the
/// project's default at this moment, copied.
pub fn initialize_referral_account(
    ctx: &InitializeReferralAccount,
    params: InitializeReferralAccountParams,
    program_id: &Address,
) -> (r: Result<(ReferralAccount, InitializeReferralAccountEvent), ProgramErrorCode>)
    ensures
        match initialize_referral_account_violation(*ctx, program_id@) {
            Some(e) => r == Err::<(ReferralAccount, InitializeReferralAccountEvent), ProgramErrorCode>(e),
            None => r matches Ok((a, ev))
                && (ctx.project.wf() ==> a.wf())
                && a == (ReferralAccount {
                    partner: ctx.partner,
                    project: ctx.project_key,
                    share_bps: ctx.project.default_share_bps,
                    name: None,
                })
                && ev.project == ctx.project_key && ev.partner == ctx.partner
                && ev.referral_account == ctx.referral_account_key
                && ev.share_bps == ctx.project.default_share_bps && ev.name is None,
        },
{
    if !ctx.payer_signed {
        return Err(ProgramErrorCode::MissingSignature);
    }
    if !is_derived_key(&ctx.project_key, &project_address(&ctx.project.base, program_id)) {
        return Err(ProgramErrorCode::SeedsMismatch);
    }
    if !is_derived_key(&ctx.referral_account_key, &legacy_referral_address(&ctx.project_key, program_id)) {
        return Err(ProgramErrorCode::SeedsMismatch);
    }
    let share_bps = ctx.project.default_share_bps;
    let account = ReferralAccount { partner: ctx.partner, project: ctx.project_key, share_bps, name: None };
    let event = InitializeReferralAccountEvent {
        project: ctx.project_key,
        partner: ctx.partner,
        referral_account: ctx.referral_account_key,
        share_bps,
        name: None,
    };
    Ok((account, event))
}

#[derive(Clone, Debug)]
pub struct InitializeReferralAccountWithName {
    pub payer_signed: bool,
    pub partner: Address,
    pub project_key: Address,
    pub project: Project,
    pub referral_account_key: Address,
}

#[derive(Clone, Debug)]
pub struct InitializeReferralAccountWithNameParams {
    pub name: String,
}

pub open spec fn initialize_referral_account_with_name_violation(
    c: InitializeReferralAccountWithName,
    params: InitializeReferralAccountWithNameParams,
    program_id: Seq<u8>,
) -> Option<ProgramErrorCode> {
    if !c.payer_signed {
        Some(ProgramErrorCode::MissingSignature)
    } else if !is_derived(c.project_key@, project_seeds(c.project.base@), program_id) {
        Some(ProgramErrorCode::SeedsMismatch)
    } else if !is_derived(c.referral_account_key@, named_referral_seeds(c.project_key@, encode_utf8(params.name@)), program_id) {
        Some(ProgramErrorCode::SeedsMismatch)
    } else if too_long(params.name@, 20) {
        Some(ProgramErrorCode::NameTooLong)
    } else {
        None
    }
}

/// Creates a named referral account at ["referral", project, name]. Its share
/// is the project's default at this moment, copied.
pub fn initialize_referral_account_with_name(
    ctx: &InitializeReferralAccountWithName,
    params: InitializeReferralAccountWithNameParams,
    program_id: &Address,
) -> (r: Result<(ReferralAccount, InitializeReferralAccountEvent), ProgramErrorCode>)
    ensures
        match initialize_referral_account_with_name_violation(*ctx, params, program_id@) {
            Some(e) => r == Err::<(ReferralAccount, InitializeReferralAccountEvent), ProgramErrorCode>(e),
            None => r matches Ok((a, ev))
                && (ctx.project.wf() ==> a.wf())
                && a == (ReferralAccount {
                    partner: ctx.partner,
                    project: ctx.project_key,
                    share_bps: ctx.project.default_share_bps,
                    name: Some(params.name),
                })
                && ev.project == ctx.project_key && ev.partner == ctx.partner
                && ev.referral_account == ctx.referral_account_key
                && ev.share_bps == ctx.project.default_share_bps
                && ev.name is Some && ev.name->Some_0@ == params.name@,
        },
{
    if !ctx.payer_signed {
        return Err(ProgramErrorCode::MissingSignature);
    }
    if !is_derived_key(&ctx.project_key, &project_address(&ctx.project.base, program_id)) {
        return Err(ProgramErrorCode::SeedsMismatch);
    }
    if !is_derived_key(
        &ctx.referral_account_key,
        &named_referral_address(&ctx.project_key, params.name.as_str(), program_id),
    ) {
        return Err(ProgramErrorCode::SeedsMismatch);
    }
    if params.name.as_str().unicode_len() >= MAX_REFERRAL_NAME_CHARS {
        return Err(ProgramErrorCode::NameTooLong);
    }
    let share_bps = ctx.project.default_share_bps;
    let event = InitializeReferralAccountEvent {
        project: ctx.project_key,
        partner: ctx.partner,
        referral_account: ctx.referral_account_key,
        share_bps,
        name: Some(params.name.clone()),
    };
    let account = ReferralAccount {
        partner: ctx.partner,
        project: ctx.project_key,
        share_bps,
        name: Some(params.name),
    };
    Ok((account, event))
}

#[derive(Clone, Debug)]
pub struct UpdateReferralAccount {
    pub admin: Address,
    pub admin_signed: bool,
    pub project_key: Address,
    pub project: Project,
    pub referral_account_key: Address,
}

#[derive(Clone, Copy, Debug)]
pub struct UpdateReferralAccountParams {
    pub share_bps: u16,
}

pub open spec fn update_referral_account_violation(
    c: UpdateReferralAccount,
    a: ReferralAccount,
    params: UpdateReferralAccountParams,
) -> Option<ProgramErrorCode> {
    if admin_violation(c.admin_signed, c.project.admin, c.admin) is Some {
        admin_violation(c.admin_signed, c.project.admin, c.admin)
    } else if a.project@ != c.project_key@ {
        Some(ProgramErrorCode::HasOneMismatch)
    } else if params.share_bps > 10000 {
        Some(ProgramErrorCode::InvalidSharePercentage)
    } else {
        None
    }
}

/// Sets a referral account's share; only its project's admin may do so.
pub fn update_referral_account(
    ctx: &UpdateReferralAccount,
    referral_account: &mut ReferralAccount,
    params: UpdateReferralAccountParams,
) -> (r: Result<UpdateReferralAccountEvent, ProgramErrorCode>)
    ensures
        match update_referral_account_violation(*ctx, *old(referral_account), params) {
            Some(e) => r == Err::<UpdateReferralAccountEvent, ProgramErrorCode>(e)
                && *final(referral_account) == *old(referral_account),
            None => r matches Ok(ev)
                && (old(referral_account).wf() ==> final(referral_account).wf())
                && *final(referral_account) == (ReferralAccount {
                    share_bps: params.share_bps,
                    partner: old(referral_account).partner,
                    project: old(referral_account).project,
                    name: old(referral_account).name,
                })
                && ev.referral_account == ctx.referral_account_key && ev.share_bps == params.share_bps,
        },
{
    if !ctx.admin_signed {
        return Err(ProgramErrorCode::MissingSignature);
    }
    if !ctx.project.admin.same_as(&ctx.admin) {
        return Err(ProgramErrorCode::HasOneMismatch);
    }
    if !referral_account.project.same_as(&ctx.project_key) {
        return Err(ProgramErrorCode::HasOneMismatch);
    }
    if params.share_bps > MAX_SHARE_BPS {
        return Err(ProgramErrorCode::InvalidSharePercentage);
    }
    referral_account.share_bps = params.share_bps;
    Ok(UpdateReferralAccountEvent { referral_account: ctx.referral_account_key, share_bps: params.share_bps })
}

#[derive(Clone, Copy, Debug)]
pub struct TransferReferralAccount {
    pub partner: Address,
    pub partner_signed: bool,
    pub new_partner: Address,
}

#[derive(Clone, Copy, Debug)]
pub struct TransferReferralAccountParams {}

/// Hands a referral account to a new partner; only the current partner may do so.
pub fn transfer_referral_account(
    ctx: &TransferReferralAccount,
    referral_account: &mut ReferralAccount,
    params: TransferReferralAccountParams,
) -> (r: Result<(), ProgramErrorCode>)
    ensures
        match admin_violation(ctx.partner_signed, old(referral_account).partner, ctx.partner) {
            Some(e) => r == Err::<(), ProgramErrorCode>(e) && *final(referral_account) == *old(referral_account),
            None => r is Ok && *final(referral_account) == (ReferralAccount {
                partner: ctx.new_partner,
                project: old(referral_account).project,
                share_bps: old(referral_account).share_bps,
                name: old(referral_account).name,
            }),
        },
{
    if !ctx.partner_signed {
        return Err(ProgramErrorCode::MissingSignature);
    }
    if !referral_account.partner.same_as(&ctx.partner) {
        return Err(ProgramErrorCode::HasOneMismatch);
    }
    referral_account.partner = ctx.new_partner;
    Ok(())
}

} // verus!

verus! {

// ---- token accounts and withdrawals ----

#[derive(Clone, Debug)]
pub struct InitializeReferralTokenAccount {
    pub payer_signed: bool,
    pub project_key: Address,
    pub project: Project,
    pub referral_account_key: Address,
    pub referral_account: ReferralAccount,
    pub referral_token_account_key: Address,
    pub mint: Address,
    pub token_program: Address,
}

/// The token account that a creation instruction asks the token program to open.
pub open spec fn opened_account(key: Address, mint: Address, authority: Address, token_program: Address) -> TokenAccount {
    TokenAccount { key, mint, authority, token_program, amount: 0 }
}

pub open spec fn initialize_referral_token_account_violation(
    c: InitializeReferralTokenAccount,
    program_id: Seq<u8>,
) -> Option<ProgramErrorCode> {
    if !c.payer_signed {
        Some(ProgramErrorCode::MissingSignature)
    } else if !is_derived(c.project_key@, project_seeds(c.project.base@), program_id) {
        Some(ProgramErrorCode::SeedsMismatch)
    } else if c.referral_account.project@ != c.project_key@ {
        Some(ProgramErrorCode::HasOneMismatch)
    } else if !is_derived(c.referral_token_account_key@, referral_token_seeds(c.referral_account_key@, c.mint@), program_id) {
        Some(ProgramErrorCode::SeedsMismatch)
    } else if !is_token_program(c.token_program@) {
        Some(ProgramErrorCode::InvalidTokenProgram)
    } else {
        None
    }
}

/// Opens a first-scheme referral token account at ["referral_ata", referral
/// account, mint], with the project as its authority.
pub fn initialize_referral_token_account(
    ctx: &InitializeReferralTokenAccount,
    program_id: &Address,
) -> (r: Result<(TokenAccount, InitializeReferralTokenAccountEvent), ProgramErrorCode>)
    ensures
        match initialize_referral_token_account_violation(*ctx, program_id@) {
            Some(e) => r == Err::<(TokenAccount, InitializeReferralTokenAccountEvent), ProgramErrorCode>(e),
            None => r matches Ok((t, ev))
                && t == opened_account(ctx.referral_token_account_key, ctx.mint, ctx.project_key, ctx.token_program)
                && ev == (InitializeReferralTokenAccountEvent {
                    project: ctx.project_key,
                    referral_account: ctx.referral_account_key,
                    referral_token_account: ctx.referral_token_account_key,
                    mint: ctx.mint,
                }),
        },
{
    if !ctx.payer_signed {
        return Err(ProgramErrorCode::MissingSignature);
    }
    if !is_derived_key(&ctx.project_key, &project_address(&ctx.project.base, program_id)) {
        return Err(ProgramErrorCode::SeedsMismatch);
    }
    if !ctx.referral_account.project.same_as(&ctx.project_key) {
        return Err(ProgramErrorCode::HasOneMismatch);
    }
    if !is_derived_key(
        &ctx.referral_token_account_key,
        &referral_token_address(&ctx.referral_account_key, &ctx.mint, program_id),
    ) {
        return Err(ProgramErrorCode::SeedsMismatch);
    }
    if !is_accepted_token_program(&ctx.token_program) {
        return Err(ProgramErrorCode::InvalidTokenProgram);
    }
    let account = TokenAccount {
        key: ctx.referral_token_account_key,
        mint: ctx.mint,
        authority: ctx.project_key,
        token_program: ctx.token_program,
        amount: 0,
    };
    let event = InitializeReferralTokenAccountEvent {
        project: ctx.project_key,
        referral_account: ctx.referral_account_key,
        referral_token_account: ctx.referral_token_account_key,
        mint: ctx.mint,
    };
    Ok((account, event))
}

/// The accounts of a second-scheme referral token account creation have the
/// same shape.
pub type InitializeReferralTokenAccountV2 = InitializeReferralTokenAccount;

/// The referral account is named and derived from its name, and the new token
/// account is its canonical token account for the mint.
pub open spec fn named_referral_violation(
    project_key: Address,
    referral_account_key: Address,
    referral_account: ReferralAccount,
    program_id: Seq<u8>,
) -> Option<ProgramErrorCode> {
    if referral_account.name is None {
        Some(ProgramErrorCode::MissingName)
    } else if !is_derived(
        referral_account_key@,
        named_referral_seeds(project_key@, encode_utf8(referral_account.name->Some_0@)),
        program_id,
    ) {
        Some(ProgramErrorCode::SeedsMismatch)
    } else {
        None
    }
}

fn check_named_referral(
    project_key: &Address,
    referral_account_key: &Address,
    referral_account: &ReferralAccount,
    program_id: &Address,
) -> (r: Option<ProgramErrorCode>)
    ensures
        r == named_referral_violation(*project_key, *referral_account_key, *referral_account, program_id@),
{
    let name = match &referral_account.name {
        Some(n) => n,
        None => return Some(ProgramErrorCode::MissingName),
    };
    if !is_derived_key(referral_account_key, &named_referral_address(project_key, name.as_str(), program_id)) {
        return Some(ProgramErrorCode::SeedsMismatch);
    }
    None
}

fn is_canonical_token_account(key: &Address, wallet: &Address, mint: &Address) -> (r: bool)
    ensures
        r == (associated_token_key(wallet@, mint@) == Some(key@)),
{
    match associated_token_address(wallet, mint) {
        Some(a) => a.same_as(key),
        None => false,
    }
}

pub open spec fn initialize_referral_token_account_v2_violation(
    c: InitializeReferralTokenAccount,
    program_id: Seq<u8>,
) -> Option<ProgramErrorCode> {
    if !c.payer_signed {
        Some(ProgramErrorCode::MissingSignature)
    } else if !is_derived(c.project_key@, project_seeds(c.project.base@), program_id) {
        Some(ProgramErrorCode::SeedsMismatch)
    } else if c.referral_account.project@ != c.project_key@ {
        Some(ProgramErrorCode::HasOneMismatch)
    } else if named_referral_violation(c.project_key, c.referral_account_key, c.referral_account, program_id) is Some {
        named_referral_violation(c.project_key, c.referral_account_key, c.referral_account, program_id)
    } else if associated_token_key(c.referral_account_key@, c.mint@) != Some(c.referral_token_account_key@) {
        Some(ProgramErrorCode::SeedsMismatch)
    } else if !is_token_program(c.token_program@) {
        Some(ProgramErrorCode::InvalidTokenProgram)
    } else {
        None
    }
}

/// Opens a second-scheme referral token account: the named referral account's
/// canonical token account, with the referral account as its authority.
pub fn initialize_referral_token_account_v2(
    ctx: &InitializeReferralTokenAccountV2,
    program_id: &Address,
) -> (r: Result<(TokenAccount, InitializeReferralTokenAccountEvent), ProgramErrorCode>)
    ensures
        match initialize_referral_token_account_v2_violation(*ctx, program_id@) {
            Some(e) => r == Err::<(TokenAccount, InitializeReferralTokenAccountEvent), ProgramErrorCode>(e),
            None => r matches Ok((t, ev))
                && t == opened_account(ctx.referral_token_account_key, ctx.mint, ctx.referral_account_key, ctx.token_program)
                && ev == (InitializeReferralTokenAccountEvent {
                    project: ctx.project_key,
                    referral_account: ctx.referral_account_key,
                    referral_token_account: ctx.referral_token_account_key,
                    mint: ctx.mint,
                }),
        },
{
    if !ctx.payer_signed {
        return Err(ProgramErrorCode::MissingSignature);
    }
    if !is_derived_key(&ctx.project_key, &project_address(&ctx.project.base, program_id)) {
        return Err(ProgramErrorCode::SeedsMismatch);
    }
    if !ctx.referral_account.project.same_as(&ctx.project_key) {
        return Err(ProgramErrorCode::HasOneMismatch);
    }
    if let Some(e) = check_named_referral(&ctx.project_key, &ctx.referral_account_key, &ctx.referral_account, program_id) {
        return Err(e);
    }
    if !is_canonical_token_account(&ctx.referral_token_account_key, &ctx.referral_account_key, &ctx.mint) {
        return Err(ProgramErrorCode::SeedsMismatch);
    }
    if !is_accepted_token_program(&ctx.token_program) {
        return Err(ProgramErrorCode::InvalidTokenProgram);
    }
    let account = TokenAccount {
        key: ctx.referral_token_account_key,
        mint: ctx.mint,
        authority: ctx.referral_account_key,
        token_program: ctx.token_program,
        amount: 0,
    };
    let event = InitializeReferralTokenAccountEvent {
        project: ctx.project_key,
        referral_account: ctx.referral_account_key,
        referral_token_account: ctx.referral_token_account_key,
        mint: ctx.mint,
    };
    Ok((account, event))
}

#[derive(Clone, Debug)]
pub struct WithdrawFromProject {
    pub admin: Address,
    pub admin_signed: bool,
    pub project: Project,
    pub project_authority: Address,
}

#[derive(Clone, Copy, Debug)]
pub struct WithdrawFromProjectParams {
    pub amount: u64,
}

pub open spec fn withdraw_from_project_violation(c: WithdrawFromProject, program_id: Seq<u8>) -> Option<ProgramErrorCode> {
    if admin_violation(c.admin_signed, c.project.admin, c.admin) is Some {
        admin_violation(c.admin_signed, c.project.admin, c.admin)
    } else if !is_derived(c.project_authority@, project_authority_seeds(c.project.base@), program_id) {
        Some(ProgramErrorCode::SeedsMismatch)
    } else {
        None
    }
}

/// Moves `amount` of native balance from the project authority
/// (["project_authority", base]) to the admin, the authority signing.
pub fn withdraw_from_project(
    ctx: &WithdrawFromProject,
    params: WithdrawFromProjectParams,
    program_id: &Address,
) -> (r: Result<Transfer, ProgramErrorCode>)
    ensures
        match withdraw_from_project_violation(*ctx, program_id@) {
            Some(e) => r == Err::<Transfer, ProgramErrorCode>(e),
            None => r == Ok::<Transfer, ProgramErrorCode>(Transfer {
                from: ctx.project_authority,
                to: ctx.admin,
                authority: ctx.project_authority,
                amount: params.amount,
            }),
        },
{
    if !ctx.admin_signed {
        return Err(ProgramErrorCode::MissingSignature);
    }
    if !ctx.project.admin.same_as(&ctx.admin) {
        return Err(ProgramErrorCode::HasOneMismatch);
    }
    if !is_derived_key(&ctx.project_authority, &project_authority_address(&ctx.project.base, program_id)) {
        return Err(ProgramErrorCode::SeedsMismatch);
    }
    Ok(Transfer { from: ctx.project_authority, to: ctx.admin, authority: ctx.project_authority, amount: params.amount })
}

#[derive(Clone, Debug)]
pub struct CreateAdminTokenAccount {
    pub project: Project,
    pub project_authority: Address,
    pub admin: Address,
    pub project_admin_token_account: Address,
    pub mint: Address,
    pub token_program: Address,
}

/// A request to the associated-token program to open `account`, the canonical
/// token account of `owner` for `mint`, unless it exists; `payer` funds it.
#[derive(Clone, Copy, Debug)]
pub struct CreateTokenAccount {
    pub payer: Address,
    pub account: Address,
    pub owner: Address,
    pub mint: Address,
    pub token_program: Address,
}

pub open spec fn create_admin_token_account_violation(c: CreateAdminTokenAccount, program_id: Seq<u8>) -> Option<
    ProgramErrorCode,
> {
    if c.project.admin@ != c.admin@ {
        Some(ProgramErrorCode::HasOneMismatch)
    } else if !is_derived(c.project_authority@, project_authority_seeds(c.project.base@), program_id) {
        Some(ProgramErrorCode::SeedsMismatch)
    } else if !is_token_program(c.token_program@) {
        Some(ProgramErrorCode::InvalidTokenProgram)
    } else {
        None
    }
}

/// Opens the admin's token account for a mint, paid from the project authority.
pub fn create_admin_token_account(ctx: &CreateAdminTokenAccount, program_id: &Address) -> (r: Result<
    CreateTokenAccount,
    ProgramErrorCode,
>)
    ensures
        match create_admin_token_account_violation(*ctx, program_id@) {
            Some(e) => r == Err::<CreateTokenAccount, ProgramErrorCode>(e),
            None => r == Ok::<CreateTokenAccount, ProgramErrorCode>(CreateTokenAccount {
                payer: ctx.project_authority,
                account: ctx.project_admin_token_account,
                owner: ctx.admin,
                mint: ctx.mint,
                token_program: ctx.token_program,
            }),
        },
{
    if !ctx.project.admin.same_as(&ctx.admin) {
        return Err(ProgramErrorCode::HasOneMismatch);
    }
    if !is_derived_key(&ctx.project_authority, &project_authority_address(&ctx.project.base, program_id)) {
        return Err(ProgramErrorCode::SeedsMismatch);
    }
    if !is_accepted_token_program(&ctx.token_program) {
        return Err(ProgramErrorCode::InvalidTokenProgram);
    }
    Ok(CreateTokenAccount {
        payer: ctx.project_authority,
        account: ctx.project_admin_token_account,
        owner: ctx.admin,
        mint: ctx.mint,
        token_program: ctx.token_program,
    })
}

#[derive(Clone, Debug)]
pub struct CloseReferralTokenAccount {
    pub admin: Address,
    pub admin_signed: bool,
    pub project_key: Address,
    pub project: Project,
    pub referral_account_key: Address,
    pub referral_account: ReferralAccount,
    pub referral_token_account: TokenAccount,
    pub partner: Address,
    pub mint: Address,
    pub token_program: Address,
}

/// A request to the token program to close `account`, its rent going to
/// `destination`, `authority` signing.
#[derive(Clone, Copy, Debug)]
pub struct CloseAccount {
    pub account: Address,
    pub destination: Address,
    pub authority: Address,
}

/// The checks both closing schemes share, up to the referral account.
pub open spec fn close_common_violation(c: CloseReferralTokenAccount, program_id: Seq<u8>) -> Option<ProgramErrorCode> {
    if !c.admin_signed {
        Some(ProgramErrorCode::MissingSignature)
    } else if !is_derived(c.project_key@, project_seeds(c.project.base@), program_id) {
        Some(ProgramErrorCode::SeedsMismatch)
    } else if c.project.admin@ != c.admin@ {
        Some(ProgramErrorCode::HasOneMismatch)
    } else if c.referral_account.project@ != c.project_key@ || c.referral_account.partner@ != c.partner@ {
        Some(ProgramErrorCode::HasOneMismatch)
    } else {
        None
    }
}

fn check_close_common(c: &CloseReferralTokenAccount, program_id: &Address) -> (r: Option<ProgramErrorCode>)
    ensures
        r == close_common_violation(*c, program_id@),
{
    if !c.admin_signed {
        return Some(ProgramErrorCode::MissingSignature);
    }
    if !is_derived_key(&c.project_key, &project_address(&c.project.base, program_id)) {
        return Some(ProgramErrorCode::SeedsMismatch);
    }
    if !c.project.admin.same_as(&c.admin) {
        return Some(ProgramErrorCode::HasOneMismatch);
    }
    if !c.referral_account.project.same_as(&c.project_key) || !c.referral_account.partner.same_as(&c.partner) {
        return Some(ProgramErrorCode::HasOneMismatch);
    }
    None
}

pub open spec fn close_referral_token_account_violation(c: CloseReferralTokenAccount, program_id: Seq<u8>) -> Option<
    ProgramErrorCode,
> {
    if close_common_violation(c, program_id) is Some {
        close_common_violation(c, program_id)
    } else if !is_derived(c.referral_token_account.key@, referral_token_seeds(c.referral_account_key@, c.mint@), program_id) {
        Some(ProgramErrorCode::SeedsMismatch)
    } else if token_account_violation(c.referral_token_account, c.mint@, c.project_key@, Some(c.token_program@)) is Some {
        token_account_violation(c.referral_token_account, c.mint@, c.project_key@, Some(c.token_program@))
    } else if !is_token_program(c.token_program@) {
        Some(ProgramErrorCode::InvalidTokenProgram)
    } else {
        None
    }
}

/// Closes a first-scheme referral token account, returning its rent to the
/// partner; the project signs.
pub fn close_referral_token_account(ctx: &CloseReferralTokenAccount, program_id: &Address) -> (r: Result<
    CloseAccount,
    ProgramErrorCode,
>)
    ensures
        match close_referral_token_account_violation(*ctx, program_id@) {
            Some(e) => r == Err::<CloseAccount, ProgramErrorCode>(e),
            None => r == Ok::<CloseAccount, ProgramErrorCode>(CloseAccount {
                account: ctx.referral_token_account.key,
                destination: ctx.partner,
                authority: ctx.project_key,
            }),
        },
{
    if let Some(e) = check_close_common(ctx, program_id) {
        return Err(e);
    }
    if !is_derived_key(
        &ctx.referral_token_account.key,
        &referral_token_address(&ctx.referral_account_key, &ctx.mint, program_id),
    ) {
        return Err(ProgramErrorCode::SeedsMismatch);
    }
    if let Some(e) = check_token_account(&ctx.referral_token_account, &ctx.mint, &ctx.project_key, Some(&ctx.token_program)) {
        return Err(e);
    }
    if !is_accepted_token_program(&ctx.token_program) {
        return Err(ProgramErrorCode::InvalidTokenProgram);
    }
    Ok(CloseAccount { account: ctx.referral_token_account.key, destination: ctx.partner, authority: ctx.project_key })
}

/// The accounts of a second-scheme close have the same shape.
pub type CloseReferralTokenAccountV2 = CloseReferralTokenAccount;

pub open spec fn close_referral_token_account_v2_violation(c: CloseReferralTokenAccount, program_id: Seq<u8>) -> Option<
    ProgramErrorCode,
> {
    if close_common_violation(c, program_id) is Some {
        close_common_violation(c, program_id)
    } else if named_referral_violation(c.project_key, c.referral_account_key, c.referral_account, program_id) is Some {
        named_referral_violation(c.project_key, c.referral_account_key, c.referral_account, program_id)
    } else if associated_token_key(c.referral_account_key@, c.mint@) != Some(c.referral_token_account.key@) {
        Some(ProgramErrorCode::SeedsMismatch)
    } else if token_account_violation(c.referral_token_account, c.mint@, c.referral_account_key@, Some(c.token_program@)) is Some {
        token_account_violation(c.referral_token_account, c.mint@, c.referral_account_key@, Some(c.token_program@))
    } else if !is_token_program(c.token_program@) {
        Some(ProgramErrorCode::InvalidTokenProgram)
    } else {
        None
    }
}

/// Closes a second-scheme referral token account, returning its rent to the
/// partner; the named referral account signs.
pub fn close_referral_token_account_v2(ctx: &CloseReferralTokenAccountV2, program_id: &Address) -> (r: Result<
    CloseAccount,
    ProgramErrorCode,
>)
    ensures
        match close_referral_token_account_v2_violation(*ctx, program_id@) {
            Some(e) => r == Err::<CloseAccount, ProgramErrorCode>(e),
            None => r == Ok::<CloseAccount, ProgramErrorCode>(CloseAccount {
                account: ctx.referral_token_account.key,
                destination: ctx.partner,
                authority: ctx.referral_account_key,
            }),
        },
{
    if let Some(e) = check_close_common(ctx, program_id) {
        return Err(e);
    }
    if let Some(e) = check_named_referral(&ctx.project_key, &ctx.referral_account_key, &ctx.referral_account, program_id) {
        return Err(e);
    }
    if !is_canonical_token_account(&ctx.referral_token_account.key, &ctx.referral_account_key, &ctx.mint) {
        return Err(ProgramErrorCode::SeedsMismatch);
    }
    if let Some(e) = check_token_account(
        &ctx.referral_token_account,
        &ctx.mint,
        &ctx.referral_account_key,
        Some(&ctx.token_program),
    ) {
        return Err(e);
    }
    if !is_accepted_token_program(&ctx.token_program) {
        return Err(ProgramErrorCode::InvalidTokenProgram);
    }
    Ok(CloseAccount {
        account: ctx.referral_token_account.key,
        destination: ctx.partner,
        authority: ctx.referral_account_key,
    })
}

} // verus!

verus! {

#[derive(Clone, Debug)]
pub struct InitializeProjectAta {
    pub payer_signed: bool,
    pub admin: Address,
    pub project_key: Address,
    pub project: Project,
    pub project_token_account: Address,
    pub mint: Address,
    pub token_program: Address,
}

#[derive(Clone, Copy, Debug)]
pub struct InitializeProjectAtaParams {}

pub open spec fn initialize_project_ata_violation(c: InitializeProjectAta, program_id: Seq<u8>) -> Option<ProgramErrorCode> {
    if !c.payer_signed {
        Some(ProgramErrorCode::MissingSignature)
    } else if !is_derived(c.project_key@, project_seeds(c.project.base@), program_id) {
        Some(ProgramErrorCode::SeedsMismatch)
    } else if associated_token_key(c.project_key@, c.mint@) != Some(c.project_token_account@) {
        Some(ProgramErrorCode::SeedsMismatch)
    } else if !is_token_program(c.token_program@) {
        Some(ProgramErrorCode::InvalidTokenProgram)
    } else {
        None
    }
}

/// Opens the project's own canonical token account for a mint.
pub fn initialize_project_ata(
    ctx: &InitializeProjectAta,
    params: InitializeProjectAtaParams,
    program_id: &Address,
) -> (r: Result<(TokenAccount, InitializeProjectTokenAccountEvent), ProgramErrorCode>)
    ensures
        match initialize_project_ata_violation(*ctx, program_id@) {
            Some(e) => r == Err::<(TokenAccount, InitializeProjectTokenAccountEvent), ProgramErrorCode>(e),
            None => r matches Ok((t, ev))
                && t == opened_account(ctx.project_token_account, ctx.mint, ctx.project_key, ctx.token_program)
                && ev == (InitializeProjectTokenAccountEvent {
                    project: ctx.project_key,
                    admin: ctx.admin,
                    project_token_account: ctx.project_token_account,
                    mint: ctx.mint,
                }),
        },
{
    if !ctx.payer_signed {
        return Err(ProgramErrorCode::MissingSignature);
    }
    if !is_derived_key(&ctx.project_key, &project_address(&ctx.project.base, program_id)) {
        return Err(ProgramErrorCode::SeedsMismatch);
    }
    if !is_canonical_token_account(&ctx.project_token_account, &ctx.project_key, &ctx.mint) {
        return Err(ProgramErrorCode::SeedsMismatch);
    }
    if !is_accepted_token_program(&ctx.token_program) {
        return Err(ProgramErrorCode::InvalidTokenProgram);
    }
    let account = TokenAccount {
        key: ctx.project_token_account,
        mint: ctx.mint,
        authority: ctx.project_key,
        token_program: ctx.token_program,
        amount: 0,
    };
    let event = InitializeProjectTokenAccountEvent {
        project: ctx.project_key,
        admin: ctx.admin,
        project_token_account: ctx.project_token_account,
        mint: ctx.mint,
    };
    Ok((account, event))
}

} // verus!
