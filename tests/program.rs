use referral_sdk::helper::{derive_project_authority_pda, derive_project_pda, derive_referral_token_account_pda};
use referral_sdk::pda::associated_token_address;
use referral_sdk::program::{
    claim, claim_v2, close_referral_token_account, initialize_project, initialize_referral_account_with_name,
    transfer_project, transfer_referral_account, update_project, update_referral_account, withdraw_from_project,
    Claim, CloseReferralTokenAccount, InitializeProject, InitializeProjectParams, InitializeReferralAccountWithName,
    InitializeReferralAccountWithNameParams, ProgramErrorCode, Project, ReferralAccount, TokenAccount,
    TransferProject, TransferProjectParams, TransferReferralAccount, TransferReferralAccountParams, UpdateProject,
    UpdateProjectParams, UpdateReferralAccount, UpdateReferralAccountParams, WithdrawFromProject,
    WithdrawFromProjectParams,
};
use referral_sdk::program::{
    create_admin_token_account, initialize_project_ata, initialize_referral_token_account,
    initialize_referral_token_account_v2, CreateAdminTokenAccount, InitializeProjectAta, InitializeProjectAtaParams,
    InitializeReferralTokenAccount,
};
use referral_sdk::program_ids::{referral_program_id, token_program_id};
use referral_sdk::helper::derive_referral_account_with_name_pda;
use referral_sdk::Address;
use solana_sdk::pubkey::Pubkey;

fn unique() -> Address {
    Address::new(Pubkey::new_unique().to_bytes())
}

fn project_with(base: Address, admin: Address, share: u16) -> Project {
    Project { base, admin, name: "Project".to_string(), default_share_bps: share }
}

fn token(key: Address, mint: Address, authority: Address, amount: u64) -> TokenAccount {
    TokenAccount { key, mint, authority, token_program: token_program_id(), amount }
}

fn claim_setup(balance: u64, share: u16) -> Claim {
    let program_id = referral_program_id();
    let (base, admin, partner, mint) = (unique(), unique(), unique(), unique());
    let (project_key, _) = derive_project_pda(&base, &program_id).unwrap();
    let referral_key = unique();
    let (rta, _) = derive_referral_token_account_pda(&referral_key, &mint, &program_id).unwrap();
    Claim {
        payer_signed: true,
        project_key,
        project: project_with(base, admin, share),
        admin,
        project_admin_token_account: token(unique(), mint, admin, 0),
        referral_account_key: referral_key,
        referral_account: ReferralAccount { partner, project: project_key, share_bps: share, name: None },
        referral_token_account: token(rta, mint, project_key, balance),
        partner,
        partner_token_account: token(unique(), mint, partner, 0),
        mint,
        token_program: token_program_id(),
    }
}

#[test]
fn claim_pays_partner_and_admin() {
    let c = claim_setup(1000, 2500);
    let out = claim(&c, &referral_program_id()).unwrap();
    assert_eq!(out.transfers.len(), 2);
    assert_eq!(out.transfers[0].amount, 250);
    assert_eq!(out.transfers[0].to.to_bytes(), c.partner_token_account.key.to_bytes());
    assert_eq!(out.transfers[0].authority.to_bytes(), c.project_key.to_bytes());
    assert_eq!(out.transfers[1].amount, 750);
    assert_eq!(out.transfers[1].to.to_bytes(), c.project_admin_token_account.key.to_bytes());
    assert_eq!(out.event.referral_amount, 250);
    assert_eq!(out.event.project_amount, 750);
}

#[test]
fn claim_skips_zero_transfers() {
    let c = claim_setup(1000, 0);
    let out = claim(&c, &referral_program_id()).unwrap();
    assert_eq!(out.transfers.len(), 1);
    assert_eq!(out.transfers[0].amount, 1000);
    let c = claim_setup(0, 5000);
    assert!(claim(&c, &referral_program_id()).unwrap().transfers.is_empty());
}

#[test]
fn claim_checks_before_paying() {
    let mut c = claim_setup(1000, 2500);
    c.admin = unique();
    assert_eq!(claim(&c, &referral_program_id()).unwrap_err(), ProgramErrorCode::HasOneMismatch);
    let mut c = claim_setup(1000, 2500);
    c.project_key = unique();
    assert_eq!(claim(&c, &referral_program_id()).unwrap_err(), ProgramErrorCode::SeedsMismatch);
    let mut c = claim_setup(1000, 2500);
    c.partner_token_account.mint = unique();
    assert_eq!(claim(&c, &referral_program_id()).unwrap_err(), ProgramErrorCode::TokenMintMismatch);
    let mut c = claim_setup(1000, 2500);
    c.referral_token_account.authority = unique();
    assert_eq!(claim(&c, &referral_program_id()).unwrap_err(), ProgramErrorCode::TokenOwnerMismatch);
    let mut c = claim_setup(1000, 2500);
    c.project_admin_token_account.token_program = unique();
    assert_eq!(claim(&c, &referral_program_id()).unwrap_err(), ProgramErrorCode::TokenProgramMismatch);
    let mut c = claim_setup(1000, 2500);
    c.payer_signed = false;
    assert_eq!(claim(&c, &referral_program_id()).unwrap_err(), ProgramErrorCode::MissingSignature);
    let mut c = claim_setup(u64::MAX, 10001);
    c.referral_account.share_bps = 10001;
    assert_eq!(claim(&c, &referral_program_id()).unwrap_err(), ProgramErrorCode::InvalidCalculation);
}

#[test]
fn claim_v2_signs_with_the_named_referral_account() {
    let program_id = referral_program_id();
    let mut c = claim_setup(1000, 1000);
    assert_eq!(claim_v2(&c, &program_id).unwrap_err(), ProgramErrorCode::SeedsMismatch);
    c.project_admin_token_account.key = associated_token_address(&c.admin, &c.mint).unwrap();
    assert_eq!(claim_v2(&c, &program_id).unwrap_err(), ProgramErrorCode::MissingName);
    let name = "alice";
    let (referral_key, _) = derive_referral_account_with_name_pda(&c.project_key, name, &program_id).unwrap();
    let rta = associated_token_address(&referral_key, &c.mint).unwrap();
    c.referral_account_key = referral_key;
    c.referral_account.name = Some(name.to_string());
    c.referral_token_account = token(rta, c.mint, referral_key, 1000);
    assert_eq!(claim_v2(&c, &program_id).unwrap_err(), ProgramErrorCode::SeedsMismatch);
    c.partner_token_account.key = associated_token_address(&c.partner, &c.mint).unwrap();
    let out = claim_v2(&c, &program_id).unwrap();
    assert_eq!(out.transfers.len(), 2);
    assert_eq!(out.transfers[0].amount, 100);
    assert_eq!(out.transfers[0].authority.to_bytes(), referral_key.to_bytes());
    assert_eq!(out.transfers[1].amount, 900);
}

#[test]
fn initialize_project_then_update_and_transfer() {
    let program_id = referral_program_id();
    let (base, admin) = (unique(), unique());
    let (project_key, _) = derive_project_pda(&base, &program_id).unwrap();
    let ctx = InitializeProject { payer_signed: true, base, base_signed: true, admin, project_key };
    let params = InitializeProjectParams { name: "Jup".to_string(), default_share_bps: 10001 };
    assert_eq!(
        initialize_project(&ctx, params, &program_id).unwrap_err(),
        ProgramErrorCode::InvalidSharePercentage
    );
    let params = InitializeProjectParams { name: "x".repeat(50), default_share_bps: 100 };
    assert_eq!(initialize_project(&ctx, params, &program_id).unwrap_err(), ProgramErrorCode::NameTooLong);
    let params = InitializeProjectParams { name: "Jup".to_string(), default_share_bps: 10000 };
    let (mut project, event) = initialize_project(&ctx, params, &program_id).unwrap();
    assert_eq!(project.default_share_bps, 10000);
    assert_eq!(event.project.to_bytes(), project_key.to_bytes());

    let update = UpdateProject { admin, admin_signed: true, project_key };
    let event = update_project(&update, &mut project, UpdateProjectParams { name: None, default_share_bps: Some(750) }).unwrap();
    assert_eq!(project.name, "Jup");
    assert_eq!(project.default_share_bps, 750);
    assert_eq!(event.default_share_bps, 750);

    let stranger = UpdateProject { admin: unique(), admin_signed: true, project_key };
    let r = update_project(&stranger, &mut project, UpdateProjectParams { name: Some("Other".to_string()), default_share_bps: None });
    assert_eq!(r.unwrap_err(), ProgramErrorCode::HasOneMismatch);
    assert_eq!(project.name, "Jup");

    let new_admin = unique();
    let t = TransferProject { admin, admin_signed: true, new_admin };
    transfer_project(&t, &mut project, TransferProjectParams {}).unwrap();
    assert_eq!(project.admin.to_bytes(), new_admin.to_bytes());
    assert_eq!(transfer_project(&t, &mut project, TransferProjectParams {}).unwrap_err(), ProgramErrorCode::HasOneMismatch);
}

#[test]
fn referral_share_is_a_snapshot() {
    let program_id = referral_program_id();
    let (base, admin, partner) = (unique(), unique(), unique());
    let (project_key, _) = derive_project_pda(&base, &program_id).unwrap();
    let mut project = project_with(base, admin, 1500);
    let (referral_key, _) = derive_referral_account_with_name_pda(&project_key, "bob", &program_id).unwrap();
    let ctx = InitializeReferralAccountWithName {
        payer_signed: true,
        partner,
        project_key,
        project: project.clone(),
        referral_account_key: referral_key,
    };
    let params = InitializeReferralAccountWithNameParams { name: "bob".to_string() };
    let (mut account, _) = initialize_referral_account_with_name(&ctx, params, &program_id).unwrap();
    assert_eq!(account.share_bps, 1500);

    let update = UpdateProject { admin, admin_signed: true, project_key };
    update_project(&update, &mut project, UpdateProjectParams { name: None, default_share_bps: Some(9000) }).unwrap();
    assert_eq!(account.share_bps, 1500);

    let ctx = UpdateReferralAccount { admin, admin_signed: true, project_key, project: project.clone(), referral_account_key: referral_key };
    assert_eq!(
        update_referral_account(&ctx, &mut account, UpdateReferralAccountParams { share_bps: 10001 }).unwrap_err(),
        ProgramErrorCode::InvalidSharePercentage
    );
    update_referral_account(&ctx, &mut account, UpdateReferralAccountParams { share_bps: 4000 }).unwrap();
    assert_eq!(account.share_bps, 4000);

    let new_partner = unique();
    let t = TransferReferralAccount { partner, partner_signed: true, new_partner };
    transfer_referral_account(&t, &mut account, TransferReferralAccountParams {}).unwrap();
    assert_eq!(account.partner.to_bytes(), new_partner.to_bytes());
    assert_eq!(account.project.to_bytes(), project_key.to_bytes());
}

#[test]
fn named_referral_with_wrong_address_is_refused() {
    let program_id = referral_program_id();
    let base = unique();
    let (project_key, _) = derive_project_pda(&base, &program_id).unwrap();
    let ctx = InitializeReferralAccountWithName {
        payer_signed: true,
        partner: unique(),
        project_key,
        project: project_with(base, unique(), 100),
        referral_account_key: unique(),
    };
    let params = InitializeReferralAccountWithNameParams { name: "bob".to_string() };
    assert_eq!(initialize_referral_account_with_name(&ctx, params, &program_id).unwrap_err(), ProgramErrorCode::SeedsMismatch);
}

#[test]
fn withdraw_moves_native_balance_to_admin() {
    let program_id = referral_program_id();
    let (base, admin) = (unique(), unique());
    let (authority, _) = derive_project_authority_pda(&base, &program_id).unwrap();
    let ctx = WithdrawFromProject { admin, admin_signed: true, project: project_with(base, admin, 0), project_authority: authority };
    let t = withdraw_from_project(&ctx, WithdrawFromProjectParams { amount: 42 }, &program_id).unwrap();
    assert_eq!(t.amount, 42);
    assert_eq!(t.to.to_bytes(), admin.to_bytes());
    let ctx = WithdrawFromProject { admin, admin_signed: true, project: project_with(base, admin, 0), project_authority: unique() };
    assert_eq!(withdraw_from_project(&ctx, WithdrawFromProjectParams { amount: 42 }, &program_id).unwrap_err(), ProgramErrorCode::SeedsMismatch);
}

#[test]
fn close_returns_rent_to_partner() {
    let c = claim_setup(0, 0);
    let ctx = CloseReferralTokenAccount {
        admin: c.admin,
        admin_signed: true,
        project_key: c.project_key,
        project: c.project.clone(),
        referral_account_key: c.referral_account_key,
        referral_account: c.referral_account.clone(),
        referral_token_account: c.referral_token_account,
        partner: c.partner,
        mint: c.mint,
        token_program: c.token_program,
    };
    let close = close_referral_token_account(&ctx, &referral_program_id()).unwrap();
    assert_eq!(close.destination.to_bytes(), c.partner.to_bytes());
    assert_eq!(close.authority.to_bytes(), c.project_key.to_bytes());
    let mut bad = ctx.clone();
    bad.token_program = unique();
    bad.referral_token_account.token_program = bad.token_program;
    assert_eq!(close_referral_token_account(&bad, &referral_program_id()).unwrap_err(), ProgramErrorCode::InvalidTokenProgram);
}

#[test]
fn token_accounts_are_opened_at_their_derived_addresses() {
    let program_id = referral_program_id();
    let (base, admin, partner, mint) = (unique(), unique(), unique(), unique());
    let (project_key, _) = derive_project_pda(&base, &program_id).unwrap();
    let project = project_with(base, admin, 100);

    let (referral_key, _) = derive_referral_account_with_name_pda(&project_key, "dan", &program_id).unwrap();
    let referral = ReferralAccount { partner, project: project_key, share_bps: 100, name: Some("dan".to_string()) };
    let (rta, _) = derive_referral_token_account_pda(&referral_key, &mint, &program_id).unwrap();
    let mut ctx = InitializeReferralTokenAccount {
        payer_signed: true,
        project_key,
        project: project.clone(),
        referral_account_key: referral_key,
        referral_account: referral,
        referral_token_account_key: rta,
        mint,
        token_program: token_program_id(),
    };
    let (t, _) = initialize_referral_token_account(&ctx, &program_id).unwrap();
    assert_eq!(t.authority.to_bytes(), project_key.to_bytes());
    assert_eq!(t.amount, 0);
    assert_eq!(initialize_referral_token_account_v2(&ctx, &program_id).unwrap_err(), ProgramErrorCode::SeedsMismatch);
    ctx.referral_token_account_key = associated_token_address(&referral_key, &mint).unwrap();
    let (t, _) = initialize_referral_token_account_v2(&ctx, &program_id).unwrap();
    assert_eq!(t.authority.to_bytes(), referral_key.to_bytes());
    ctx.token_program = unique();
    assert_eq!(initialize_referral_token_account_v2(&ctx, &program_id).unwrap_err(), ProgramErrorCode::InvalidTokenProgram);

    let ata = InitializeProjectAta {
        payer_signed: true,
        admin,
        project_key,
        project: project.clone(),
        project_token_account: associated_token_address(&project_key, &mint).unwrap(),
        mint,
        token_program: token_program_id(),
    };
    let (t, ev) = initialize_project_ata(&ata, InitializeProjectAtaParams {}, &program_id).unwrap();
    assert_eq!(t.authority.to_bytes(), project_key.to_bytes());
    assert_eq!(ev.admin.to_bytes(), admin.to_bytes());

    let (authority, _) = derive_project_authority_pda(&base, &program_id).unwrap();
    let create = CreateAdminTokenAccount {
        project,
        project_authority: authority,
        admin,
        project_admin_token_account: unique(),
        mint,
        token_program: token_program_id(),
    };
    let req = create_admin_token_account(&create, &program_id).unwrap();
    assert_eq!(req.payer.to_bytes(), authority.to_bytes());
    assert_eq!(req.owner.to_bytes(), admin.to_bytes());
}
