use referral_sdk::helper::{derive_project_pda, derive_referral_account_pda, derive_referral_account_with_name_pda};
use referral_sdk::ledger::{Ledger, Record};
use referral_sdk::pda::project_v2_address;
use referral_sdk::program::{
    InitializeProjectV2, InitializeReferralAccountParams, InitializeProject, InitializeProjectParams, InitializeReferralAccountWithNameParams, ProgramErrorCode,
    TransferProject, TransferProjectParams, TransferReferralAccount, TransferReferralAccountParams, UpdateProject,
    UpdateProjectParams, UpdateReferralAccountParams,
};
use referral_sdk::program_ids::referral_program_id;
use referral_sdk::Address;
use solana_sdk::pubkey::Pubkey;

fn unique() -> Address {
    Address::new(Pubkey::new_unique().to_bytes())
}

fn stored_share(ledger: &Ledger, key: &Address) -> u16 {
    match ledger.get(key) {
        Some(Record::Project(p)) => p.default_share_bps,
        Some(Record::Referral(a)) => a.share_bps,
        _ => panic!("no record"),
    }
}

#[test]
fn ledger_lifecycle() {
    let program_id = referral_program_id();
    let mut ledger = Ledger::new();
    let (base, admin, partner) = (unique(), unique(), unique());
    let (project_key, _) = derive_project_pda(&base, &program_id).unwrap();
    let ctx = InitializeProject { payer_signed: true, base, base_signed: true, admin, project_key };

    let params = InitializeProjectParams { name: "Jup".to_string(), default_share_bps: 10001 };
    assert_eq!(ledger.initialize_project(&ctx, params, &program_id).unwrap_err(), ProgramErrorCode::InvalidSharePercentage);
    assert!(ledger.get(&project_key).is_none());

    let params = InitializeProjectParams { name: "Jup".to_string(), default_share_bps: 2000 };
    ledger.initialize_project(&ctx, params, &program_id).unwrap();
    assert_eq!(stored_share(&ledger, &project_key), 2000);
    let again = InitializeProjectParams { name: "Jup".to_string(), default_share_bps: 2000 };
    assert_eq!(ledger.initialize_project(&ctx, again, &program_id).unwrap_err(), ProgramErrorCode::AccountAlreadyInUse);

    let (referral_key, _) = derive_referral_account_with_name_pda(&project_key, "eve", &program_id).unwrap();
    let params = InitializeReferralAccountWithNameParams { name: "eve".to_string() };
    ledger
        .initialize_referral_account_with_name(true, partner, project_key, referral_key, params, &program_id)
        .unwrap();
    assert_eq!(stored_share(&ledger, &referral_key), 2000);

    let update = UpdateProject { admin, admin_signed: true, project_key };
    ledger.update_project(&update, UpdateProjectParams { name: None, default_share_bps: Some(300) }).unwrap();
    assert_eq!(stored_share(&ledger, &project_key), 300);
    assert_eq!(stored_share(&ledger, &referral_key), 2000);

    let r = ledger.update_referral_account(admin, true, project_key, referral_key, UpdateReferralAccountParams { share_bps: 10001 });
    assert_eq!(r.unwrap_err(), ProgramErrorCode::InvalidSharePercentage);
    assert_eq!(stored_share(&ledger, &referral_key), 2000);
    ledger.update_referral_account(admin, true, project_key, referral_key, UpdateReferralAccountParams { share_bps: 700 }).unwrap();
    assert_eq!(stored_share(&ledger, &referral_key), 700);

    let r = ledger.update_referral_account(admin, true, referral_key, referral_key, UpdateReferralAccountParams { share_bps: 1 });
    assert_eq!(r.unwrap_err(), ProgramErrorCode::AccountKindMismatch);
    let r = ledger.update_project(&UpdateProject { admin, admin_signed: true, project_key: unique() }, UpdateProjectParams { name: None, default_share_bps: None });
    assert_eq!(r.unwrap_err(), ProgramErrorCode::AccountNotInitialized);

    let new_admin = unique();
    let t = TransferProject { admin, admin_signed: true, new_admin };
    ledger.transfer_project(&t, &project_key, TransferProjectParams {}).unwrap();
    match ledger.get(&project_key) {
        Some(Record::Project(p)) => assert_eq!(p.admin.to_bytes(), new_admin.to_bytes()),
        _ => panic!("no project"),
    }

    let new_partner = unique();
    let t = TransferReferralAccount { partner, partner_signed: true, new_partner };
    ledger.transfer_referral_account(&t, &referral_key, TransferReferralAccountParams {}).unwrap();
    match ledger.get(&referral_key) {
        Some(Record::Referral(a)) => {
            assert_eq!(a.partner.to_bytes(), new_partner.to_bytes());
            assert_eq!(a.project.to_bytes(), project_key.to_bytes());
        },
        _ => panic!("no referral account"),
    }
    let stale = TransferReferralAccount { partner, partner_signed: true, new_partner: unique() };
    assert_eq!(
        ledger.transfer_referral_account(&stale, &referral_key, TransferReferralAccountParams {}).unwrap_err(),
        ProgramErrorCode::HasOneMismatch
    );
}

#[test]
fn ledger_holds_v2_projects_and_legacy_referrals() {
    let program_id = referral_program_id();
    let mut ledger = Ledger::new();
    let admin = unique();
    let (v2_key, _) = project_v2_address(&admin, &program_id).unwrap();
    let ctx = InitializeProjectV2 { payer_signed: true, admin, project_key: v2_key };
    let params = InitializeProjectParams { name: "V2".to_string(), default_share_bps: 100 };
    ledger.initialize_project_v2(&ctx, params, &program_id).unwrap();
    assert!(matches!(ledger.get(&v2_key), Some(Record::ProjectV2(_))));

    let r = ledger.initialize_referral_account(true, unique(), v2_key, unique(), InitializeReferralAccountParams {}, &program_id);
    assert_eq!(r.unwrap_err(), ProgramErrorCode::AccountKindMismatch);

    let base = unique();
    let (project_key, _) = derive_project_pda(&base, &program_id).unwrap();
    let ctx = InitializeProject { payer_signed: true, base, base_signed: true, admin, project_key };
    ledger.initialize_project(&ctx, InitializeProjectParams { name: "P".to_string(), default_share_bps: 4200 }, &program_id).unwrap();
    let r = ledger.initialize_referral_account(true, unique(), project_key, unique(), InitializeReferralAccountParams {}, &program_id);
    assert_eq!(r.unwrap_err(), ProgramErrorCode::SeedsMismatch);
    let (referral_key, _) = derive_referral_account_pda(&project_key, &program_id).unwrap();
    let r = ledger.initialize_referral_account(false, unique(), project_key, referral_key, InitializeReferralAccountParams {}, &program_id);
    assert_eq!(r.unwrap_err(), ProgramErrorCode::MissingSignature);
    ledger
        .initialize_referral_account(true, unique(), project_key, referral_key, InitializeReferralAccountParams {}, &program_id)
        .unwrap();
    assert_eq!(stored_share(&ledger, &referral_key), 4200);
}
