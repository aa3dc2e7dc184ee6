use referral_sdk::helper::{
    create_admin_token_account_instruction, create_close_referral_token_account_instruction,
    create_close_referral_token_account_v2_instruction, create_initialize_project_instruction,
    create_transfer_project_instruction, create_update_project_instruction,
    create_update_referral_account_instruction, create_withdraw_from_project_instruction,
    derive_project_pda, derive_referral_account_with_name_pda, validate_token_program,
    CloseReferralTokenAccountParams, CloseReferralTokenAccountV2Params, CreateAdminTokenAccountParams,
    HelperError, InitializeProjectParams, TransferProjectParams, UpdateProjectParams,
    UpdateReferralAccountParams, WithdrawFromProjectParams,
};
use referral_sdk::Address;
use solana_sdk::pubkey::Pubkey;

fn unique() -> Address {
    Address::new(Pubkey::new_unique().to_bytes())
}

fn token_program() -> Address {
    Address::new(spl_token::ID.to_bytes())
}

fn token_2022_program() -> Address {
    Address::new(spl_token_2022::ID.to_bytes())
}

fn same(a: &Address, b: &Address) -> bool {
    a.to_bytes() == b.to_bytes()
}

#[test]
fn test_derive_project_pda() {
    let base = unique();
    let program_id = unique();

    let result = derive_project_pda(&base, &program_id);
    assert!(result.is_ok());

    let (pda, _bump) = result.unwrap();
    assert_ne!(pda.to_bytes(), [0u8; 32]);
}

#[test]
fn test_derive_referral_account_with_name_pda() {
    let project = unique();
    let program_id = unique();
    let name = "test";

    let result = derive_referral_account_with_name_pda(&project, name, &program_id);
    assert!(result.is_ok());

    let (pda, _bump) = result.unwrap();
    assert_ne!(pda.to_bytes(), [0u8; 32]);
}

#[test]
fn test_name_too_long_error() {
    let project = unique();
    let program_id = unique();
    let long_name = "a".repeat(25);

    let result = derive_referral_account_with_name_pda(&project, &long_name, &program_id);
    assert_eq!(result.unwrap_err(), HelperError::NameTooLong);
}

#[test]
fn test_validate_token_program() {
    assert!(validate_token_program(&token_program()).is_ok());
    assert!(validate_token_program(&token_2022_program()).is_ok());
    assert!(validate_token_program(&unique()).is_err());
}

#[test]
fn test_create_initialize_project_instruction() {
    let base = unique();
    let admin = unique();
    let payer = unique();
    let program_id = unique();

    let params = InitializeProjectParams { name: "Test Project".to_string(), default_share_bps: 5000 };

    let result = create_initialize_project_instruction(base, admin, payer, params, program_id);
    assert!(result.is_ok());

    let instruction = result.unwrap();
    assert!(same(&instruction.program_id, &program_id));
    assert_eq!(instruction.accounts.len(), 5);
}

#[test]
fn test_invalid_share_bps() {
    let base = unique();
    let admin = unique();
    let payer = unique();
    let program_id = unique();

    let params = InitializeProjectParams { name: "Test Project".to_string(), default_share_bps: 15000 };

    let result = create_initialize_project_instruction(base, admin, payer, params, program_id);
    assert_eq!(result.unwrap_err(), HelperError::InvalidShareBps);
}

#[test]
fn test_create_update_project_instruction() {
    let admin = unique();
    let project = unique();
    let program_id = unique();

    let params = UpdateProjectParams {
        admin_pubkey: admin,
        project_pubkey: project,
        new_name: Some("Updated Project".to_string()),
        new_default_share_bps: Some(1000),
    };

    let result = create_update_project_instruction(params, program_id);
    assert!(result.is_ok());

    let instruction = result.unwrap();
    assert!(same(&instruction.program_id, &program_id));
    assert_eq!(instruction.accounts.len(), 2);
}

#[test]
fn test_create_transfer_project_instruction() {
    let admin = unique();
    let new_admin = unique();
    let project = unique();
    let program_id = unique();

    let params = TransferProjectParams { admin_pubkey: admin, project_pubkey: project, new_admin_pubkey: new_admin };

    let result = create_transfer_project_instruction(params, program_id);
    assert!(result.is_ok());

    let instruction = result.unwrap();
    assert!(same(&instruction.program_id, &program_id));
    assert_eq!(instruction.accounts.len(), 3);
}

#[test]
fn test_create_update_referral_account_instruction() {
    let admin = unique();
    let project = unique();
    let referral_account = unique();
    let program_id = unique();

    let params = UpdateReferralAccountParams {
        admin_pubkey: admin,
        project_pubkey: project,
        referral_account_pubkey: referral_account,
        new_share_bps: Some(2500),
    };

    let result = create_update_referral_account_instruction(params, program_id);
    assert!(result.is_ok());

    let instruction = result.unwrap();
    assert!(same(&instruction.program_id, &program_id));
    assert_eq!(instruction.accounts.len(), 3);
}

#[test]
fn test_create_withdraw_from_project_instruction() {
    let admin = unique();
    let project = unique();
    let mint = unique();
    let program_id = unique();

    let params = WithdrawFromProjectParams {
        admin_pubkey: admin,
        project_pubkey: project,
        mint_pubkey: mint,
        amount: 1000000,
        token_program_id: token_program(),
    };

    let result = create_withdraw_from_project_instruction(params, program_id);
    assert!(result.is_ok());

    let instruction = result.unwrap();
    assert!(same(&instruction.program_id, &program_id));
    assert_eq!(instruction.accounts.len(), 6);
}

#[test]
fn test_create_admin_token_account_instruction() {
    let payer = unique();
    let admin = unique();
    let project = unique();
    let mint = unique();
    let program_id = unique();

    let params = CreateAdminTokenAccountParams {
        payer_pubkey: payer,
        project_pubkey: project,
        admin_pubkey: admin,
        mint_pubkey: mint,
        token_program_id: token_program(),
    };

    let result = create_admin_token_account_instruction(params, program_id);
    assert!(result.is_ok());

    let instruction = result.unwrap();
    assert!(same(&instruction.program_id, &program_id));
    assert_eq!(instruction.accounts.len(), 9);
}

#[test]
fn test_create_close_referral_token_account_instruction() {
    let admin = unique();
    let project = unique();
    let referral_account = unique();
    let mint = unique();
    let program_id = unique();

    let params = CloseReferralTokenAccountParams {
        admin_pubkey: admin,
        project_pubkey: project,
        referral_account_pubkey: referral_account,
        mint_pubkey: mint,
        token_program_id: token_program(),
    };

    let result = create_close_referral_token_account_instruction(params, program_id);
    assert!(result.is_ok());

    let instruction = result.unwrap();
    assert!(same(&instruction.program_id, &program_id));
    assert_eq!(instruction.accounts.len(), 6);
}

#[test]
fn test_create_close_referral_token_account_v2_instruction() {
    let admin = unique();
    let project = unique();
    let referral_account = unique();
    let mint = unique();
    let program_id = unique();

    let params = CloseReferralTokenAccountV2Params {
        admin_pubkey: admin,
        project_pubkey: project,
        referral_account_pubkey: referral_account,
        mint_pubkey: mint,
        token_program_id: token_program(),
    };

    let result = create_close_referral_token_account_v2_instruction(params, program_id);
    assert!(result.is_ok());

    let instruction = result.unwrap();
    assert!(same(&instruction.program_id, &program_id));
    assert_eq!(instruction.accounts.len(), 6);
}
