use referral_sdk::helper::{
    create_claim_instruction, create_claim_v2_instruction, create_initialize_project_instruction,
    create_initialize_referral_account_instruction, create_initialize_referral_account_with_name_instruction,
    create_initialize_referral_token_account_instruction, create_transfer_referral_account_instruction,
    create_update_project_instruction, create_update_referral_account_instruction,
    create_withdraw_from_project_instruction, derive_project_authority_pda, derive_project_pda,
    derive_referral_account_pda, derive_referral_account_with_name_pda, derive_referral_token_account_pda,
    ClaimParams, ClaimV2Params, HelperError, InitializeProjectParams, InitializeReferralAccountParams,
    InitializeReferralAccountWithNameParams, InitializeReferralTokenAccountParams,
    TransferReferralAccountParams, UpdateProjectParams, UpdateReferralAccountParams,
    WithdrawFromProjectParams,
};
use referral_sdk::program_ids::{
    associated_token_program_id, referral_program_id, token_2022_program_id, token_program_id,
};
use referral_sdk::{Address, REFERRAL_PROGRAM_ID};
use solana_sdk::pubkey::Pubkey;

fn unique() -> Address {
    Address::new(Pubkey::new_unique().to_bytes())
}

fn pk(a: &Address) -> Pubkey {
    Pubkey::new_from_array(a.to_bytes())
}

fn token_program() -> Address {
    Address::new(spl_token::ID.to_bytes())
}

#[test]
fn program_ids_match_their_crates() {
    assert_eq!(token_program_id().to_bytes(), spl_token::ID.to_bytes());
    assert_eq!(token_2022_program_id().to_bytes(), spl_token_2022::ID.to_bytes());
    assert_eq!(associated_token_program_id().to_bytes(), spl_associated_token_account::ID.to_bytes());
    let parsed: Pubkey = REFERRAL_PROGRAM_ID.parse().unwrap();
    assert_eq!(referral_program_id().to_bytes(), parsed.to_bytes());
}

#[test]
fn derivations_match_find_program_address() {
    let base = unique();
    let program_id = unique();
    let (pda, bump) = derive_project_pda(&base, &program_id).unwrap();
    let (expected, expected_bump) = Pubkey::find_program_address(&[b"project", &base.to_bytes()], &pk(&program_id));
    assert_eq!(pda.to_bytes(), expected.to_bytes());
    assert_eq!(bump, expected_bump);

    let (authority, _) = derive_project_authority_pda(&base, &program_id).unwrap();
    let (expected, _) = Pubkey::find_program_address(&[b"project_authority", &base.to_bytes()], &pk(&program_id));
    assert_eq!(authority.to_bytes(), expected.to_bytes());

    let (legacy, _) = derive_referral_account_pda(&base, &program_id).unwrap();
    let (expected, _) = Pubkey::find_program_address(&[b"referral", &base.to_bytes()], &pk(&program_id));
    assert_eq!(legacy.to_bytes(), expected.to_bytes());

    let (named, _) = derive_referral_account_with_name_pda(&base, "alice", &program_id).unwrap();
    let (expected, _) = Pubkey::find_program_address(&[b"referral", &base.to_bytes(), b"alice"], &pk(&program_id));
    assert_eq!(named.to_bytes(), expected.to_bytes());

    let mint = unique();
    let (token, _) = derive_referral_token_account_pda(&named, &mint, &program_id).unwrap();
    let (expected, _) =
        Pubkey::find_program_address(&[b"referral_ata", &named.to_bytes(), &mint.to_bytes()], &pk(&program_id));
    assert_eq!(token.to_bytes(), expected.to_bytes());
}

#[test]
fn derivation_is_repeatable() {
    let base = unique();
    let program_id = unique();
    let first = derive_project_pda(&base, &program_id).unwrap();
    let second = derive_project_pda(&base, &program_id).unwrap();
    assert_eq!(first.0.to_bytes(), second.0.to_bytes());
    assert_eq!(first.1, second.1);
    let a = derive_referral_account_with_name_pda(&base, "partner", &program_id).unwrap();
    let b = derive_referral_account_with_name_pda(&base, "partner", &program_id).unwrap();
    assert_eq!(a.0.to_bytes(), b.0.to_bytes());
    assert_eq!(a.1, b.1);
}

#[test]
fn referral_name_of_nineteen_characters_is_accepted() {
    let project = unique();
    let program_id = unique();
    let name = "a".repeat(19);
    assert!(derive_referral_account_with_name_pda(&project, &name, &program_id).is_ok());
    let params = InitializeReferralAccountWithNameParams {
        project_pubkey: project,
        partner_pubkey: unique(),
        payer_pubkey: unique(),
        name: name.clone(),
    };
    let ix = create_initialize_referral_account_with_name_instruction(params, program_id).unwrap();
    let mut expected = vec![0x3e, 0x6b, 0x1c, 0x83, 0x14, 0x5b, 0xd4, 0x79, 19, 0, 0, 0];
    expected.extend_from_slice(name.as_bytes());
    assert_eq!(ix.data, expected);
}

#[test]
fn referral_name_of_twenty_characters_is_rejected() {
    let project = unique();
    let program_id = unique();
    let name = "a".repeat(20);
    assert_eq!(
        derive_referral_account_with_name_pda(&project, &name, &program_id).unwrap_err(),
        HelperError::NameTooLong
    );
    let params = InitializeReferralAccountWithNameParams {
        project_pubkey: project,
        partner_pubkey: unique(),
        payer_pubkey: unique(),
        name,
    };
    assert_eq!(
        create_initialize_referral_account_with_name_instruction(params, program_id).unwrap_err(),
        HelperError::NameTooLong
    );
}

#[test]
fn multibyte_name_too_long_for_a_seed_fails_derivation() {
    let name = "é".repeat(19);
    let result = derive_referral_account_with_name_pda(&unique(), &name, &unique());
    assert_eq!(result.unwrap_err(), HelperError::PdaDerivationFailed);
}

#[test]
fn default_share_of_ten_thousand_is_accepted() {
    let params = InitializeProjectParams { name: "P".to_string(), default_share_bps: 10000 };
    let ix = create_initialize_project_instruction(unique(), unique(), unique(), params, unique()).unwrap();
    assert_eq!(&ix.data[..8], &[0x5d, 0x77, 0x84, 0xc5, 0x44, 0xbf, 0x1b, 0x05]);
    assert_eq!(&ix.data[8..], &[1, 0, 0, 0, b'P', 0x10, 0x27]);
}

#[test]
fn default_share_of_ten_thousand_and_one_is_rejected() {
    let params = InitializeProjectParams { name: "P".to_string(), default_share_bps: 10001 };
    let result = create_initialize_project_instruction(unique(), unique(), unique(), params, unique());
    assert_eq!(result.unwrap_err(), HelperError::InvalidShareBps);
}

#[test]
fn project_name_of_fifty_characters_is_rejected() {
    let params = InitializeProjectParams { name: "n".repeat(50), default_share_bps: 100 };
    let result = create_initialize_project_instruction(unique(), unique(), unique(), params, unique());
    assert_eq!(result.unwrap_err(), HelperError::NameTooLong);
    let params = InitializeProjectParams { name: "n".repeat(49), default_share_bps: 100 };
    assert!(create_initialize_project_instruction(unique(), unique(), unique(), params, unique()).is_ok());
}

#[test]
fn initialize_project_accounts_are_ordered_and_flagged() {
    let (base, admin, payer, program_id) = (unique(), unique(), unique(), unique());
    let params = InitializeProjectParams { name: "Test".to_string(), default_share_bps: 5000 };
    let ix = create_initialize_project_instruction(base, admin, payer, params, program_id).unwrap();
    let (project, _) = derive_project_pda(&base, &program_id).unwrap();
    let got: Vec<([u8; 32], bool, bool)> =
        ix.accounts.iter().map(|m| (m.pubkey.to_bytes(), m.is_signer, m.is_writable)).collect();
    assert_eq!(
        got,
        vec![
            (payer.to_bytes(), true, true),
            (base.to_bytes(), true, false),
            (admin.to_bytes(), false, false),
            (project.to_bytes(), false, true),
            ([0u8; 32], false, false),
        ]
    );
}

#[test]
fn update_project_share_only_encodes_flags_and_share() {
    let params = UpdateProjectParams {
        admin_pubkey: unique(),
        project_pubkey: unique(),
        new_name: None,
        new_default_share_bps: Some(750),
    };
    let ix = create_update_project_instruction(params, unique()).unwrap();
    assert_eq!(&ix.data[..8], &[0x18, 0x5a, 0x33, 0x18, 0xf5, 0xec, 0xaf, 0x4b]);
    assert_eq!(&ix.data[8..], &[0, 1, 0xee, 0x02]);
}

#[test]
fn update_project_with_name_and_without_share() {
    let params = UpdateProjectParams {
        admin_pubkey: unique(),
        project_pubkey: unique(),
        new_name: Some("ab".to_string()),
        new_default_share_bps: None,
    };
    let ix = create_update_project_instruction(params, unique()).unwrap();
    assert_eq!(&ix.data[8..], &[1, 2, 0, 0, 0, b'a', b'b', 0]);
}

#[test]
fn update_project_rejects_long_name_and_large_share() {
    let params = UpdateProjectParams {
        admin_pubkey: unique(),
        project_pubkey: unique(),
        new_name: Some("x".repeat(50)),
        new_default_share_bps: Some(20000),
    };
    assert_eq!(create_update_project_instruction(params, unique()).unwrap_err(), HelperError::NameTooLong);
    let params = UpdateProjectParams {
        admin_pubkey: unique(),
        project_pubkey: unique(),
        new_name: None,
        new_default_share_bps: Some(10001),
    };
    assert_eq!(create_update_project_instruction(params, unique()).unwrap_err(), HelperError::InvalidShareBps);
}

#[test]
fn update_referral_account_encoding() {
    let params = UpdateReferralAccountParams {
        admin_pubkey: unique(),
        project_pubkey: unique(),
        referral_account_pubkey: unique(),
        new_share_bps: Some(2500),
    };
    let ix = create_update_referral_account_instruction(params, unique()).unwrap();
    assert_eq!(ix.data, vec![0x77, 0xe7, 0xca, 0x82, 0x1c, 0x55, 0xa7, 0x0b, 0xc4, 0x09]);
    let params = UpdateReferralAccountParams {
        admin_pubkey: unique(),
        project_pubkey: unique(),
        referral_account_pubkey: unique(),
        new_share_bps: None,
    };
    assert_eq!(create_update_referral_account_instruction(params, unique()).unwrap_err(), HelperError::InvalidShareBps);
    let params = UpdateReferralAccountParams {
        admin_pubkey: unique(),
        project_pubkey: unique(),
        referral_account_pubkey: unique(),
        new_share_bps: Some(10001),
    };
    assert_eq!(create_update_referral_account_instruction(params, unique()).unwrap_err(), HelperError::InvalidShareBps);
}

#[test]
fn withdraw_encodes_amount_little_endian() {
    let (admin, project, mint, program_id) = (unique(), unique(), unique(), unique());
    let params = WithdrawFromProjectParams {
        admin_pubkey: admin,
        project_pubkey: project,
        mint_pubkey: mint,
        amount: 0x0102030405060708,
        token_program_id: token_program(),
    };
    let ix = create_withdraw_from_project_instruction(params, program_id).unwrap();
    assert_eq!(&ix.data[8..], &[8, 7, 6, 5, 4, 3, 2, 1]);
    let (authority, _) = derive_project_authority_pda(&project, &program_id).unwrap();
    assert_eq!(ix.accounts[2].pubkey.to_bytes(), authority.to_bytes());
    let ata = spl_associated_token_account_address(&admin, &mint);
    assert_eq!(ix.accounts[3].pubkey.to_bytes(), ata);
}

#[allow(deprecated)]
fn spl_associated_token_account_address(wallet: &Address, mint: &Address) -> [u8; 32] {
    spl_associated_token_account::get_associated_token_address(&wallet.to_bytes().into(), &mint.to_bytes().into())
        .to_bytes()
}

#[test]
fn invalid_token_program_is_rejected() {
    let params = InitializeReferralTokenAccountParams {
        payer_pubkey: unique(),
        project_pubkey: unique(),
        referral_account_pubkey: unique(),
        mint_pubkey: unique(),
        token_program_id: unique(),
    };
    assert_eq!(
        create_initialize_referral_token_account_instruction(params, unique()).unwrap_err(),
        HelperError::InvalidTokenProgram
    );
}

#[test]
fn claim_uses_referral_ata_seed_and_canonical_destinations() {
    let (payer, project, admin, referral, partner, mint, program_id) =
        (unique(), unique(), unique(), unique(), unique(), unique(), unique());
    let params = ClaimParams {
        payer_pubkey: payer,
        project_pubkey: project,
        admin_pubkey: admin,
        referral_account_pubkey: referral,
        partner_pubkey: partner,
        mint_pubkey: mint,
        token_program_id: token_program(),
    };
    let ix = create_claim_instruction(params, program_id).unwrap();
    assert_eq!(ix.data, vec![0x3e, 0xc6, 0x3d, 0x79, 0x46, 0x6a, 0x55, 0x99]);
    assert_eq!(ix.accounts.len(), 12);
    assert_eq!(ix.accounts[9].pubkey.to_bytes(), spl_associated_token_account::ID.to_bytes());
    assert_eq!(ix.accounts[10].pubkey.to_bytes(), [0u8; 32]);
    assert_eq!(ix.accounts[11].pubkey.to_bytes(), spl_token::ID.to_bytes());
    let (token, _) = derive_referral_token_account_pda(&referral, &mint, &program_id).unwrap();
    assert_eq!(ix.accounts[5].pubkey.to_bytes(), token.to_bytes());
    assert_eq!(ix.accounts[3].pubkey.to_bytes(), spl_associated_token_account_address(&admin, &mint));
    assert_eq!(ix.accounts[7].pubkey.to_bytes(), spl_associated_token_account_address(&partner, &mint));
    assert!(ix.accounts[0].is_signer && ix.accounts[0].is_writable);
    assert!(!ix.accounts[1].is_writable);
}

#[test]
fn claim_v2_uses_canonical_token_accounts() {
    let (payer, project, admin, referral, partner, mint) = (unique(), unique(), unique(), unique(), unique(), unique());
    let params = ClaimV2Params {
        payer_pubkey: payer,
        project_pubkey: project,
        admin_pubkey: admin,
        referral_account_pubkey: referral,
        partner_pubkey: partner,
        mint_pubkey: mint,
        token_program_id: Address::new(spl_token_2022::ID.to_bytes()),
    };
    let ix = create_claim_v2_instruction(params, unique()).unwrap();
    assert_eq!(ix.data, vec![0xf6, 0x5d, 0xb0, 0x91, 0xca, 0xd6, 0x67, 0x89]);
    assert_eq!(ix.accounts.len(), 12);
    assert_eq!(ix.accounts[5].pubkey.to_bytes(), spl_associated_token_account_address(&referral, &mint));
    assert_eq!(ix.accounts[3].pubkey.to_bytes(), spl_associated_token_account_address(&admin, &mint));
    assert_eq!(ix.accounts[7].pubkey.to_bytes(), spl_associated_token_account_address(&partner, &mint));
    assert_eq!(ix.accounts[9].pubkey.to_bytes(), [0u8; 32]);
    assert_eq!(ix.accounts[10].pubkey.to_bytes(), spl_token_2022::ID.to_bytes());
    assert_eq!(ix.accounts[11].pubkey.to_bytes(), spl_associated_token_account::ID.to_bytes());
}

#[test]
fn legacy_referral_and_transfer_instructions() {
    let (payer, partner, project, referral, program_id) = (unique(), unique(), unique(), unique(), unique());
    let params = InitializeReferralAccountParams {
        project_pubkey: project,
        partner_pubkey: partner,
        payer_pubkey: payer,
        referral_account_pubkey: referral,
    };
    let ix = create_initialize_referral_account_instruction(params, program_id).unwrap();
    assert_eq!(ix.data, vec![0x81, 0x8c, 0x87, 0x4a, 0xf4, 0x18, 0x12, 0xe7]);
    assert_eq!(ix.accounts[3].pubkey.to_bytes(), referral.to_bytes());
    assert!(ix.accounts[3].is_writable);

    let params = TransferReferralAccountParams {
        partner_pubkey: partner,
        referral_account_pubkey: referral,
        new_partner_pubkey: payer,
    };
    let ix = create_transfer_referral_account_instruction(params, program_id).unwrap();
    assert_eq!(ix.data, vec![0x2f, 0x45, 0x89, 0x3b, 0x1c, 0x23, 0x7a, 0x4d]);
    assert_eq!(ix.accounts.len(), 3);
    assert_eq!(ix.accounts[0].pubkey.to_bytes(), partner.to_bytes());
    assert!(ix.accounts[0].is_signer && !ix.accounts[0].is_writable);
    assert!(ix.accounts[2].is_writable);
    assert_eq!(referral_sdk::helper::HelperError::NameTooLong.message(), "Name too long");
}
