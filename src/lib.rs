//! Referral and fee-sharing ledger: address derivation, instruction encoding,
//! split arithmetic, on-chain authority checks and an off-chain claim validator.

pub mod address;
pub mod discriminator;
pub mod events;
pub mod helper;
pub mod instruction;
pub mod ledger;
pub mod pda;
pub mod program;
pub mod program_ids;
pub mod split;
pub mod transaction;
pub mod validation;

pub use address::Address;
pub use helper::{
    create_admin_token_account_instruction, create_claim_instruction, create_claim_v2_instruction,
    create_close_referral_token_account_instruction, create_close_referral_token_account_v2_instruction,
    create_initialize_project_instruction, create_initialize_referral_account_instruction,
    create_initialize_referral_account_with_name_instruction, create_initialize_referral_token_account_instruction,
    create_transfer_project_instruction, create_transfer_referral_account_instruction,
    create_update_project_instruction, create_update_referral_account_instruction,
    create_withdraw_from_project_instruction, derive_project_authority_pda as helper_derive_project_authority_pda,
    derive_project_pda as helper_derive_project_pda, derive_referral_account_pda as helper_derive_referral_account_pda,
    derive_referral_account_with_name_pda, derive_referral_token_account_pda as helper_derive_referral_token_account_pda,
    validate_token_program, ClaimParams, ClaimV2Params, CloseReferralTokenAccountParams,
    CloseReferralTokenAccountV2Params, CreateAdminTokenAccountParams, HelperError, HelperResult,
    InitializeProjectParams, InitializeReferralAccountParams, InitializeReferralAccountWithNameParams,
    InitializeReferralTokenAccountParams, TransferProjectParams, TransferReferralAccountParams,
    UpdateProjectParams, UpdateReferralAccountParams, WithdrawFromProjectParams,
};
pub use instruction::{AccountMeta, Instruction};
pub use program_ids::REFERRAL_PROGRAM_ID;
pub use transaction::sanitized_transaction_from_base64;
pub use validation::{
    derive_project_authority_pda, derive_project_pda, derive_referral_account_pda,
    derive_referral_token_account_pda, extract_claim_details, validate_claim_transaction, ClaimDetails,
};
