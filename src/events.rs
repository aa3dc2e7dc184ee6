//! What the executing side reports after each state change.

use vstd::prelude::*;
use crate::address::Address;

verus! {

#[derive(Clone, Debug)]
pub struct InitializeProjectEvent {
    pub project: Address,
    pub admin: Address,
    pub name: String,
    pub default_share_bps: u16,
}

#[derive(Clone, Debug)]
pub struct UpdateProjectEvent {
    pub project: Address,
    pub name: String,
    pub default_share_bps: u16,
}

#[derive(Clone, Debug)]
pub struct InitializeReferralAccountEvent {
    pub project: Address,
    pub partner: Address,
    pub referral_account: Address,
    pub share_bps: u16,
    pub name: Option<String>,
}

#[derive(Clone, Copy, Debug)]
pub struct UpdateReferralAccountEvent {
    pub referral_account: Address,
    pub share_bps: u16,
}

#[derive(Clone, Copy, Debug)]
pub struct InitializeReferralTokenAccountEvent {
    pub project: Address,
    pub referral_account: Address,
    pub referral_token_account: Address,
    pub mint: Address,
}

#[derive(Clone, Copy, Debug)]
pub struct ClaimEvent {
    pub project: Address,
    pub project_admin_token_account: Address,
    pub referral_account: Address,
    pub referral_token_account: Address,
    pub partner_token_account: Address,
    pub mint: Address,
    pub referral_amount: u64,
    pub project_amount: u64,
}

} // verus!

verus! {

#[derive(Clone, Copy, Debug)]
pub struct InitializeProjectTokenAccountEvent {
    pub project: Address,
    pub admin: Address,
    pub project_token_account: Address,
    pub mint: Address,
}

} // verus!
