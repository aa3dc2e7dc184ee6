use referral_sdk::program::ProgramErrorCode;
use referral_sdk::split::{calculate_split, Split};

#[test]
fn quarter_share_of_a_thousand() {
    assert_eq!(calculate_split(1000, 2500).unwrap(), Split { referral_amount: 250, project_amount: 750 });
}

#[test]
fn split_rounds_the_partner_down() {
    assert_eq!(calculate_split(7, 3333).unwrap(), Split { referral_amount: 2, project_amount: 5 });
    assert_eq!(calculate_split(9999, 1).unwrap(), Split { referral_amount: 0, project_amount: 9999 });
}

#[test]
fn split_of_the_largest_balance() {
    assert_eq!(calculate_split(u64::MAX, 10000).unwrap(), Split { referral_amount: u64::MAX, project_amount: 0 });
    assert_eq!(calculate_split(u64::MAX, 0).unwrap(), Split { referral_amount: 0, project_amount: u64::MAX });
    let half = calculate_split(u64::MAX, 5000).unwrap();
    assert_eq!(half.referral_amount, u64::MAX / 2);
    assert_eq!(half.referral_amount + half.project_amount, u64::MAX);
}

#[test]
fn split_parts_add_up() {
    for balance in [0u64, 1, 3, 999, 10_000, 123_456_789, u64::MAX - 1] {
        for share in [0u16, 1, 750, 3333, 5000, 9999, 10000] {
            let s = calculate_split(balance, share).unwrap();
            assert_eq!(s.referral_amount as u128, (balance as u128) * (share as u128) / 10000);
            assert_eq!(s.referral_amount + s.project_amount, balance);
        }
    }
}

#[test]
fn share_above_whole_fails() {
    assert_eq!(calculate_split(u64::MAX, 10001).unwrap_err(), ProgramErrorCode::InvalidCalculation);
    assert_eq!(calculate_split(10000, 65535).unwrap_err(), ProgramErrorCode::InvalidCalculation);
    assert_eq!(calculate_split(0, 65535).unwrap(), Split { referral_amount: 0, project_amount: 0 });
}
