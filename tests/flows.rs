use anchor_lang::prelude::Pubkey;
use crosspay::addressing::{
    liquidity_provider_address, transfer_request_address, user_profile_address,
    withdrawal_request_address,
};
use crosspay::errors::CrossPayError;
use crosspay::registry::{
    initialize_user, register_liquidity_provider, update_kyc_status, update_provider_availability,
};
use crosspay::state::{
    Key, LiquidityProvider, PayoutMethod, TransferStatus, UserProfile, UserRole, WithdrawalStatus,
};
use crosspay::transfer::{confirm_transfer, initiate_transfer};
use crosspay::withdrawal::{finalize_withdrawal, request_withdrawal, select_provider};

fn key(b: u8) -> Key {
    Key::new([b; 32])
}

fn program() -> Key {
    key(200)
}

fn profile(owner: u8, verified: bool) -> UserProfile {
    let mut p = initialize_user(&program(), key(owner), UserRole::Both, "NGA".to_string(), 10).unwrap();
    if verified {
        update_kyc_status(&mut p, key(owner), true, [9; 32]).unwrap();
    }
    p
}

fn provider(owner: u8, liquidity: u64, active: bool) -> LiquidityProvider {
    let mut p = register_liquidity_provider(&program(), key(owner), "Lagos".to_string(), 1_500_000, 20).unwrap();
    update_provider_availability(&mut p, key(owner), liquidity, active).unwrap();
    p
}

#[test]
fn new_profile_starts_unverified_with_zero_counters() {
    let p = initialize_user(&program(), key(1), UserRole::Sender, "USA".to_string(), 42).unwrap();
    assert!(!p.kyc_verified);
    assert_eq!(p.kyc_hash, [0; 32]);
    assert_eq!(p.total_sent, 0);
    assert_eq!(p.total_received, 0);
    assert_eq!(p.created_at, 42);
    assert_eq!(p.authority, key(1));
}

#[test]
fn long_country_code_is_refused() {
    let r = initialize_user(&program(), key(1), UserRole::Sender, "USAA".to_string(), 0);
    assert_eq!(r, Err(CrossPayError::InvalidCountryCode));
}

#[test]
fn kyc_update_needs_the_owner() {
    let mut p = profile(1, false);
    assert_eq!(update_kyc_status(&mut p, key(2), true, [1; 32]), Err(CrossPayError::Unauthorized));
    assert!(!p.kyc_verified);
    assert_eq!(update_kyc_status(&mut p, key(1), true, [1; 32]), Ok(()));
    assert!(p.kyc_verified);
    assert_eq!(p.kyc_hash, [1; 32]);
}

#[test]
fn provider_registration_defaults_and_errors() {
    let p = register_liquidity_provider(&program(), key(5), "Lagos, Nigeria".to_string(), 3, 7).unwrap();
    assert_eq!(p.trust_score, 7000);
    assert!(p.is_active);
    assert_eq!(p.available_liquidity, 0);
    assert_eq!(p.total_volume, 0);
    assert_eq!(p.completed_transactions, 0);
    let long = register_liquidity_provider(&program(), key(5), "a".repeat(51), 3, 7);
    assert_eq!(long, Err(CrossPayError::InvalidLocation));
    let zero = register_liquidity_provider(&program(), key(5), "Accra".to_string(), 0, 7);
    assert_eq!(zero, Err(CrossPayError::InvalidAmount));
}

#[test]
fn availability_update_needs_the_owner() {
    let mut p = provider(5, 0, true);
    assert_eq!(update_provider_availability(&mut p, key(6), 10, false), Err(CrossPayError::Unauthorized));
    assert_eq!(p.available_liquidity, 0);
    assert!(p.is_active);
}

#[test]
fn unverified_sender_cannot_initiate_whatever_the_inputs() {
    let p = profile(1, false);
    assert_eq!(initiate_transfer(&program(), &p, key(1), key(2), 100, key(50), 1_000, 0), Err(CrossPayError::KycNotVerified));
    assert_eq!(initiate_transfer(&program(), &p, key(9), key(2), 0, key(50), 0, 0), Err(CrossPayError::KycNotVerified));
}

#[test]
fn initiate_transfer_errors() {
    let p = profile(1, true);
    assert_eq!(initiate_transfer(&program(), &p, key(3), key(2), 100, key(50), 1_000, 0), Err(CrossPayError::Unauthorized));
    assert_eq!(initiate_transfer(&program(), &p, key(1), key(2), 0, key(50), 1_000, 0), Err(CrossPayError::InvalidAmount));
    assert_eq!(initiate_transfer(&program(), &p, key(1), key(2), 1_001, key(50), 1_000, 0), Err(CrossPayError::InsufficientBalance));
}

#[test]
fn settle_transfer_moves_net_and_updates_counters() {
    let mut sender = profile(1, true);
    let mut receiver = profile(2, false);
    let mut t = initiate_transfer(&program(), &sender, key(1), key(2), 1_000_000_000, key(50), 2_000_000_000, 5).unwrap();
    assert_eq!(t.status, TransferStatus::Pending);
    assert_eq!(t.platform_fee, 5_000_000);
    assert_eq!(t.net_amount, 995_000_000);
    assert_eq!(t.nonce, 0);
    let m = confirm_transfer(&mut t, &mut sender, &mut receiver, key(1), 2_000_000_000, 9).unwrap();
    assert_eq!(m.amount, 995_000_000);
    assert_eq!(m.from, key(1));
    assert_eq!(m.to, key(2));
    assert_eq!(t.status, TransferStatus::Completed);
    assert_eq!(t.completed_at, Some(9));
    assert_eq!(sender.total_sent, 1_000_000_000);
    assert_eq!(receiver.total_received, 995_000_000);
}

#[test]
fn settle_twice_fails_with_invalid_status_and_changes_nothing() {
    let mut sender = profile(1, true);
    let mut receiver = profile(2, false);
    let mut t = initiate_transfer(&program(), &sender, key(1), key(2), 400, key(50), 400, 5).unwrap();
    assert!(confirm_transfer(&mut t, &mut sender, &mut receiver, key(1), 400, 6).is_ok());
    let (t1, s1, r1) = (t, sender.clone(), receiver.clone());
    let again = confirm_transfer(&mut t, &mut sender, &mut receiver, key(1), 400, 7);
    assert_eq!(again, Err(CrossPayError::InvalidTransferStatus));
    assert_eq!(t, t1);
    assert_eq!(sender, s1);
    assert_eq!(receiver, r1);
}

#[test]
fn settle_rejects_tampered_fee_low_balance_and_overflow() {
    let mut sender = profile(1, true);
    let mut receiver = profile(2, false);
    let mut t = initiate_transfer(&program(), &sender, key(1), key(2), 1_000_000, key(50), 1_000_000, 5).unwrap();
    assert_eq!(confirm_transfer(&mut t, &mut sender, &mut receiver, key(1), 999_999, 6), Err(CrossPayError::InsufficientBalance));
    assert_eq!(confirm_transfer(&mut t, &mut sender, &mut receiver, key(3), 1_000_000, 6), Err(CrossPayError::Unauthorized));
    let mut tampered = t;
    tampered.platform_fee = 0;
    tampered.net_amount = 1_000_000;
    assert_eq!(confirm_transfer(&mut tampered, &mut sender, &mut receiver, key(1), 1_000_000, 6), Err(CrossPayError::InvalidFeeCalculation));
    receiver.total_received = u64::MAX;
    assert_eq!(confirm_transfer(&mut t, &mut sender, &mut receiver, key(1), 1_000_000, 6), Err(CrossPayError::ArithmeticOverflow));
    assert_eq!(t.status, TransferStatus::Pending);
    assert_eq!(sender.total_sent, 0);
}

#[test]
fn withdrawal_end_to_end() {
    let payee = profile(3, false);
    let mut lp = provider(5, 2_000_000_000, true);
    let mut w = request_withdrawal(&program(), &payee, key(3), 500_000_000, key(50), PayoutMethod::MobileMoney, 600_000_000, 11).unwrap();
    assert_eq!(w.status, WithdrawalStatus::Pending);
    assert_eq!(w.selected_provider, None);
    assert_eq!(select_provider(&mut w, &lp, key(3)), Ok(()));
    assert_eq!(w.status, WithdrawalStatus::ProviderSelected);
    assert_eq!(w.selected_provider, Some(key(5)));
    let m = finalize_withdrawal(&mut w, &mut lp, key(3), key(5), 12).unwrap();
    assert_eq!(m.amount, 500_000_000);
    assert_eq!(m.from, key(3));
    assert_eq!(m.to, key(5));
    assert_eq!(w.status, WithdrawalStatus::Completed);
    assert_eq!(w.completed_at, Some(12));
    assert_eq!(lp.available_liquidity, 1_500_000_000);
    assert_eq!(lp.completed_transactions, 1);
    assert_eq!(lp.total_volume, 500_000_000);
}

#[test]
fn request_withdrawal_errors() {
    let payee = profile(3, false);
    assert_eq!(request_withdrawal(&program(), &payee, key(4), 5, key(50), PayoutMethod::Cash, 10, 0), Err(CrossPayError::Unauthorized));
    assert_eq!(request_withdrawal(&program(), &payee, key(3), 0, key(50), PayoutMethod::Cash, 10, 0), Err(CrossPayError::InvalidAmount));
    assert_eq!(request_withdrawal(&program(), &payee, key(3), 11, key(50), PayoutMethod::BankTransfer, 10, 0), Err(CrossPayError::InsufficientBalance));
}

#[test]
fn select_provider_errors_and_write_once() {
    let payee = profile(3, false);
    let poor = provider(5, 499, true);
    let idle = provider(6, 1_000, false);
    let rich = provider(7, 1_000, true);
    let other = provider(8, 1_000, true);
    let mut w = request_withdrawal(&program(), &payee, key(3), 500, key(50), PayoutMethod::Cash, 500, 0).unwrap();
    assert_eq!(select_provider(&mut w, &poor, key(3)), Err(CrossPayError::InsufficientLiquidity));
    assert_eq!(select_provider(&mut w, &idle, key(3)), Err(CrossPayError::ProviderNotActive));
    assert_eq!(select_provider(&mut w, &rich, key(4)), Err(CrossPayError::Unauthorized));
    assert_eq!(w.status, WithdrawalStatus::Pending);
    assert_eq!(select_provider(&mut w, &rich, key(3)), Ok(()));
    assert_eq!(select_provider(&mut w, &other, key(3)), Err(CrossPayError::ProviderAlreadySelected));
    assert_eq!(w.selected_provider, Some(key(7)));
}

#[test]
fn finalize_clamps_liquidity_at_zero_and_runs_once() {
    let payee = profile(3, false);
    let mut lp = provider(5, 1_000, true);
    let mut w = request_withdrawal(&program(), &payee, key(3), 800, key(50), PayoutMethod::Cash, 800, 0).unwrap();
    select_provider(&mut w, &lp, key(3)).unwrap();
    update_provider_availability(&mut lp, key(5), 300, true).unwrap();
    assert_eq!(finalize_withdrawal(&mut w, &mut lp, key(3), key(6), 1), Err(CrossPayError::Unauthorized));
    finalize_withdrawal(&mut w, &mut lp, key(3), key(5), 1).unwrap();
    assert_eq!(lp.available_liquidity, 0);
    assert_eq!(lp.total_volume, 800);
    assert_eq!(lp.completed_transactions, 1);
    assert_eq!(finalize_withdrawal(&mut w, &mut lp, key(3), key(5), 2), Err(CrossPayError::InvalidWithdrawalStatus));
    assert_eq!(lp.completed_transactions, 1);
    assert_eq!(lp.total_volume, 800);
}

#[test]
fn finalize_needs_a_selected_provider() {
    let payee = profile(3, false);
    let mut lp = provider(5, 1_000, true);
    let mut w = request_withdrawal(&program(), &payee, key(3), 10, key(50), PayoutMethod::Cash, 10, 0).unwrap();
    assert_eq!(finalize_withdrawal(&mut w, &mut lp, key(3), key(5), 1), Err(CrossPayError::InvalidWithdrawalStatus));
}

#[test]
fn derived_addresses_match_the_program_address_scheme() {
    let pid = Pubkey::new_from_array([200; 32]);
    let sender = [1u8; 32];
    let receiver = [2u8; 32];
    let (expected, bump) = Pubkey::find_program_address(&[b"transfer_request", &sender, &receiver, &7u64.to_le_bytes()], &pid);
    let (got, got_bump) = transfer_request_address(&program(), &key(1), &key(2), 7).unwrap();
    assert_eq!(got.to_bytes(), expected.to_bytes());
    assert_eq!(got_bump, bump);
    assert_ne!(got.to_bytes(), [200; 32]);
    let (w_expected, _) = Pubkey::find_program_address(&[b"withdrawal_request", &sender, &3u64.to_le_bytes()], &pid);
    assert_eq!(withdrawal_request_address(&program(), &key(1), 3).unwrap().0.to_bytes(), w_expected.to_bytes());
    let (u_expected, _) = Pubkey::find_program_address(&[b"user_profile", &sender], &pid);
    assert_eq!(user_profile_address(&program(), &key(1)).unwrap().0.to_bytes(), u_expected.to_bytes());
    let (l_expected, _) = Pubkey::find_program_address(&[b"liquidity_provider", &sender], &pid);
    assert_eq!(liquidity_provider_address(&program(), &key(1)).unwrap().0.to_bytes(), l_expected.to_bytes());
}

#[test]
fn addresses_are_deterministic_and_differ_by_nonce() {
    let a = transfer_request_address(&program(), &key(1), &key(2), 0).unwrap();
    let b = transfer_request_address(&program(), &key(1), &key(2), 0).unwrap();
    let c = transfer_request_address(&program(), &key(1), &key(2), 1).unwrap();
    let d = transfer_request_address(&program(), &key(1), &key(3), 0).unwrap();
    assert_eq!(a, b);
    assert_ne!(a.0, c.0);
    assert_ne!(a.0, d.0);
}

#[test]
fn created_records_carry_their_derived_address() {
    let sender = profile(1, true);
    let t = initiate_transfer(&program(), &sender, key(1), key(2), 10, key(50), 10, 0).unwrap();
    let (addr, bump) = transfer_request_address(&program(), &key(1), &key(2), 0).unwrap();
    assert_eq!(t.address, addr);
    assert_eq!(t.bump, bump);
    let (_, pbump) = user_profile_address(&program(), &key(1)).unwrap();
    assert_eq!(sender.bump, pbump);
}
