use crosspay::codec::{
    decode_transfer, decode_withdrawal, encode_transfer, encode_withdrawal, TRANSFER_RECORD_LEN,
    WITHDRAWAL_RECORD_LEN,
};
use crosspay::registry::{initialize_user, register_liquidity_provider, update_kyc_status};
use crosspay::state::{Key, PayoutMethod, UserRole};
use crosspay::transfer::initiate_transfer;
use crosspay::withdrawal::{request_withdrawal, select_provider};

fn key(b: u8) -> Key {
    Key::new([b; 32])
}

#[test]
fn fresh_transfer_round_trips_through_storage() {
    let mut p = initialize_user(&key(200), key(1), UserRole::Sender, "KE".to_string(), 3).unwrap();
    update_kyc_status(&mut p, key(1), true, [4; 32]).unwrap();
    let t = initiate_transfer(&key(200), &p, key(1), key(2), 1_000_000_000, key(50), 1_000_000_000, -17).unwrap();
    let bytes = encode_transfer(&t);
    assert_eq!(bytes.len(), TRANSFER_RECORD_LEN);
    assert_eq!(&bytes[64..72], &1_000_000_000u64.to_le_bytes());
    assert_eq!(bytes[120], 0);
    assert_eq!(decode_transfer(&bytes), Some(t));
    let mut done = t;
    done.completed_at = Some(i64::MIN);
    assert_eq!(decode_transfer(&encode_transfer(&done)), Some(done));
}

#[test]
fn fresh_withdrawal_round_trips_through_storage() {
    let p = initialize_user(&key(200), key(3), UserRole::Receiver, "GH".to_string(), 3).unwrap();
    let mut lp = register_liquidity_provider(&key(200), key(5), "Accra".to_string(), 12, 0).unwrap();
    lp.available_liquidity = 100;
    let mut w = request_withdrawal(&key(200), &p, key(3), 90, key(50), PayoutMethod::BankTransfer, 90, 77).unwrap();
    let bytes = encode_withdrawal(&w);
    assert_eq!(bytes.len(), WITHDRAWAL_RECORD_LEN);
    assert_eq!(decode_withdrawal(&bytes), Some(w));
    select_provider(&mut w, &lp, key(3)).unwrap();
    assert_eq!(decode_withdrawal(&encode_withdrawal(&w)), Some(w));
}

#[test]
fn malformed_records_are_refused() {
    let p = initialize_user(&key(200), key(3), UserRole::Receiver, "GH".to_string(), 3).unwrap();
    let w = request_withdrawal(&key(200), &p, key(3), 90, key(50), PayoutMethod::Cash, 90, 77).unwrap();
    let mut bytes = encode_withdrawal(&w);
    bytes[106] = 9;
    assert_eq!(decode_withdrawal(&bytes), None);
    bytes.pop();
    assert_eq!(decode_withdrawal(&bytes), None);
    assert_eq!(decode_transfer(&[0u8; 10]), None);
    let mut t = vec![0u8; TRANSFER_RECORD_LEN];
    t[129] = 2;
    assert_eq!(decode_transfer(&t), None);
}
