use grizzly_loyalty::addr::Address;
use grizzly_loyalty::errors::LoyaltyError;
use grizzly_loyalty::layout::{decode_merchant, encode_merchant};
use grizzly_loyalty::state::MerchantState;

fn addr(b: u8) -> Address {
    Address { bytes: [b; 32] }
}

fn sample() -> MerchantState {
    MerchantState {
        authority: addr(0xAA),
        payment_destination: addr(0xBB),
        reward_points_mint: addr(0xCC),
        reward_points_basis_points: 770,
        loyalty_collection_mint: addr(0xDD),
        loyalty_discount_basis_points: 10000,
    }
}

#[test]
fn merchant_record_round_trips() {
    let kind = vec![1u8, 2, 3, 4, 5, 6, 7, 8];
    let bytes = encode_merchant(&kind, &sample());
    assert_eq!(bytes.len(), 140);
    let (kind_back, record) = decode_merchant(&bytes).unwrap();
    assert_eq!(kind_back, kind);
    assert_eq!(record.authority.bytes, [0xAA; 32]);
    assert_eq!(record.payment_destination.bytes, [0xBB; 32]);
    assert_eq!(record.reward_points_mint.bytes, [0xCC; 32]);
    assert_eq!(record.reward_points_basis_points, 770);
    assert_eq!(record.loyalty_collection_mint.bytes, [0xDD; 32]);
    assert_eq!(record.loyalty_discount_basis_points, 10000);
}

#[test]
fn merchant_record_exact_bytes() {
    let kind = vec![9u8, 9, 9, 9, 9, 9, 9, 9];
    let bytes = encode_merchant(&kind, &sample());
    assert_eq!(&bytes[0..8], &[9u8; 8]);
    assert_eq!(&bytes[8..40], &[0xAA; 32]);
    assert_eq!(&bytes[40..72], &[0xBB; 32]);
    assert_eq!(&bytes[72..104], &[0xCC; 32]);
    // 770 = 2 + 3 * 256, little-endian.
    assert_eq!(bytes[104], 2);
    assert_eq!(bytes[105], 3);
    assert_eq!(&bytes[106..138], &[0xDD; 32]);
    // 10000 = 16 + 39 * 256, little-endian.
    assert_eq!(bytes[138], 16);
    assert_eq!(bytes[139], 39);
}

#[test]
fn decode_rejects_wrong_length() {
    let short = vec![0u8; 139];
    assert_eq!(decode_merchant(&short).unwrap_err(), LoyaltyError::NotFound);
    let long = vec![0u8; 141];
    assert_eq!(decode_merchant(&long).unwrap_err(), LoyaltyError::NotFound);
}

#[test]
fn decode_rejects_out_of_range_rate() {
    let kind = vec![0u8; 8];
    let bytes = encode_merchant(&kind, &sample());
    let mut tampered = bytes.clone();
    // 10001 = 17 + 39 * 256 exceeds the full rate.
    tampered[138] = 17;
    tampered[139] = 39;
    assert_eq!(decode_merchant(&tampered).unwrap_err(), LoyaltyError::ArithmeticOverflow);
}
