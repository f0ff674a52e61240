use vstd::prelude::*;
use crate::addr::Address;
use crate::errors::LoyaltyError;
use crate::state::MerchantState;

verus! {

/// Little-endian bytes of a 16-bit rate field.
pub open spec fn u16_le(v: u16) -> Seq<u8> {
    seq![(v % 256) as u8, (v / 256) as u8]
}

/// A rate field read back from its two little-endian bytes.
pub open spec fn u16_of_le(lo: u8, hi: u8) -> int {
    lo + 256 * hi
}

/// The persisted merchant-record layout, fixed-size fields in order: an
/// 8-byte record-kind tag, the authority (32), the payment destination
/// (32), the reward-point asset (32), the reward rate (2, little-endian
/// unsigned), the loyalty-collection asset (32) and the loyalty-discount
/// rate (2) — 140 bytes in all.
pub open spec fn merchant_record_bytes(kind: Seq<u8>, m: MerchantState) -> Seq<u8> {
    kind + m.authority@ + m.payment_destination@ + m.reward_points_mint@ + u16_le(
        m.reward_points_basis_points,
    ) + m.loyalty_collection_mint@ + u16_le(m.loyalty_discount_basis_points)
}

/// Serializes a merchant record under a record-kind tag.
pub fn encode_merchant(kind: &Vec<u8>, m: &MerchantState) -> (r: Vec<u8>)
    requires
        kind@.len() == 8,
    ensures
        r@ == merchant_record_bytes(kind@, *m),
        r@.len() == 140,
{
    let mut out: Vec<u8> = Vec::new();
    out.extend_from_slice(kind.as_slice());
    out.extend_from_slice(m.authority.bytes.as_slice());
    out.extend_from_slice(m.payment_destination.bytes.as_slice());
    out.extend_from_slice(m.reward_points_mint.bytes.as_slice());
    out.push((m.reward_points_basis_points % 256) as u8);
    out.push((m.reward_points_basis_points / 256) as u8);
    out.extend_from_slice(m.loyalty_collection_mint.bytes.as_slice());
    out.push((m.loyalty_discount_basis_points % 256) as u8);
    out.push((m.loyalty_discount_basis_points / 256) as u8);
    proof {
        assert(out@ =~= merchant_record_bytes(kind@, *m));
    }
    out
}

/// One 32-byte address read out of a record.
fn read_addr(bytes: &Vec<u8>, off: usize) -> (a: Address)
    requires
        off + 32 <= bytes@.len(),
    ensures
        a@ == bytes@.subrange(off as int, off as int + 32),
{
    let len = bytes.len();
    let mut arr = [0u8; 32];
    let mut i: usize = 0;
    while i < 32
        invariant
            0 <= i <= 32,
            off + 32 <= len,
            len == bytes@.len(),
            forall|j: int| 0 <= j < i ==> arr@[j] == bytes@[off + j],
        decreases 32 - i,
    {
        arr[i] = bytes[off + i];
        i += 1;
    }
    proof {
        assert(arr@ =~= bytes@.subrange(off as int, off as int + 32));
    }
    Address { bytes: arr }
}

/// Deserializes a persisted merchant record, validating the two rate
/// fields against the ledger's invariant that every rate stays within
/// 10000 basis points.  It fails with `NotFound` when the buffer is not
/// exactly one record long, and with `ArithmeticOverflow` when a rate
/// field exceeds the range; on success the buffer is exactly the
/// returned tag and record's layout.
pub fn decode_merchant(bytes: &Vec<u8>) -> (r: Result<(Vec<u8>, MerchantState), LoyaltyError>)
    ensures
        match r {
            Ok(d) => {
                &&& d.0@.len() == 8
                &&& d.1.wf()
                &&& bytes@ == merchant_record_bytes(d.0@, d.1)
            },
            Err(e) => {
                &&& (e == LoyaltyError::NotFound <==> bytes@.len() != 140)
                &&& e == LoyaltyError::ArithmeticOverflow <==> bytes@.len() == 140 && (u16_of_le(
                    bytes@[104],
                    bytes@[105],
                ) > 10000 || u16_of_le(bytes@[138], bytes@[139]) > 10000)
            },
        },
{
    if bytes.len() != 140 {
        return Err(LoyaltyError::NotFound);
    }
    let reward_rate: u16 = bytes[104] as u16 + 256 * (bytes[105] as u16);
    let discount_rate: u16 = bytes[138] as u16 + 256 * (bytes[139] as u16);
    if reward_rate > 10000 || discount_rate > 10000 {
        return Err(LoyaltyError::ArithmeticOverflow);
    }
    let mut kind: Vec<u8> = Vec::new();
    let mut i: usize = 0;
    while i < 8
        invariant
            0 <= i <= 8,
            bytes@.len() == 140,
            kind@.len() == i,
            forall|j: int| 0 <= j < i ==> kind@[j] == bytes@[j],
        decreases 8 - i,
    {
        kind.push(bytes[i]);
        i += 1;
    }
    let record = MerchantState {
        authority: read_addr(bytes, 8),
        payment_destination: read_addr(bytes, 40),
        reward_points_mint: read_addr(bytes, 72),
        reward_points_basis_points: reward_rate,
        loyalty_collection_mint: read_addr(bytes, 106),
        loyalty_discount_basis_points: discount_rate,
    };
    proof {
        assert(reward_rate % 256 == bytes@[104] && reward_rate / 256 == bytes@[105]) by {
            assert(reward_rate == bytes@[104] + 256 * bytes@[105]);
        }
        assert(discount_rate % 256 == bytes@[138] && discount_rate / 256 == bytes@[139]) by {
            assert(discount_rate == bytes@[138] + 256 * bytes@[139]);
        }
        assert(bytes@ =~= merchant_record_bytes(kind@, record));
    }
    Ok((kind, record))
}

/// The layout is lossless: two records persisted as the same bytes are
/// the same record under the same record-kind tag.
pub proof fn lemma_merchant_record_injective(
    k1: Seq<u8>,
    m1: MerchantState,
    k2: Seq<u8>,
    m2: MerchantState,
)
    requires
        k1.len() == 8,
        k2.len() == 8,
        merchant_record_bytes(k1, m1) == merchant_record_bytes(k2, m2),
    ensures
        k1 == k2,
        m1 == m2,
{
    let s1 = merchant_record_bytes(k1, m1);
    let s2 = merchant_record_bytes(k2, m2);
    assert forall|i: int| 0 <= i < 8 implies k1[i] == k2[i] by {
        assert(s1[i] == k1[i]);
        assert(s2[i] == k2[i]);
    }
    assert(k1 =~= k2);
    assert forall|i: int| 0 <= i < 32 implies m1.authority@[i] == m2.authority@[i] by {
        assert(s1[8 + i] == m1.authority@[i]);
        assert(s2[8 + i] == m2.authority@[i]);
    }
    assert(m1.authority.bytes =~= m2.authority.bytes);
    assert forall|i: int|
        0 <= i < 32 implies m1.payment_destination@[i] == m2.payment_destination@[i] by {
        assert(s1[40 + i] == m1.payment_destination@[i]);
        assert(s2[40 + i] == m2.payment_destination@[i]);
    }
    assert(m1.payment_destination.bytes =~= m2.payment_destination.bytes);
    assert forall|i: int|
        0 <= i < 32 implies m1.reward_points_mint@[i] == m2.reward_points_mint@[i] by {
        assert(s1[72 + i] == m1.reward_points_mint@[i]);
        assert(s2[72 + i] == m2.reward_points_mint@[i]);
    }
    assert(m1.reward_points_mint.bytes =~= m2.reward_points_mint.bytes);
    assert forall|i: int|
        0 <= i < 32 implies m1.loyalty_collection_mint@[i] == m2.loyalty_collection_mint@[i] by {
        assert(s1[106 + i] == m1.loyalty_collection_mint@[i]);
        assert(s2[106 + i] == m2.loyalty_collection_mint@[i]);
    }
    assert(m1.loyalty_collection_mint.bytes =~= m2.loyalty_collection_mint.bytes);
    assert(m1.reward_points_basis_points == m2.reward_points_basis_points) by {
        assert(s1[104] == (m1.reward_points_basis_points % 256) as u8 && s1[105] == (
        m1.reward_points_basis_points / 256) as u8);
        assert(s2[104] == (m2.reward_points_basis_points % 256) as u8 && s2[105] == (
        m2.reward_points_basis_points / 256) as u8);
        assert(m1.reward_points_basis_points == 256 * (m1.reward_points_basis_points / 256) + (
        m1.reward_points_basis_points % 256));
        assert(m2.reward_points_basis_points == 256 * (m2.reward_points_basis_points / 256) + (
        m2.reward_points_basis_points % 256));
    }
    assert(m1.loyalty_discount_basis_points == m2.loyalty_discount_basis_points) by {
        assert(s1[138] == (m1.loyalty_discount_basis_points % 256) as u8 && s1[139] == (
        m1.loyalty_discount_basis_points / 256) as u8);
        assert(s2[138] == (m2.loyalty_discount_basis_points % 256) as u8 && s2[139] == (
        m2.loyalty_discount_basis_points / 256) as u8);
        assert(m1.loyalty_discount_basis_points == 256 * (m1.loyalty_discount_basis_points / 256)
            + (m1.loyalty_discount_basis_points % 256));
        assert(m2.loyalty_discount_basis_points == 256 * (m2.loyalty_discount_basis_points / 256)
            + (m2.loyalty_discount_basis_points % 256));
    }
}

} // verus!
