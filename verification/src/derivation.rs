use vstd::prelude::*;
use crate::addr::{addr_eq, addr_to_vec, Address};

verus! {

/// Seed tags, domain-separating the three families of derived addresses.
#[derive(Clone, Copy, Debug, PartialEq, Eq, Structural)]
pub enum SeedTag {
    Merchant,
    RewardPoints,
    LoyaltyNft,
}

/// The byte string each tag contributes as the leading derivation seed:
/// the ASCII bytes of "MERCHANT", "REWARD_POINTS" and "LOYALTY_NFT".
pub open spec fn tag_bytes_spec(t: SeedTag) -> Seq<u8> {
    match t {
        SeedTag::Merchant => seq![77u8, 69, 82, 67, 72, 65, 78, 84],
        SeedTag::RewardPoints => seq![82u8, 69, 87, 65, 82, 68, 95, 80, 79, 73, 78, 84, 83],
        SeedTag::LoyaltyNft => seq![76u8, 79, 89, 65, 76, 84, 89, 95, 78, 70, 84],
    }
}

pub fn tag_bytes(t: SeedTag) -> (v: Vec<u8>)
    ensures
        v@ == tag_bytes_spec(t),
{
    let mut v: Vec<u8> = Vec::new();
    match t {
        SeedTag::Merchant => {
            v.push(77);
            v.push(69);
            v.push(82);
            v.push(67);
            v.push(72);
            v.push(65);
            v.push(78);
            v.push(84);
        },
        SeedTag::RewardPoints => {
            v.push(82);
            v.push(69);
            v.push(87);
            v.push(65);
            v.push(82);
            v.push(68);
            v.push(95);
            v.push(80);
            v.push(79);
            v.push(73);
            v.push(78);
            v.push(84);
            v.push(83);
        },
        SeedTag::LoyaltyNft => {
            v.push(76);
            v.push(79);
            v.push(89);
            v.push(65);
            v.push(76);
            v.push(84);
            v.push(89);
            v.push(95);
            v.push(78);
            v.push(70);
            v.push(84);
        },
    }
    proof {
        assert(v@ =~= tag_bytes_spec(t));
    }
    v
}

/// What `Pubkey::try_find_program_address` returns for a seed list under a
/// deriving program: the first disambiguator, searched from the top of the
/// byte range downward, whose domain-separated hash of the seeds falls
/// outside the reserved signing-identity subset, paired with that hash as
/// the derived address — or nothing, in the statistically negligible case
/// that no disambiguator works or a seed exceeds the length the hash
/// accepts.  The result is a function of the seeds and the program alone.
pub uninterp spec fn derived_address(seeds: Seq<Seq<u8>>, program: Seq<u8>) -> Option<(Seq<u8>, u8)>;

/// A seed list as the sequence of its byte sequences.
pub open spec fn seeds_view(s: Seq<Vec<u8>>) -> Seq<Seq<u8>> {
    s.map_values(|v: Vec<u8>| v@)
}

/// A parent-address list as the sequence of its byte sequences.
pub open spec fn addrs_view(s: Seq<Address>) -> Seq<Seq<u8>> {
    s.map_values(|a: Address| a@)
}

/// Relies on `Pubkey::try_find_program_address`: a pure search over the
/// seed bytes and the program id that never panics and touches nothing
/// outside its arguments.
#[verifier::external_body]
fn find_derived_address(seeds: &Vec<Vec<u8>>, program: &Address) -> (r: Option<(Address, u8)>)
    ensures
        match r {
            Some(p) => derived_address(seeds_view(seeds@), program@) == Some((p.0@, p.1)),
            None => derived_address(seeds_view(seeds@), program@) is None,
        },
{
    let refs: Vec<&[u8]> = seeds.iter().map(|s| s.as_slice()).collect();
    let program_key = anchor_lang::prelude::Pubkey::new_from_array(program.bytes);
    match anchor_lang::prelude::Pubkey::try_find_program_address(&refs, &program_key) {
        Some((key, disambiguator)) => {
            Some((Address { bytes: key.to_bytes() }, disambiguator))
        },
        None => None,
    }
}

/// The canonical derivation for a tag and its parent addresses: the
/// tag's byte string followed by the parents, hashed under the program.
pub open spec fn derivation_of(tag: SeedTag, parents: Seq<Seq<u8>>, program: Seq<u8>) -> Option<
    (Seq<u8>, u8),
> {
    derived_address(seq![tag_bytes_spec(tag)] + parents, program)
}

/// Derives the collision-resistant, parent-scoped address for a tag and
/// parent identifiers under the deriving program, together with the
/// disambiguator that must be persisted to act as that address later.
pub fn derive_address(tag: SeedTag, parents: &Vec<Address>, program: &Address) -> (r: Option<
    (Address, u8),
>)
    ensures
        match r {
            Some(p) => derivation_of(tag, addrs_view(parents@), program@) == Some((p.0@, p.1)),
            None => derivation_of(tag, addrs_view(parents@), program@) is None,
        },
{
    let mut seeds: Vec<Vec<u8>> = Vec::new();
    seeds.push(tag_bytes(tag));
    let mut i: usize = 0;
    while i < parents.len()
        invariant
            0 <= i <= parents.len(),
            seeds_view(seeds@) =~= seq![tag_bytes_spec(tag)] + addrs_view(
                parents@.take(i as int),
            ),
        decreases parents.len() - i,
    {
        let ghost seeds_before = seeds@;
        let parent_bytes = addr_to_vec(&parents[i]);
        seeds.push(parent_bytes);
        proof {
            assert(seeds_view(seeds@) =~= seeds_view(seeds_before).push(parents@[i as int]@));
            assert(parents@.take(i + 1) =~= parents@.take(i as int).push(parents@[i as int]));
            assert(addrs_view(parents@.take(i + 1)) =~= addrs_view(parents@.take(i as int)).push(
                parents@[i as int]@,
            ));
            assert(seeds_view(seeds@) =~= seq![tag_bytes_spec(tag)] + addrs_view(
                parents@.take(i + 1),
            ));
        }
        i += 1;
    }
    proof {
        assert(parents@.take(parents@.len() as int) =~= parents@);
        assert(seeds_view(seeds@) =~= seq![tag_bytes_spec(tag)] + addrs_view(parents@));
    }
    find_derived_address(&seeds, program)
}

/// Re-derivation determinism: two derivations with identical tag, parent
/// identifiers and program agree on the address and the disambiguator.
pub proof fn lemma_derivation_deterministic(
    tag: SeedTag,
    parents: Seq<Seq<u8>>,
    program: Seq<u8>,
    r1: Option<(Seq<u8>, u8)>,
    r2: Option<(Seq<u8>, u8)>,
)
    requires
        r1 == derivation_of(tag, parents, program),
        r2 == derivation_of(tag, parents, program),
    ensures
        r1 == r2,
{
}

/// A derivation capability: proof of authority over a derived address,
/// presented as the derivation path itself rather than a signature.  The
/// executor accepts it for exactly the address the path re-derives; no
/// private key for a derived address ever exists.
pub struct DerivationPath {
    pub tag: SeedTag,
    pub parents: Vec<Address>,
    pub disambiguator: u8,
}

/// Whether a path is a valid capability for an address: re-deriving with
/// the stored disambiguator reproduces exactly that address.
pub open spec fn path_authorizes(path: DerivationPath, addr: Seq<u8>, program: Seq<u8>) -> bool {
    derivation_of(path.tag, addrs_view(path.parents@), program) == Some((addr, path.disambiguator))
}

/// The executor's capability check: re-derives the path and compares the
/// result against the claimed address and stored disambiguator.
pub fn check_path(path: &DerivationPath, claimed: &Address, program: &Address) -> (r: bool)
    ensures
        r == path_authorizes(*path, claimed@, program@),
{
    match derive_address(path.tag, &path.parents, program) {
        Some(p) => {
            let matches_addr = addr_eq(&p.0, claimed);
            matches_addr && p.1 == path.disambiguator
        },
        None => false,
    }
}

/// The program id of the asset ledger, which enters every holding-account
/// derivation.  Relies on `anchor_spl::token::ID`; the bytes are that
/// constant's base58 value decoded.
pub open spec fn token_program_bytes() -> Seq<u8> {
    seq![
        6u8, 221, 246, 225, 215, 101, 161, 147, 217, 203, 225, 70, 206, 235, 121, 172, 28, 180,
        133, 237, 95, 91, 55, 145, 58, 140, 245, 133, 126, 255, 0, 169,
    ]
}

/// Relies on `anchor_spl::token::ID`: the asset-ledger program id, a fixed
/// 32-byte constant.
#[verifier::external_body]
pub(crate) fn token_program_id() -> (r: Address)
    ensures
        r@ == token_program_bytes(),
{
    Address { bytes: anchor_spl::token::ID.to_bytes() }
}

/// The program id under which holding accounts are derived.  Relies on
/// `anchor_spl::associated_token::ID`; the bytes are that constant's
/// base58 value decoded.
pub open spec fn holding_program_bytes() -> Seq<u8> {
    seq![
        140u8, 151, 37, 143, 78, 36, 137, 241, 187, 61, 16, 41, 20, 142, 13, 131, 11, 90, 19, 153,
        218, 255, 16, 132, 4, 142, 123, 216, 219, 233, 248, 89,
    ]
}

/// Relies on `anchor_spl::associated_token::ID`: the holding-account
/// program id, a fixed 32-byte constant.
#[verifier::external_body]
pub(crate) fn holding_program_id() -> (r: Address)
    ensures
        r@ == holding_program_bytes(),
{
    Address { bytes: anchor_spl::associated_token::ID.to_bytes() }
}

/// The canonical per-owner, per-asset holding-account derivation: the
/// owner, the asset-ledger program id and the asset, hashed under the
/// holding-account program.
pub open spec fn holding_derivation(owner: Seq<u8>, asset: Seq<u8>) -> Option<(Seq<u8>, u8)> {
    derived_address(seq![owner, token_program_bytes(), asset], holding_program_bytes())
}

/// Derives the holding-account address for an owner and an asset.
pub fn derive_holding_address(owner: &Address, asset: &Address) -> (r: Option<(Address, u8)>)
    ensures
        match r {
            Some(p) => holding_derivation(owner@, asset@) == Some((p.0@, p.1)),
            None => holding_derivation(owner@, asset@) is None,
        },
{
    let token_program = token_program_id();
    let mut seeds: Vec<Vec<u8>> = Vec::new();
    seeds.push(addr_to_vec(owner));
    seeds.push(addr_to_vec(&token_program));
    seeds.push(addr_to_vec(asset));
    proof {
        assert(seeds_view(seeds@) =~= seq![owner@, token_program_bytes(), asset@]);
    }
    find_derived_address(&seeds, &holding_program_id())
}

} // verus!
