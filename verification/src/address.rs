use anchor_lang::prelude::Pubkey;
use sha2::{Digest, Sha256};
use vstd::prelude::*;
use vstd::string::StringSliceAdditionalSpecFns;

use crate::error::ErrorCode;

verus! {

/// Seed discriminator of the domain configuration record.
pub const NON_TRANSFERABLE_PROJECT_PREFIX: &'static str = "nt-proj-v5";

/// Seed discriminator of the collection token of a domain.
pub const NON_TRANSFERABLE_PROJECT_MINT_PREFIX: &'static str = "nt-project-mint-v5";

/// Seed discriminator of a credential token.
pub const NON_TRANSFERABLE_NFT_MINT_PREFIX: &'static str = "nt-nft-mint-v5";

/// Seed discriminator of the record kept for one credential.
pub const DID_STATUS_PREFIX: &'static str = "nt-did-status-v5";

/// Seed discriminator of the attestation configuration record.
pub const ATTESTATION_CONFIG_PREFIX: &'static str = "attestation-config";

/// The longest single seed an address can be derived from.
pub const MAX_SEED_LEN: usize = 32;

/// One more than the largest number of seeds an address can be derived from.
pub const MAX_SEEDS: usize = 16;

/// A 32-byte identity: a wallet, a record or a token on the ledger.
#[derive(Clone, Copy, Debug)]
pub struct Address {
    pub bytes: [u8; 32],
}

impl View for Address {
    type V = Seq<u8>;

    open spec fn view(&self) -> Seq<u8> {
        self.bytes@
    }
}

impl PartialEq for Address {
    fn eq(&self, other: &Address) -> (r: bool) {
        let mut i: usize = 0;
        while i < 32
            invariant
                i <= 32,
                forall|j: int| 0 <= j < i ==> self.bytes@[j] == other.bytes@[j],
            decreases 32 - i,
        {
            if self.bytes[i] != other.bytes[i] {
                return false;
            }
            i += 1;
        }
        assert(self.bytes =~= other.bytes);
        true
    }
}

impl Eq for Address {

}

impl vstd::std_specs::cmp::PartialEqSpecImpl for Address {
    open spec fn obeys_eq_spec() -> bool {
        true
    }

    open spec fn eq_spec(&self, other: &Address) -> bool {
        *self == *other
    }
}

impl Address {
    /// The address made of the given bytes.
    pub fn new(bytes: [u8; 32]) -> (a: Address)
        ensures
            a.bytes == bytes,
    {
        Address { bytes }
    }

    /// Two addresses are the same address exactly when their bytes agree.
    pub proof fn lemma_view_injective(a: Address, b: Address)
        ensures
            (a@ == b@) <==> (a == b),
    {
        if a@ == b@ {
            assert(a.bytes =~= b.bytes);
        }
    }
}

/// The SHA-256 digest of a byte string, as the `sha2` crate computes it.
pub uninterp spec fn sha256_digest(data: Seq<u8>) -> Seq<u8>;

/// Runs `sha2::Sha256` over `data` (`new`, `update`, `finalize`).
/// The digest depends on the bytes alone and is 32 bytes long.
#[verifier::external_body]
fn sha256(data: &[u8]) -> (digest: Vec<u8>)
    ensures
        digest@ == sha256_digest(data@),
        digest@.len() == 32,
{
    let mut hasher = Sha256::new();
    hasher.update(data);
    hasher.finalize().to_vec()
}

/// The digest that stands for a seed of any length in an address derivation.
pub fn hash_seed(seed: &str) -> (digest: Vec<u8>)
    ensures
        digest@ == sha256_digest(seed.spec_bytes()),
        digest@.len() == 32,
{
    sha256(seed.as_bytes())
}

/// The value of an ASCII hexadecimal digit, upper or lower case.
pub open spec fn hex_digit_value(c: u8) -> Option<u8> {
    if 0x30 <= c <= 0x39 {
        Some((c - 0x30) as u8)
    } else if 0x61 <= c <= 0x66 {
        Some((c - 0x61 + 10) as u8)
    } else if 0x41 <= c <= 0x46 {
        Some((c - 0x41 + 10) as u8)
    } else {
        None
    }
}

/// The byte that two characters stand for: two hexadecimal digits, or a plus
/// sign and one digit; any other pair stands for 0.
pub open spec fn hex_pair_value(hi: u8, lo: u8) -> u8 {
    match (hex_digit_value(hi), hex_digit_value(lo)) {
        (Some(h), Some(l)) => (h * 16 + l) as u8,
        (None, Some(l)) => if hi == 0x2b {
            l
        } else {
            0
        },
        _ => 0,
    }
}

/// What is left of `input` once every leading `0x` is taken off.
pub open spec fn strip_hex_prefix(input: Seq<u8>) -> Seq<u8>
    decreases input.len(),
{
    if input.len() >= 2 && input[0] == 0x30 && input[1] == 0x78 {
        strip_hex_prefix(input.skip(2))
    } else {
        input
    }
}

/// The 32 bytes a commitment string stands for: with at least 64 characters
/// after the prefix, the first 64 read pair by pair; with fewer, the digest of
/// what is there.
pub open spec fn hex_to_bytes32_spec(input: Seq<u8>) -> Seq<u8> {
    let digits = strip_hex_prefix(input);
    if digits.len() >= 64 {
        Seq::new(32, |i: int| hex_pair_value(digits[2 * i], digits[2 * i + 1]))
    } else {
        sha256_digest(digits)
    }
}

fn hex_digit(c: u8) -> (r: Option<u8>)
    ensures
        r == hex_digit_value(c),
{
    if 0x30 <= c && c <= 0x39 {
        Some(c - 0x30)
    } else if 0x61 <= c && c <= 0x66 {
        Some(c - 0x61 + 10)
    } else if 0x41 <= c && c <= 0x46 {
        Some(c - 0x41 + 10)
    } else {
        None
    }
}

fn hex_pair(hi: u8, lo: u8) -> (r: u8)
    ensures
        r == hex_pair_value(hi, lo),
{
    match (hex_digit(hi), hex_digit(lo)) {
        (Some(h), Some(l)) => h * 16 + l,
        (None, Some(l)) => if hi == 0x2b {
            l
        } else {
            0
        },
        _ => 0,
    }
}

/// Reads a content commitment written as text into its 32 bytes.
pub fn hex_to_bytes32(hex_str: &str) -> (r: [u8; 32])
    ensures
        r@ == hex_to_bytes32_spec(hex_str.spec_bytes()),
{
    let bytes = hex_str.as_bytes();
    let mut start: usize = 0;
    assert(bytes@.skip(0) =~= bytes@);
    while bytes.len() - start >= 2 && bytes[start] == 0x30 && bytes[start + 1] == 0x78
        invariant
            start <= bytes.len(),
            strip_hex_prefix(bytes@) == strip_hex_prefix(bytes@.skip(start as int)),
        decreases bytes.len() - start,
    {
        proof {
            assert(bytes@.skip(start as int).skip(2) =~= bytes@.skip(start + 2));
        }
        start += 2;
    }
    let ghost digits = bytes@.skip(start as int);
    assert(strip_hex_prefix(bytes@) == digits);
    let mut result: [u8; 32] = [0u8; 32];
    if bytes.len() - start >= 64 {
        let mut i: usize = 0;
        while i < 32
            invariant
                i <= 32,
                start <= bytes.len(),
                bytes.len() - start >= 64,
                digits == bytes@.skip(start as int),
                forall|j: int|
                    0 <= j < i ==> result@[j] == hex_pair_value(
                        #[trigger] digits[2 * j],
                        digits[2 * j + 1],
                    ),
            decreases 32 - i,
        {
            result[i] = hex_pair(bytes[start + 2 * i], bytes[start + 2 * i + 1]);
            i += 1;
        }
        assert(result@ =~= hex_to_bytes32_spec(bytes@));
    } else {
        let digest = sha256(vstd::slice::slice_subrange(bytes, start, bytes.len()));
        assert(bytes@.subrange(start as int, bytes.len() as int) =~= digits);
        let mut i: usize = 0;
        while i < 32
            invariant
                i <= 32,
                digest@.len() == 32,
                forall|j: int| 0 <= j < i ==> result@[j] == digest@[j],
            decreases 32 - i,
        {
            result[i] = digest[i];
            i += 1;
        }
        assert(result@ =~= digest@);
    }
    result
}

/// The address and bump seed that `Pubkey::try_find_program_address` finds for
/// the seeds under the program `program_id`, or `None` where it finds none.
pub uninterp spec fn program_address(seeds: Seq<Seq<u8>>, program_id: Seq<u8>) -> Option<
    (Seq<u8>, u8),
>;

/// Whether a list of seeds is one the derivation takes: fewer than
/// `MAX_SEEDS` of them, none longer than `MAX_SEED_LEN`.
pub open spec fn seeds_fit(seeds: Seq<Seq<u8>>) -> bool {
    &&& seeds.len() < MAX_SEEDS
    &&& forall|i: int| 0 <= i < seeds.len() ==> (#[trigger] seeds[i]).len() <= MAX_SEED_LEN
}

/// Calls `Pubkey::try_find_program_address` of `solana-pubkey`. The search
/// depends on the seeds and the program id alone. It finds nothing where
/// there are `MAX_SEEDS` seeds or more, or one longer than `MAX_SEED_LEN`.
#[verifier::external_body]
fn find_program_address(seeds: &Vec<Vec<u8>>, program_id: &[u8; 32]) -> (r: Option<
    ([u8; 32], u8),
>)
    ensures
        match r {
            Some((address, bump)) => program_address(seeds.deep_view(), program_id@) == Some(
                (address@, bump),
            ),
            None => program_address(seeds.deep_view(), program_id@) is None,
        },
        !seeds_fit(seeds.deep_view()) ==> r is None,
{
    let slices: Vec<&[u8]> = seeds.iter().map(|seed| seed.as_slice()).collect();
    let program = Pubkey::new_from_array(*program_id);
    Pubkey::try_find_program_address(&slices, &program).map(
        |(address, bump)| (address.to_bytes(), bump),
    )
}

/// The seeds that a discriminator and a subject key derive an address from:
/// an empty subject key adds no seed.
pub open spec fn address_seeds(seed_discriminator: Seq<u8>, subject_key: Seq<u8>) -> Seq<
    Seq<u8>,
> {
    if subject_key.len() == 0 {
        seq![seed_discriminator]
    } else {
        seq![seed_discriminator, subject_key]
    }
}

/// The seeds of the record kept for one credential id and one holder.
pub open spec fn record_seeds(
    seed_discriminator: Seq<u8>,
    credential_id: Seq<u8>,
    holder: Address,
) -> Seq<Seq<u8>> {
    seq![seed_discriminator, sha256_digest(credential_id), holder@]
}

/// What deriving from `seeds` under `domain` gave, set against the named
/// search: the same address and bump, or nothing on both sides.
pub open spec fn is_derivation(
    found: Option<(Address, u8)>,
    seeds: Seq<Seq<u8>>,
    domain: Address,
) -> bool {
    match found {
        Some((address, bump)) => program_address(seeds, domain@) == Some((address@, bump)),
        None => program_address(seeds, domain@) is None,
    }
}

fn derive_from_seeds(seeds: &Vec<Vec<u8>>, domain: &Address) -> (r: Option<(Address, u8)>)
    ensures
        is_derivation(r, seeds.deep_view(), *domain),
        !seeds_fit(seeds.deep_view()) ==> r is None,
{
    match find_program_address(seeds, &domain.bytes) {
        Some((bytes, bump)) => Some((Address { bytes }, bump)),
        None => None,
    }
}

/// The address that belongs to `subject_key` in the namespace that `domain`
/// and `seed_discriminator` span, with the bump seed that completes it.
/// The same three inputs give the same answer every time. There is none where
/// the discriminator or the key is longer than `MAX_SEED_LEN`.
pub fn derive_address(domain: &Address, seed_discriminator: &str, subject_key: &[u8]) -> (r:
    Option<(Address, u8)>)
    ensures
        is_derivation(r, address_seeds(seed_discriminator.spec_bytes(), subject_key@), *domain),
        seed_discriminator.spec_bytes().len() > MAX_SEED_LEN || subject_key@.len() > MAX_SEED_LEN
            ==> r is None,
{
    let mut seeds: Vec<Vec<u8>> = Vec::new();
    seeds.push(vstd::slice::slice_to_vec(seed_discriminator.as_bytes()));
    if subject_key.len() > 0 {
        seeds.push(vstd::slice::slice_to_vec(subject_key));
    }
    proof {
        let expected = address_seeds(seed_discriminator.spec_bytes(), subject_key@);
        assert(seeds.deep_view() =~~= expected);
        if seed_discriminator.spec_bytes().len() > MAX_SEED_LEN {
            assert(expected[0].len() > MAX_SEED_LEN);
        }
        if subject_key@.len() > MAX_SEED_LEN {
            assert(expected[1].len() > MAX_SEED_LEN);
        }
    }
    derive_from_seeds(&seeds, domain)
}

/// The address of the record that a domain keeps for one credential id and
/// one holder. The id enters by its digest, so it may have any length.
pub fn derive_record_address(
    domain: &Address,
    seed_discriminator: &str,
    credential_id: &str,
    holder: &Address,
) -> (r: Option<(Address, u8)>)
    ensures
        is_derivation(
            r,
            record_seeds(seed_discriminator.spec_bytes(), credential_id.spec_bytes(), *holder),
            *domain,
        ),
        seed_discriminator.spec_bytes().len() > MAX_SEED_LEN ==> r is None,
{
    let mut seeds: Vec<Vec<u8>> = Vec::new();
    seeds.push(vstd::slice::slice_to_vec(seed_discriminator.as_bytes()));
    seeds.push(hash_seed(credential_id));
    seeds.push(vstd::slice::slice_to_vec(holder.bytes.as_slice()));
    proof {
        let expected = record_seeds(
            seed_discriminator.spec_bytes(),
            credential_id.spec_bytes(),
            *holder,
        );
        assert(seeds.deep_view() =~~= expected);
        if seed_discriminator.spec_bytes().len() > MAX_SEED_LEN {
            assert(expected[0].len() > MAX_SEED_LEN);
        }
    }
    derive_from_seeds(&seeds, domain)
}

/// Recomputes the address of `subject_key` and holds `supplied` against it.
/// Gives the bump seed where they agree; any other outcome, a derivation that
/// finds nothing among them, is `InvalidAddress`.
pub fn verify_address(
    supplied: &Address,
    domain: &Address,
    seed_discriminator: &str,
    subject_key: &[u8],
) -> (r: Result<u8, ErrorCode>)
    ensures
        match r {
            Ok(bump) => program_address(
                address_seeds(seed_discriminator.spec_bytes(), subject_key@),
                domain@,
            ) == Some((supplied@, bump)),
            Err(e) => e == ErrorCode::InvalidAddress && match program_address(
                address_seeds(seed_discriminator.spec_bytes(), subject_key@),
                domain@,
            ) {
                Some((address, _)) => address != supplied@,
                None => true,
            },
        },
{
    match derive_address(domain, seed_discriminator, subject_key) {
        Some((expected, bump)) => {
            if expected == *supplied {
                Ok(bump)
            } else {
                proof {
                    Address::lemma_view_injective(expected, *supplied);
                }
                Err(ErrorCode::InvalidAddress)
            }
        },
        None => Err(ErrorCode::InvalidAddress),
    }
}

/// Deriving twice from the same domain, discriminator and subject key gives
/// the same address and the same bump seed.
pub proof fn lemma_derive_address_deterministic(
    domain: Address,
    seed_discriminator: Seq<u8>,
    subject_key: Seq<u8>,
    first: Option<(Address, u8)>,
    second: Option<(Address, u8)>,
)
    requires
        is_derivation(first, address_seeds(seed_discriminator, subject_key), domain),
        is_derivation(second, address_seeds(seed_discriminator, subject_key), domain),
    ensures
        first == second,
{
    if let Some((a, _)) = first {
        if let Some((b, _)) = second {
            Address::lemma_view_injective(a, b);
        }
    }
}

} // verus!
