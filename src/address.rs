use crate::identity::Identity;
use anchor_lang::prelude::Pubkey;
use vstd::prelude::*;

verus! {

/// The program-derived address and bump seed for `seeds` under `program`,
/// or `None` when no viable bump seed exists.
pub uninterp spec fn program_address(seeds: Seq<Seq<u8>>, program: Seq<u8>) -> Option<(Seq<u8>, u8)>;

/// Largest number of seeds (excluding the bump seed) accepted by address derivation.
pub const MAX_SEEDS: usize = 16;

/// Largest length of a single seed accepted by address derivation.
pub const MAX_SEED_LEN: usize = 32;

pub open spec fn seeds_view(seeds: Seq<Vec<u8>>) -> Seq<Seq<u8>> {
    Seq::new(seeds.len(), |i: int| seeds[i]@)
}

pub open spec fn found_view(r: Option<(Identity, u8)>) -> Option<(Seq<u8>, u8)> {
    match r {
        Some((a, b)) => Some((a@, b)),
        None => None,
    }
}

/// Relies on `Pubkey::try_find_program_address` (solana-address, re-exported by
/// anchor_lang): the result depends on the seeds and the program id alone, and is
/// `None` when there are `MAX_SEEDS` seeds or more, or when a seed is longer than
/// `MAX_SEED_LEN` bytes.
#[verifier::external_body]
pub(crate) fn find_address(seeds: &Vec<Vec<u8>>, program: &Identity) -> (r: Option<(Identity, u8)>)
    ensures
        found_view(r) == program_address(seeds_view(seeds@), program@),
        seeds@.len() >= MAX_SEEDS ==> r is None,
        (exists|i: int| 0 <= i < seeds@.len() && seeds@[i]@.len() > MAX_SEED_LEN) ==> r is None,
{
    let parts: Vec<&[u8]> = seeds.iter().map(|s| s.as_slice()).collect();
    let program_id = Pubkey::new_from_array(program.bytes);
    Pubkey::try_find_program_address(&parts, &program_id).map(
        |(a, bump)| (Identity { bytes: a.to_bytes() }, bump),
    )
}

/// Little-endian byte `k` of a timestamp.
pub open spec fn le_byte(t: i64, k: int) -> u8 {
    ((t as u64) >> ((8 * k) as u64)) as u8
}

/// Little-endian encoding of a timestamp, eight bytes.
pub open spec fn le_bytes(t: i64) -> Seq<u8> {
    Seq::new(8, |k: int| le_byte(t, k))
}

pub fn timestamp_le_bytes(t: i64) -> (r: Vec<u8>)
    ensures
        r@ == le_bytes(t),
{
    let v: u64 = t as u64;
    let mut out: Vec<u8> = Vec::new();
    let mut k: u64 = 0;
    while k < 8
        invariant
            0 <= k <= 8,
            v == t as u64,
            out@ =~= Seq::new(k as nat, |j: int| le_byte(t, j)),
        decreases 8 - k,
    {
        out.push((v >> (8 * k)) as u8);
        k = k + 1;
    }
    out
}

} // verus!
