use vstd::prelude::*;
use vstd::bytes::{spec_u64_to_le_bytes, u64_to_le_bytes};
use vstd::slice::slice_to_vec;
use crate::state::{Pubkey, Vault};

verus! {

/// The seed tag for the derived address of a [`Vault`] (the ASCII bytes of
/// `VAULT`).
pub const VAULT_SEED: [u8; 5] = [86, 65, 85, 76, 84];

/// The seed tag for the derived address of a vault's LP token mint (the
/// ASCII bytes of `LP_TOKEN`).
pub const LP_TOKEN_SEED: [u8; 8] = [76, 80, 95, 84, 79, 75, 69, 78];

/// The address of the program that owns vault records; the base of every
/// derived address.
pub const PROGRAM_ID: [u8; 32] = [
    218, 7, 92, 178, 255, 94, 198, 129, 118, 19, 222, 83, 11, 105, 42, 135, 53, 71, 119, 105, 218,
    71, 67, 12, 189, 129, 84, 51, 92, 74, 131, 39,
];

/// The program-derived address and bump for a seed tuple under a program id,
/// or nothing when no bump yields a valid off-curve derivation. The result
/// is a function of the seeds and program id alone.
pub uninterp spec fn pda_of(seeds: Seq<Seq<u8>>, program_id: Seq<u8>) -> Option<(Seq<u8>, u8)>;

/// The mathematical view of a derived address result.
pub open spec fn spec_pda_view(r: Option<(Pubkey, u8)>) -> Option<(Seq<u8>, u8)> {
    match r {
        Some(p) => Some((p.0@, p.1)),
        None => None,
    }
}

/// Relies on solana's `Pubkey::try_find_program_address`: the derived
/// address and bump depend on the seed tuple and program id alone. `None`
/// comes back only when the seed tuple itself is rejected (too many seeds,
/// or one longer than the maximum) or when no bump seed yields a valid
/// (off-curve) derivation.
#[verifier::external_body]
fn find_program_address(seeds: &Vec<Vec<u8>>, program_id: &Pubkey) -> (r: Option<(Pubkey, u8)>)
    ensures
        spec_pda_view(r) == pda_of(seeds@.map_values(|s: Vec<u8>| s@), program_id@),
{
    let refs: Vec<&[u8]> = seeds.iter().map(|s| s.as_slice()).collect();
    let pid = anchor_lang::solana_program::pubkey::Pubkey::new_from_array(program_id.bytes);
    anchor_lang::solana_program::pubkey::Pubkey::try_find_program_address(&refs, &pid).map(
        |ab: (anchor_lang::solana_program::pubkey::Pubkey, u8)|
            (Pubkey { bytes: ab.0.to_bytes() }, ab.1),
    )
}

/// The seed tuple fixed at creation for a vault's derived address: the seed
/// tag, the owner authority, and the vault id in little-endian bytes.
pub open spec fn spec_vault_seeds(authority: Seq<u8>, id: u64) -> Seq<Seq<u8>> {
    seq![VAULT_SEED@, authority, spec_u64_to_le_bytes(id)]
}

/// The seed tuple for the LP token mint address of one token line: the seed
/// tag, the vault's address, and the accepted token's mint. Distinct token
/// mints on the same vault thus derive from distinct seed tuples, so each
/// token line has its own LP-mint resource.
pub open spec fn spec_lp_token_seeds(vault: Seq<u8>, token_mint: Seq<u8>) -> Seq<Seq<u8>> {
    seq![LP_TOKEN_SEED@, vault, token_mint]
}

/// Two token lines of one vault never share an LP-mint seed tuple.
pub proof fn lemma_lp_token_seeds_distinct(vault: Seq<u8>, m1: Seq<u8>, m2: Seq<u8>)
    requires
        m1 != m2,
    ensures
        spec_lp_token_seeds(vault, m1) != spec_lp_token_seeds(vault, m2),
{
    assert(spec_lp_token_seeds(vault, m1)[2] == m1);
    assert(spec_lp_token_seeds(vault, m2)[2] == m2);
}

/// The seed tuple a vault presents, together with its stored bump, when
/// signing on behalf of its delegated authority.
pub open spec fn spec_vault_signer_seeds(authority: Seq<u8>, id: u64, bump: u8) -> Seq<Seq<u8>> {
    spec_vault_seeds(authority, id).push(seq![bump])
}

/// Builds the vault seed tuple as byte vectors.
pub fn vault_seeds(authority: &Pubkey, id: u64) -> (seeds: Vec<Vec<u8>>)
    ensures
        seeds@.map_values(|s: Vec<u8>| s@) == spec_vault_seeds(authority@, id),
{
    let mut seeds: Vec<Vec<u8>> = Vec::new();
    seeds.push(slice_to_vec(VAULT_SEED.as_slice()));
    seeds.push(slice_to_vec(authority.bytes.as_slice()));
    seeds.push(u64_to_le_bytes(id));
    proof {
        assert(seeds@.map_values(|s: Vec<u8>| s@) =~= spec_vault_seeds(authority@, id));
    }
    seeds
}

/// Builds the LP token mint seed tuple as byte vectors.
pub fn lp_token_seeds(vault: &Pubkey, token_mint: &Pubkey) -> (seeds: Vec<Vec<u8>>)
    ensures
        seeds@.map_values(|s: Vec<u8>| s@) == spec_lp_token_seeds(vault@, token_mint@),
{
    let mut seeds: Vec<Vec<u8>> = Vec::new();
    seeds.push(slice_to_vec(LP_TOKEN_SEED.as_slice()));
    seeds.push(slice_to_vec(vault.bytes.as_slice()));
    seeds.push(slice_to_vec(token_mint.bytes.as_slice()));
    proof {
        assert(seeds@.map_values(|s: Vec<u8>| s@) =~= spec_lp_token_seeds(vault@, token_mint@));
    }
    seeds
}

/// Builds the seed tuple, extended with the stored bump, that proves control
/// of the vault's delegated-authority address.
pub fn vault_signer_seeds(authority: &Pubkey, id: u64, bump: u8) -> (seeds: Vec<Vec<u8>>)
    ensures
        seeds@.map_values(|s: Vec<u8>| s@) == spec_vault_signer_seeds(authority@, id, bump),
{
    let mut seeds = vault_seeds(authority, id);
    let mut bump_seed: Vec<u8> = Vec::new();
    bump_seed.push(bump);
    seeds.push(bump_seed);
    proof {
        assert(bump_seed@ =~= seq![bump]);
        assert(seeds@.map_values(|s: Vec<u8>| s@) =~= spec_vault_signer_seeds(
            authority@,
            id,
            bump,
        ));
    }
    seeds
}

impl Vault {
    /// Derives the key-less address of a vault from its owner authority and
    /// id, with the bump that makes the derivation valid.
    pub fn derive_address(authority: &Pubkey, id: u64) -> (r: Option<(Pubkey, u8)>)
        ensures
            spec_pda_view(r) == pda_of(spec_vault_seeds(authority@, id), PROGRAM_ID@),
    {
        let seeds = vault_seeds(authority, id);
        let pid = Pubkey { bytes: PROGRAM_ID };
        find_program_address(&seeds, &pid)
    }

    /// Derives the address of the LP token mint for one token line of a
    /// vault, so that every accepted token has an LP-mint resource of its
    /// own.
    pub fn derive_lp_token_mint(vault: &Pubkey, token_mint: &Pubkey) -> (r: Option<(Pubkey, u8)>)
        ensures
            spec_pda_view(r) == pda_of(spec_lp_token_seeds(vault@, token_mint@), PROGRAM_ID@),
    {
        let seeds = lp_token_seeds(vault, token_mint);
        let pid = Pubkey { bytes: PROGRAM_ID };
        find_program_address(&seeds, &pid)
    }
}

} // verus!
