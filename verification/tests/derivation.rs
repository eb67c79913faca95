use vaults::pda::{lp_token_seeds, vault_seeds, vault_signer_seeds, LP_TOKEN_SEED, PROGRAM_ID, VAULT_SEED};
use vaults::state::{Pubkey, Vault};

use anchor_lang::solana_program::pubkey::Pubkey as SolanaPubkey;

fn pk(b: u8) -> Pubkey {
    Pubkey { bytes: [b; 32] }
}

#[test]
fn seed_tags_spell_their_names() {
    assert_eq!(&VAULT_SEED, b"VAULT");
    assert_eq!(&LP_TOKEN_SEED, b"LP_TOKEN");
}

#[test]
fn vault_seeds_hold_tag_authority_and_id() {
    let seeds = vault_seeds(&pk(9), 7);
    assert_eq!(seeds.len(), 3);
    assert_eq!(seeds[0], b"VAULT".to_vec());
    assert_eq!(seeds[1], vec![9u8; 32]);
    assert_eq!(seeds[2], 7u64.to_le_bytes().to_vec());
}

#[test]
fn signer_seeds_append_the_stored_bump() {
    let base = vault_seeds(&pk(9), 7);
    let signer = vault_signer_seeds(&pk(9), 7, 253);
    assert_eq!(signer.len(), 4);
    assert_eq!(&signer[..3], &base[..]);
    assert_eq!(signer[3], vec![253u8]);
}

#[test]
fn derive_address_matches_the_solana_derivation() {
    let authority = pk(9);
    let id: u64 = 7;
    let pid = SolanaPubkey::new_from_array(PROGRAM_ID);
    let (expected, expected_bump) = SolanaPubkey::find_program_address(
        &[b"VAULT", &authority.bytes, &id.to_le_bytes()],
        &pid,
    );
    let (addr, bump) = Vault::derive_address(&authority, id).unwrap();
    assert_eq!(addr.bytes, expected.to_bytes());
    assert_eq!(bump, expected_bump);
}

#[test]
fn derive_address_is_deterministic_and_keyless() {
    let a = Vault::derive_address(&pk(9), 7).unwrap();
    let b = Vault::derive_address(&pk(9), 7).unwrap();
    assert_eq!(a.0.bytes, b.0.bytes);
    assert_eq!(a.1, b.1);
    // The derived address is not the authority handed in.
    assert_ne!(a.0.bytes, pk(9).bytes);
}

#[test]
fn derive_address_depends_on_authority_and_id() {
    let base = Vault::derive_address(&pk(9), 7).unwrap();
    let other_id = Vault::derive_address(&pk(9), 8).unwrap();
    let other_auth = Vault::derive_address(&pk(10), 7).unwrap();
    assert_ne!(base.0.bytes, other_id.0.bytes);
    assert_ne!(base.0.bytes, other_auth.0.bytes);
}

#[test]
fn derive_lp_token_mint_matches_the_solana_derivation() {
    let vault_addr = pk(5);
    let token_mint = pk(1);
    let pid = SolanaPubkey::new_from_array(PROGRAM_ID);
    let (expected, expected_bump) = SolanaPubkey::find_program_address(
        &[b"LP_TOKEN", &vault_addr.bytes, &token_mint.bytes],
        &pid,
    );
    let (addr, bump) = Vault::derive_lp_token_mint(&vault_addr, &token_mint).unwrap();
    assert_eq!(addr.bytes, expected.to_bytes());
    assert_eq!(bump, expected_bump);
    let seeds = lp_token_seeds(&vault_addr, &token_mint);
    assert_eq!(seeds.len(), 3);
    assert_eq!(seeds[0], b"LP_TOKEN".to_vec());
    assert_eq!(seeds[1], vec![5u8; 32]);
    assert_eq!(seeds[2], vec![1u8; 32]);
}

#[test]
fn each_token_line_gets_its_own_lp_mint_address() {
    let vault_addr = pk(5);
    let a = Vault::derive_lp_token_mint(&vault_addr, &pk(1)).unwrap();
    let b = Vault::derive_lp_token_mint(&vault_addr, &pk(2)).unwrap();
    assert_ne!(a.0.bytes, b.0.bytes);
    let again = Vault::derive_lp_token_mint(&vault_addr, &pk(1)).unwrap();
    assert_eq!(a.0.bytes, again.0.bytes);
    assert_eq!(a.1, again.1);
}
