use vaults::error::ErrorCode;
use vaults::state::{CreateVaultArgs, OpenDepositsArgs, Pubkey, TokenInfo, Vault, VaultType};

fn pk(b: u8) -> Pubkey {
    Pubkey { bytes: [b; 32] }
}

fn create_args(vault_type: VaultType, capacity: usize) -> CreateVaultArgs {
    CreateVaultArgs {
        id: 7,
        vault_type,
        account_number: 1,
        account_bump: 2,
        sub_account_number: 3,
        sub_account_bump: 4,
        sub_account_alias: [0u8; 32],
        token_info_count: capacity,
    }
}

fn fresh_vault(capacity: usize) -> Vault {
    Vault::create_vault(pk(9), 254, &create_args(VaultType::MultiToken, capacity))
}

fn open_line(v: &mut Vault, mint: Pubkey, limit: u64) {
    let r = v.open_deposits(&OpenDepositsArgs { token_mint: mint, deposit_limit: limit, decimals: 6 });
    assert_eq!(r, Ok(()));
}

#[test]
fn create_vault_fixes_every_field() {
    let v = fresh_vault(4);
    assert_eq!(v.version, 1);
    assert_eq!(v.bump, 254);
    assert_eq!(v.account_number, 1);
    assert_eq!(v.sub_account_number, 3);
    assert_eq!(v.vault_type, VaultType::MultiToken);
    assert_eq!(v.id, 7);
    assert_eq!(v.authority, pk(9));
    assert_eq!(v.token_info_capacity, 4);
    assert_eq!(v.token_infos.len(), 0);
}

#[test]
fn init_resets_an_existing_record() {
    let mut v = fresh_vault(4);
    v.init(pk(5), 200, &create_args(VaultType::SingleToken, 2));
    assert_eq!(v.bump, 200);
    assert_eq!(v.authority, pk(5));
    assert_eq!(v.vault_type, VaultType::SingleToken);
    assert_eq!(v.token_info_capacity, 2);
    assert_eq!(v.token_infos.len(), 0);
}

#[test]
fn compute_vault_size_is_header_plus_records() {
    assert_eq!(Vault::compute_vault_size(0), 104);
    assert_eq!(Vault::compute_vault_size(1), 168);
    assert_eq!(Vault::compute_vault_size(10), 104 + 640);
}

#[test]
fn open_deposits_appends_an_enabled_empty_line() {
    let mut v = fresh_vault(4);
    open_line(&mut v, pk(1), 5000);
    assert_eq!(v.token_infos.len(), 1);
    let ti = &v.token_infos[0];
    assert!(ti.enabled);
    assert_eq!(ti.deposits, 0);
    assert_eq!(ti.token_supply, 0);
    assert_eq!(ti.deposit_limit, 5000);
    assert_eq!(ti.token_mint, pk(1));
}

#[test]
fn open_deposits_rejects_single_token_vault() {
    let mut v = Vault::create_vault(pk(9), 254, &create_args(VaultType::SingleToken, 1));
    let r = v.open_deposits(&OpenDepositsArgs { token_mint: pk(1), deposit_limit: 10, decimals: 6 });
    assert_eq!(r, Err(ErrorCode::InvalidVaultType));
}

#[test]
fn open_deposits_rejects_duplicate_mint() {
    let mut v = fresh_vault(4);
    open_line(&mut v, pk(1), 10);
    let r = v.open_deposits(&OpenDepositsArgs { token_mint: pk(1), deposit_limit: 20, decimals: 6 });
    assert_eq!(r, Err(ErrorCode::DuplicateTokenMint));
    assert_eq!(v.token_infos.len(), 1);
}

#[test]
fn open_deposits_rejects_when_capacity_is_used_up() {
    let mut v = fresh_vault(1);
    open_line(&mut v, pk(1), 10);
    let r = v.open_deposits(&OpenDepositsArgs { token_mint: pk(2), deposit_limit: 20, decimals: 6 });
    assert_eq!(r, Err(ErrorCode::NoRemainingCapacity));
}

#[test]
fn first_deposit_sets_one_to_one_baseline() {
    let mut v = fresh_vault(4);
    open_line(&mut v, pk(1), u64::MAX);
    assert_eq!(v.deposit(pk(1), 10_000_000), Ok(10_000_000));
    assert_eq!(v.token_infos[0].deposits, 10_000_000);
    assert_eq!(v.token_infos[0].token_supply, 10_000_000);
}

#[test]
fn scenario_two_deposits_then_partial_withdrawal() {
    let mut v = fresh_vault(4);
    open_line(&mut v, pk(1), u64::MAX);
    assert_eq!(v.deposit(pk(1), 10_000_000), Ok(10_000_000));
    assert_eq!(v.deposit(pk(1), 90_000_000), Ok(90_000_000));
    assert_eq!(v.token_infos[0].deposits, 100_000_000);
    assert_eq!(v.token_infos[0].token_supply, 100_000_000);
    assert_eq!(v.withdraw(pk(1), 10_000_000), Ok(10_000_000));
    assert_eq!(v.token_infos[0].deposits, 90_000_000);
    assert_eq!(v.token_infos[0].token_supply, 90_000_000);
}

#[test]
fn deposit_run_keeps_supply_equal_to_deposits() {
    let mut v = fresh_vault(4);
    open_line(&mut v, pk(1), u64::MAX);
    let amounts: [u64; 5] = [3, 1000, 1, 77, 123_456_789];
    for a in amounts {
        assert_eq!(v.deposit(pk(1), a), Ok(a));
        assert_eq!(v.token_infos[0].deposits, v.token_infos[0].token_supply);
    }
    assert_eq!(v.token_infos[0].deposits, 3 + 1000 + 1 + 77 + 123_456_789);
}

#[test]
fn deposit_to_unknown_mint_fails() {
    let mut v = fresh_vault(4);
    open_line(&mut v, pk(1), 100);
    assert_eq!(v.deposit(pk(2), 10), Err(ErrorCode::InvalidTokenMint));
}

#[test]
fn deposit_of_zero_fails() {
    let mut v = fresh_vault(4);
    open_line(&mut v, pk(1), 100);
    assert_eq!(v.deposit(pk(1), 0), Err(ErrorCode::InvalidAmount));
}

#[test]
fn deposit_past_the_limit_fails_and_changes_nothing() {
    let mut v = fresh_vault(4);
    open_line(&mut v, pk(1), 100);
    assert_eq!(v.deposit(pk(1), 60), Ok(60));
    assert_eq!(v.deposit(pk(1), 41), Err(ErrorCode::DepositLimitExceeded));
    assert_eq!(v.token_infos[0].deposits, 60);
    assert_eq!(v.deposit(pk(1), 40), Ok(40));
    assert_eq!(v.token_infos[0].deposits, 100);
}

#[test]
fn deposit_to_degenerate_line_fails_closed() {
    let mut v = fresh_vault(4);
    v.token_infos.push(TokenInfo {
        enabled: true,
        deposits: 0,
        deposit_limit: u64::MAX,
        token_supply: 5,
        token_mint: pk(1),
    });
    assert_eq!(v.deposit(pk(1), 10), Err(ErrorCode::InvalidLedgerState));
}

#[test]
fn deposit_whose_mint_amount_overflows_fails() {
    let mut v = fresh_vault(4);
    v.token_infos.push(TokenInfo {
        enabled: true,
        deposits: 1,
        deposit_limit: u64::MAX,
        token_supply: u64::MAX,
        token_mint: pk(1),
    });
    assert_eq!(v.deposit(pk(1), 3), Err(ErrorCode::ArithmeticOverflow));
}

#[test]
fn disabled_line_rejects_deposit_then_enable_restores_it() {
    let mut v = fresh_vault(4);
    open_line(&mut v, pk(1), u64::MAX);
    assert_eq!(v.deposit(pk(1), 500), Ok(500));
    assert_eq!(v.disable_deposits(pk(1)), Ok(()));
    assert!(!v.token_infos[0].enabled);
    assert_eq!(v.deposit(pk(1), 700), Err(ErrorCode::DepositsDisabled));
    assert_eq!(v.token_infos[0].deposits, 500);
    assert_eq!(v.enable_deposits(pk(1)), Ok(()));
    assert!(v.token_infos[0].enabled);
    assert_eq!(v.deposit(pk(1), 700), Ok(700));
    assert_eq!(v.token_infos[0].deposits, 1200);
    assert_eq!(v.token_infos[0].token_supply, 1200);
}

#[test]
fn enable_unknown_mint_fails() {
    let mut v = fresh_vault(4);
    assert_eq!(v.enable_deposits(pk(1)), Err(ErrorCode::InvalidTokenMint));
    assert_eq!(v.disable_deposits(pk(1)), Err(ErrorCode::InvalidTokenMint));
}

#[test]
fn set_deposit_limit_updates_only_the_limit() {
    let mut v = fresh_vault(4);
    open_line(&mut v, pk(1), 100);
    assert_eq!(v.deposit(pk(1), 60), Ok(60));
    assert_eq!(v.set_deposit_limit(pk(1), 1000), Ok(()));
    assert_eq!(v.token_infos[0].deposit_limit, 1000);
    assert_eq!(v.token_infos[0].deposits, 60);
    assert_eq!(v.set_deposit_limit(pk(2), 5), Err(ErrorCode::InvalidTokenMint));
}

#[test]
fn withdraw_of_zero_fails() {
    let mut v = fresh_vault(4);
    open_line(&mut v, pk(1), 100);
    assert_eq!(v.deposit(pk(1), 60), Ok(60));
    assert_eq!(v.withdraw(pk(1), 0), Err(ErrorCode::InvalidAmount));
}

#[test]
fn withdraw_beyond_supply_fails() {
    let mut v = fresh_vault(4);
    open_line(&mut v, pk(1), 100);
    assert_eq!(v.deposit(pk(1), 60), Ok(60));
    assert_eq!(v.withdraw(pk(1), 61), Err(ErrorCode::InsufficientLpSupply));
    assert_eq!(v.withdraw(pk(2), 1), Err(ErrorCode::InvalidTokenMint));
}

#[test]
fn withdraw_full_supply_drains_deposits_to_zero() {
    let mut v = fresh_vault(4);
    open_line(&mut v, pk(1), u64::MAX);
    assert_eq!(v.deposit(pk(1), 12_345), Ok(12_345));
    assert_eq!(v.deposit(pk(1), 54_321), Ok(54_321));
    assert_eq!(v.withdraw(pk(1), 66_666), Ok(66_666));
    assert_eq!(v.token_infos[0].deposits, 0);
    assert_eq!(v.token_infos[0].token_supply, 0);
}

#[test]
fn staged_withdrawals_of_entire_supply_drain_deposits() {
    let mut v = fresh_vault(4);
    open_line(&mut v, pk(1), u64::MAX);
    assert_eq!(v.deposit(pk(1), 1_000_003), Ok(1_000_003));
    let mut returned: u64 = 0;
    for r in [1u64, 999_999, 2, 1] {
        returned += v.withdraw(pk(1), r).unwrap();
    }
    assert_eq!(v.token_infos[0].token_supply, 0);
    assert_eq!(v.token_infos[0].deposits, 0);
    assert_eq!(returned, 1_000_003);
}

#[test]
fn mint_then_burn_never_favors_the_depositor() {
    let ti = TokenInfo {
        enabled: true,
        deposits: 97,
        deposit_limit: u64::MAX,
        token_supply: 31,
        token_mint: pk(1),
    };
    let amount: u128 = 10;
    let minted = ti.calculate_mint_amount(amount);
    assert_eq!(minted, 10 * 31 / 97);
    let after = TokenInfo {
        deposits: ti.deposits + amount as u64,
        token_supply: ti.token_supply + minted as u64,
        ..ti
    };
    let back = after.calculate_burn_amount(minted);
    assert!(back <= amount);
}

#[test]
fn burn_amount_is_the_floored_proportional_share() {
    let ti = TokenInfo {
        enabled: true,
        deposits: 100_000_000,
        deposit_limit: u64::MAX,
        token_supply: 100_000_000,
        token_mint: pk(1),
    };
    assert_eq!(ti.calculate_burn_amount(10_000_000), 10_000_000);
    let uneven = TokenInfo { deposits: 101, token_supply: 3, ..ti };
    assert_eq!(uneven.calculate_burn_amount(2), 101 * 2 / 3);
}

#[test]
fn mint_amount_floors_in_favor_of_the_vault() {
    let ti = TokenInfo {
        enabled: true,
        deposits: 100,
        deposit_limit: u64::MAX,
        token_supply: 3,
        token_mint: pk(1),
    };
    assert_eq!(ti.calculate_mint_amount(33), 0);
    assert_eq!(ti.calculate_mint_amount(34), 1);
}

#[test]
fn close_deposits_requires_both_balances_zero() {
    let mut v = fresh_vault(4);
    open_line(&mut v, pk(1), u64::MAX);
    assert_eq!(v.close_deposits(pk(1)), Ok(()));
    assert_eq!(v.deposit(pk(1), 10), Ok(10));
    assert_eq!(v.close_deposits(pk(1)), Err(ErrorCode::TokenWithDeposits));
    assert_eq!(v.withdraw(pk(1), 10), Ok(10));
    assert_eq!(v.close_deposits(pk(1)), Ok(()));
    assert_eq!(v.close_deposits(pk(2)), Err(ErrorCode::InvalidTokenMint));
}

#[test]
fn close_deposits_reports_lp_supply_when_deposits_are_zero() {
    let mut v = fresh_vault(4);
    v.token_infos.push(TokenInfo {
        enabled: true,
        deposits: 0,
        deposit_limit: u64::MAX,
        token_supply: 5,
        token_mint: pk(1),
    });
    assert_eq!(v.close_deposits(pk(1)), Err(ErrorCode::TokenWithLpSupply));
}

#[test]
fn close_vault_requires_every_line_drained() {
    let mut v = fresh_vault(4);
    open_line(&mut v, pk(1), u64::MAX);
    open_line(&mut v, pk(2), u64::MAX);
    assert_eq!(v.close_vault(), Ok(()));
    assert_eq!(v.deposit(pk(2), 10), Ok(10));
    assert_eq!(v.close_vault(), Err(ErrorCode::TokenWithDeposits));
    assert_eq!(v.withdraw(pk(2), 10), Ok(10));
    assert_eq!(v.close_vault(), Ok(()));
}

#[test]
fn close_vault_reports_the_first_offending_line() {
    let mut v = fresh_vault(4);
    v.token_infos.push(TokenInfo {
        enabled: true,
        deposits: 0,
        deposit_limit: u64::MAX,
        token_supply: 5,
        token_mint: pk(1),
    });
    v.token_infos.push(TokenInfo {
        enabled: true,
        deposits: 9,
        deposit_limit: u64::MAX,
        token_supply: 9,
        token_mint: pk(2),
    });
    assert_eq!(v.close_vault(), Err(ErrorCode::TokenWithLpSupply));
}

#[test]
fn get_token_info_finds_by_mint() {
    let mut v = fresh_vault(4);
    open_line(&mut v, pk(1), 111);
    open_line(&mut v, pk(2), 222);
    assert_eq!(v.get_token_info(pk(2)).unwrap().deposit_limit, 222);
    assert_eq!(v.get_token_info(pk(1)).unwrap().deposit_limit, 111);
    assert!(v.get_token_info(pk(3)).is_none());
}

#[test]
fn get_token_info_mut_writes_through() {
    let mut v = fresh_vault(4);
    open_line(&mut v, pk(1), 111);
    let ti = v.get_token_info_mut(pk(1)).unwrap();
    ti.deposit_limit = 999;
    assert_eq!(v.token_infos[0].deposit_limit, 999);
    assert!(v.get_token_info_mut(pk(3)).is_none());
}

#[test]
fn pubkey_equals_compares_bytes() {
    assert!(pk(3).equals(&pk(3)));
    assert!(!pk(3).equals(&pk(4)));
    let mut almost = pk(3);
    almost.bytes[31] = 4;
    assert!(!pk(3).equals(&almost));
}

#[test]
fn error_messages_describe_each_code() {
    assert_eq!(ErrorCode::InvalidTokenMint.message(), "The given token mint is not supported.");
    assert!(ErrorCode::TokenWithDeposits.message().contains("existing deposits"));
    assert!(ErrorCode::TokenWithLpSupply.message().contains("LP token supply"));
}
