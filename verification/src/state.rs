use vstd::prelude::*;
use vstd::arithmetic::div_mod::*;
use vstd::arithmetic::mul::*;

verus! {

/// The record version stamped on every newly initialized [`Vault`].
pub const VAULT_VERSION: u8 = 1;

/// Size in bytes of the fixed part of a persisted [`Vault`] record.
pub const VAULT_HEADER_SIZE: usize = 104;

/// Size in bytes of one persisted [`TokenInfo`] record.
pub const TOKEN_INFO_RECORD_SIZE: usize = 64;

/// A 32-byte account address, as used for token mints, authorities and
/// derived program addresses.
#[derive(Clone, Copy, Debug, PartialEq, Eq)]
pub struct Pubkey {
    pub bytes: [u8; 32],
}

impl View for Pubkey {
    type V = Seq<u8>;

    open spec fn view(&self) -> Seq<u8> {
        self.bytes@
    }
}

impl Pubkey {
    /// Byte-for-byte equality of two addresses.
    pub fn equals(&self, other: &Pubkey) -> (r: bool)
        ensures
            r == (self@ == other@),
    {
        let mut i: usize = 0;
        while i < 32
            invariant
                i <= 32,
                forall|j: int| 0 <= j < i ==> self.bytes@[j] == other.bytes@[j],
            decreases 32 - i,
        {
            if self.bytes[i] != other.bytes[i] {
                return false;
            }
            i += 1;
        }
        proof {
            assert(self@ =~= other@);
        }
        true
    }
}

/// Whether a vault accepts deposits for exactly one token or for many.
#[derive(Clone, Copy, Debug, PartialEq, Eq, Structural)]
pub enum VaultType {
    /// The vault only allows deposits for a single token.
    SingleToken,
    /// The vault allows deposits for multiple tokens.
    MultiToken,
}

/// Arguments fixed at vault creation.
#[derive(Clone, Copy, Debug)]
pub struct CreateVaultArgs {
    /// The id of the [`Vault`]; part of its address derivation.
    pub id: u64,
    /// Whether the vault is single- or multi-token.
    pub vault_type: VaultType,
    /// The number of the master account in the external settlement system.
    pub account_number: u8,
    /// The bump of the master account in the external settlement system.
    pub account_bump: u8,
    /// The number of the sub account in the external settlement system.
    pub sub_account_number: u8,
    /// The bump of the sub account in the external settlement system.
    pub sub_account_bump: u8,
    /// The alias of the sub account in the external settlement system.
    pub sub_account_alias: [u8; 32],
    /// The number of token lines this vault can ever hold.
    pub token_info_count: usize,
}

/// Arguments for opening a new token line.
#[derive(Clone, Copy, Debug)]
pub struct OpenDepositsArgs {
    /// The address of the token mint being allowed for deposits.
    pub token_mint: Pubkey,
    /// The deposit limit for this token.
    pub deposit_limit: u64,
    /// The decimals of the vault's LP token for this token mint.
    pub decimals: u8,
}

/// Per-accepted-token bookkeeping: enablement, cumulative deposits, the
/// deposit ceiling, and the outstanding LP-token supply for the line.
#[derive(Clone, Copy, Debug, PartialEq, Eq)]
pub struct TokenInfo {
    /// Whether deposits of this token are currently enabled.
    pub enabled: bool,
    /// The cumulative net deposited principal for this token.
    pub deposits: u64,
    /// The ceiling on `deposits`.
    pub deposit_limit: u64,
    /// The outstanding supply of the LP token for this token.
    pub token_supply: u64,
    /// The address of the token mint.
    pub token_mint: Pubkey,
}

/// The LP amount minted for a deposit of `amount` against a line holding
/// `deposits` principal and `token_supply` outstanding LP tokens: the first
/// deposit sets a 1:1 baseline, later ones preserve the supply/deposits
/// ratio, rounded down in favor of the vault.
pub open spec fn spec_mint_amount(deposits: int, token_supply: int, amount: int) -> int {
    if token_supply == 0 {
        amount
    } else {
        (amount * token_supply) / deposits
    }
}

/// The principal returned for redeeming `redeem` LP tokens against a line
/// holding `deposits` principal and `token_supply` outstanding LP tokens:
/// the redeemer's fraction of the supply, applied to the principal and
/// rounded down in favor of the vault.
pub open spec fn spec_burn_amount(deposits: int, token_supply: int, redeem: int) -> int {
    (deposits * redeem) / token_supply
}

/// The two ledger fields of a line reach zero together: principal without
/// claims, or claims without principal, never arises under correct operation.
pub open spec fn spec_balanced(ti: TokenInfo) -> bool {
    (ti.deposits == 0) <==> (ti.token_supply == 0)
}

impl TokenInfo {
    /// How many LP tokens to mint for a deposit, preserving the depositor's
    /// proportional claim on the line.
    pub fn calculate_mint_amount(&self, deposit_amount: u128) -> (r: u128)
        requires
            self.token_supply > 0 ==> self.deposits > 0,
            deposit_amount <= u64::MAX as u128,
        ensures
            r == spec_mint_amount(
                self.deposits as int,
                self.token_supply as int,
                deposit_amount as int,
            ),
    {
        if self.token_supply == 0 {
            deposit_amount
        } else {
            proof {
                assert(deposit_amount * (self.token_supply as u128) <= u128::MAX)
                    by (nonlinear_arith)
                    requires
                        deposit_amount <= u64::MAX as u128,
                        self.token_supply <= u64::MAX,
                ;
            }
            (deposit_amount * (self.token_supply as u128)) / (self.deposits as u128)
        }
    }

    /// How much principal to return for redeeming `redeem_amount` LP tokens,
    /// giving the redeemer their proportional share of the line's principal.
    pub fn calculate_burn_amount(&self, redeem_amount: u128) -> (r: u128)
        requires
            self.token_supply > 0,
            redeem_amount <= u64::MAX as u128,
        ensures
            r == spec_burn_amount(
                self.deposits as int,
                self.token_supply as int,
                redeem_amount as int,
            ),
    {
        proof {
            assert((self.deposits as u128) * redeem_amount <= u128::MAX) by (nonlinear_arith)
                requires
                    redeem_amount <= u64::MAX as u128,
                    self.deposits <= u64::MAX,
            ;
        }
        ((self.deposits as u128) * redeem_amount) / (self.token_supply as u128)
    }
}

/// The minted amount is nonnegative whenever the line's ledger can price it.
pub proof fn lemma_mint_amount_nonneg(d: int, s: int, a: int)
    requires
        0 <= d,
        0 <= s,
        0 <= a,
        s > 0 ==> d > 0,
    ensures
        0 <= spec_mint_amount(d, s, a),
{
    if s != 0 {
        lemma_mul_nonnegative(a, s);
        lemma_div_pos_is_pos(a * s, d);
    }
}

/// The minted amount is the exact ratio `a * s / d` rounded down: it
/// underestimates the ideal share by less than one rounding unit of `d`.
pub proof fn lemma_mint_amount_bounds(d: int, s: int, a: int)
    requires
        0 < d,
        0 < s,
        0 <= a,
    ensures
        ({
            let m = spec_mint_amount(d, s, a);
            m * d <= a * s < (m + 1) * d
        }),
{
    let m = (a * s) / d;
    lemma_fundamental_div_mod(a * s, d);
    lemma_mod_bound(a * s, d);
    assert(a * s == d * m + (a * s) % d);
    lemma_mul_is_commutative(d, m);
    lemma_mul_is_distributive_add_other_way(d, m, 1);
    assert((m + 1) * d == m * d + 1 * d);
}

/// Redeeming at most the outstanding supply returns at most the recorded
/// principal, and never a negative amount.
pub proof fn lemma_burn_amount_bounds(d: int, s: int, r: int)
    requires
        0 <= d,
        0 < s,
        0 <= r <= s,
    ensures
        0 <= spec_burn_amount(d, s, r) <= d,
{
    lemma_mul_nonnegative(d, r);
    lemma_div_pos_is_pos(d * r, s);
    lemma_mul_inequality(r, s, d);
    lemma_mul_is_commutative(d, r);
    lemma_mul_is_commutative(d, s);
    lemma_div_is_ordered(d * r, d * s, s);
    lemma_div_multiples_vanish(d, s);
}

/// Redeeming the entire outstanding supply returns exactly the recorded
/// principal.
pub proof fn lemma_burn_full_supply(d: int, s: int)
    requires
        0 <= d,
        0 < s,
    ensures
        spec_burn_amount(d, s, s) == d,
{
    lemma_div_multiples_vanish(d, s);
    lemma_mul_is_commutative(d, s);
}

/// Redeeming strictly less than the supply leaves some principal behind.
pub proof fn lemma_burn_partial_leaves_deposits(d: int, s: int, r: int)
    requires
        0 < d,
        0 < s,
        0 <= r < s,
    ensures
        spec_burn_amount(d, s, r) < d,
{
    lemma_mul_strict_inequality(r, s, d);
    lemma_mul_is_commutative(d, r);
    lemma_mul_is_commutative(d, s);
    lemma_multiply_divide_lt(d * r, s, d);
}

/// Whether some line in `infos` is keyed by `mint`.
pub open spec fn spec_has_token(infos: Seq<TokenInfo>, mint: Seq<u8>) -> bool {
    exists|i: int| 0 <= i < infos.len() && (#[trigger] infos[i].token_mint@) == mint
}

/// The index of the line keyed by `mint`; meaningful only when
/// `spec_has_token` holds and mints are duplicate-free.
pub open spec fn spec_token_index(infos: Seq<TokenInfo>, mint: Seq<u8>) -> int {
    choose|i: int| 0 <= i < infos.len() && (#[trigger] infos[i].token_mint@) == mint
}

/// No two lines share a token mint.
pub open spec fn wf_mints(infos: Seq<TokenInfo>) -> bool {
    forall|i: int, j: int|
        0 <= i < j < infos.len() ==> (#[trigger] infos[i].token_mint@) != (
        #[trigger] infos[j].token_mint@)
}

/// With duplicate-free mints, any index holding `mint` is the index
/// `spec_token_index` denotes.
pub proof fn lemma_token_index_of_match(infos: Seq<TokenInfo>, mint: Seq<u8>, i: int)
    requires
        wf_mints(infos),
        0 <= i < infos.len(),
        infos[i].token_mint@ == mint,
    ensures
        spec_has_token(infos, mint),
        spec_token_index(infos, mint) == i,
{
    assert(spec_has_token(infos, mint));
    let k = spec_token_index(infos, mint);
    assert(0 <= k < infos.len() && infos[k].token_mint@ == mint);
    if k < i {
        assert(infos[k].token_mint@ != infos[i].token_mint@);
    } else if i < k {
        assert(infos[i].token_mint@ != infos[k].token_mint@);
    }
}

/// The vault record: identity, delegated-authority bump, vault type, and the
/// ordered collection of token lines.
#[derive(Debug)]
pub struct Vault {
    /// The version of the record layout.
    pub version: u8,
    /// The derivation salt proving the vault's delegated-authority address.
    pub bump: u8,
    /// The number of the master account in the external settlement system.
    pub account_number: u8,
    /// The number of the sub account in the external settlement system.
    pub sub_account_number: u8,
    /// The vault type.
    pub vault_type: VaultType,
    /// The vault's id; part of its address derivation.
    pub id: u64,
    /// The authority of the vault; part of its address derivation.
    pub authority: Pubkey,
    /// The number of token lines the vault may hold, fixed at creation.
    pub token_info_capacity: u64,
    /// The token lines accepted in this vault.
    pub token_infos: Vec<TokenInfo>,
}

impl Vault {
    /// Structural invariant: duplicate-free mints, capacity respected, and a
    /// single-token vault holds at most one line.
    pub open spec fn wf(&self) -> bool {
        &&& wf_mints(self.token_infos@)
        &&& self.token_infos@.len() <= self.token_info_capacity
        &&& (self.vault_type == VaultType::SingleToken ==> self.token_infos@.len() <= 1)
    }

    /// Size in bytes of a persisted vault record able to hold
    /// `token_info_count` token lines.
    pub fn compute_vault_size(token_info_count: usize) -> (size: usize)
        requires
            VAULT_HEADER_SIZE + token_info_count * TOKEN_INFO_RECORD_SIZE <= usize::MAX,
        ensures
            size == VAULT_HEADER_SIZE + token_info_count * TOKEN_INFO_RECORD_SIZE,
    {
        VAULT_HEADER_SIZE + token_info_count * TOKEN_INFO_RECORD_SIZE
    }

    /// Initialize the vault. Every field of the record is fixed here; the
    /// token-line collection starts empty with its capacity set for good.
    pub fn init(&mut self, authority: Pubkey, vault_bump: u8, args: &CreateVaultArgs)
        ensures
            final(self).version == VAULT_VERSION,
            final(self).bump == vault_bump,
            final(self).account_number == args.account_number,
            final(self).sub_account_number == args.sub_account_number,
            final(self).vault_type == args.vault_type,
            final(self).id == args.id,
            final(self).authority == authority,
            final(self).token_info_capacity == args.token_info_count as u64,
            final(self).token_infos@.len() == 0,
            final(self).wf(),
    {
        self.version = VAULT_VERSION;
        self.bump = vault_bump;
        self.account_number = args.account_number;
        self.sub_account_number = args.sub_account_number;
        self.vault_type = args.vault_type;
        self.id = args.id;
        self.authority = authority;
        self.token_info_capacity = args.token_info_count as u64;
        self.token_infos = Vec::new();
    }

    /// Create a fresh vault record from its creation arguments.
    pub fn create_vault(authority: Pubkey, vault_bump: u8, args: &CreateVaultArgs) -> (v: Vault)
        ensures
            v.version == VAULT_VERSION,
            v.bump == vault_bump,
            v.account_number == args.account_number,
            v.sub_account_number == args.sub_account_number,
            v.vault_type == args.vault_type,
            v.id == args.id,
            v.authority == authority,
            v.token_info_capacity == args.token_info_count as u64,
            v.token_infos@.len() == 0,
            v.wf(),
    {
        let mut v = Vault {
            version: 0,
            bump: 0,
            account_number: 0,
            sub_account_number: 0,
            vault_type: args.vault_type,
            id: 0,
            authority,
            token_info_capacity: 0,
            token_infos: Vec::new(),
        };
        v.init(authority, vault_bump, args);
        v
    }

    /// Find the index of the token line for a given mint, if present.
    pub fn find_token_index(&self, token_mint: &Pubkey) -> (r: Option<usize>)
        requires
            self.wf(),
        ensures
            match r {
                Some(i) => {
                    &&& spec_has_token(self.token_infos@, token_mint@)
                    &&& spec_token_index(self.token_infos@, token_mint@) == i as int
                    &&& i < self.token_infos@.len()
                    &&& self.token_infos@[i as int].token_mint@ == token_mint@
                },
                None => !spec_has_token(self.token_infos@, token_mint@),
            },
    {
        let n = self.token_infos.len();
        let mut i: usize = 0;
        while i < n
            invariant
                self.wf(),
                n == self.token_infos@.len(),
                i <= n,
                forall|j: int| 0 <= j < i ==> (#[trigger] self.token_infos@[j].token_mint@)
                    != token_mint@,
            decreases n - i,
        {
            if self.token_infos[i].token_mint.equals(token_mint) {
                proof {
                    lemma_token_index_of_match(self.token_infos@, token_mint@, i as int);
                }
                return Some(i);
            }
            i += 1;
        }
        None
    }

    /// Gets the [`TokenInfo`] for a given token mint, for mutation. The
    /// final vault holds whatever the caller leaves in the returned line,
    /// with every other line unchanged.
    pub fn get_token_info_mut(&mut self, token_mint: Pubkey) -> (r: Option<&mut TokenInfo>)
        requires
            old(self).wf(),
        ensures
            (match r {
                Some(ti) => {
                    let i = spec_token_index(old(self).token_infos@, token_mint@);
                    &&& spec_has_token(old(self).token_infos@, token_mint@)
                    &&& *ti == old(self).token_infos@[i]
                    &&& final(self).token_infos@ == old(self).token_infos@.update(i, *final(ti))
                    &&& final(self).version == old(self).version
                    &&& final(self).bump == old(self).bump
                    &&& final(self).account_number == old(self).account_number
                    &&& final(self).sub_account_number == old(self).sub_account_number
                    &&& final(self).vault_type == old(self).vault_type
                    &&& final(self).id == old(self).id
                    &&& final(self).authority == old(self).authority
                    &&& final(self).token_info_capacity == old(self).token_info_capacity
                },
                None => {
                    &&& !spec_has_token(old(self).token_infos@, token_mint@)
                    &&& *final(self) == *old(self)
                },
            }),
    {
        match self.find_token_index(&token_mint) {
            Some(i) => Some(&mut self.token_infos[i]),
            None => None,
        }
    }

    /// Gets the [`TokenInfo`] for a given token mint.
    pub fn get_token_info(&self, token_mint: Pubkey) -> (r: Option<&TokenInfo>)
        requires
            self.wf(),
        ensures
            match r {
                Some(ti) => {
                    &&& spec_has_token(self.token_infos@, token_mint@)
                    &&& *ti == self.token_infos@[spec_token_index(self.token_infos@, token_mint@)]
                },
                None => !spec_has_token(self.token_infos@, token_mint@),
            },
    {
        match self.find_token_index(&token_mint) {
            Some(i) => Some(&self.token_infos[i]),
            None => None,
        }
    }
}

} // verus!
