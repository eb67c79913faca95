use vstd::prelude::*;
use crate::error::ErrorCode;
use crate::state::{
    lemma_burn_amount_bounds, lemma_burn_full_supply, lemma_burn_partial_leaves_deposits,
    lemma_mint_amount_nonneg, spec_balanced, spec_burn_amount, spec_has_token, spec_mint_amount,
    spec_token_index, OpenDepositsArgs, Pubkey, TokenInfo, Vault, VaultType,
};

verus! {

/// The token line appended by a successful `open_deposits`.
pub open spec fn spec_new_line(args: OpenDepositsArgs) -> TokenInfo {
    TokenInfo {
        enabled: true,
        deposits: 0,
        deposit_limit: args.deposit_limit,
        token_supply: 0,
        token_mint: args.token_mint,
    }
}

/// A token line after a deposit of `amount` that minted `minted` LP tokens.
pub open spec fn spec_deposited(ti: TokenInfo, amount: u64, minted: u64) -> TokenInfo {
    TokenInfo {
        deposits: (ti.deposits + amount) as u64,
        token_supply: (ti.token_supply + minted) as u64,
        ..ti
    }
}

/// A token line after a withdrawal that redeemed `redeem` LP tokens and
/// returned `burned` principal.
pub open spec fn spec_withdrawn(ti: TokenInfo, redeem: u64, burned: u64) -> TokenInfo {
    TokenInfo {
        deposits: (ti.deposits - burned) as u64,
        token_supply: (ti.token_supply - redeem) as u64,
        ..ti
    }
}

/// Everything of a vault but its token lines.
pub open spec fn spec_same_header(a: Vault, b: Vault) -> bool {
    &&& a.version == b.version
    &&& a.bump == b.bump
    &&& a.account_number == b.account_number
    &&& a.sub_account_number == b.sub_account_number
    &&& a.vault_type == b.vault_type
    &&& a.id == b.id
    &&& a.authority == b.authority
    &&& a.token_info_capacity == b.token_info_capacity
}

/// What `deposit` returns, for every vault state and input. The guards are
/// checked in this order: the line must exist, be enabled, the amount must be
/// positive, the ledger must be priceable, the deposit ceiling must hold, and
/// the minted amount and new supply must fit the 64-bit ledger.
pub open spec fn spec_deposit_outcome(infos: Seq<TokenInfo>, mint: Seq<u8>, amount: u64) -> Result<
    u64,
    ErrorCode,
> {
    if !spec_has_token(infos, mint) {
        Err(ErrorCode::InvalidTokenMint)
    } else {
        let ti = infos[spec_token_index(infos, mint)];
        if !ti.enabled {
            Err(ErrorCode::DepositsDisabled)
        } else if amount == 0 {
            Err(ErrorCode::InvalidAmount)
        } else if ti.token_supply > 0 && ti.deposits == 0 {
            Err(ErrorCode::InvalidLedgerState)
        } else if ti.deposits + amount > ti.deposit_limit {
            Err(ErrorCode::DepositLimitExceeded)
        } else {
            let m = spec_mint_amount(ti.deposits as int, ti.token_supply as int, amount as int);
            if m > u64::MAX || ti.token_supply + m > u64::MAX {
                Err(ErrorCode::ArithmeticOverflow)
            } else {
                Ok(m as u64)
            }
        }
    }
}

/// What `withdraw` returns, for every vault state and input. The guards are
/// checked in this order: the line must exist, the redemption must be
/// positive, and it must not exceed the outstanding LP supply.
pub open spec fn spec_withdraw_outcome(infos: Seq<TokenInfo>, mint: Seq<u8>, redeem: u64) -> Result<
    u64,
    ErrorCode,
> {
    if !spec_has_token(infos, mint) {
        Err(ErrorCode::InvalidTokenMint)
    } else {
        let ti = infos[spec_token_index(infos, mint)];
        if redeem == 0 {
            Err(ErrorCode::InvalidAmount)
        } else if redeem > ti.token_supply {
            Err(ErrorCode::InsufficientLpSupply)
        } else {
            Ok(spec_burn_amount(ti.deposits as int, ti.token_supply as int, redeem as int) as u64)
        }
    }
}

/// What `open_deposits` returns: only a multi-token vault may open a line,
/// the mint must be new, and spare capacity must remain.
pub open spec fn spec_open_deposits_outcome(v: Vault, mint: Seq<u8>) -> Result<(), ErrorCode> {
    if v.vault_type != VaultType::MultiToken {
        Err(ErrorCode::InvalidVaultType)
    } else if spec_has_token(v.token_infos@, mint) {
        Err(ErrorCode::DuplicateTokenMint)
    } else if v.token_infos@.len() >= v.token_info_capacity {
        Err(ErrorCode::NoRemainingCapacity)
    } else {
        Ok(())
    }
}

/// What `close_deposits` returns: the line must exist and both of its
/// balances must be zero, deposits being checked first.
pub open spec fn spec_close_deposits_outcome(infos: Seq<TokenInfo>, mint: Seq<u8>) -> Result<
    (),
    ErrorCode,
> {
    if !spec_has_token(infos, mint) {
        Err(ErrorCode::InvalidTokenMint)
    } else {
        let ti = infos[spec_token_index(infos, mint)];
        if ti.deposits != 0 {
            Err(ErrorCode::TokenWithDeposits)
        } else if ti.token_supply != 0 {
            Err(ErrorCode::TokenWithLpSupply)
        } else {
            Ok(())
        }
    }
}

/// What `close_vault` returns: the lines are scanned in order and the first
/// one still carrying deposits or LP supply decides the error.
pub open spec fn spec_close_vault_outcome(infos: Seq<TokenInfo>) -> Result<(), ErrorCode>
    decreases infos.len(),
{
    if infos.len() == 0 {
        Ok(())
    } else if infos[0].deposits != 0 {
        Err(ErrorCode::TokenWithDeposits)
    } else if infos[0].token_supply != 0 {
        Err(ErrorCode::TokenWithLpSupply)
    } else {
        spec_close_vault_outcome(infos.drop_first())
    }
}

/// `close_vault` succeeds exactly when every line is fully drained.
pub proof fn lemma_close_vault_ok_iff(infos: Seq<TokenInfo>)
    ensures
        (spec_close_vault_outcome(infos) == Ok::<(), ErrorCode>(())) <==> (forall|i: int|
            0 <= i < infos.len() ==> (#[trigger] infos[i]).deposits == 0
                && infos[i].token_supply == 0),
    decreases infos.len(),
{
    if infos.len() > 0 {
        lemma_close_vault_ok_iff(infos.drop_first());
        if infos[0].deposits == 0 && infos[0].token_supply == 0 {
            assert forall|i: int|
                0 <= i < infos.len() && (spec_close_vault_outcome(infos) == Ok::<(), ErrorCode>(
                    (),
                )) implies (#[trigger] infos[i]).deposits == 0 && infos[i].token_supply == 0 by {
                if i > 0 {
                    assert(infos.drop_first()[i - 1] == infos[i]);
                }
            }
            assert forall|i: int| 0 <= i < infos.drop_first().len() implies (
            #[trigger] infos.drop_first()[i]) == infos[i + 1] by {}
        }
    }
}

impl Vault {
    /// Opens a token line for a new mint: the line starts enabled, with zero
    /// deposits and zero LP supply, and with the given deposit limit.
    pub fn open_deposits(&mut self, args: &OpenDepositsArgs) -> (r: Result<(), ErrorCode>)
        requires
            old(self).wf(),
        ensures
            final(self).wf(),
            spec_same_header(*old(self), *final(self)),
            r == spec_open_deposits_outcome(*old(self), args.token_mint@),
            (match r {
                Ok(_) => final(self).token_infos@ == old(self).token_infos@.push(
                    spec_new_line(*args),
                ),
                Err(_) => final(self).token_infos@ == old(self).token_infos@,
            }),
    {
        if !matches!(self.vault_type, VaultType::MultiToken) {
            return Err(ErrorCode::InvalidVaultType);
        }
        if self.find_token_index(&args.token_mint).is_some() {
            return Err(ErrorCode::DuplicateTokenMint);
        }
        if self.token_infos.len() as u64 >= self.token_info_capacity {
            return Err(ErrorCode::NoRemainingCapacity);
        }
        let line = TokenInfo {
            enabled: true,
            deposits: 0,
            deposit_limit: args.deposit_limit,
            token_supply: 0,
            token_mint: args.token_mint,
        };
        self.token_infos.push(line);
        proof {
            let s0 = old(self).token_infos@;
            let s1 = self.token_infos@;
            assert forall|p: int, q: int| 0 <= p < q < s1.len() implies (
            #[trigger] s1[p].token_mint@) != (#[trigger] s1[q].token_mint@) by {
                if q < s1.len() - 1 {
                    assert(s1[p] == s0[p] && s1[q] == s0[q]);
                } else {
                    assert(s1[p] == s0[p]);
                    assert(s1[q].token_mint@ == args.token_mint@);
                }
            }
        }
        Ok(())
    }

    /// Enables deposits for the given token mint.
    pub fn enable_deposits(&mut self, token_mint: Pubkey) -> (r: Result<(), ErrorCode>)
        requires
            old(self).wf(),
        ensures
            final(self).wf(),
            spec_same_header(*old(self), *final(self)),
            (match r {
                Ok(_) => {
                    &&& spec_has_token(old(self).token_infos@, token_mint@)
                    &&& final(self).token_infos@ == old(self).token_infos@.update(
                        spec_token_index(old(self).token_infos@, token_mint@),
                        (TokenInfo {
                            enabled: true,
                            ..old(self).token_infos@[spec_token_index(
                                old(self).token_infos@,
                                token_mint@,
                            )]
                        }),
                    )
                },
                Err(e) => {
                    &&& e == ErrorCode::InvalidTokenMint
                    &&& !spec_has_token(old(self).token_infos@, token_mint@)
                    &&& final(self).token_infos@ == old(self).token_infos@
                },
            }),
    {
        let i = match self.find_token_index(&token_mint) {
            Some(i) => i,
            None => { return Err(ErrorCode::InvalidTokenMint) },
        };
        let ti = self.token_infos[i];
        self.token_infos.set(i, TokenInfo { enabled: true, ..ti });
        proof {
            self.lemma_update_keeps_wf(*old(self), i as int);
        }
        Ok(())
    }

    /// Disables deposits for the given token mint; existing balances are
    /// untouched, only new deposits are blocked.
    pub fn disable_deposits(&mut self, token_mint: Pubkey) -> (r: Result<(), ErrorCode>)
        requires
            old(self).wf(),
        ensures
            final(self).wf(),
            spec_same_header(*old(self), *final(self)),
            (match r {
                Ok(_) => {
                    &&& spec_has_token(old(self).token_infos@, token_mint@)
                    &&& final(self).token_infos@ == old(self).token_infos@.update(
                        spec_token_index(old(self).token_infos@, token_mint@),
                        (TokenInfo {
                            enabled: false,
                            ..old(self).token_infos@[spec_token_index(
                                old(self).token_infos@,
                                token_mint@,
                            )]
                        }),
                    )
                },
                Err(e) => {
                    &&& e == ErrorCode::InvalidTokenMint
                    &&& !spec_has_token(old(self).token_infos@, token_mint@)
                    &&& final(self).token_infos@ == old(self).token_infos@
                },
            }),
    {
        let i = match self.find_token_index(&token_mint) {
            Some(i) => i,
            None => { return Err(ErrorCode::InvalidTokenMint) },
        };
        let ti = self.token_infos[i];
        self.token_infos.set(i, TokenInfo { enabled: false, ..ti });
        proof {
            self.lemma_update_keeps_wf(*old(self), i as int);
        }
        Ok(())
    }

    /// Sets the deposit ceiling for the given token mint.
    pub fn set_deposit_limit(&mut self, token_mint: Pubkey, deposit_limit: u64) -> (r: Result<
        (),
        ErrorCode,
    >)
        requires
            old(self).wf(),
        ensures
            final(self).wf(),
            spec_same_header(*old(self), *final(self)),
            (match r {
                Ok(_) => {
                    &&& spec_has_token(old(self).token_infos@, token_mint@)
                    &&& final(self).token_infos@ == old(self).token_infos@.update(
                        spec_token_index(old(self).token_infos@, token_mint@),
                        (TokenInfo {
                            deposit_limit: deposit_limit,
                            ..old(self).token_infos@[spec_token_index(
                                old(self).token_infos@,
                                token_mint@,
                            )]
                        }),
                    )
                },
                Err(e) => {
                    &&& e == ErrorCode::InvalidTokenMint
                    &&& !spec_has_token(old(self).token_infos@, token_mint@)
                    &&& final(self).token_infos@ == old(self).token_infos@
                },
            }),
    {
        let i = match self.find_token_index(&token_mint) {
            Some(i) => i,
            None => { return Err(ErrorCode::InvalidTokenMint) },
        };
        let ti = self.token_infos[i];
        self.token_infos.set(i, TokenInfo { deposit_limit, ..ti });
        proof {
            self.lemma_update_keeps_wf(*old(self), i as int);
        }
        Ok(())
    }

    /// Updating a line without touching its mint keeps the vault well formed.
    proof fn lemma_update_keeps_wf(&self, prev: Vault, i: int)
        requires
            prev.wf(),
            0 <= i < prev.token_infos@.len(),
            self.token_infos@.len() == prev.token_infos@.len(),
            self.token_info_capacity == prev.token_info_capacity,
            self.vault_type == prev.vault_type,
            forall|j: int| 0 <= j < prev.token_infos@.len() ==> (
            #[trigger] self.token_infos@[j]).token_mint@ == prev.token_infos@[j].token_mint@,
        ensures
            self.wf(),
    {
        assert forall|p: int, q: int| 0 <= p < q < self.token_infos@.len() implies (
        #[trigger] self.token_infos@[p].token_mint@) != (
        #[trigger] self.token_infos@[q].token_mint@) by {
            assert(prev.token_infos@[p].token_mint@ != prev.token_infos@[q].token_mint@);
        }
    }

    /// Deposits `amount` of the given token: computes the LP amount to mint
    /// with the ratio engine and applies both sides to the line's ledger.
    /// Returns the LP amount minted.
    pub fn deposit(&mut self, token_mint: Pubkey, amount: u64) -> (r: Result<u64, ErrorCode>)
        requires
            old(self).wf(),
        ensures
            final(self).wf(),
            spec_same_header(*old(self), *final(self)),
            r == spec_deposit_outcome(old(self).token_infos@, token_mint@, amount),
            (match r {
                Ok(minted) => {
                    let i = spec_token_index(old(self).token_infos@, token_mint@);
                    let ti = old(self).token_infos@[i];
                    &&& final(self).token_infos@ == old(self).token_infos@.update(
                        i,
                        spec_deposited(ti, amount, minted),
                    )
                    &&& spec_balanced(final(self).token_infos@[i])
                },
                Err(_) => final(self).token_infos@ == old(self).token_infos@,
            }),
    {
        let i = match self.find_token_index(&token_mint) {
            Some(i) => i,
            None => { return Err(ErrorCode::InvalidTokenMint) },
        };
        let ti = self.token_infos[i];
        if !ti.enabled {
            return Err(ErrorCode::DepositsDisabled);
        }
        if amount == 0 {
            return Err(ErrorCode::InvalidAmount);
        }
        if ti.token_supply > 0 && ti.deposits == 0 {
            return Err(ErrorCode::InvalidLedgerState);
        }
        let new_deposits = match ti.deposits.checked_add(amount) {
            Some(nd) => nd,
            None => { return Err(ErrorCode::DepositLimitExceeded) },
        };
        if new_deposits > ti.deposit_limit {
            return Err(ErrorCode::DepositLimitExceeded);
        }
        let minted_wide = ti.calculate_mint_amount(amount as u128);
        proof {
            lemma_mint_amount_nonneg(ti.deposits as int, ti.token_supply as int, amount as int);
        }
        if minted_wide > u64::MAX as u128 {
            return Err(ErrorCode::ArithmeticOverflow);
        }
        let minted = minted_wide as u64;
        let new_supply = match ti.token_supply.checked_add(minted) {
            Some(ns) => ns,
            None => { return Err(ErrorCode::ArithmeticOverflow) },
        };
        self.token_infos.set(i, TokenInfo { deposits: new_deposits, token_supply: new_supply, ..ti });
        proof {
            self.lemma_update_keeps_wf(*old(self), i as int);
        }
        Ok(minted)
    }

    /// Redeems `redeem` LP tokens of the given token: computes the principal
    /// to return with the ratio engine and applies both sides to the line's
    /// ledger, never letting either field go below zero. Returns the
    /// principal returned. Redeeming the entire outstanding supply drains the
    /// line's deposits to exactly zero.
    pub fn withdraw(&mut self, token_mint: Pubkey, redeem: u64) -> (r: Result<u64, ErrorCode>)
        requires
            old(self).wf(),
        ensures
            final(self).wf(),
            spec_same_header(*old(self), *final(self)),
            r == spec_withdraw_outcome(old(self).token_infos@, token_mint@, redeem),
            (match r {
                Ok(burned) => {
                    let i = spec_token_index(old(self).token_infos@, token_mint@);
                    let ti = old(self).token_infos@[i];
                    &&& burned <= ti.deposits
                    &&& redeem <= ti.token_supply
                    &&& final(self).token_infos@ == old(self).token_infos@.update(
                        i,
                        spec_withdrawn(ti, redeem, burned),
                    )
                    &&& (redeem == ti.token_supply ==> final(self).token_infos@[i].deposits == 0
                        && final(self).token_infos@[i].token_supply == 0)
                    &&& (spec_balanced(ti) ==> spec_balanced(final(self).token_infos@[i]))
                },
                Err(_) => final(self).token_infos@ == old(self).token_infos@,
            }),
    {
        let i = match self.find_token_index(&token_mint) {
            Some(i) => i,
            None => { return Err(ErrorCode::InvalidTokenMint) },
        };
        let ti = self.token_infos[i];
        if redeem == 0 {
            return Err(ErrorCode::InvalidAmount);
        }
        if redeem > ti.token_supply {
            return Err(ErrorCode::InsufficientLpSupply);
        }
        let burned_wide = ti.calculate_burn_amount(redeem as u128);
        proof {
            lemma_burn_amount_bounds(ti.deposits as int, ti.token_supply as int, redeem as int);
            if redeem == ti.token_supply {
                lemma_burn_full_supply(ti.deposits as int, ti.token_supply as int);
            }
            if spec_balanced(ti) && redeem < ti.token_supply && ti.deposits > 0 {
                lemma_burn_partial_leaves_deposits(
                    ti.deposits as int,
                    ti.token_supply as int,
                    redeem as int,
                );
            }
        }
        let burned = burned_wide as u64;
        self.token_infos.set(
            i,
            TokenInfo {
                deposits: ti.deposits - burned,
                token_supply: ti.token_supply - redeem,
                ..ti
            },
        );
        proof {
            self.lemma_update_keeps_wf(*old(self), i as int);
        }
        Ok(burned)
    }

    /// Validates that the given token line is fully drained and may be
    /// closed: succeeds exactly when both its deposits and its LP supply are
    /// zero.
    pub fn close_deposits(&self, token_mint: Pubkey) -> (r: Result<(), ErrorCode>)
        requires
            self.wf(),
        ensures
            r == spec_close_deposits_outcome(self.token_infos@, token_mint@),
            (r == Ok::<(), ErrorCode>(())) <==> ({
                &&& spec_has_token(self.token_infos@, token_mint@)
                &&& self.token_infos@[spec_token_index(self.token_infos@, token_mint@)].deposits
                    == 0
                &&& self.token_infos@[spec_token_index(
                    self.token_infos@,
                    token_mint@,
                )].token_supply == 0
            }),
    {
        let i = match self.find_token_index(&token_mint) {
            Some(i) => i,
            None => { return Err(ErrorCode::InvalidTokenMint) },
        };
        let ti = &self.token_infos[i];
        if ti.deposits != 0 {
            return Err(ErrorCode::TokenWithDeposits);
        }
        if ti.token_supply != 0 {
            return Err(ErrorCode::TokenWithLpSupply);
        }
        Ok(())
    }

    /// Validates that every token line is fully drained and the vault may be
    /// closed: succeeds exactly when all deposits and LP supplies are zero.
    pub fn close_vault(&self) -> (r: Result<(), ErrorCode>)
        requires
            self.wf(),
        ensures
            r == spec_close_vault_outcome(self.token_infos@),
            (r == Ok::<(), ErrorCode>(())) <==> (forall|i: int|
                0 <= i < self.token_infos@.len() ==> (#[trigger] self.token_infos@[i]).deposits
                    == 0 && self.token_infos@[i].token_supply == 0),
    {
        proof {
            lemma_close_vault_ok_iff(self.token_infos@);
            assert(self.token_infos@.skip(0) =~= self.token_infos@);
        }
        let n = self.token_infos.len();
        let mut i: usize = 0;
        while i < n
            invariant
                n == self.token_infos@.len(),
                i <= n,
                spec_close_vault_outcome(self.token_infos@) == spec_close_vault_outcome(
                    self.token_infos@.skip(i as int),
                ),
                forall|j: int| 0 <= j < i ==> (#[trigger] self.token_infos@[j]).deposits == 0
                    && self.token_infos@[j].token_supply == 0,
            decreases n - i,
        {
            proof {
                assert(self.token_infos@.skip(i as int)[0] == self.token_infos@[i as int]);
            }
            let ti = &self.token_infos[i];
            if ti.deposits != 0 {
                return Err(ErrorCode::TokenWithDeposits);
            }
            if ti.token_supply != 0 {
                return Err(ErrorCode::TokenWithLpSupply);
            }
            proof {
                assert(self.token_infos@.skip(i as int).drop_first() =~= self.token_infos@.skip(
                    i as int + 1,
                ));
            }
            i += 1;
        }
        proof {
            assert(self.token_infos@.skip(n as int) =~= Seq::<TokenInfo>::empty());
        }
        Ok(())
    }
}

} // verus!
