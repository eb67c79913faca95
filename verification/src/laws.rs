use vstd::prelude::*;
use vstd::arithmetic::div_mod::*;
use vstd::arithmetic::mul::*;
use crate::error::ErrorCode;
use crate::lifecycle::spec_deposit_outcome;
use crate::state::{
    lemma_burn_amount_bounds, lemma_burn_full_supply, lemma_burn_partial_leaves_deposits,
    lemma_mint_amount_bounds, lemma_mint_amount_nonneg, lemma_token_index_of_match,
    spec_burn_amount, spec_has_token, spec_mint_amount, spec_token_index, wf_mints, TokenInfo,
};

verus! {

/// The sum of a sequence of amounts.
pub open spec fn spec_sum(xs: Seq<int>) -> int
    decreases xs.len(),
{
    if xs.len() == 0 {
        0
    } else {
        xs[0] + spec_sum(xs.drop_first())
    }
}

/// The ledger state `(deposits, token_supply)` after a run of deposits, each
/// minting what the ratio engine gives for the state it meets.
pub open spec fn spec_apply_deposits(d: int, s: int, amounts: Seq<int>) -> (int, int)
    decreases amounts.len(),
{
    if amounts.len() == 0 {
        (d, s)
    } else {
        let m = spec_mint_amount(d, s, amounts[0]);
        spec_apply_deposits(d + amounts[0], s + m, amounts.drop_first())
    }
}

/// The ledger state `(deposits, token_supply)` after a run of withdrawals,
/// each burning the redeemed LP and returning what the ratio engine gives.
pub open spec fn spec_apply_withdrawals(d: int, s: int, redeems: Seq<int>) -> (int, int)
    decreases redeems.len(),
{
    if redeems.len() == 0 {
        (d, s)
    } else {
        let b = spec_burn_amount(d, s, redeems[0]);
        spec_apply_withdrawals(d - b, s - redeems[0], redeems.drop_first())
    }
}

/// Each redemption in the run is positive and no larger than the LP supply
/// still outstanding when it happens.
pub open spec fn spec_valid_redemptions(s: int, redeems: Seq<int>) -> bool
    decreases redeems.len(),
{
    redeems.len() == 0 || (0 < redeems[0] <= s && spec_valid_redemptions(
        s - redeems[0],
        redeems.drop_first(),
    ))
}

/// With supply equal to deposits, the ratio engine mints exactly the amount
/// deposited.
pub proof fn lemma_mint_at_parity(d: int, a: int)
    requires
        0 <= d,
        0 <= a,
    ensures
        spec_mint_amount(d, d, a) == a,
{
    if d != 0 {
        lemma_div_multiples_vanish(a, d);
        lemma_mul_is_commutative(a, d);
    }
}

/// The LP amount minted by the `i`-th deposit of a run.
pub open spec fn spec_minted_in_run(d: int, s: int, amounts: Seq<int>, i: int) -> int
    decreases i,
{
    if i <= 0 {
        spec_mint_amount(d, s, amounts[0])
    } else {
        let m = spec_mint_amount(d, s, amounts[0]);
        spec_minted_in_run(d + amounts[0], s + m, amounts.drop_first(), i - 1)
    }
}

/// For every run of deposits with no intervening withdrawals, starting from
/// a line whose LP supply equals its recorded deposits (as every fresh line
/// does), each deposit mints exactly the amount deposited and the line keeps
/// supply equal to deposits. Each depositor's recorded LP balance therefore
/// equals their cumulative deposited amount, so their share of the supply
/// equals their share of the deposits exactly.
pub proof fn lemma_deposit_run_parity(d: int, s: int, amounts: Seq<int>)
    requires
        0 <= d,
        d == s,
        forall|i: int| 0 <= i < amounts.len() ==> 0 <= #[trigger] amounts[i],
    ensures
        spec_apply_deposits(d, s, amounts) == (d + spec_sum(amounts), d + spec_sum(amounts)),
        forall|i: int| 0 <= i < amounts.len() ==> #[trigger] spec_minted_in_run(d, s, amounts, i)
            == amounts[i],
    decreases amounts.len(),
{
    if amounts.len() > 0 {
        lemma_mint_at_parity(d, amounts[0]);
        lemma_deposit_run_parity(d + amounts[0], s + amounts[0], amounts.drop_first());
        assert forall|i: int| 0 <= i < amounts.len() implies #[trigger] spec_minted_in_run(
            d,
            s,
            amounts,
            i,
        ) == amounts[i] by {
            if i > 0 {
                assert(spec_minted_in_run(d + amounts[0], s + amounts[0], amounts.drop_first(), i - 1)
                    == amounts.drop_first()[i - 1]);
            }
        }
    }
}

/// The rounding bound for one deposit against an arbitrary live line: the
/// minted share `m / (s + m)` understates the deposited share `a / (d + a)`
/// by less than one rounding unit, and never overstates it. Written
/// cross-multiplied: `0 <= a * (s + m) - m * (d + a) < d`.
pub proof fn lemma_deposit_share_bound(d: int, s: int, a: int)
    requires
        0 < d,
        0 < s,
        0 <= a,
    ensures
        ({
            let m = spec_mint_amount(d, s, a);
            0 <= a * (s + m) - m * (d + a) < d
        }),
{
    let m = spec_mint_amount(d, s, a);
    lemma_mint_amount_bounds(d, s, a);
    lemma_mul_is_distributive_add(a, s, m);
    lemma_mul_is_distributive_add(m, d, a);
    lemma_mul_is_commutative(a, m);
    lemma_mul_is_commutative(m, d);
    lemma_mul_is_distributive_add_other_way(d, m, 1);
}

/// Minting for a deposit and immediately burning the minted LP returns at
/// most the deposited principal: the two roundings never favor the
/// depositor.
pub proof fn lemma_mint_then_burn(d: int, s: int, a: int)
    requires
        0 <= d,
        0 <= s,
        0 < a,
        (d == 0) <==> (s == 0),
    ensures
        ({
            let m = spec_mint_amount(d, s, a);
            spec_burn_amount(d + a, s + m, m) <= a
        }),
{
    let m = spec_mint_amount(d, s, a);
    if s == 0 {
        lemma_div_multiples_vanish(a, a);
        lemma_mul_is_commutative(a, a);
    } else {
        lemma_mint_amount_bounds(d, s, a);
        lemma_mint_amount_nonneg(d, s, a);
        lemma_mul_is_distributive_add_other_way(m, d, a);
        lemma_mul_is_distributive_add(a, s, m);
        lemma_mul_is_commutative(d, m);
        lemma_mul_is_commutative(a, m);
        assert((d + a) * m <= a * (s + m));
        lemma_div_is_ordered((d + a) * m, a * (s + m), s + m);
        lemma_div_multiples_vanish(a, s + m);
        lemma_mul_is_commutative(a, s + m);
    }
}

/// Any run of withdrawals that redeems the entire outstanding LP supply
/// drains the recorded deposits to exactly zero.
pub proof fn lemma_withdrawals_drain(d: int, s: int, redeems: Seq<int>)
    requires
        0 <= d,
        0 <= s,
        (d == 0) <==> (s == 0),
        spec_valid_redemptions(s, redeems),
        spec_sum(redeems) == s,
    ensures
        spec_apply_withdrawals(d, s, redeems) == (0int, 0int),
    decreases redeems.len(),
{
    if redeems.len() == 0 {
    } else {
        let r0 = redeems[0];
        let b = spec_burn_amount(d, s, r0);
        lemma_burn_amount_bounds(d, s, r0);
        if r0 == s {
            lemma_burn_full_supply(d, s);
        } else {
            lemma_burn_partial_leaves_deposits(d, s, r0);
        }
        lemma_withdrawals_drain(d - b, s - r0, redeems.drop_first());
    }
}

/// A deposit to a disabled token line fails with `DepositsDisabled`; the
/// identical deposit after the line is enabled again succeeds (whenever the
/// remaining deposit guards allow it) with exactly the mint amount the ratio
/// engine gives for the line's unchanged balances.
pub proof fn lemma_disable_enable_deposit(infos: Seq<TokenInfo>, mint: Seq<u8>, amount: u64)
    requires
        wf_mints(infos),
        spec_has_token(infos, mint),
        !infos[spec_token_index(infos, mint)].enabled,
    ensures
        spec_deposit_outcome(infos, mint, amount) == Err::<u64, ErrorCode>(
            ErrorCode::DepositsDisabled,
        ),
        ({
            let i = spec_token_index(infos, mint);
            let ti = infos[i];
            let m = spec_mint_amount(ti.deposits as int, ti.token_supply as int, amount as int);
            let enabled = infos.update(i, (TokenInfo { enabled: true, ..ti }));
            (amount > 0 && !(ti.token_supply > 0 && ti.deposits == 0) && ti.deposits + amount
                <= ti.deposit_limit && m <= u64::MAX && ti.token_supply + m <= u64::MAX)
                ==> spec_deposit_outcome(enabled, mint, amount) == Ok::<u64, ErrorCode>(m as u64)
        }),
{
    let i = spec_token_index(infos, mint);
    let ti = infos[i];
    let enabled = infos.update(i, (TokenInfo { enabled: true, ..ti }));
    assert forall|p: int, q: int| 0 <= p < q < enabled.len() implies (
    #[trigger] enabled[p].token_mint@) != (#[trigger] enabled[q].token_mint@) by {
        assert(infos[p].token_mint@ != infos[q].token_mint@);
    }
    lemma_token_index_of_match(enabled, mint, i);
}

} // verus!
