//! Book value: the collateral that stands behind one token, and the band
//! around it inside which a trade may be priced.

use crate::account::Mint;
use crate::account::Vault;
use crate::fixed::checked_mul_div;
use crate::fixed::lemma_mul_div_at_most_product;
use crate::fixed::lemma_mul_div_monotonic;
use crate::fixed::lemma_mul_div_same;
use crate::fixed::marked_down;
use crate::fixed::marked_up;
use crate::fixed::mul_div;
use crate::fixed::BPS_DENOM;
use crate::fixed::DENOM;
use crate::state::ErrorCode;
use crate::state::State;
use vstd::prelude::*;

verus! {

/// The collateral realized in the two vaults together.
pub open spec fn liquidity(above_vault: Vault, below_vault: Vault) -> nat {
    (above_vault.lamports + below_vault.lamports) as nat
}

/// Lamports behind one whole token: the collateral times `DENOM`, divided by
/// the supply and rounded down.
pub open spec fn book_value(mint: Mint, above_vault: Vault, below_vault: Vault) -> nat
    recommends
        mint.supply > 0,
{
    mul_div(liquidity(above_vault, below_vault), DENOM as nat, mint.supply as nat)
}

/// The lower bound of the band: book value less the buffer.
pub open spec fn floor_price(state: State, mint: Mint, above_vault: Vault, below_vault: Vault) -> nat
    recommends
        mint.supply > 0,
        state.buf_bps <= BPS_DENOM,
{
    marked_down(book_value(mint, above_vault, below_vault), state.buf_bps as nat)
}

/// The upper bound of the band: book value plus the buffer.
pub open spec fn ceil_price(state: State, mint: Mint, above_vault: Vault, below_vault: Vault) -> nat
    recommends
        mint.supply > 0,
{
    marked_up(book_value(mint, above_vault, below_vault), state.buf_bps as nat)
}

/// Why the band cannot be computed, if it cannot: no supply to divide by, or
/// a buffer wider than the whole.
pub open spec fn bounds_error(state: State, mint: Mint) -> Option<ErrorCode> {
    if mint.supply == 0 {
        Some(ErrorCode::InsufficientSupply)
    } else if state.buf_bps > BPS_DENOM {
        Some(ErrorCode::Underflow)
    } else {
        None
    }
}

/// Lowering a value by a buffer of at most the whole never raises it, and
/// raising it by any buffer never lowers it.
pub proof fn lemma_band_holds_value(value: nat, buf_bps: nat)
    requires
        buf_bps <= BPS_DENOM,
    ensures
        marked_down(value, buf_bps) <= value <= marked_up(value, buf_bps),
{
    let whole = BPS_DENOM as nat;
    lemma_mul_div_same(value, whole);
    lemma_mul_div_monotonic(value, value, (whole - buf_bps) as nat, whole, whole);
    lemma_mul_div_monotonic(value, value, whole, whole + buf_bps, whole);
}

/// Book value and the band around it fit in 128 bits with room to spare.
pub proof fn lemma_bounds_fit(state: State, mint: Mint, above_vault: Vault, below_vault: Vault)
    requires
        mint.supply > 0,
    ensures
        book_value(mint, above_vault, below_vault) <= 0x2_0000_0000_0000_0000 * DENOM,
        ceil_price(state, mint, above_vault, below_vault) <= 0x10_0000_0000_0000_0000 * DENOM,
{
    let liq = liquidity(above_vault, below_vault);
    let bv = book_value(mint, above_vault, below_vault);
    let whole = BPS_DENOM as nat;
    let factor = whole + state.buf_bps as nat;
    lemma_mul_div_at_most_product(liq, DENOM as nat, mint.supply as nat);
    lemma_mul_div_at_most_product(bv, factor, whole);
    lemma_mul_div_monotonic(bv, bv, factor, 8 * whole, whole);
    lemma_mul_div_monotonic(bv, bv, 8 * whole, 8 * whole, whole);
    assert(mul_div(bv, 8 * whole, whole) == 8 * bv) by {
        vstd::arithmetic::div_mod::lemma_div_multiples_vanish(8 * bv as int, whole as int);
        assert(bv * (8 * whole) == whole * (8 * bv)) by (nonlinear_arith);
    }
    assert(liq * DENOM <= 0x2_0000_0000_0000_0000 * DENOM) by (nonlinear_arith)
        requires
            liq <= 0x2_0000_0000_0000_0000,
    ;
}

/// Book value with its floor and ceiling, from the accounts that a quote
/// reads.
///
/// Fails with `InsufficientSupply` where no token is outstanding, and with
/// `Underflow` where the buffer is wider than the whole. Otherwise the three
/// values are exact, and the floor is at most book value, which is at most the
/// ceiling.
pub fn book_value_and_bounds_from_accounts(
    state: &State,
    mint: &Mint,
    above_vault: &Vault,
    below_vault: &Vault,
) -> (res: Result<(u128, u128, u128), ErrorCode>)
    ensures
        bounds_error(*state, *mint) matches Some(e) ==> res == Err::<(u128, u128, u128), _>(e),
        bounds_error(*state, *mint) is None ==> (res matches Ok((bv, floor, ceil)) && {
            &&& bv == book_value(*mint, *above_vault, *below_vault)
            &&& floor == floor_price(*state, *mint, *above_vault, *below_vault)
            &&& ceil == ceil_price(*state, *mint, *above_vault, *below_vault)
            &&& floor <= bv <= ceil
        }),
{
    let liq: u128 = above_vault.lamports as u128 + below_vault.lamports as u128;
    if mint.supply == 0 {
        return Err(ErrorCode::InsufficientSupply);
    }
    if state.buf_bps as u64 > BPS_DENOM {
        return Err(ErrorCode::Underflow);
    }
    proof {
        lemma_bounds_fit(*state, *mint, *above_vault, *below_vault);
        lemma_band_holds_value(
            book_value(*mint, *above_vault, *below_vault),
            state.buf_bps as nat,
        );
    }
    let bv = checked_mul_div(liq, DENOM, mint.supply).unwrap();
    let floor = checked_mul_div(bv, BPS_DENOM - state.buf_bps as u64, BPS_DENOM).unwrap();
    let ceil = checked_mul_div(bv, BPS_DENOM + state.buf_bps as u64, BPS_DENOM).unwrap();
    Ok((bv, floor, ceil))
}

} // verus!
