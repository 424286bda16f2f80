//! Prices as a trade would meet them, and quotes that change nothing.
//!
//! A buy is priced at the reference price or the ceiling of the band,
//! whichever is higher; a sale at the reference price or the floor, whichever
//! is lower. A quote is good for the balances it was computed from and no
//! longer.

use crate::account::Mint;
use crate::account::Vault;
use crate::book::book_value_and_bounds_from_accounts;
use crate::book::bounds_error;
use crate::book::ceil_price;
use crate::book::floor_price;
use crate::fixed::checked_mul_div;
use crate::fixed::lemma_mul_div_at_most_product;
use crate::fixed::lemma_mul_div_monotonic;
use crate::fixed::lemma_mul_div_same;
use crate::fixed::mul_div;
use crate::fixed::DENOM;
use crate::state::ErrorCode;
use crate::state::State;
use crate::virtual_price::buy_price_virtual;
use crate::virtual_price::reference_buy_price;
use crate::virtual_price::reference_sell_price;
use crate::virtual_price::sell_price_virtual;
use vstd::prelude::*;

verus! {

/// What a quote for a buy reads.
#[derive(Clone, Copy, Debug, PartialEq, Eq)]
pub struct QuoteBuy {
    pub state: State,
    pub mint: Mint,
    pub above_vault: Vault,
    pub below_vault: Vault,
}

/// What a quote for a sale reads.
#[derive(Clone, Copy, Debug, PartialEq, Eq)]
pub struct QuoteSell {
    pub state: State,
    pub mint: Mint,
    pub above_vault: Vault,
    pub below_vault: Vault,
}

/// A quote for a buy: the price of one token and the tokens the payment buys.
#[derive(Clone, Copy, Debug, PartialEq, Eq, Structural)]
pub struct QuoteBuyEvent {
    pub lamports_in: u64,
    pub price: u64,
    pub amount_out: u64,
}

/// A quote for a sale: the price of one token and the lamports the tokens
/// fetch.
#[derive(Clone, Copy, Debug, PartialEq, Eq, Structural)]
pub struct QuoteSellEvent {
    pub amount_in: u64,
    pub price: u64,
    pub lamports_out: u64,
}

/// The price a buy is executed at: the reference price, raised to the ceiling
/// of the band where it lies below it.
pub open spec fn buy_price(state: State, mint: Mint, above_vault: Vault, below_vault: Vault) -> nat
    recommends
        bounds_error(state, mint) is None,
{
    let reference = reference_buy_price(state);
    let ceil = ceil_price(state, mint, above_vault, below_vault);
    if reference < ceil {
        ceil
    } else {
        reference
    }
}

/// The price a sale is executed at: the reference price, lowered to the floor
/// of the band where it lies above it.
pub open spec fn sell_price(state: State, mint: Mint, above_vault: Vault, below_vault: Vault) -> nat
    recommends
        bounds_error(state, mint) is None,
{
    let reference = reference_sell_price(state);
    let floor = floor_price(state, mint, above_vault, below_vault);
    if reference > floor {
        floor
    } else {
        reference
    }
}

/// Tokens bought by `lamports_in` at `price`: the payment times `DENOM` over
/// the price, rounded down.
pub open spec fn tokens_for(lamports_in: u64, price: nat) -> nat
    recommends
        price > 0,
{
    mul_div(lamports_in as nat, DENOM as nat, price)
}

/// Lamports fetched by `amount_in` tokens at `price`: the amount times the
/// price over `DENOM`, rounded down.
pub open spec fn lamports_for(amount_in: u64, price: nat) -> nat {
    mul_div(amount_in as nat, price, DENOM as nat)
}

/// The quote for buying with `lamports_in`.
///
/// It fails where the band cannot be computed; with `TooLittleIn` where the
/// payment is below the price of one token; and with `Overflow` where the price
/// is zero, so that no amount is defined, or the amount does not fit in 64
/// bits.
pub open spec fn buy_quote(ctx: QuoteBuy, lamports_in: u64) -> Result<QuoteBuyEvent, ErrorCode> {
    let price = buy_price(ctx.state, ctx.mint, ctx.above_vault, ctx.below_vault);
    let amount = tokens_for(lamports_in, price);
    match bounds_error(ctx.state, ctx.mint) {
        Some(e) => Err(e),
        None => if lamports_in < price {
            Err(ErrorCode::TooLittleIn)
        } else if price == 0 || amount > u64::MAX {
            Err(ErrorCode::Overflow)
        } else {
            Ok(QuoteBuyEvent { lamports_in, price: price as u64, amount_out: amount as u64 })
        },
    }
}

/// The quote for selling `amount_in` tokens.
///
/// It fails where the band cannot be computed, and with `Overflow` where the
/// price or the proceeds do not fit in 64 bits.
pub open spec fn sell_quote(ctx: QuoteSell, amount_in: u64) -> Result<QuoteSellEvent, ErrorCode> {
    let price = sell_price(ctx.state, ctx.mint, ctx.above_vault, ctx.below_vault);
    let proceeds = lamports_for(amount_in, price);
    match bounds_error(ctx.state, ctx.mint) {
        Some(e) => Err(e),
        None => if price > u64::MAX || proceeds > u64::MAX {
            Err(ErrorCode::Overflow)
        } else {
            Ok(QuoteSellEvent { amount_in, price: price as u64, lamports_out: proceeds as u64 })
        },
    }
}

/// A payment of at least the price buys at least one whole token.
pub proof fn lemma_payment_buys_a_token(lamports_in: u64, price: nat)
    requires
        0 < price <= lamports_in,
    ensures
        tokens_for(lamports_in, price) >= DENOM,
{
    lemma_mul_div_same(DENOM as nat, price);
    lemma_mul_div_monotonic(price, lamports_in as nat, DENOM as nat, DENOM as nat, price);
    assert(price * DENOM == DENOM * price) by (nonlinear_arith);
}

/// The price a buy would be executed at: `None` where it passes `u128::MAX`,
/// which is more than any payment.
pub fn executed_buy_price(
    state: &State,
    mint: &Mint,
    above_vault: &Vault,
    below_vault: &Vault,
) -> (res: Result<Option<u128>, ErrorCode>)
    ensures
        bounds_error(*state, *mint) matches Some(e) ==> res == Err::<Option<u128>, _>(e),
        bounds_error(*state, *mint) is None ==> res == Ok::<Option<u128>, ErrorCode>(
            if buy_price(*state, *mint, *above_vault, *below_vault) <= u128::MAX {
                Some(buy_price(*state, *mint, *above_vault, *below_vault) as u128)
            } else {
                None
            },
        ),
        res matches Ok(Some(price)) ==> price >= ceil_price(
            *state,
            *mint,
            *above_vault,
            *below_vault,
        ),
{
    let ceil = match book_value_and_bounds_from_accounts(state, mint, above_vault, below_vault) {
        Ok((_, _, ceil)) => ceil,
        Err(e) => { return Err(e); },
    };
    match buy_price_virtual(state) {
        Ok(reference) => Ok(Some(if reference < ceil { ceil } else { reference })),
        Err(_) => Ok(None),
    }
}

/// The price a sale would be executed at. It is at most the floor of the
/// band, so it always fits.
pub fn executed_sell_price(
    state: &State,
    mint: &Mint,
    above_vault: &Vault,
    below_vault: &Vault,
) -> (res: Result<u128, ErrorCode>)
    ensures
        bounds_error(*state, *mint) matches Some(e) ==> res == Err::<u128, _>(e),
        bounds_error(*state, *mint) is None ==> res == Ok::<u128, ErrorCode>(
            sell_price(*state, *mint, *above_vault, *below_vault) as u128,
        ) && sell_price(*state, *mint, *above_vault, *below_vault) <= floor_price(
            *state,
            *mint,
            *above_vault,
            *below_vault,
        ) <= u128::MAX,
{
    let floor = match book_value_and_bounds_from_accounts(state, mint, above_vault, below_vault) {
        Ok((_, floor, _)) => floor,
        Err(e) => { return Err(e); },
    };
    match sell_price_virtual(state) {
        Ok(reference) => Ok(if reference > floor { floor } else { reference }),
        Err(e) => Err(e),
    }
}

/// Lamports fetched by `amount_in` tokens at `price`; `None` where they pass
/// `u128::MAX`.
pub fn proceeds_of(amount_in: u64, price: u128) -> (res: Option<u128>)
    ensures
        res == (if lamports_for(amount_in, price as nat) <= u128::MAX {
            Some(lamports_for(amount_in, price as nat) as u128)
        } else {
            None
        }),
{
    assert(amount_in * price == price * amount_in) by (nonlinear_arith);
    checked_mul_div(price, amount_in, DENOM)
}

/// Quotes a buy without changing anything: the price of one token, never
/// below the ceiling of the band, and the tokens that `lamports_in` buys at
/// that price, never less than one whole token.
pub fn quote_buy(ctx: &QuoteBuy, lamports_in: u64) -> (res: Result<QuoteBuyEvent, ErrorCode>)
    ensures
        res == buy_quote(*ctx, lamports_in),
        res matches Ok(quote) ==> {
            &&& quote.lamports_in == lamports_in
            &&& quote.price == buy_price(ctx.state, ctx.mint, ctx.above_vault, ctx.below_vault)
            &&& ceil_price(ctx.state, ctx.mint, ctx.above_vault, ctx.below_vault) <= quote.price
                <= lamports_in
            &&& quote.amount_out == tokens_for(lamports_in, quote.price as nat)
            &&& quote.amount_out >= DENOM
        },
{
    let price = match executed_buy_price(&ctx.state, &ctx.mint, &ctx.above_vault, &ctx.below_vault) {
        Ok(Some(price)) => price,
        Ok(None) => { return Err(ErrorCode::TooLittleIn); },
        Err(e) => { return Err(e); },
    };
    if (lamports_in as u128) < price {
        return Err(ErrorCode::TooLittleIn);
    }
    if price == 0 {
        return Err(ErrorCode::Overflow);
    }
    proof {
        lemma_payment_buys_a_token(lamports_in, price as nat);
        lemma_mul_div_at_most_product(lamports_in as nat, DENOM as nat, price as nat);
        assert(lamports_in * DENOM <= 0xffff_ffff_ffff_ffff * 0xffff_ffff_ffff_ffff)
            by (nonlinear_arith)
            requires
                lamports_in <= 0xffff_ffff_ffff_ffff,
                DENOM <= 0xffff_ffff_ffff_ffff,
        ;
    }
    let amount = checked_mul_div(lamports_in as u128, DENOM, price as u64).unwrap();
    if amount > u64::MAX as u128 {
        Err(ErrorCode::Overflow)
    } else {
        Ok(QuoteBuyEvent { lamports_in, price: price as u64, amount_out: amount as u64 })
    }
}

/// Quotes a sale without changing anything: the price of one token, never
/// above the floor of the band, and the lamports that `amount_in` tokens
/// fetch at that price.
pub fn quote_sell(ctx: &QuoteSell, amount_in: u64) -> (res: Result<QuoteSellEvent, ErrorCode>)
    ensures
        res == sell_quote(*ctx, amount_in),
        res matches Ok(quote) ==> {
            &&& quote.amount_in == amount_in
            &&& quote.price == sell_price(ctx.state, ctx.mint, ctx.above_vault, ctx.below_vault)
            &&& quote.price <= floor_price(ctx.state, ctx.mint, ctx.above_vault, ctx.below_vault)
            &&& quote.lamports_out == lamports_for(amount_in, quote.price as nat)
        },
{
    let price = match executed_sell_price(
        &ctx.state,
        &ctx.mint,
        &ctx.above_vault,
        &ctx.below_vault,
    ) {
        Ok(price) => price,
        Err(e) => { return Err(e); },
    };
    if price > u64::MAX as u128 {
        return Err(ErrorCode::Overflow);
    }
    proof {
        lemma_mul_div_at_most_product(amount_in as nat, price as nat, DENOM as nat);
        assert(amount_in * price <= 0xffff_ffff_ffff_ffff * 0xffff_ffff_ffff_ffff)
            by (nonlinear_arith)
            requires
                amount_in <= 0xffff_ffff_ffff_ffff,
                price <= 0xffff_ffff_ffff_ffff,
        ;
    }
    let proceeds = proceeds_of(amount_in, price).unwrap();
    if proceeds > u64::MAX as u128 {
        Err(ErrorCode::Overflow)
    } else {
        Ok(QuoteSellEvent { amount_in, price: price as u64, lamports_out: proceeds as u64 })
    }
}

} // verus!
