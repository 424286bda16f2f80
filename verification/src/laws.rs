//! What holds of every trade and every ratchet, whatever the accounts hold.

use crate::account::Mint;
use crate::account::Vault;
use crate::book::ceil_price;
use crate::book::floor_price;
use crate::fixed::lemma_mul_div_monotonic;
use crate::fixed::lemma_mul_div_same;
use crate::fixed::BPS_DENOM;
use crate::quote::buy_price;
use crate::quote::buy_quote;
use crate::quote::sell_price;
use crate::quote::sell_quote;
use crate::quote::QuoteSell;
use crate::ratchet::drift;
use crate::ratchet::ratcheted;
use crate::state::ErrorCode;
use crate::state::State;
use crate::trade::after_buy;
use crate::trade::after_sell;
use crate::trade::as_quote_buy;
use crate::trade::buy_outcome;
use crate::trade::identity_error;
use crate::trade::sell_outcome;
use crate::trade::Trade;
use crate::virtual_price::reference_buy_price;
use crate::virtual_price::reference_sell_price;
use crate::virtual_price::virtual_book_value;
use vstd::prelude::*;

verus! {

/// A buy is never priced below the ceiling of the band computed from the
/// same accounts, nor below the reference price.
pub proof fn lemma_buy_price_at_least_ceil(
    state: State,
    mint: Mint,
    above_vault: Vault,
    below_vault: Vault,
)
    ensures
        buy_price(state, mint, above_vault, below_vault) >= ceil_price(
            state,
            mint,
            above_vault,
            below_vault,
        ),
        buy_price(state, mint, above_vault, below_vault) >= reference_buy_price(state),
{
}

/// A sale is never priced above the floor of the band computed from the same
/// accounts, nor above the reference price.
pub proof fn lemma_sell_price_at_most_floor(
    state: State,
    mint: Mint,
    above_vault: Vault,
    below_vault: Vault,
)
    ensures
        sell_price(state, mint, above_vault, below_vault) <= floor_price(
            state,
            mint,
            above_vault,
            below_vault,
        ),
        sell_price(state, mint, above_vault, below_vault) <= reference_sell_price(state),
{
}

/// A buy that succeeds mints what the quote on the same accounts promised,
/// and a buy whose quote fails, fails as the quote does once the identity
/// checks have passed.
pub proof fn lemma_buy_follows_quote(ctx: Trade, lamports_in: u64)
    ensures
        buy_outcome(ctx, lamports_in) matches Ok(amount_out) ==> (buy_quote(
            as_quote_buy(ctx),
            lamports_in,
        ) matches Ok(quote) && quote.amount_out == amount_out),
        identity_error(ctx) is None ==> (buy_quote(
            as_quote_buy(ctx),
            lamports_in,
        ) matches Err(e) ==> buy_outcome(ctx, lamports_in) == Err::<u64, _>(e)),
{
}

/// A buy that its quote lets through never fails on the issuing counter: a
/// price that a 64-bit payment can meet keeps the counter far below
/// `u128::MAX`.
pub proof fn lemma_quoted_buy_fits_counter(ctx: Trade, lamports_in: u64)
    ensures
        buy_quote(as_quote_buy(ctx), lamports_in) matches Ok(quote) ==> {
            &&& ctx.state.virt_above + quote.amount_out <= u128::MAX
            &&& identity_error(ctx) is None ==> buy_outcome(ctx, lamports_in) == Ok::<
                u64,
                ErrorCode,
            >(quote.amount_out)
        },
{
    if buy_quote(as_quote_buy(ctx), lamports_in) is Ok {
        let mean = virtual_book_value(ctx.state);
        let price = buy_price(ctx.state, ctx.mint, ctx.above_vault, ctx.below_vault);
        let whole = BPS_DENOM as nat;
        lemma_mul_div_same(mean, whole);
        lemma_mul_div_monotonic(mean, mean, whole, whole + ctx.state.buf_bps as nat, whole);
        assert(mean <= price <= lamports_in);
        assert(ctx.state.virt_above <= 2 * mean + 1);
    }
}

/// A sale that succeeds pays what the quote on the same accounts promised,
/// wherever the quote can express it.
pub proof fn lemma_sell_follows_quote(ctx: Trade, amount_in: u64)
    ensures
        sell_outcome(ctx, amount_in) matches Ok(lamports_out) ==> (sell_quote(
            QuoteSell {
                state: ctx.state,
                mint: ctx.mint,
                above_vault: ctx.above_vault,
                below_vault: ctx.below_vault,
            },
            amount_in,
        ) matches Ok(quote) ==> quote.lamports_out == lamports_out),
{
}

/// After a sale that succeeds, the two vaults together still hold the
/// minimum capital requirement, and the redeeming vault still holds at least
/// one lamport.
pub proof fn lemma_sale_keeps_capital(ctx: Trade, amount_in: u64)
    ensures
        sell_outcome(ctx, amount_in) matches Ok(lamports_out) ==> {
            &&& ctx.below_vault.lamports - lamports_out >= 1
            &&& ctx.above_vault.lamports + (ctx.below_vault.lamports - lamports_out)
                >= ctx.state.mcr
        },
{
}

/// No operation takes a virtual counter below zero or past `u128::MAX`: the
/// record after a buy, a sale or a ratchet holds the counters that the
/// arithmetic over the integers gives, which lie between the two.
pub proof fn lemma_counters_stay_in_range(ctx: Trade, amount: u64, now: i64)
    ensures
        buy_outcome(ctx, amount) matches Ok(amount_out) ==> {
            &&& after_buy(ctx, amount_out).state.virt_above == ctx.state.virt_above + amount_out
            &&& after_buy(ctx, amount_out).state.virt_below == ctx.state.virt_below
        },
        sell_outcome(ctx, amount) is Ok ==> {
            &&& 0 <= ctx.state.virt_below - amount
            &&& after_sell(ctx, amount).state.virt_below == ctx.state.virt_below - amount
            &&& after_sell(ctx, amount).state.virt_above == ctx.state.virt_above
        },
        ctx.state.virt_above <= ratcheted(ctx.state, now).virt_above,
        ratcheted(ctx.state, now).virt_below <= ctx.state.virt_below,
        now > ctx.state.last_ratchet ==> {
            let elapsed = (now - ctx.state.last_ratchet) as nat;
            let up = drift(ctx.state.virt_above, ctx.state.ratchet_bps_per_day, elapsed);
            let down = drift(ctx.state.virt_below, ctx.state.ratchet_bps_per_day, elapsed);
            &&& ratcheted(ctx.state, now).virt_above == ctx.state.virt_above + up || (
            ratcheted(ctx.state, now).virt_above == u128::MAX && ctx.state.virt_above + up
                > u128::MAX)
            &&& ratcheted(ctx.state, now).virt_below == ctx.state.virt_below - down || (
            ratcheted(ctx.state, now).virt_below == 0 && ctx.state.virt_below - down < 0)
        },
{
}

/// A ratchet at the time of the last one, or before it, changes nothing. So
/// a second ratchet with no time elapsed since the first leaves the record as
/// the first left it.
pub proof fn lemma_ratchet_idempotent(state: State, now: i64, again: i64)
    requires
        again <= now,
    ensures
        ratcheted(ratcheted(state, now), now) == ratcheted(state, now),
        ratcheted(ratcheted(state, now), again) == ratcheted(state, now),
        now <= state.last_ratchet ==> ratcheted(state, now) == state,
{
}

/// The ratchet touches the two counters and the watermark and nothing else,
/// and the watermark never moves back.
pub proof fn lemma_ratchet_keeps_parameters(state: State, now: i64)
    ensures
        ratcheted(state, now) == (State {
            virt_above: ratcheted(state, now).virt_above,
            virt_below: ratcheted(state, now).virt_below,
            last_ratchet: ratcheted(state, now).last_ratchet,
            ..state
        }),
        ratcheted(state, now).last_ratchet >= state.last_ratchet,
        ratcheted(state, now).last_ratchet >= now,
{
}

} // verus!
