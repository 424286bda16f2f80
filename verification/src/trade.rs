//! Buying and selling the claim token.
//!
//! Each operation decides everything before it changes anything. On success
//! it has updated the record and returns the amount that the caller now has
//! to move: after a buy, `lamports_in` go from the buyer into the issuing
//! vault and the returned tokens are minted to the buyer; after a sale,
//! `amount_in` tokens are burned and the returned lamports go from the
//! redeeming vault to the seller. On failure nothing has changed.

use crate::account::system_program_address;
use crate::account::Address;
use crate::account::Mint;
use crate::account::Vault;
use crate::book::book_value_and_bounds_from_accounts;
use crate::book::bounds_error;
use crate::book::ceil_price;
use crate::book::floor_price;
use crate::book::liquidity;
use crate::fixed::DENOM;
use crate::quote::buy_price;
use crate::quote::buy_quote;
use crate::quote::executed_sell_price;
use crate::quote::lamports_for;
use crate::quote::proceeds_of;
use crate::quote::quote_buy;
use crate::quote::sell_price;
use crate::quote::tokens_for;
use crate::quote::QuoteBuy;
use crate::state::ErrorCode;
use crate::state::State;
use vstd::prelude::*;

verus! {

/// What a buy or a sale reads and writes.
#[derive(Clone, Copy, Debug, PartialEq, Eq)]
pub struct Trade {
    /// The record of the token traded.
    pub state: State,
    /// The vault that buys pay into.
    pub above_vault: Vault,
    /// The vault that sales are paid from.
    pub below_vault: Vault,
    /// The mint handed in; it must be the record's own.
    pub mint: Mint,
    /// The address of the account handed in as the system program.
    pub system_program: Address,
}

/// The first identity check that the accounts of a trade fail, if any: the
/// mint is the record's own, the system program is the system program, and
/// it owns both vaults.
pub open spec fn identity_error(ctx: Trade) -> Option<ErrorCode> {
    if ctx.mint.key@ != ctx.state.mint@ {
        Some(ErrorCode::WrongMint)
    } else if ctx.system_program@ != system_program_address() {
        Some(ErrorCode::WrongSystemProgram)
    } else if ctx.above_vault.owner@ != system_program_address() || ctx.below_vault.owner@
        != system_program_address() {
        Some(ErrorCode::InvalidVaultOwner)
    } else {
        None
    }
}

/// The accounts of a trade as a quote for a buy reads them.
pub open spec fn as_quote_buy(ctx: Trade) -> QuoteBuy {
    QuoteBuy {
        state: ctx.state,
        mint: ctx.mint,
        above_vault: ctx.above_vault,
        below_vault: ctx.below_vault,
    }
}

/// What buying with `lamports_in` gives: the tokens to mint, or the reason
/// for refusing.
///
/// The identity checks come first, then the quote for the payment, and last
/// the issuing counter, which must be able to take the tokens without
/// passing `u128::MAX`.
pub open spec fn buy_outcome(ctx: Trade, lamports_in: u64) -> Result<u64, ErrorCode> {
    match identity_error(ctx) {
        Some(e) => Err(e),
        None => match buy_quote(as_quote_buy(ctx), lamports_in) {
            Err(e) => Err(e),
            Ok(quote) => if ctx.state.virt_above + quote.amount_out > u128::MAX {
                Err(ErrorCode::Overflow)
            } else {
                Ok(quote.amount_out)
            },
        },
    }
}

/// The accounts after a buy that minted `amount_out`: the issuing counter has
/// grown by the tokens minted.
pub open spec fn after_buy(ctx: Trade, amount_out: u64) -> Trade {
    Trade {
        state: State { virt_above: (ctx.state.virt_above + amount_out) as u128, ..ctx.state },
        ..ctx
    }
}

/// The collateral left in the two vaults once `lamports_out` are paid, held
/// at zero.
pub open spec fn projected_collateral(ctx: Trade, lamports_out: nat) -> nat {
    let liq = liquidity(ctx.above_vault, ctx.below_vault);
    if lamports_out > liq {
        0
    } else {
        (liq - lamports_out) as nat
    }
}

/// What selling `amount_in` tokens gives: the lamports to pay out, or the
/// reason for refusing.
///
/// The identity checks come first, then the band. The redeeming vault must
/// hold the proceeds and one lamport more; the two vaults together must keep
/// the minimum capital requirement once the proceeds are paid; and the
/// redeeming counter must be able to give up the tokens without going below
/// zero.
pub open spec fn sell_outcome(ctx: Trade, amount_in: u64) -> Result<u64, ErrorCode> {
    let price = sell_price(ctx.state, ctx.mint, ctx.above_vault, ctx.below_vault);
    let proceeds = lamports_for(amount_in, price);
    match identity_error(ctx) {
        Some(e) => Err(e),
        None => match bounds_error(ctx.state, ctx.mint) {
            Some(e) => Err(e),
            None => if ctx.below_vault.lamports < proceeds + 1 {
                Err(ErrorCode::InsufficientVaultBalance)
            } else if projected_collateral(ctx, proceeds) < ctx.state.mcr {
                Err(ErrorCode::McrBreached)
            } else if ctx.state.virt_below < amount_in {
                Err(ErrorCode::Underflow)
            } else {
                Ok(proceeds as u64)
            },
        },
    }
}

/// The accounts after a sale of `amount_in` tokens: the redeeming counter has
/// shrunk by the tokens burned.
pub open spec fn after_sell(ctx: Trade, amount_in: u64) -> Trade {
    Trade {
        state: State { virt_below: (ctx.state.virt_below - amount_in) as u128, ..ctx.state },
        ..ctx
    }
}

/// Runs the identity checks of a trade.
pub fn check_identity(ctx: &Trade) -> (res: Result<(), ErrorCode>)
    ensures
        identity_error(*ctx) matches Some(e) ==> res == Err::<(), _>(e),
        identity_error(*ctx) is None ==> res is Ok,
{
    if !ctx.mint.key.same(&ctx.state.mint) {
        return Err(ErrorCode::WrongMint);
    }
    if !ctx.system_program.is_system_program() {
        return Err(ErrorCode::WrongSystemProgram);
    }
    if !ctx.above_vault.owner.is_system_program() {
        return Err(ErrorCode::InvalidVaultOwner);
    }
    if !ctx.below_vault.owner.is_system_program() {
        return Err(ErrorCode::InvalidVaultOwner);
    }
    Ok(())
}

/// Book value with its floor and ceiling, from the accounts of a trade.
///
/// Fails with `InsufficientSupply` where no token is outstanding, and with
/// `Underflow` where the buffer is wider than the whole. Otherwise the three
/// values are exact, and the floor is at most book value, which is at most the
/// ceiling.
pub fn book_value_and_bounds(ctx: &Trade) -> (res: Result<(u128, u128, u128), ErrorCode>)
    ensures
        bounds_error(ctx.state, ctx.mint) matches Some(e) ==> res == Err::<(u128, u128, u128), _>(
            e,
        ),
        bounds_error(ctx.state, ctx.mint) is None ==> (res matches Ok((bv, floor, ceil)) && {
            &&& bv == crate::book::book_value(ctx.mint, ctx.above_vault, ctx.below_vault)
            &&& floor == floor_price(ctx.state, ctx.mint, ctx.above_vault, ctx.below_vault)
            &&& ceil == ceil_price(ctx.state, ctx.mint, ctx.above_vault, ctx.below_vault)
            &&& floor <= bv <= ceil
        }),
{
    book_value_and_bounds_from_accounts(&ctx.state, &ctx.mint, &ctx.above_vault, &ctx.below_vault)
}

/// Buys tokens with `lamports_in` and returns the tokens to mint.
///
/// The price is that of the quote on the same accounts: never below the
/// ceiling of the band, and never above the payment. The issuing counter grows
/// by the tokens minted; nothing else changes, and on failure nothing changes
/// at all.
pub fn buy(ctx: &mut Trade, lamports_in: u64) -> (res: Result<u64, ErrorCode>)
    ensures
        res == buy_outcome(*old(ctx), lamports_in),
        res matches Ok(amount_out) ==> {
            let price = buy_price(
                old(ctx).state,
                old(ctx).mint,
                old(ctx).above_vault,
                old(ctx).below_vault,
            );
            &&& *final(ctx) == after_buy(*old(ctx), amount_out)
            &&& final(ctx).state.virt_above == old(ctx).state.virt_above + amount_out
            &&& ceil_price(old(ctx).state, old(ctx).mint, old(ctx).above_vault, old(ctx).below_vault)
                <= price <= lamports_in
            &&& amount_out == tokens_for(lamports_in, price)
            &&& amount_out >= DENOM
        },
        res is Err ==> *final(ctx) == *old(ctx),
{
    match check_identity(ctx) {
        Ok(()) => {},
        Err(e) => { return Err(e); },
    }
    let quote = QuoteBuy {
        state: ctx.state,
        mint: ctx.mint,
        above_vault: ctx.above_vault,
        below_vault: ctx.below_vault,
    };
    let amount_out = match quote_buy(&quote, lamports_in) {
        Ok(quote) => quote.amount_out,
        Err(e) => { return Err(e); },
    };
    match ctx.state.virt_above.checked_add(amount_out as u128) {
        Some(virt_above) => {
            ctx.state.virt_above = virt_above;
            Ok(amount_out)
        },
        None => Err(ErrorCode::Overflow),
    }
}

/// Sells `amount_in` tokens and returns the lamports to pay out.
///
/// The price is never above the floor of the band. The payout leaves at
/// least one lamport in the redeeming vault and at least the minimum capital
/// requirement in the two vaults together. The redeeming counter shrinks by
/// the tokens burned; nothing else changes, and on failure nothing changes at
/// all.
pub fn sell(ctx: &mut Trade, amount_in: u64) -> (res: Result<u64, ErrorCode>)
    ensures
        res == sell_outcome(*old(ctx), amount_in),
        res matches Ok(lamports_out) ==> {
            let price = sell_price(
                old(ctx).state,
                old(ctx).mint,
                old(ctx).above_vault,
                old(ctx).below_vault,
            );
            &&& *final(ctx) == after_sell(*old(ctx), amount_in)
            &&& final(ctx).state.virt_below == old(ctx).state.virt_below - amount_in
            &&& price <= floor_price(
                old(ctx).state,
                old(ctx).mint,
                old(ctx).above_vault,
                old(ctx).below_vault,
            )
            &&& lamports_out == lamports_for(amount_in, price)
            &&& lamports_out < old(ctx).below_vault.lamports
            &&& old(ctx).above_vault.lamports + old(ctx).below_vault.lamports - lamports_out
                >= old(ctx).state.mcr
        },
        res is Err ==> *final(ctx) == *old(ctx),
{
    match check_identity(ctx) {
        Ok(()) => {},
        Err(e) => { return Err(e); },
    }
    let price = match executed_sell_price(
        &ctx.state,
        &ctx.mint,
        &ctx.above_vault,
        &ctx.below_vault,
    ) {
        Ok(price) => price,
        Err(e) => { return Err(e); },
    };
    let lamports_out = match proceeds_of(amount_in, price) {
        Some(proceeds) => if proceeds >= ctx.below_vault.lamports as u128 {
            return Err(ErrorCode::InsufficientVaultBalance);
        } else {
            proceeds as u64
        },
        None => { return Err(ErrorCode::InsufficientVaultBalance); },
    };
    let new_liq: u128 = (ctx.above_vault.lamports as u128 + ctx.below_vault.lamports as u128)
        - lamports_out as u128;
    if new_liq < ctx.state.mcr {
        return Err(ErrorCode::McrBreached);
    }
    match ctx.state.virt_below.checked_sub(amount_in as u128) {
        Some(virt_below) => {
            ctx.state.virt_below = virt_below;
            Ok(lamports_out)
        },
        None => Err(ErrorCode::Underflow),
    }
}

} // verus!
