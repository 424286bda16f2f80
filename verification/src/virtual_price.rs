//! The reference price, drawn from the record's two virtual counters alone.

use crate::fixed::checked_mul_div;
use crate::fixed::lemma_mul_div_monotonic;
use crate::fixed::lemma_mul_div_same;
use crate::fixed::marked_down;
use crate::fixed::marked_up;
use crate::fixed::BPS_DENOM;
use crate::state::ErrorCode;
use crate::state::State;
use vstd::prelude::*;

verus! {

/// The mean of the two virtual counters, rounded down.
pub open spec fn virtual_book_value(state: State) -> nat {
    ((state.virt_above + state.virt_below) / 2) as nat
}

/// The reference price for a buy: the virtual book value plus the buffer.
pub open spec fn reference_buy_price(state: State) -> nat {
    marked_up(virtual_book_value(state), state.buf_bps as nat)
}

/// The reference price for a sale: the virtual book value less the buffer.
pub open spec fn reference_sell_price(state: State) -> nat
    recommends
        state.buf_bps <= BPS_DENOM,
{
    marked_down(virtual_book_value(state), state.buf_bps as nat)
}

/// The mean of the two virtual counters. It never passes the larger of the
/// two, so it always fits.
pub fn book_value_virtual(s: &State) -> (mean: u128)
    ensures
        mean == virtual_book_value(*s),
{
    s.virt_above / 2 + s.virt_below / 2 + (s.virt_above % 2 + s.virt_below % 2) / 2
}

/// The reference price for a buy; `Overflow` where it passes `u128::MAX`.
pub fn buy_price_virtual(s: &State) -> (res: Result<u128, ErrorCode>)
    ensures
        reference_buy_price(*s) <= u128::MAX ==> res == Ok::<u128, ErrorCode>(
            reference_buy_price(*s) as u128,
        ),
        reference_buy_price(*s) > u128::MAX ==> res == Err::<u128, _>(ErrorCode::Overflow),
{
    match checked_mul_div(book_value_virtual(s), BPS_DENOM + s.buf_bps as u64, BPS_DENOM) {
        Some(price) => Ok(price),
        None => Err(ErrorCode::Overflow),
    }
}

/// The reference price for a sale; `Underflow` where the buffer is wider than
/// the whole. The price is at most the virtual book value.
pub fn sell_price_virtual(s: &State) -> (res: Result<u128, ErrorCode>)
    ensures
        s.buf_bps <= BPS_DENOM ==> res == Ok::<u128, ErrorCode>(reference_sell_price(*s) as u128)
            && reference_sell_price(*s) <= virtual_book_value(*s),
        s.buf_bps > BPS_DENOM ==> res == Err::<u128, _>(ErrorCode::Underflow),
{
    if s.buf_bps as u64 > BPS_DENOM {
        return Err(ErrorCode::Underflow);
    }
    proof {
        let mean = virtual_book_value(*s);
        lemma_mul_div_same(mean, BPS_DENOM as nat);
        lemma_mul_div_monotonic(
            mean,
            mean,
            (BPS_DENOM - s.buf_bps) as nat,
            BPS_DENOM as nat,
            BPS_DENOM as nat,
        );
    }
    Ok(checked_mul_div(book_value_virtual(s), BPS_DENOM - s.buf_bps as u64, BPS_DENOM).unwrap())
}

} // verus!
