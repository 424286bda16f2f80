//! The ratchet: as time passes the issuing counter drifts up and the
//! redeeming counter drifts down, in proportion to the seconds elapsed.

use crate::fixed::saturating_mul;
use crate::fixed::saturating_product;
use crate::fixed::BPS_DENOM;
use crate::fixed::DRIFT_DENOM;
use crate::fixed::SECONDS_PER_DAY;
use crate::state::State;
use vstd::prelude::*;

verus! {

/// What `ratchet` reads and writes.
#[derive(Clone, Copy, Debug, PartialEq, Eq)]
pub struct Ratchet {
    /// The record whose counters drift.
    pub state: State,
}

/// The drift of a counter over `elapsed` seconds: the counter times the
/// daily rate times the seconds, over the basis points in a whole times the
/// seconds in a day. The product is held at `u128::MAX`; the quotient rounds
/// down.
pub open spec fn drift(value: u128, bps_per_day: u16, elapsed: nat) -> nat {
    saturating_product(value as nat, bps_per_day as nat * elapsed) / ((BPS_DENOM
        * SECONDS_PER_DAY) as nat)
}

/// The record after a ratchet at time `now`.
///
/// Where no time has passed since the last ratchet, or `now` lies before it,
/// the record is unchanged. Otherwise the issuing counter gains its drift,
/// held at `u128::MAX`; the redeeming counter loses its drift, held at zero;
/// and the watermark moves to `now`.
pub open spec fn ratcheted(state: State, now: i64) -> State {
    if now <= state.last_ratchet {
        state
    } else {
        let elapsed = (now - state.last_ratchet) as nat;
        let up = drift(state.virt_above, state.ratchet_bps_per_day, elapsed);
        let down = drift(state.virt_below, state.ratchet_bps_per_day, elapsed);
        State {
            virt_above: if state.virt_above + up > u128::MAX {
                u128::MAX
            } else {
                (state.virt_above + up) as u128
            },
            virt_below: if down >= state.virt_below {
                0
            } else {
                (state.virt_below - down) as u128
            },
            last_ratchet: now,
            ..state
        }
    }
}

/// Applies the drift for the time elapsed since the last ratchet. `now` is
/// the clock's time in seconds.
pub fn ratchet(ctx: &mut Ratchet, now: i64)
    ensures
        final(ctx).state == ratcheted(old(ctx).state, now),
{
    if now <= ctx.state.last_ratchet {
        return ;
    }
    let elapsed: u128 = (now as i128 - ctx.state.last_ratchet as i128) as u128;
    assert(ctx.state.ratchet_bps_per_day * elapsed <= 0xffff * 0xffff_ffff_ffff_ffff)
        by (nonlinear_arith)
        requires
            ctx.state.ratchet_bps_per_day <= 0xffff,
            elapsed <= 0xffff_ffff_ffff_ffff,
    ;
    let rate_num: u128 = ctx.state.ratchet_bps_per_day as u128 * elapsed;
    assert(DRIFT_DENOM == BPS_DENOM * SECONDS_PER_DAY) by (nonlinear_arith)
        requires
            DRIFT_DENOM == 864_000_000,
            BPS_DENOM == 10_000,
            SECONDS_PER_DAY == 86_400,
    ;
    let inc_above = saturating_mul(ctx.state.virt_above, rate_num) / DRIFT_DENOM;
    let dec_below = saturating_mul(ctx.state.virt_below, rate_num) / DRIFT_DENOM;
    ctx.state.virt_above = ctx.state.virt_above.saturating_add(inc_above);
    ctx.state.virt_below = ctx.state.virt_below.saturating_sub(dec_below);
    ctx.state.last_ratchet = now;
}

} // verus!
