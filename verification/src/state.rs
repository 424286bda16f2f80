//! The market maker's own record, and the errors its operations give.

use crate::account::Address;
use crate::account::Mint;
use crate::fixed::DENOM;
use vstd::prelude::*;

verus! {

/// The record kept for one claim token. There is one per mint; every buy,
/// sell and ratchet reads it and writes it back.
#[derive(Clone, Copy, Debug, PartialEq, Eq)]
pub struct State {
    /// Bump seed of the record's own address.
    pub bump: u8,
    /// The only mint this record trades.
    pub mint: Address,
    /// Half-width, in basis points, of the band around book value.
    pub buf_bps: u16,
    /// Drift applied to the virtual counters per day, in basis points.
    pub ratchet_bps_per_day: u16,
    /// Minimum capital requirement: the collateral a sale must leave behind.
    pub mcr: u128,
    /// Virtual counter of the issuing side. Buys add to it; the ratchet
    /// raises it.
    pub virt_above: u128,
    /// Virtual counter of the redeeming side. Sells take from it; the ratchet
    /// lowers it.
    pub virt_below: u128,
    /// Time of the last ratchet, in seconds.
    pub last_ratchet: i64,
}

/// Why an operation was refused. A refused operation changes nothing.
#[derive(Clone, Copy, Debug, PartialEq, Eq, Structural)]
pub enum ErrorCode {
    /// The payment offered is below the price of one token.
    TooLittleIn,
    /// The mint handed in is not the one the record was made for.
    WrongMint,
    /// A subtraction would go below zero: a counter smaller than what is
    /// taken from it, or a buffer wider than the whole.
    Underflow,
    /// A vault is not owned by the system program.
    InvalidVaultOwner,
    /// The account handed in as the system program is another one.
    WrongSystemProgram,
    /// The redeeming vault cannot pay out and keep one lamport.
    InsufficientVaultBalance,
    /// The sale would leave less collateral than the minimum capital
    /// requirement.
    McrBreached,
    /// No token is outstanding, so there is no book value per token.
    InsufficientSupply,
    /// A result does not fit the integer that has to hold it.
    Overflow,
}

impl ErrorCode {
    /// The text that goes with the error.
    pub open spec fn text(self) -> Seq<char> {
        match self {
            ErrorCode::TooLittleIn => "Input too small"@,
            ErrorCode::WrongMint => "Attempted to trade wrong mint"@,
            ErrorCode::Underflow => "Underflow"@,
            ErrorCode::InvalidVaultOwner => "Vault must be owned by System Program"@,
            ErrorCode::WrongSystemProgram => "Wrong System Program account"@,
            ErrorCode::InsufficientVaultBalance => "Insufficient SOL in vault"@,
            ErrorCode::McrBreached => "Sell would breach MCR (post-trade capital < MCR)"@,
            ErrorCode::InsufficientSupply => "No token supply to take book value over"@,
            ErrorCode::Overflow => "Overflow"@,
        }
    }

    /// The text that goes with the error.
    pub fn message(&self) -> (msg: &'static str)
        ensures
            msg@ == self.text(),
    {
        match self {
            ErrorCode::TooLittleIn => "Input too small",
            ErrorCode::WrongMint => "Attempted to trade wrong mint",
            ErrorCode::Underflow => "Underflow",
            ErrorCode::InvalidVaultOwner => "Vault must be owned by System Program",
            ErrorCode::WrongSystemProgram => "Wrong System Program account",
            ErrorCode::InsufficientVaultBalance => "Insufficient SOL in vault",
            ErrorCode::McrBreached => "Sell would breach MCR (post-trade capital < MCR)",
            ErrorCode::InsufficientSupply => "No token supply to take book value over",
            ErrorCode::Overflow => "Overflow",
        }
    }
}

/// What `init` reads and writes.
#[derive(Clone, Copy, Debug, PartialEq, Eq)]
pub struct Init {
    /// The record to fill in.
    pub state: State,
    /// The mint the record is made for.
    pub mint: Mint,
    /// Bump seed found for the record's address.
    pub state_bump: u8,
}

/// A record as `init` leaves it: both virtual counters at one token, the
/// ratchet's watermark at `now`.
pub open spec fn fresh_state(
    bump: u8,
    mint: Address,
    buf_bps: u16,
    ratchet_bps_per_day: u16,
    mcr: u128,
    now: i64,
) -> State {
    State {
        bump,
        mint,
        buf_bps,
        ratchet_bps_per_day,
        mcr,
        virt_above: DENOM as u128,
        virt_below: DENOM as u128,
        last_ratchet: now,
    }
}

/// Fills in the record for a mint. `now` is the clock's time in seconds.
pub fn init(ctx: &mut Init, buf_bps: u16, ratchet_bps_per_day: u16, mcr: u128, now: i64)
    ensures
        final(ctx).state == fresh_state(
            old(ctx).state_bump,
            old(ctx).mint.key,
            buf_bps,
            ratchet_bps_per_day,
            mcr,
            now,
        ),
        final(ctx).mint == old(ctx).mint,
        final(ctx).state_bump == old(ctx).state_bump,
{
    ctx.state.bump = ctx.state_bump;
    ctx.state.mint = ctx.mint.key;
    ctx.state.buf_bps = buf_bps;
    ctx.state.ratchet_bps_per_day = ratchet_bps_per_day;
    ctx.state.mcr = mcr;
    ctx.state.virt_above = DENOM as u128;
    ctx.state.virt_below = DENOM as u128;
    ctx.state.last_ratchet = now;
}

} // verus!
