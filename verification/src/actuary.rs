//! The cover pool: stakers lock funds, claimants buy cover and raise claims,
//! stakers vote on a claim with the weight of their stake, and a claim that
//! carries the vote is paid out of the pool.
//!
//! Tokens move outside this crate. An operation that calls for a transfer
//! says so in its documentation; the caller makes the transfer and lets the
//! operation's changes stand only if the transfer succeeds.

use crate::account::Address;
use vstd::prelude::*;

verus! {

/// The pool's settings.
#[derive(Clone, Copy, Debug, PartialEq, Eq)]
pub struct Config {
    /// Who may resolve claims and manage cover types.
    pub admin: Address,
    /// The mint of the token that stakes, premiums and payouts are made in.
    pub usdc_mint: Address,
    pub bump: u8,
}

/// What one staker has locked in the pool.
#[derive(Clone, Copy, Debug, PartialEq, Eq)]
pub struct StakeRec {
    pub staker: Address,
    pub amount: u64,
    pub bump: u8,
}

/// A claim under vote.
#[derive(Clone, Copy, Debug, PartialEq, Eq)]
pub struct Claim {
    pub claimant: Address,
    /// Stake that voted to approve.
    pub yes: u64,
    /// Stake that voted to deny.
    pub no: u64,
    pub bump: u8,
}

/// Whether one staker has voted on one claim.
#[derive(Clone, Copy, Debug, PartialEq, Eq)]
pub struct VoteRec {
    pub voted: bool,
    pub bump: u8,
}

/// Cover bought by one claimant.
#[derive(Clone, Copy, Debug, PartialEq, Eq)]
pub struct Cover {
    pub claimant: Address,
    /// The cover type this cover was bought under.
    pub cover_id: u64,
    /// The name of that cover type.
    pub cover_name: [u8; 32],
    /// The amount paid out on an approved claim.
    pub amount: u64,
    pub premium_paid: u64,
    /// When the cover began, in seconds.
    pub start_ts: i64,
    /// How long the cover runs, in seconds.
    pub duration: i64,
    /// Whether a claim can still be raised and paid.
    pub active: bool,
    pub bump: u8,
}

/// The cover types one user holds cover under, each listed once, in the
/// order in which they were first bought.
#[derive(Clone, Debug, PartialEq, Eq)]
pub struct UserCovers {
    pub user: Address,
    pub cover_ids: Vec<u64>,
    pub bump: u8,
}

/// A kind of cover that the admin offers.
#[derive(Clone, Copy, Debug, PartialEq, Eq)]
pub struct CoverType {
    pub cover_id: u64,
    /// The name, UTF-8 padded with zero bytes.
    pub name: [u8; 32],
    pub bump: u8,
}

/// Why an operation of the pool was refused. A refused operation changes
/// nothing.
#[derive(Clone, Copy, Debug, PartialEq, Eq, Structural)]
pub enum InsuranceError {
    /// The voter has nothing staked.
    NoStake,
    /// The voter has voted on this claim before.
    AlreadyVoted,
    /// The claim did not gather more approving than denying stake.
    ClaimDenied,
    /// The cover is no longer active.
    NoActiveCover,
    /// The cover has not begun.
    CoverNotStarted,
    /// The cover has run out.
    CoverExpired,
}

impl InsuranceError {
    /// The text that goes with the error.
    pub open spec fn text(self) -> Seq<char> {
        match self {
            InsuranceError::NoStake => "No stake found"@,
            InsuranceError::AlreadyVoted => "Already voted"@,
            InsuranceError::ClaimDenied => "Claim not approved"@,
            InsuranceError::NoActiveCover => "No active cover"@,
            InsuranceError::CoverNotStarted => "Cover not started yet"@,
            InsuranceError::CoverExpired => "Cover expired"@,
        }
    }

    /// The text that goes with the error.
    pub fn message(&self) -> (msg: &'static str)
        ensures
            msg@ == self.text(),
    {
        match self {
            InsuranceError::NoStake => "No stake found",
            InsuranceError::AlreadyVoted => "Already voted",
            InsuranceError::ClaimDenied => "Claim not approved",
            InsuranceError::NoActiveCover => "No active cover",
            InsuranceError::CoverNotStarted => "Cover not started yet",
            InsuranceError::CoverExpired => "Cover expired",
        }
    }
}

/// What `initialize` reads and writes.
#[derive(Clone, Copy, Debug, PartialEq, Eq)]
pub struct Initialize {
    pub config: Config,
    /// The address of the mint handed in.
    pub usdc_mint: Address,
    /// Bump seed found for the settings' address.
    pub config_bump: u8,
}

/// What `stake` reads and writes.
#[derive(Clone, Copy, Debug, PartialEq, Eq)]
pub struct Stake {
    /// The address of the staker, who signs.
    pub staker: Address,
    pub stake_rec: StakeRec,
    /// Bump seed found for the stake record's address.
    pub stake_rec_bump: u8,
}

/// What `buy_cover` reads and writes.
#[derive(Clone, Debug, PartialEq, Eq)]
pub struct BuyCover {
    /// The address of the claimant, who signs.
    pub claimant: Address,
    pub cover_type: CoverType,
    pub cover: Cover,
    pub user_covers: UserCovers,
    /// Bump seed found for the cover's address.
    pub cover_bump: u8,
}

/// What `create_claim` reads and writes.
#[derive(Clone, Copy, Debug, PartialEq, Eq)]
pub struct CreateClaim {
    /// The address of the claimant, who signs.
    pub claimant: Address,
    pub cover: Cover,
    pub claim: Claim,
    /// Bump seed found for the claim's address.
    pub claim_bump: u8,
}

/// What `vote` reads and writes.
#[derive(Clone, Copy, Debug, PartialEq, Eq)]
pub struct Vote {
    pub claim: Claim,
    pub stake_rec: StakeRec,
    pub vote_rec: VoteRec,
    /// Bump seed found for the vote record's address.
    pub vote_rec_bump: u8,
}

/// What `resolve` reads and writes.
#[derive(Clone, Copy, Debug, PartialEq, Eq)]
pub struct Resolve {
    pub claim: Claim,
    pub cover: Cover,
}

/// What `add_cover_type` reads and writes.
#[derive(Clone, Copy, Debug, PartialEq, Eq)]
pub struct AddCoverType {
    pub cover_type: CoverType,
    /// Bump seed found for the cover type's address.
    pub cover_type_bump: u8,
}

/// Records the admin and the mint in the pool's settings.
pub fn initialize(ctx: &mut Initialize, admin: Address)
    ensures
        *final(ctx) == (Initialize {
            config: Config {
                admin,
                usdc_mint: old(ctx).usdc_mint,
                bump: old(ctx).config_bump,
            },
            ..*old(ctx)
        }),
{
    ctx.config.admin = admin;
    ctx.config.usdc_mint = ctx.usdc_mint;
    ctx.config.bump = ctx.config_bump;
}

/// Adds `amount` to what the staker has locked. The caller first moves
/// `amount` from the staker into the pool's vault.
pub fn stake(ctx: &mut Stake, amount: u64)
    requires
        old(ctx).stake_rec.amount + amount <= u64::MAX,
    ensures
        *final(ctx) == (Stake {
            stake_rec: StakeRec {
                staker: old(ctx).staker,
                amount: (old(ctx).stake_rec.amount + amount) as u64,
                bump: old(ctx).stake_rec_bump,
            },
            ..*old(ctx)
        }),
{
    ctx.stake_rec.staker = ctx.staker;
    ctx.stake_rec.amount = ctx.stake_rec.amount + amount;
    ctx.stake_rec.bump = ctx.stake_rec_bump;
}

/// The list of a user's cover types once cover under `cover_id` is bought:
/// the id is appended unless the list holds it already.
pub open spec fn with_cover_id(cover_ids: Seq<u64>, cover_id: u64) -> Seq<u64> {
    if cover_ids.contains(cover_id) {
        cover_ids
    } else {
        cover_ids.push(cover_id)
    }
}

/// Whether the list holds `cover_id`.
pub fn holds_cover_id(cover_ids: &Vec<u64>, cover_id: u64) -> (found: bool)
    ensures
        found == cover_ids@.contains(cover_id),
{
    let mut i: usize = 0;
    while i < cover_ids.len()
        invariant
            i <= cover_ids.len(),
            forall|j: int| 0 <= j < i ==> cover_ids@[j] != cover_id,
        decreases cover_ids.len() - i,
    {
        if cover_ids[i] == cover_id {
            return true;
        }
        i = i + 1;
    }
    false
}

/// Writes the cover that the claimant buys under the cover type handed in,
/// beginning at `now`, and lists the cover type among the user's. The caller
/// first moves `premium` from the claimant into the pool's vault.
pub fn buy_cover(
    ctx: &mut BuyCover,
    cover_id: u64,
    amount: u64,
    premium: u64,
    duration: i64,
    now: i64,
)
    ensures
        final(ctx).cover == (Cover {
            claimant: old(ctx).claimant,
            cover_id,
            cover_name: old(ctx).cover_type.name,
            amount,
            premium_paid: premium,
            start_ts: now,
            duration,
            active: true,
            bump: old(ctx).cover_bump,
        }),
        final(ctx).user_covers.cover_ids@ == with_cover_id(
            old(ctx).user_covers.cover_ids@,
            cover_id,
        ),
        final(ctx).user_covers.user == old(ctx).user_covers.user,
        final(ctx).user_covers.bump == old(ctx).user_covers.bump,
        final(ctx).claimant == old(ctx).claimant,
        final(ctx).cover_type == old(ctx).cover_type,
        final(ctx).cover_bump == old(ctx).cover_bump,
{
    ctx.cover.claimant = ctx.claimant;
    ctx.cover.cover_id = cover_id;
    ctx.cover.cover_name = ctx.cover_type.name;
    ctx.cover.amount = amount;
    ctx.cover.premium_paid = premium;
    ctx.cover.start_ts = now;
    ctx.cover.duration = duration;
    ctx.cover.active = true;
    ctx.cover.bump = ctx.cover_bump;
    if !holds_cover_id(&ctx.user_covers.cover_ids, cover_id) {
        ctx.user_covers.cover_ids.push(cover_id);
    }
}

/// Why no claim can be raised on `cover` at time `now`, if none can: the
/// cover is inactive, has not begun, or ended before `now`.
pub open spec fn claim_error(cover: Cover, now: i64) -> Option<InsuranceError> {
    if !cover.active {
        Some(InsuranceError::NoActiveCover)
    } else if now < cover.start_ts {
        Some(InsuranceError::CoverNotStarted)
    } else if now > cover.start_ts + cover.duration {
        Some(InsuranceError::CoverExpired)
    } else {
        None
    }
}

/// Raises a claim on the cover at time `now`: a fresh claim with no votes.
pub fn create_claim(ctx: &mut CreateClaim, cover_id: u64, now: i64) -> (res: Result<
    (),
    InsuranceError,
>)
    ensures
        claim_error(old(ctx).cover, now) matches Some(e) ==> res == Err::<(), _>(e) && *final(ctx)
            == *old(ctx),
        claim_error(old(ctx).cover, now) is None ==> res is Ok && *final(ctx) == (CreateClaim {
            claim: Claim {
                claimant: old(ctx).claimant,
                yes: 0,
                no: 0,
                bump: old(ctx).claim_bump,
            },
            ..*old(ctx)
        }),
{
    if !ctx.cover.active {
        return Err(InsuranceError::NoActiveCover);
    }
    if now < ctx.cover.start_ts {
        return Err(InsuranceError::CoverNotStarted);
    }
    if now as i128 > ctx.cover.start_ts as i128 + ctx.cover.duration as i128 {
        return Err(InsuranceError::CoverExpired);
    }
    ctx.claim.claimant = ctx.claimant;
    ctx.claim.yes = 0;
    ctx.claim.no = 0;
    ctx.claim.bump = ctx.claim_bump;
    Ok(())
}

/// Why the staker cannot vote, if they cannot: nothing staked, or voted
/// before.
pub open spec fn vote_error(ctx: Vote) -> Option<InsuranceError> {
    if ctx.stake_rec.amount == 0 {
        Some(InsuranceError::NoStake)
    } else if ctx.vote_rec.voted {
        Some(InsuranceError::AlreadyVoted)
    } else {
        None
    }
}

/// The claim once `weight` has voted on it.
pub open spec fn tallied(claim: Claim, approve: bool, weight: u64) -> Claim {
    if approve {
        Claim { yes: (claim.yes + weight) as u64, ..claim }
    } else {
        Claim { no: (claim.no + weight) as u64, ..claim }
    }
}

/// Casts the staker's vote on the claim, with the weight of their stake, and
/// marks them as having voted.
pub fn vote(ctx: &mut Vote, approve: bool) -> (res: Result<(), InsuranceError>)
    requires
        vote_error(*old(ctx)) is None ==> (if approve {
            old(ctx).claim.yes
        } else {
            old(ctx).claim.no
        }) + old(ctx).stake_rec.amount <= u64::MAX,
    ensures
        vote_error(*old(ctx)) matches Some(e) ==> res == Err::<(), _>(e) && *final(ctx) == *old(
            ctx,
        ),
        vote_error(*old(ctx)) is None ==> res is Ok && *final(ctx) == (Vote {
            claim: tallied(old(ctx).claim, approve, old(ctx).stake_rec.amount),
            vote_rec: VoteRec { voted: true, bump: old(ctx).vote_rec_bump },
            ..*old(ctx)
        }),
{
    if ctx.stake_rec.amount == 0 {
        return Err(InsuranceError::NoStake);
    }
    if ctx.vote_rec.voted {
        return Err(InsuranceError::AlreadyVoted);
    }
    if approve {
        ctx.claim.yes = ctx.claim.yes + ctx.stake_rec.amount;
    } else {
        ctx.claim.no = ctx.claim.no + ctx.stake_rec.amount;
    }
    ctx.vote_rec.voted = true;
    ctx.vote_rec.bump = ctx.vote_rec_bump;
    Ok(())
}

/// Why the claim is not paid, if it is not: the vote did not carry, or the
/// cover is no longer active.
pub open spec fn resolve_error(ctx: Resolve) -> Option<InsuranceError> {
    if ctx.claim.yes <= ctx.claim.no {
        Some(InsuranceError::ClaimDenied)
    } else if !ctx.cover.active {
        Some(InsuranceError::NoActiveCover)
    } else {
        None
    }
}

/// Settles a claim that carried the vote: the cover is spent, and the
/// returned amount, the cover's own, is what the caller then moves from the
/// pool's vault to the claimant.
pub fn resolve(ctx: &mut Resolve, cover_id: u64) -> (res: Result<u64, InsuranceError>)
    ensures
        resolve_error(*old(ctx)) matches Some(e) ==> res == Err::<u64, _>(e) && *final(ctx)
            == *old(ctx),
        resolve_error(*old(ctx)) is None ==> res == Ok::<u64, InsuranceError>(
            old(ctx).cover.amount,
        ) && *final(ctx) == (Resolve {
            cover: Cover { active: false, ..old(ctx).cover },
            ..*old(ctx)
        }),
{
    if ctx.claim.yes <= ctx.claim.no {
        return Err(InsuranceError::ClaimDenied);
    }
    if !ctx.cover.active {
        return Err(InsuranceError::NoActiveCover);
    }
    ctx.cover.active = false;
    Ok(ctx.cover.amount)
}

/// Writes a cover type under `cover_id` with the given name.
pub fn add_cover_type(ctx: &mut AddCoverType, cover_id: u64, name: [u8; 32])
    ensures
        *final(ctx) == (AddCoverType {
            cover_type: CoverType { cover_id, name, bump: old(ctx).cover_type_bump },
            ..*old(ctx)
        }),
{
    ctx.cover_type.cover_id = cover_id;
    ctx.cover_type.name = name;
    ctx.cover_type.bump = ctx.cover_type_bump;
}

} // verus!
