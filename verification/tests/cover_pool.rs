use ramm::account::Address;
use ramm::actuary::{
    add_cover_type, buy_cover, create_claim, holds_cover_id, initialize, resolve, stake, vote,
    AddCoverType, BuyCover, Claim, Config, Cover, CoverType, CreateClaim, Initialize,
    InsuranceError, Resolve, Stake, StakeRec, UserCovers, Vote, VoteRec,
};
use ramm::state::ErrorCode;

fn key(b: u8) -> Address {
    Address::new([b; 32])
}

fn name(text: &str) -> [u8; 32] {
    let mut out = [0u8; 32];
    out[..text.len()].copy_from_slice(text.as_bytes());
    out
}

fn cover(active: bool) -> Cover {
    Cover {
        claimant: key(3),
        cover_id: 11,
        cover_name: name("hack"),
        amount: 5_000,
        premium_paid: 50,
        start_ts: 1_000,
        duration: 3_600,
        active,
        bump: 250,
    }
}

fn blank_claim() -> Claim {
    Claim { claimant: key(0), yes: 77, no: 88, bump: 0 }
}

fn ballot(stake: u64, voted: bool) -> Vote {
    Vote {
        claim: Claim { claimant: key(3), yes: 10, no: 20, bump: 9 },
        stake_rec: StakeRec { staker: key(4), amount: stake, bump: 8 },
        vote_rec: VoteRec { voted, bump: 0 },
        vote_rec_bump: 7,
    }
}

#[test]
fn initialize_records_admin_and_mint() {
    let mut ctx = Initialize {
        config: Config { admin: key(0), usdc_mint: key(0), bump: 0 },
        usdc_mint: key(5),
        config_bump: 251,
    };
    initialize(&mut ctx, key(1));
    assert_eq!(ctx.config, Config { admin: key(1), usdc_mint: key(5), bump: 251 });
    assert_eq!(ctx.usdc_mint, key(5));
    assert_eq!(ctx.config_bump, 251);
}

#[test]
fn stake_adds_to_the_record() {
    let mut ctx = Stake {
        staker: key(4),
        stake_rec: StakeRec { staker: key(0), amount: 0, bump: 0 },
        stake_rec_bump: 252,
    };
    stake(&mut ctx, 300);
    assert_eq!(ctx.stake_rec, StakeRec { staker: key(4), amount: 300, bump: 252 });
    stake(&mut ctx, 200);
    assert_eq!(ctx.stake_rec, StakeRec { staker: key(4), amount: 500, bump: 252 });
    stake(&mut ctx, u64::MAX - 500);
    assert_eq!(ctx.stake_rec.amount, u64::MAX);
    stake(&mut ctx, 0);
    assert_eq!(ctx.stake_rec.amount, u64::MAX);
    assert_eq!(ctx.staker, key(4));
}

#[test]
fn cover_ids_are_found() {
    assert!(!holds_cover_id(&vec![], 1));
    assert!(holds_cover_id(&vec![1], 1));
    assert!(holds_cover_id(&vec![3, 2, 1], 1));
    assert!(holds_cover_id(&vec![1, 2, 3], 1));
    assert!(!holds_cover_id(&vec![3, 2, 4], 1));
}

#[test]
fn buy_cover_writes_the_cover_and_lists_it_once() {
    let mut ctx = BuyCover {
        claimant: key(3),
        cover_type: CoverType { cover_id: 11, name: name("hack"), bump: 1 },
        cover: Cover {
            claimant: key(0),
            cover_id: 0,
            cover_name: [0u8; 32],
            amount: 0,
            premium_paid: 0,
            start_ts: 0,
            duration: 0,
            active: false,
            bump: 0,
        },
        user_covers: UserCovers { user: key(3), cover_ids: vec![4, 9], bump: 2 },
        cover_bump: 250,
    };
    buy_cover(&mut ctx, 11, 5_000, 50, 3_600, 1_000);
    assert_eq!(ctx.cover, cover(true));
    assert_eq!(ctx.user_covers, UserCovers { user: key(3), cover_ids: vec![4, 9, 11], bump: 2 });
    buy_cover(&mut ctx, 11, 6_000, 60, 7_200, 2_000);
    assert_eq!(ctx.cover.amount, 6_000);
    assert_eq!(ctx.cover.premium_paid, 60);
    assert_eq!(ctx.cover.start_ts, 2_000);
    assert_eq!(ctx.cover.duration, 7_200);
    assert_eq!(ctx.user_covers.cover_ids, vec![4, 9, 11]);
    buy_cover(&mut ctx, 4, 1, 1, 1, 1);
    assert_eq!(ctx.user_covers.cover_ids, vec![4, 9, 11]);
    assert_eq!(ctx.cover.cover_id, 4);
    assert_eq!(ctx.cover.cover_name, name("hack"));
    assert_eq!(ctx.cover_type, CoverType { cover_id: 11, name: name("hack"), bump: 1 });
    assert_eq!(ctx.claimant, key(3));
}

#[test]
fn create_claim_within_the_cover() {
    for now in [1_000i64, 2_000, 4_600] {
        let mut ctx =
            CreateClaim { claimant: key(3), cover: cover(true), claim: blank_claim(), claim_bump: 249 };
        assert_eq!(create_claim(&mut ctx, 11, now), Ok(()));
        assert_eq!(ctx.claim, Claim { claimant: key(3), yes: 0, no: 0, bump: 249 });
        assert_eq!(ctx.cover, cover(true));
    }
}

#[test]
fn create_claim_outside_the_cover() {
    let fresh =
        CreateClaim { claimant: key(3), cover: cover(true), claim: blank_claim(), claim_bump: 249 };
    let mut ctx = fresh;
    assert_eq!(create_claim(&mut ctx, 11, 999), Err(InsuranceError::CoverNotStarted));
    assert_eq!(ctx, fresh);
    assert_eq!(create_claim(&mut ctx, 11, 4_601), Err(InsuranceError::CoverExpired));
    assert_eq!(ctx, fresh);
    assert_eq!(create_claim(&mut ctx, 11, i64::MAX), Err(InsuranceError::CoverExpired));
    assert_eq!(create_claim(&mut ctx, 11, i64::MIN), Err(InsuranceError::CoverNotStarted));
}

#[test]
fn create_claim_on_spent_cover() {
    let fresh =
        CreateClaim { claimant: key(3), cover: cover(false), claim: blank_claim(), claim_bump: 249 };
    let mut ctx = fresh;
    assert_eq!(create_claim(&mut ctx, 11, 2_000), Err(InsuranceError::NoActiveCover));
    assert_eq!(create_claim(&mut ctx, 11, 0), Err(InsuranceError::NoActiveCover));
    assert_eq!(ctx, fresh);
}

#[test]
fn create_claim_on_cover_that_runs_past_the_end_of_time() {
    let mut long = cover(true);
    long.start_ts = i64::MAX - 1;
    long.duration = i64::MAX;
    let mut ctx = CreateClaim { claimant: key(3), cover: long, claim: blank_claim(), claim_bump: 1 };
    assert_eq!(create_claim(&mut ctx, 11, i64::MAX), Ok(()));
    let mut backwards = cover(true);
    backwards.duration = -1;
    let mut ctx =
        CreateClaim { claimant: key(3), cover: backwards, claim: blank_claim(), claim_bump: 1 };
    assert_eq!(create_claim(&mut ctx, 11, 1_000), Err(InsuranceError::CoverExpired));
}

#[test]
fn vote_weighs_by_stake() {
    let mut ctx = ballot(300, false);
    assert_eq!(vote(&mut ctx, true), Ok(()));
    assert_eq!(ctx.claim, Claim { claimant: key(3), yes: 310, no: 20, bump: 9 });
    assert_eq!(ctx.vote_rec, VoteRec { voted: true, bump: 7 });
    assert_eq!(ctx.stake_rec, StakeRec { staker: key(4), amount: 300, bump: 8 });

    let mut ctx = ballot(300, false);
    assert_eq!(vote(&mut ctx, false), Ok(()));
    assert_eq!(ctx.claim, Claim { claimant: key(3), yes: 10, no: 320, bump: 9 });
    assert_eq!(ctx.vote_rec, VoteRec { voted: true, bump: 7 });
}

#[test]
fn vote_needs_stake() {
    let mut ctx = ballot(0, false);
    assert_eq!(vote(&mut ctx, true), Err(InsuranceError::NoStake));
    assert_eq!(ctx, ballot(0, false));
    let mut ctx = ballot(0, true);
    assert_eq!(vote(&mut ctx, false), Err(InsuranceError::NoStake));
    assert_eq!(ctx, ballot(0, true));
}

#[test]
fn vote_only_once() {
    let mut ctx = ballot(300, false);
    assert_eq!(vote(&mut ctx, true), Ok(()));
    let after = ctx;
    assert_eq!(vote(&mut ctx, true), Err(InsuranceError::AlreadyVoted));
    assert_eq!(vote(&mut ctx, false), Err(InsuranceError::AlreadyVoted));
    assert_eq!(ctx, after);
}

#[test]
fn vote_up_to_the_largest_tally() {
    let mut ctx = ballot(u64::MAX - 10, false);
    assert_eq!(vote(&mut ctx, true), Ok(()));
    assert_eq!(ctx.claim.yes, u64::MAX);
}

#[test]
fn resolve_pays_the_cover_once() {
    let mut ctx =
        Resolve { claim: Claim { claimant: key(3), yes: 21, no: 20, bump: 9 }, cover: cover(true) };
    assert_eq!(resolve(&mut ctx, 11), Ok(5_000));
    assert_eq!(ctx.cover, cover(false));
    assert_eq!(ctx.claim, Claim { claimant: key(3), yes: 21, no: 20, bump: 9 });
    let after = ctx;
    assert_eq!(resolve(&mut ctx, 11), Err(InsuranceError::NoActiveCover));
    assert_eq!(ctx, after);
}

#[test]
fn resolve_needs_a_majority() {
    for (yes, no) in [(20u64, 20u64), (0, 0), (19, 20), (0, u64::MAX)] {
        let fresh = Resolve { claim: Claim { claimant: key(3), yes, no, bump: 9 }, cover: cover(true) };
        let mut ctx = fresh;
        assert_eq!(resolve(&mut ctx, 11), Err(InsuranceError::ClaimDenied));
        assert_eq!(ctx, fresh);
    }
    let mut ctx =
        Resolve { claim: Claim { claimant: key(3), yes: 1, no: 2, bump: 9 }, cover: cover(false) };
    assert_eq!(resolve(&mut ctx, 11), Err(InsuranceError::ClaimDenied));
}

#[test]
fn add_cover_type_writes_the_type() {
    let mut ctx = AddCoverType {
        cover_type: CoverType { cover_id: 0, name: [0u8; 32], bump: 0 },
        cover_type_bump: 248,
    };
    add_cover_type(&mut ctx, 11, name("hack"));
    assert_eq!(ctx.cover_type, CoverType { cover_id: 11, name: name("hack"), bump: 248 });
    assert_eq!(ctx.cover_type_bump, 248);
}

#[test]
fn a_claim_runs_from_cover_to_payout() {
    let mut bought = BuyCover {
        claimant: key(3),
        cover_type: CoverType { cover_id: 11, name: name("hack"), bump: 1 },
        cover: cover(false),
        user_covers: UserCovers { user: key(3), cover_ids: vec![], bump: 2 },
        cover_bump: 250,
    };
    buy_cover(&mut bought, 11, 5_000, 50, 3_600, 1_000);
    let mut raised =
        CreateClaim { claimant: key(3), cover: bought.cover, claim: blank_claim(), claim_bump: 9 };
    assert_eq!(create_claim(&mut raised, 11, 1_500), Ok(()));
    let mut first = Vote {
        claim: raised.claim,
        stake_rec: StakeRec { staker: key(4), amount: 700, bump: 8 },
        vote_rec: VoteRec { voted: false, bump: 0 },
        vote_rec_bump: 7,
    };
    assert_eq!(vote(&mut first, true), Ok(()));
    let mut second = Vote {
        claim: first.claim,
        stake_rec: StakeRec { staker: key(5), amount: 600, bump: 8 },
        vote_rec: VoteRec { voted: false, bump: 0 },
        vote_rec_bump: 6,
    };
    assert_eq!(vote(&mut second, false), Ok(()));
    let mut settled = Resolve { claim: second.claim, cover: raised.cover };
    assert_eq!(resolve(&mut settled, 11), Ok(5_000));
    assert!(!settled.cover.active);
}

#[test]
fn errors_carry_their_text() {
    assert_eq!(InsuranceError::NoStake.message(), "No stake found");
    assert_eq!(InsuranceError::AlreadyVoted.message(), "Already voted");
    assert_eq!(InsuranceError::ClaimDenied.message(), "Claim not approved");
    assert_eq!(InsuranceError::NoActiveCover.message(), "No active cover");
    assert_eq!(InsuranceError::CoverNotStarted.message(), "Cover not started yet");
    assert_eq!(InsuranceError::CoverExpired.message(), "Cover expired");
    assert_eq!(ErrorCode::TooLittleIn.message(), "Input too small");
    assert_eq!(ErrorCode::WrongMint.message(), "Attempted to trade wrong mint");
    assert_eq!(ErrorCode::Underflow.message(), "Underflow");
    assert_eq!(ErrorCode::InvalidVaultOwner.message(), "Vault must be owned by System Program");
    assert_eq!(ErrorCode::WrongSystemProgram.message(), "Wrong System Program account");
    assert_eq!(ErrorCode::InsufficientVaultBalance.message(), "Insufficient SOL in vault");
    assert_eq!(ErrorCode::McrBreached.message(), "Sell would breach MCR (post-trade capital < MCR)");
    assert_eq!(ErrorCode::InsufficientSupply.message(), "No token supply to take book value over");
    assert_eq!(ErrorCode::Overflow.message(), "Overflow");
}
