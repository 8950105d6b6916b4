//! The four operations of the protocol over the accounts that each one names,
//! and the laws they obey. Each operation either commits all of its effects
//! or returns an error and leaves every account as it was.

use vstd::prelude::*;
use crate::ledger::{transfer, transfer_error, ErrorCode, Mint, StakeState, TokenAccount};
use crate::reward::{
    lemma_pow10_positive, principal_amount, principal_spec, reward_amount, reward_spec,
    scale_spec,
};

verus! {

/// Accounts of `initialize_vault`: the reward pool, if it already exists.
#[derive(Clone, Copy, Debug, PartialEq, Eq, Structural)]
pub struct InitializeVault {
    pub vault_token_account: Option<TokenAccount>,
    pub mint: Mint,
}

/// Accounts of `airdrop`: the reward pool and the user's wallet.
#[derive(Clone, Copy, Debug, PartialEq, Eq, Structural)]
pub struct Airdrop {
    pub player_token_account: TokenAccount,
    pub vault_token_account: TokenAccount,
    pub mint: Mint,
}

/// Accounts of `stake`: the user's record, escrow and wallet.
#[derive(Clone, Copy, Debug, PartialEq, Eq, Structural)]
pub struct Stake {
    pub player_stake_account: StakeState,
    pub player_stake_token_account: TokenAccount,
    pub player_token_account: TokenAccount,
    pub mint: Mint,
}

/// Accounts of `unstake`: the user's record, escrow and wallet, and the
/// reward pool.
#[derive(Clone, Copy, Debug, PartialEq, Eq, Structural)]
pub struct Unstake {
    pub player_stake_account: StakeState,
    pub player_stake_token_account: TokenAccount,
    pub player_token_account: TokenAccount,
    pub vault_token_account: TokenAccount,
    pub mint: Mint,
}

/// The custody invariant of one user: an escrow that holds tokens belongs to
/// a user whose tokens are staked.
pub open spec fn custody_consistent(record: StakeState, escrow: TokenAccount) -> bool {
    escrow.amount > 0 ==> record.is_staked
}

/// The accounts after `stake` at time `now`, or the error it returns.
pub open spec fn stake_outcome(c: Stake, now: i64) -> Result<Stake, ErrorCode> {
    let p = principal_spec(c.mint.decimals);
    if c.player_stake_account.is_staked {
        Err(ErrorCode::AlreadyStaked)
    } else if p > u64::MAX {
        Err(ErrorCode::ArithmeticOverflow)
    } else if let Some(e) = transfer_error(
        c.player_token_account.amount,
        c.player_stake_token_account.amount,
        p as u64,
    ) {
        Err(e)
    } else {
        Ok(
            Stake {
                player_stake_account: StakeState { is_staked: true, timestamp: now },
                player_stake_token_account: TokenAccount {
                    amount: (c.player_stake_token_account.amount + p) as u64,
                },
                player_token_account: TokenAccount {
                    amount: (c.player_token_account.amount - p) as u64,
                },
                mint: c.mint,
            },
        )
    }
}

/// The accounts after `unstake` at time `now`, or the error it returns.
pub open spec fn unstake_outcome(c: Unstake, now: i64) -> Result<Unstake, ErrorCode> {
    let elapsed = now - c.player_stake_account.timestamp;
    let reward = reward_spec(elapsed, c.mint.decimals);
    let escrow = c.player_stake_token_account.amount;
    let wallet = c.player_token_account.amount;
    let pool = c.vault_token_account.amount;
    if !c.player_stake_account.is_staked {
        Err(ErrorCode::NotStaked)
    } else if elapsed < 0 {
        Err(ErrorCode::ClockRegression)
    } else if scale_spec(c.mint.decimals) > u64::MAX || reward > u64::MAX {
        Err(ErrorCode::ArithmeticOverflow)
    } else if pool < reward {
        Err(ErrorCode::InsufficientFunds)
    } else if wallet + reward + escrow > u64::MAX {
        Err(ErrorCode::ArithmeticOverflow)
    } else {
        Ok(
            Unstake {
                player_stake_account: StakeState { is_staked: false, timestamp: now },
                player_stake_token_account: TokenAccount { amount: 0 },
                player_token_account: TokenAccount { amount: (wallet + reward + escrow) as u64 },
                vault_token_account: TokenAccount { amount: (pool - reward) as u64 },
                mint: c.mint,
            },
        )
    }
}

/// Creates the reward pool with an empty balance, unless it already exists.
pub fn initialize_vault(ctx: &mut InitializeVault) -> (r: Result<(), ErrorCode>)
    ensures
        r is Ok,
        final(ctx).mint == old(ctx).mint,
        final(ctx).vault_token_account == match old(ctx).vault_token_account {
            Some(v) => Some(v),
            None => Some(TokenAccount { amount: 0 }),
        },
{
    if ctx.vault_token_account.is_none() {
        ctx.vault_token_account = Some(TokenAccount { amount: 0 });
    }
    Ok(())
}

/// Funds the user's wallet with one principal out of the reward pool.
pub fn airdrop(ctx: &mut Airdrop) -> (r: Result<(), ErrorCode>)
    ensures
        ({
            let p = principal_spec(old(ctx).mint.decimals);
            let err = if p > u64::MAX {
                Some(ErrorCode::ArithmeticOverflow)
            } else {
                transfer_error(
                    old(ctx).vault_token_account.amount,
                    old(ctx).player_token_account.amount,
                    p as u64,
                )
            };
            match err {
                Some(e) => r == Err::<(), ErrorCode>(e) && *final(ctx) == *old(ctx),
                None => r is Ok && *final(ctx) == (Airdrop {
                    player_token_account: TokenAccount {
                        amount: (old(ctx).player_token_account.amount + p) as u64,
                    },
                    vault_token_account: TokenAccount {
                        amount: (old(ctx).vault_token_account.amount - p) as u64,
                    },
                    mint: old(ctx).mint,
                }),
            }
        }),
{
    let amount = match principal_amount(ctx.mint.decimals) {
        Some(a) => a,
        None => return Err(ErrorCode::ArithmeticOverflow),
    };
    transfer(&mut ctx.vault_token_account, &mut ctx.player_token_account, amount)
}

/// Locks one principal from the user's wallet in the user's escrow and marks
/// the record staked since `now`.
pub fn stake(ctx: &mut Stake, now: i64) -> (r: Result<(), ErrorCode>)
    ensures
        match stake_outcome(*old(ctx), now) {
            Ok(c) => r is Ok && *final(ctx) == c,
            Err(e) => r == Err::<(), ErrorCode>(e) && *final(ctx) == *old(ctx),
        },
{
    if ctx.player_stake_account.is_staked {
        return Err(ErrorCode::AlreadyStaked);
    }
    let amount = match principal_amount(ctx.mint.decimals) {
        Some(a) => a,
        None => return Err(ErrorCode::ArithmeticOverflow),
    };
    match transfer(&mut ctx.player_token_account, &mut ctx.player_stake_token_account, amount) {
        Ok(()) => {},
        Err(e) => return Err(e),
    }
    ctx.player_stake_account = StakeState { is_staked: true, timestamp: now };
    Ok(())
}

/// Pays the reward for the time staked out of the reward pool, returns the
/// whole escrow balance to the user's wallet, and marks the record unstaked
/// since `now`.
pub fn unstake(ctx: &mut Unstake, now: i64) -> (r: Result<(), ErrorCode>)
    ensures
        match unstake_outcome(*old(ctx), now) {
            Ok(c) => r is Ok && *final(ctx) == c,
            Err(e) => r == Err::<(), ErrorCode>(e) && *final(ctx) == *old(ctx),
        },
{
    if !ctx.player_stake_account.is_staked {
        return Err(ErrorCode::NotStaked);
    }
    if now < ctx.player_stake_account.timestamp {
        return Err(ErrorCode::ClockRegression);
    }
    let elapsed: u64 = (now as i128 - ctx.player_stake_account.timestamp as i128) as u64;
    let reward = match reward_amount(elapsed, ctx.mint.decimals) {
        Some(a) => a,
        None => return Err(ErrorCode::ArithmeticOverflow),
    };
    let escrow = ctx.player_stake_token_account.amount;
    if ctx.vault_token_account.amount < reward {
        return Err(ErrorCode::InsufficientFunds);
    }
    match ctx.player_token_account.amount.checked_add(reward) {
        Some(w) => {
            if w.checked_add(escrow).is_none() {
                return Err(ErrorCode::ArithmeticOverflow);
            }
        },
        None => return Err(ErrorCode::ArithmeticOverflow),
    }
    let paid = transfer(&mut ctx.vault_token_account, &mut ctx.player_token_account, reward);
    let drained = transfer(&mut ctx.player_stake_token_account, &mut ctx.player_token_account, escrow);
    proof {
        assert(paid is Ok);
        assert(drained is Ok);
    }
    ctx.player_stake_account = StakeState { is_staked: false, timestamp: now };
    Ok(())
}

/// A second `stake` with no `unstake` in between fails with `AlreadyStaked`;
/// by the contract of `stake`, it then leaves the escrow balance and the
/// time of the stake as the first call set them.
pub proof fn lemma_stake_twice(c: Stake, t1: i64, t2: i64)
    requires
        stake_outcome(c, t1) is Ok,
    ensures
        ({
            let c1 = stake_outcome(c, t1)->Ok_0;
            &&& stake_outcome(c1, t2) == Err::<Stake, ErrorCode>(ErrorCode::AlreadyStaked)
            &&& c1.player_stake_account.timestamp == t1
            &&& c1.player_stake_token_account.amount == c.player_stake_token_account.amount
                + principal_spec(c.mint.decimals)
        }),
{
    lemma_pow10_positive(c.mint.decimals as nat);
}

/// `unstake` on a record that was never staked fails with `NotStaked`; by the
/// contract of `unstake`, it then changes nothing.
pub proof fn lemma_unstake_before_stake(c: Unstake, now: i64)
    requires
        c.player_stake_account == (StakeState { is_staked: false, timestamp: 0 }),
    ensures
        unstake_outcome(c, now) == Err::<Unstake, ErrorCode>(ErrorCode::NotStaked),
{
}

/// The accounts of `unstake` that follow a `stake`, with the reward pool `pool`.
pub open spec fn unstake_after(c: Stake, pool: TokenAccount) -> Unstake {
    Unstake {
        player_stake_account: c.player_stake_account,
        player_stake_token_account: c.player_stake_token_account,
        player_token_account: c.player_token_account,
        vault_token_account: pool,
        mint: c.mint,
    }
}

/// `stake` followed by `unstake` at the same instant succeeds, pays no
/// reward, hands the wallet exactly its principal back, empties the escrow
/// and leaves the record unstaked at that instant.
pub proof fn lemma_stake_unstake_round_trip(c: Stake, pool: TokenAccount, t: i64)
    requires
        custody_consistent(c.player_stake_account, c.player_stake_token_account),
        stake_outcome(c, t) is Ok,
    ensures
        ({
            let c1 = stake_outcome(c, t)->Ok_0;
            let u = unstake_outcome(unstake_after(c1, pool), t);
            &&& reward_spec(0, c.mint.decimals) == 0
            &&& u is Ok
            &&& u->Ok_0.player_token_account == c.player_token_account
            &&& u->Ok_0.vault_token_account == pool
            &&& u->Ok_0.player_stake_token_account.amount == 0
            &&& u->Ok_0.player_stake_account == (StakeState { is_staked: false, timestamp: t })
        }),
{
    lemma_pow10_positive(c.mint.decimals as nat);
}

/// A successful `unstake` leaves the escrow empty and credits the wallet with
/// the reward plus the whole escrow balance, whatever that balance was.
pub proof fn lemma_escrow_drained(c: Unstake, now: i64)
    requires
        unstake_outcome(c, now) is Ok,
    ensures
        ({
            let c1 = unstake_outcome(c, now)->Ok_0;
            &&& c1.player_stake_token_account.amount == 0
            &&& c1.player_token_account.amount == c.player_token_account.amount + reward_spec(
                now - c.player_stake_account.timestamp,
                c.mint.decimals,
            ) + c.player_stake_token_account.amount
        }),
{
    let elapsed = now - c.player_stake_account.timestamp;
    let s = scale_spec(c.mint.decimals);
    lemma_pow10_positive(c.mint.decimals as nat);
    assert(elapsed * s >= 0) by (nonlinear_arith)
        requires
            elapsed >= 0,
            s >= 1,
    ;
}

/// Every successful `stake` and `unstake` keeps the custody invariant.
pub proof fn lemma_custody_preserved(s: Stake, u: Unstake, now: i64)
    ensures
        stake_outcome(s, now) is Ok ==> custody_consistent(
            stake_outcome(s, now)->Ok_0.player_stake_account,
            stake_outcome(s, now)->Ok_0.player_stake_token_account,
        ),
        unstake_outcome(u, now) is Ok ==> custody_consistent(
            unstake_outcome(u, now)->Ok_0.player_stake_account,
            unstake_outcome(u, now)->Ok_0.player_stake_token_account,
        ),
{
}

} // verus!
