//! The per-user stake record, token balances and the transfer between them.

use vstd::prelude::*;

verus! {

/// The stake record of one user.
#[derive(Clone, Copy, Debug, PartialEq, Eq, Structural)]
pub struct StakeState {
    /// True while the principal rests in the user's escrow account.
    pub is_staked: bool,
    /// Unix time, in seconds, of the last stake or unstake.
    pub timestamp: i64,
}

impl StakeState {
    /// The record as it stands when it is first created: not staked, never
    /// moved.
    pub fn fresh() -> (r: StakeState)
        ensures
            r == (StakeState { is_staked: false, timestamp: 0 }),
    {
        StakeState { is_staked: false, timestamp: 0 }
    }
}

/// Why an operation was refused. A refused operation changes nothing.
#[derive(Clone, Copy, Debug, PartialEq, Eq, Structural)]
pub enum ErrorCode {
    /// `stake` was called while the tokens are already staked.
    AlreadyStaked,
    /// `unstake` was called while nothing is staked.
    NotStaked,
    /// The account to be debited holds less than the amount.
    InsufficientFunds,
    /// An amount, or a balance after a credit, does not fit in a `u64`.
    ArithmeticOverflow,
    /// The clock reads earlier than the time of the stake.
    ClockRegression,
}

/// The description that `ErrorCode::message` gives of each error.
pub open spec fn message_spec(e: ErrorCode) -> Seq<char> {
    match e {
        ErrorCode::AlreadyStaked => "Tokens Already Staked"@,
        ErrorCode::NotStaked => "Tokens Not Staked Yet"@,
        ErrorCode::InsufficientFunds => "Insufficient funds"@,
        ErrorCode::ArithmeticOverflow => "Arithmetic overflow"@,
        ErrorCode::ClockRegression => "Clock went backwards"@,
    }
}

impl ErrorCode {
    /// A human-readable description of the error.
    pub fn message(&self) -> (r: String)
        ensures
            r@ == message_spec(*self),
    {
        let s = match self {
            ErrorCode::AlreadyStaked => "Tokens Already Staked",
            ErrorCode::NotStaked => "Tokens Not Staked Yet",
            ErrorCode::InsufficientFunds => "Insufficient funds",
            ErrorCode::ArithmeticOverflow => "Arithmetic overflow",
            ErrorCode::ClockRegression => "Clock went backwards",
        };
        proof {
            reveal_strlit("Tokens Already Staked");
            reveal_strlit("Tokens Not Staked Yet");
            reveal_strlit("Insufficient funds");
            reveal_strlit("Arithmetic overflow");
            reveal_strlit("Clock went backwards");
        }
        s.to_string()
    }
}

/// A token account, seen through its balance in base units.
#[derive(Clone, Copy, Debug, PartialEq, Eq, Structural)]
pub struct TokenAccount {
    pub amount: u64,
}

/// The token type, seen through its decimal precision.
#[derive(Clone, Copy, Debug, PartialEq, Eq, Structural)]
pub struct Mint {
    pub decimals: u8,
}

/// What a transfer of `amount` from a balance of `from` to a balance of `to`
/// fails with, if it fails.
pub open spec fn transfer_error(from: u64, to: u64, amount: u64) -> Option<ErrorCode> {
    if from < amount {
        Some(ErrorCode::InsufficientFunds)
    } else if to + amount > u64::MAX {
        Some(ErrorCode::ArithmeticOverflow)
    } else {
        None
    }
}

/// Moves `amount` base units from `from` to `to`, or moves nothing and says
/// why.
pub fn transfer(from: &mut TokenAccount, to: &mut TokenAccount, amount: u64) -> (r: Result<
    (),
    ErrorCode,
>)
    ensures
        match transfer_error(old(from).amount, old(to).amount, amount) {
            Some(e) => r == Err::<(), ErrorCode>(e) && *final(from) == *old(from) && *final(to)
                == *old(to),
            None => r is Ok && final(from).amount == old(from).amount - amount && final(to).amount
                == old(to).amount + amount,
        },
{
    if from.amount < amount {
        return Err(ErrorCode::InsufficientFunds);
    }
    match to.amount.checked_add(amount) {
        Some(t) => {
            from.amount = from.amount - amount;
            to.amount = t;
            Ok(())
        },
        None => Err(ErrorCode::ArithmeticOverflow),
    }
}

} // verus!
