//! A minimal staking ledger: one record per user holding a staked amount and
//! the timestamp of the last stake or restake, with three guarded transitions
//! over it (`stake`, `withdraw`, `restake`).
//!
//! The host runtime supplies identity, storage and time; the library works on
//! plain values handed in by the caller, so every transition here is verified:
//! each states exactly when it succeeds, what the record holds afterwards, and
//! that a failed call leaves the record unchanged.

use vstd::prelude::*;

verus! {

/// Minimum interval, in seconds, between the last stake or restake and a
/// successful restake: 24 hours.
pub const RESTAKE_COOLDOWN_SECONDS: i64 = 86400;

/// Size in bytes of a persisted record: an 8-byte host header, then the
/// amount and the timestamp, 8 bytes each.
pub const STAKE_ACCOUNT_SPACE: usize = 8 + 8 + 8;

/// Why a transition was refused. Both errors are terminal: the caller must
/// correct the request and resubmit.
#[derive(Clone, Copy, Debug, PartialEq, Eq, Structural)]
pub enum ErrorCode {
    /// A zero amount was supplied, or a withdrawal asked for more than is
    /// staked.
    InvalidAmount,
    /// A restake came before the cooldown since the last stake or restake
    /// had elapsed.
    RestakeTimeBufferNotMet,
    /// Staking the amount would push the balance past what the record can
    /// hold.
    Overflow,
}

/// The per-user record: everything the ledger keeps about one staker.
#[derive(Clone, Copy, Debug, PartialEq, Eq, Structural)]
pub struct StakeAccount {
    /// Total currently staked.
    pub amount: u64,
    /// Seconds since the epoch at the most recent stake or successful
    /// restake.
    pub last_stake_timestamp: i64,
}

/// The record as the host zero-initializes it when it is first created.
pub open spec fn fresh_record() -> StakeAccount {
    StakeAccount { amount: 0, last_stake_timestamp: 0 }
}

/// When a stake goes through: the amount is positive and the new balance
/// still fits in the record.
pub open spec fn stake_allowed(account: StakeAccount, amount: u64) -> bool {
    amount > 0 && account.amount + amount <= u64::MAX
}

/// The record after a successful `stake`: the balance grows by `amount` and
/// the timestamp is set to the call time.
pub open spec fn staked(account: StakeAccount, amount: u64, now: i64) -> StakeAccount {
    StakeAccount { amount: (account.amount + amount) as u64, last_stake_timestamp: now }
}

/// When a withdrawal goes through: the amount is positive and no more than
/// the balance.
pub open spec fn withdraw_allowed(account: StakeAccount, amount: u64) -> bool {
    0 < amount <= account.amount
}

/// The record after a successful `withdraw`: the balance shrinks by `amount`
/// and the timestamp is untouched.
pub open spec fn withdrawn(account: StakeAccount, amount: u64) -> StakeAccount {
    StakeAccount { amount: (account.amount - amount) as u64, ..account }
}

/// When a restake goes through: at least the cooldown has elapsed since the
/// last stake or restake.
pub open spec fn restake_allowed(account: StakeAccount, now: i64) -> bool {
    now - account.last_stake_timestamp >= RESTAKE_COOLDOWN_SECONDS
}

/// The record after a successful `restake`: the timestamp is set to the call
/// time and the balance is untouched.
pub open spec fn restaked(account: StakeAccount, now: i64) -> StakeAccount {
    StakeAccount { last_stake_timestamp: now, ..account }
}

impl StakeAccount {
    /// A fresh, zero-initialized record, as the host hands it to the first
    /// stake.
    pub fn new() -> (r: StakeAccount)
        ensures
            r == fresh_record(),
    {
        StakeAccount { amount: 0, last_stake_timestamp: 0 }
    }
}

/// Stake `amount` tokens into the record at time `now`.
///
/// Fails with `InvalidAmount` on a zero amount and with `Overflow` when the
/// new balance would not fit; otherwise adds the amount to the balance and
/// stamps the record with `now`. A failed call leaves the record unchanged.
pub fn stake(account: &mut StakeAccount, amount: u64, now: i64) -> (r: Result<(), ErrorCode>)
    ensures
        r is Ok <==> stake_allowed(*old(account), amount),
        r is Ok ==> *final(account) == staked(*old(account), amount, now),
        amount == 0 ==> r == Err::<(), ErrorCode>(ErrorCode::InvalidAmount),
        amount > 0 && !stake_allowed(*old(account), amount) ==> r == Err::<(), ErrorCode>(
            ErrorCode::Overflow,
        ),
        r is Err ==> *final(account) == *old(account),
{
    if amount == 0 {
        return Err(ErrorCode::InvalidAmount);
    }
    if amount > u64::MAX - account.amount {
        return Err(ErrorCode::Overflow);
    }
    account.amount = account.amount + amount;
    account.last_stake_timestamp = now;
    Ok(())
}

/// Withdraw `amount` tokens from the record.
///
/// Fails with `InvalidAmount` when the amount is zero or exceeds the balance;
/// otherwise subtracts it from the balance. The timestamp is never touched,
/// and a failed call leaves the record unchanged.
pub fn withdraw(account: &mut StakeAccount, amount: u64) -> (r: Result<(), ErrorCode>)
    ensures
        r is Ok <==> withdraw_allowed(*old(account), amount),
        r is Ok ==> *final(account) == withdrawn(*old(account), amount),
        r is Err ==> r == Err::<(), ErrorCode>(ErrorCode::InvalidAmount) && *final(account)
            == *old(account),
{
    if amount == 0 || amount > account.amount {
        return Err(ErrorCode::InvalidAmount);
    }
    account.amount = account.amount - amount;
    Ok(())
}

/// Refresh the record's timestamp to `now`.
///
/// Fails with `RestakeTimeBufferNotMet` when less than
/// `RESTAKE_COOLDOWN_SECONDS` have elapsed since the last stake or restake;
/// otherwise sets the timestamp to `now`. The balance is never touched, and a
/// failed call leaves the record unchanged.
pub fn restake(account: &mut StakeAccount, now: i64) -> (r: Result<(), ErrorCode>)
    ensures
        r is Ok <==> restake_allowed(*old(account), now),
        r is Ok ==> *final(account) == restaked(*old(account), now),
        r is Err ==> r == Err::<(), ErrorCode>(ErrorCode::RestakeTimeBufferNotMet)
            && *final(account) == *old(account),
{
    let elapsed: i128 = (now as i128) - (account.last_stake_timestamp as i128);
    if elapsed < RESTAKE_COOLDOWN_SECONDS as i128 {
        return Err(ErrorCode::RestakeTimeBufferNotMet);
    }
    account.last_stake_timestamp = now;
    Ok(())
}

/// Staking any positive amount into a fresh record is allowed, whatever the
/// call time, and leaves exactly that amount staked.
pub proof fn lemma_stake_into_fresh_record(amount: u64, now: i64)
    requires
        amount > 0,
    ensures
        stake_allowed(fresh_record(), amount),
        staked(fresh_record(), amount, now).amount == amount,
        staked(fresh_record(), amount, now).last_stake_timestamp == now,
{
}

} // verus!
