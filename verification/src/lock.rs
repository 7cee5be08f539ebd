use crate::error::CustomError;
use crate::identity::Identity;
use crate::instruction::Transfer;
use vstd::prelude::*;

verus! {

/// Seconds in the 365 days for which locked tokens stay locked.
pub const LOCK_PERIOD: u64 = 31_536_000;

/// A lock on `amount` units of `owner`, released at `unlock_time`. Locking
/// is bookkeeping: nothing is moved until the lock is released, and a
/// released lock holds an amount of zero.
#[derive(Clone, Copy, Debug, PartialEq, Eq)]
pub struct LockAccount {
    pub owner: Identity,
    pub amount: u64,
    pub lock_period: u64,
    pub unlock_time: i64,
}

/// Whether `amount` can be locked against a balance of `owner_balance`: a
/// zero amount and an amount above the balance are rejected, in that order.
pub open spec fn check_lock_spec(owner_balance: u64, amount: u64) -> Result<(), CustomError> {
    if amount == 0 {
        Err(CustomError::InvalidLockAmount)
    } else if owner_balance < amount {
        Err(CustomError::InsufficientBalance)
    } else {
        Ok(())
    }
}

/// The outcome of locking `amount` at time `now` against a balance of
/// `owner_balance`: the rejection that `check_lock_spec` gives, or a lock
/// that opens 365 days later.
pub open spec fn lock_tokens_spec(
    owner: Identity,
    owner_balance: u64,
    amount: u64,
    now: i64,
) -> Result<LockAccount, CustomError> {
    match check_lock_spec(owner_balance, amount) {
        Err(e) => Err(e),
        Ok(_) => Ok(
            LockAccount {
                owner,
                amount,
                lock_period: LOCK_PERIOD,
                unlock_time: (now + LOCK_PERIOD) as i64,
            },
        ),
    }
}

/// The outcome of releasing `lock` at time `now` on behalf of `caller`: the
/// first failed check in the order time gate, amount, ownership; otherwise
/// the spent lock and the transfer of its whole amount from `source` to
/// `destination`, authorised by the owner.
pub open spec fn unlock_tokens_spec(
    lock: LockAccount,
    caller: Identity,
    source: Identity,
    destination: Identity,
    now: i64,
) -> Result<(LockAccount, Transfer), CustomError> {
    if now < lock.unlock_time {
        Err(CustomError::LockPeriodNotOver)
    } else if lock.amount == 0 {
        Err(CustomError::NoTokensToUnlock)
    } else if caller != lock.owner {
        Err(CustomError::NotAuthorized)
    } else {
        Ok(
            (
                LockAccount { amount: 0, ..lock },
                Transfer {
                    from: source,
                    to: destination,
                    authority: lock.owner,
                    amount: lock.amount,
                },
            ),
        )
    }
}

/// Checks what a lock needs, before the clock is read: a positive amount
/// that the balance covers.
pub fn check_lock(owner_balance: u64, amount: u64) -> (r: Result<(), CustomError>)
    ensures
        r == check_lock_spec(owner_balance, amount),
        r is Ok <==> 0 < amount <= owner_balance,
{
    if amount == 0 {
        return Err(CustomError::InvalidLockAmount);
    }
    if owner_balance < amount {
        return Err(CustomError::InsufficientBalance);
    }
    Ok(())
}

/// Records a lock on `amount` units of `owner` for 365 days from `now`.
/// `owner_balance` is the owner's balance as the caller read it; nothing is
/// debited. The time has to leave room for the 365 days only where the lock
/// is accepted.
pub fn lock_tokens(
    owner: Identity,
    owner_balance: u64,
    amount: u64,
    now: i64,
) -> (r: Result<LockAccount, CustomError>)
    requires
        0 < amount <= owner_balance ==> now + LOCK_PERIOD <= i64::MAX,
    ensures
        r == lock_tokens_spec(owner, owner_balance, amount, now),
        r is Ok <==> 0 < amount <= owner_balance,
        r matches Ok(lock) ==> lock.unlock_time == now + 31_536_000,
{
    match check_lock(owner_balance, amount) {
        Err(e) => {
            return Err(e);
        },
        Ok(_) => {},
    }
    Ok(
        LockAccount {
            owner,
            amount,
            lock_period: LOCK_PERIOD,
            unlock_time: now + LOCK_PERIOD as i64,
        },
    )
}

/// Releases a lock once its time has come. On success the lock is spent
/// (its amount is zero afterwards, so it pays out once) and the returned
/// request moves the whole locked amount to `destination`. On failure the
/// lock is untouched.
pub fn unlock_tokens(
    lock_account: &mut LockAccount,
    caller: Identity,
    source: Identity,
    destination: Identity,
    now: i64,
) -> (r: Result<Transfer, CustomError>)
    ensures
        match unlock_tokens_spec(*old(lock_account), caller, source, destination, now) {
            Ok((spent, transfer)) => {
                &&& r == Ok::<Transfer, CustomError>(transfer)
                &&& *final(lock_account) == spent
            },
            Err(e) => {
                &&& r == Err::<Transfer, CustomError>(e)
                &&& *final(lock_account) == *old(lock_account)
            },
        },
        now < old(lock_account).unlock_time ==> r == Err::<Transfer, CustomError>(
            CustomError::LockPeriodNotOver,
        ),
        r matches Ok(transfer) ==> transfer.amount == old(lock_account).amount,
        r is Ok ==> final(lock_account).amount == 0,
{
    if now < lock_account.unlock_time {
        return Err(CustomError::LockPeriodNotOver);
    }
    if lock_account.amount == 0 {
        return Err(CustomError::NoTokensToUnlock);
    }
    if caller != lock_account.owner {
        return Err(CustomError::NotAuthorized);
    }
    let amount: u64 = lock_account.amount;
    lock_account.amount = 0;
    Ok(Transfer { from: source, to: destination, authority: lock_account.owner, amount })
}

/// The time gate of a lock: before `unlock_time` every release fails with
/// `LockPeriodNotOver`, whoever asks; from `unlock_time` on, the owner's
/// release of a lock that holds something succeeds and transfers exactly the
/// locked amount.
pub proof fn lemma_unlock_time_gate(
    lock: LockAccount,
    caller: Identity,
    source: Identity,
    destination: Identity,
    now: i64,
)
    ensures
        now < lock.unlock_time ==> unlock_tokens_spec(lock, caller, source, destination, now)
            == Err::<(LockAccount, Transfer), CustomError>(CustomError::LockPeriodNotOver),
        now >= lock.unlock_time && lock.amount > 0 && caller == lock.owner ==> (unlock_tokens_spec(
            lock,
            caller,
            source,
            destination,
            now,
        ) matches Ok((spent, transfer)) && transfer.amount == lock.amount && transfer.to
            == destination && transfer.authority == lock.owner),
{
}

/// The time gate is monotonic: a release that succeeds at one time succeeds,
/// with the same transfer, at every later time.
pub proof fn lemma_unlock_gate_stays_open(
    lock: LockAccount,
    caller: Identity,
    source: Identity,
    destination: Identity,
    now: i64,
    later: i64,
)
    requires
        now <= later,
        unlock_tokens_spec(lock, caller, source, destination, now) is Ok,
    ensures
        unlock_tokens_spec(lock, caller, source, destination, later) == unlock_tokens_spec(
            lock,
            caller,
            source,
            destination,
            now,
        ),
{
}

/// A lock pays out once: after a release, every further release of the same
/// record fails, and from `unlock_time` on it fails with `NoTokensToUnlock`.
pub proof fn lemma_unlock_only_once(
    lock: LockAccount,
    caller: Identity,
    source: Identity,
    destination: Identity,
    now: i64,
    later_caller: Identity,
    later_source: Identity,
    later_destination: Identity,
    later: i64,
)
    requires
        unlock_tokens_spec(lock, caller, source, destination, now) is Ok,
    ensures
        ({
            let spent = unlock_tokens_spec(lock, caller, source, destination, now)->Ok_0.0;
            &&& unlock_tokens_spec(
                spent,
                later_caller,
                later_source,
                later_destination,
                later,
            ) is Err
            &&& later >= lock.unlock_time ==> unlock_tokens_spec(
                spent,
                later_caller,
                later_source,
                later_destination,
                later,
            ) == Err::<(LockAccount, Transfer), CustomError>(CustomError::NoTokensToUnlock)
        }),
{
}

/// A lock made at `now` cannot be released before `now` plus 365 days, and
/// its owner can release it from then on.
pub proof fn lemma_lock_then_unlock(
    owner: Identity,
    owner_balance: u64,
    amount: u64,
    now: i64,
    source: Identity,
    destination: Identity,
    later: i64,
)
    requires
        0 < amount <= owner_balance,
        now + LOCK_PERIOD <= i64::MAX,
    ensures
        ({
            let made = lock_tokens_spec(owner, owner_balance, amount, now);
            &&& made matches Ok(lock)
            &&& lock.unlock_time == now + LOCK_PERIOD
            &&& later < now + LOCK_PERIOD ==> unlock_tokens_spec(
                lock,
                owner,
                source,
                destination,
                later,
            ) == Err::<(LockAccount, Transfer), CustomError>(CustomError::LockPeriodNotOver)
            &&& later >= now + LOCK_PERIOD ==> (unlock_tokens_spec(
                lock,
                owner,
                source,
                destination,
                later,
            ) matches Ok((spent, transfer)) && transfer.amount == amount)
        }),
{
}

} // verus!
