use crate::error::CustomError;
use crate::identity::Identity;
use crate::instruction::Transfer;
use crate::registry::TokenDetails;
use vstd::prelude::*;

verus! {

/// A holder record as the caller read it: the holder's account and the
/// balance it held.
#[derive(Clone, Copy, Debug, PartialEq, Eq)]
pub struct Holder {
    pub account: Identity,
    pub balance: u64,
}

/// What one holder is owed from a distribution. The share is kept in the
/// width in which it was computed: it exceeds 64 bits only for a holder
/// record whose balance is above the total supply.
#[derive(Clone, Copy, Debug, PartialEq, Eq)]
pub struct Payout {
    pub holder: Identity,
    pub share: u128,
}

/// The pro-rata share of a holder: the pool times the holder's balance,
/// divided by the total supply, rounded down.
pub open spec fn pro_rata_share(pool: nat, balance: nat, total_supply: nat) -> nat {
    (pool * balance) / total_supply
}

/// The payout of one holder.
pub open spec fn payout_for(pool: u64, total_supply: u64, holder: Holder) -> Payout {
    Payout {
        holder: holder.account,
        share: pro_rata_share(pool as nat, holder.balance as nat, total_supply as nat) as u128,
    }
}

/// The payouts of a distribution: one for each holder record, in the order
/// of the records, each computed on its own.
pub open spec fn payouts(pool: u64, total_supply: u64, holders: Seq<Holder>) -> Seq<Payout> {
    Seq::new(holders.len(), |i: int| payout_for(pool, total_supply, holders[i]))
}

/// The sum of the balances of the holder records.
pub open spec fn total_balance(holders: Seq<Holder>) -> nat
    decreases holders.len(),
{
    if holders.len() == 0 {
        0
    } else {
        total_balance(holders.drop_last()) + holders.last().balance as nat
    }
}

/// The sum of the shares of the payouts.
pub open spec fn total_paid(paid: Seq<Payout>) -> nat
    decreases paid.len(),
{
    if paid.len() == 0 {
        0
    } else {
        total_paid(paid.drop_last()) + paid.last().share as nat
    }
}

/// Whether `amount` can be distributed over a supply of `total_supply`: an
/// empty pool and an empty supply are rejected, in that order.
pub open spec fn check_distribution_spec(total_supply: u64, amount: u64) -> Result<
    (),
    CustomError,
> {
    if amount == 0 {
        Err(CustomError::InvalidRevenueAmount)
    } else if total_supply == 0 {
        Err(CustomError::ZeroTotalSupply)
    } else {
        Ok(())
    }
}

/// The outcome of distributing `amount` over `holders`: the rejection of the
/// distribution as a whole, or for every holder record its pro-rata share.
pub open spec fn distribute_revenue_spec(
    total_supply: u64,
    amount: u64,
    holders: Seq<Holder>,
) -> Result<Seq<Payout>, CustomError> {
    match check_distribution_spec(total_supply, amount) {
        Err(e) => Err(e),
        Ok(_) => Ok(payouts(amount, total_supply, holders)),
    }
}

impl Payout {
    /// The transfer that pays this share: the amount that the payout states,
    /// if an account can hold it.
    pub open spec fn as_transfer_spec(
        self,
        revenue_pool: Identity,
        distributor: Identity,
    ) -> Option<Transfer> {
        if self.share <= u64::MAX {
            Some(
                Transfer {
                    from: revenue_pool,
                    to: self.holder,
                    authority: distributor,
                    amount: self.share as u64,
                },
            )
        } else {
            None
        }
    }

    /// The request that pays this share out of `revenue_pool` to the holder,
    /// authorised by `distributor`. There is none for a share of more than
    /// 64 bits, which no pool can pay.
    pub fn as_transfer(
        &self,
        revenue_pool: Identity,
        distributor: Identity,
    ) -> (transfer: Option<Transfer>)
        ensures
            transfer == self.as_transfer_spec(revenue_pool, distributor),
            transfer is Some <==> self.share <= u64::MAX,
            transfer matches Some(t) ==> t.amount == self.share && t.to == self.holder,
    {
        if self.share <= 0xFFFF_FFFF_FFFF_FFFF {
            Some(
                Transfer {
                    from: revenue_pool,
                    to: self.holder,
                    authority: distributor,
                    amount: self.share as u64,
                },
            )
        } else {
            None
        }
    }
}

/// The product of two 64-bit values fits in 128 bits, and so does its
/// quotient by a positive divisor.
proof fn lemma_share_fits(pool: u64, balance: u64, total_supply: u64)
    requires
        total_supply > 0,
    ensures
        pool * balance <= u128::MAX,
        pro_rata_share(pool as nat, balance as nat, total_supply as nat) <= pool * balance,
{
    assert(pool * balance <= 0xFFFF_FFFF_FFFF_FFFF * 0xFFFF_FFFF_FFFF_FFFF) by (nonlinear_arith)
        requires
            0 <= pool <= 0xFFFF_FFFF_FFFF_FFFF,
            0 <= balance <= 0xFFFF_FFFF_FFFF_FFFF,
    ;
    let product: int = pool * balance;
    let supply: int = total_supply as int;
    assert(0 <= product / supply <= product) by (nonlinear_arith)
        requires
            0 <= product,
            0 < supply,
    ;
}

/// Checks what a distribution needs before any holder record is read: a pool
/// that is not empty, and a registry with a supply to divide by.
pub fn check_distribution(token_details: &TokenDetails, amount: u64) -> (r: Result<(), CustomError>)
    ensures
        r == check_distribution_spec(token_details.total_supply, amount),
        r is Ok <==> amount > 0 && token_details.total_supply > 0,
{
    if amount == 0 {
        return Err(CustomError::InvalidRevenueAmount);
    }
    if token_details.total_supply == 0 {
        return Err(CustomError::ZeroTotalSupply);
    }
    Ok(())
}

/// The share of `amount` that falls to one holder record, computed in 128
/// bits so that the product cannot overflow.
pub fn distribute_to_holder(holder: &Holder, total_supply: u64, amount: u64) -> (payout: Payout)
    requires
        total_supply > 0,
    ensures
        payout == payout_for(amount, total_supply, *holder),
        payout.holder == holder.account,
        payout.share == (amount * holder.balance) / (total_supply as int),
{
    proof {
        lemma_share_fits(amount, holder.balance, total_supply);
    }
    let product: u128 = (amount as u128) * (holder.balance as u128);
    Payout { holder: holder.account, share: product / (total_supply as u128) }
}

/// Splits a revenue of `amount` over the holder records in proportion to
/// their balances. Each record gets `amount * balance / total_supply`,
/// rounded down, whatever the other records hold; a record listed twice is
/// paid twice, and what rounding leaves over stays in the pool.
pub fn distribute_revenue(
    token_details: &TokenDetails,
    amount: u64,
    holders: &Vec<Holder>,
) -> (r: Result<Vec<Payout>, CustomError>)
    ensures
        match distribute_revenue_spec(token_details.total_supply, amount, holders@) {
            Ok(paid) => r is Ok && r->Ok_0@ == paid,
            Err(e) => r == Err::<Vec<Payout>, CustomError>(e),
        },
        r matches Ok(paid) ==> paid.len() == holders.len(),
        r matches Ok(paid) ==> forall|i: int|
            0 <= i < holders.len() ==> {
                &&& (#[trigger] paid[i]).holder == holders[i].account
                &&& paid[i].share == (amount * holders[i].balance) / (
                token_details.total_supply as int)
            },
{
    match check_distribution(token_details, amount) {
        Err(e) => {
            return Err(e);
        },
        Ok(_) => {},
    }
    let total_supply: u64 = token_details.total_supply;
    let mut paid: Vec<Payout> = Vec::new();
    let mut i: usize = 0;
    while i < holders.len()
        invariant
            total_supply > 0,
            i <= holders.len(),
            paid.len() == i,
            forall|j: int| 0 <= j < i ==> paid[j] == payout_for(amount, total_supply, holders[j]),
        decreases holders.len() - i,
    {
        let payout = distribute_to_holder(&holders[i], total_supply, amount);
        paid.push(payout);
        i += 1;
    }
    assert forall|i: int| 0 <= i < holders.len() implies {
        &&& (#[trigger] paid[i]).holder == holders[i].account
        &&& paid[i].share == (amount * holders[i].balance) / (total_supply as int)
    } by {
        lemma_share_fits(amount, holders[i].balance, total_supply);
    }
    Ok(paid)
}

/// The supply times what is paid out is at most the pool times the balances
/// that the payouts were computed from.
proof fn lemma_paid_scaled(pool: u64, total_supply: u64, holders: Seq<Holder>)
    requires
        total_supply > 0,
    ensures
        total_paid(payouts(pool, total_supply, holders)) * total_supply
            <= pool * total_balance(holders),
    decreases holders.len(),
{
    let paid = payouts(pool, total_supply, holders);
    if holders.len() == 0 {
        assert(0 * total_supply == 0 && pool * 0 == 0) by (nonlinear_arith);
    } else {
        let front = holders.drop_last();
        let last = holders.last();
        assert(paid.drop_last() =~= payouts(pool, total_supply, front));
        lemma_paid_scaled(pool, total_supply, front);
        lemma_share_fits(pool, last.balance, total_supply);
        let before: int = total_paid(payouts(pool, total_supply, front)) as int;
        let share: int = paid.last().share as int;
        let product: int = pool * last.balance;
        let supply: int = total_supply as int;
        let balance_before: int = total_balance(front) as int;
        let p: int = pool as int;
        let b: int = last.balance as int;
        assert(share * supply <= product) by (nonlinear_arith)
            requires
                share == product / supply,
                0 <= product,
                0 < supply,
        ;
        assert((before + share) * supply == before * supply + share * supply) by (nonlinear_arith);
        assert(p * (balance_before + b) == p * balance_before + p * b) by (nonlinear_arith);
    }
}

/// A holder whose balance is within the total supply gets at most the whole
/// pool, so its payout can always be stated as a transfer.
pub proof fn lemma_share_at_most_pool(pool: u64, total_supply: u64, holder: Holder)
    requires
        total_supply > 0,
        holder.balance <= total_supply,
    ensures
        payout_for(pool, total_supply, holder).share <= pool,
        payout_for(pool, total_supply, holder).share == pro_rata_share(
            pool as nat,
            holder.balance as nat,
            total_supply as nat,
        ),
{
    lemma_share_fits(pool, holder.balance, total_supply);
    let p: int = pool as int;
    let b: int = holder.balance as int;
    let supply: int = total_supply as int;
    assert((p * b) / supply <= p) by (nonlinear_arith)
        requires
            0 <= p,
            0 <= b <= supply,
            0 < supply,
    ;
}

/// No distribution pays out more than the pool: where the balances of the
/// holder records add up to no more than the total supply, the shares add up
/// to no more than the amount distributed.
pub proof fn lemma_shares_within_pool(pool: u64, total_supply: u64, holders: Seq<Holder>)
    requires
        total_supply > 0,
        total_balance(holders) <= total_supply,
    ensures
        total_paid(payouts(pool, total_supply, holders)) <= pool,
{
    lemma_paid_scaled(pool, total_supply, holders);
    let paid: int = total_paid(payouts(pool, total_supply, holders)) as int;
    let balance: int = total_balance(holders) as int;
    let supply: int = total_supply as int;
    let p: int = pool as int;
    assert(paid <= p) by (nonlinear_arith)
        requires
            paid * supply <= p * balance,
            0 <= balance <= supply,
            0 < supply,
            0 <= p,
            0 <= paid,
    ;
}

/// The supply times what is paid out falls short of the pool times the
/// balances by less than the supply for each holder record: every share
/// loses less than one unit to rounding.
proof fn lemma_paid_scaled_from_below(pool: u64, total_supply: u64, holders: Seq<Holder>)
    requires
        total_supply > 0,
    ensures
        pool * total_balance(holders) <= total_paid(payouts(pool, total_supply, holders))
            * total_supply + holders.len() * (total_supply - 1),
    decreases holders.len(),
{
    let paid = payouts(pool, total_supply, holders);
    let supply: int = total_supply as int;
    if holders.len() == 0 {
        assert(0 * supply + 0 * (supply - 1) == 0 && pool * 0 == 0) by (nonlinear_arith);
    } else {
        let front = holders.drop_last();
        let last = holders.last();
        assert(paid.drop_last() =~= payouts(pool, total_supply, front));
        lemma_paid_scaled_from_below(pool, total_supply, front);
        lemma_share_fits(pool, last.balance, total_supply);
        let before: int = total_paid(payouts(pool, total_supply, front)) as int;
        let share: int = paid.last().share as int;
        let product: int = pool * last.balance;
        let balance_before: int = total_balance(front) as int;
        let p: int = pool as int;
        let b: int = last.balance as int;
        let n: int = front.len() as int;
        assert(share * supply + (supply - 1) >= product) by (nonlinear_arith)
            requires
                share == product / supply,
                0 <= product,
                0 < supply,
        ;
        assert((before + share) * supply == before * supply + share * supply) by (nonlinear_arith);
        assert((n + 1) * (supply - 1) == n * (supply - 1) + (supply - 1)) by (nonlinear_arith);
        assert(p * (balance_before + b) == p * balance_before + p * b) by (nonlinear_arith);
    }
}

/// Nothing but rounding stays behind: where the holder records hold the
/// whole supply between them, what is left of the pool after the
/// distribution is less than one unit for each record.
pub proof fn lemma_dust_below_holder_count(pool: u64, total_supply: u64, holders: Seq<Holder>)
    requires
        total_supply > 0,
        total_balance(holders) == total_supply,
    ensures
        0 <= pool - total_paid(payouts(pool, total_supply, holders)) < holders.len(),
{
    lemma_shares_within_pool(pool, total_supply, holders);
    lemma_paid_scaled_from_below(pool, total_supply, holders);
    let paid: int = total_paid(payouts(pool, total_supply, holders)) as int;
    let supply: int = total_supply as int;
    let p: int = pool as int;
    let n: int = holders.len() as int;
    assert(p - paid < n) by (nonlinear_arith)
        requires
            paid * supply + n * (supply - 1) >= p * supply,
            0 < supply,
            0 < n,
            0 <= paid,
            0 <= p,
    ;
}

/// Two holders who hold the whole supply between them: each gets exactly the
/// pool times its balance over the supply, rounded down, and together they
/// get no more than the pool.
pub proof fn lemma_two_holders_share_pool(
    pool: u64,
    first: Holder,
    second: Holder,
    total_supply: u64,
)
    requires
        pool > 0,
        total_supply > 0,
        total_supply == first.balance + second.balance,
    ensures
        ({
            let paid = distribute_revenue_spec(total_supply, pool, seq![first, second]);
            &&& paid matches Ok(shares)
            &&& shares.len() == 2
            &&& shares[0].holder == first.account
            &&& shares[1].holder == second.account
            &&& shares[0].share == (pool * first.balance) / (total_supply as int)
            &&& shares[1].share == (pool * second.balance) / (total_supply as int)
            &&& shares[0].share + shares[1].share <= pool
        }),
{
    let holders = seq![first, second];
    let shares = payouts(pool, total_supply, holders);
    lemma_share_fits(pool, first.balance, total_supply);
    lemma_share_fits(pool, second.balance, total_supply);
    assert(total_balance(holders) == first.balance + second.balance) by {
        reveal_with_fuel(total_balance, 3);
    }
    lemma_shares_within_pool(pool, total_supply, holders);
    assert(total_paid(shares) == shares[0].share + shares[1].share) by {
        reveal_with_fuel(total_paid, 3);
    }
}

} // verus!
