use crate::error::CustomError;
use crate::identity::Identity;
use crate::instruction::Transfer;
use crate::registry::TokenDetails;
use vstd::prelude::*;

verus! {

/// The transfer that a sale requests: `amount` from the sale account to the
/// buyer, authorised by the sale authority.
pub open spec fn initial_sale_spec(
    sale_account: Identity,
    buyer_token_account: Identity,
    sale_authority: Identity,
    amount: u64,
) -> Transfer {
    Transfer { from: sale_account, to: buyer_token_account, authority: sale_authority, amount }
}

/// A sale in the first window: the transfer of `amount` from the sale account
/// to the buyer, authorised by the sale authority, with no condition.
pub fn initial_sale(
    sale_account: Identity,
    buyer_token_account: Identity,
    sale_authority: Identity,
    amount: u64,
) -> (transfer: Transfer)
    ensures
        transfer == initial_sale_spec(sale_account, buyer_token_account, sale_authority, amount),
        transfer.amount == amount,
{
    Transfer { from: sale_account, to: buyer_token_account, authority: sale_authority, amount }
}

/// The outcome of a sale in the second window at time `now`: rejected until
/// the registry's unlock time, from then on the transfer of `amount` from
/// the sale account to the buyer.
pub open spec fn second_sale_spec(
    second_offering_unlock_time: i64,
    sale_account: Identity,
    buyer_token_account: Identity,
    sale_authority: Identity,
    amount: u64,
    now: i64,
) -> Result<Transfer, CustomError> {
    if now < second_offering_unlock_time {
        Err(CustomError::LockPeriodNotOver)
    } else {
        Ok(initial_sale_spec(sale_account, buyer_token_account, sale_authority, amount))
    }
}

/// A sale in the second window, which opens at the registry's
/// `second_offering_unlock_time`. Before that the sale is rejected with
/// `LockPeriodNotOver`; at or after it the same transfer as in the first
/// window is requested.
pub fn second_sale(
    token_details: &TokenDetails,
    sale_account: Identity,
    buyer_token_account: Identity,
    sale_authority: Identity,
    amount: u64,
    now: i64,
) -> (r: Result<Transfer, CustomError>)
    ensures
        r == second_sale_spec(
            token_details.second_offering_unlock_time,
            sale_account,
            buyer_token_account,
            sale_authority,
            amount,
            now,
        ),
        now < token_details.second_offering_unlock_time <==> r == Err::<Transfer, CustomError>(
            CustomError::LockPeriodNotOver,
        ),
        now >= token_details.second_offering_unlock_time <==> r == Ok::<Transfer, CustomError>(
            initial_sale_spec(sale_account, buyer_token_account, sale_authority, amount),
        ),
{
    if now < token_details.second_offering_unlock_time {
        return Err(CustomError::LockPeriodNotOver);
    }
    Ok(initial_sale(sale_account, buyer_token_account, sale_authority, amount))
}

/// The second window opens once and stays open: a sale that is accepted at
/// one time is accepted, with the same transfer, at every later time.
pub proof fn lemma_second_sale_stays_open(
    second_offering_unlock_time: i64,
    sale_account: Identity,
    buyer_token_account: Identity,
    sale_authority: Identity,
    amount: u64,
    now: i64,
    later: i64,
)
    requires
        now <= later,
        second_sale_spec(
            second_offering_unlock_time,
            sale_account,
            buyer_token_account,
            sale_authority,
            amount,
            now,
        ) is Ok,
    ensures
        second_sale_spec(
            second_offering_unlock_time,
            sale_account,
            buyer_token_account,
            sale_authority,
            amount,
            later,
        ) == Ok::<Transfer, CustomError>(
            initial_sale_spec(sale_account, buyer_token_account, sale_authority, amount),
        ),
{
}

} // verus!
