use crate::error::CustomError;
use crate::identity::Identity;
use crate::instruction::MintTo;
use vstd::prelude::*;

verus! {

/// Seconds in the 365 days for which the second offering stays closed.
pub const SECOND_OFFERING_LOCK: i64 = 31_536_000;

/// Units set aside for the initial offering.
pub const INITIAL_OFFERING: u64 = 5_000_000;

/// Units set aside for the second offering.
pub const SECOND_OFFERING: u64 = 5_000_000;

/// Units set aside as collective reserves.
pub const COLLECTIVE_RESERVES: u64 = 11_000_000;

/// Units set aside for the development fund.
pub const DEVELOPMENT_FUND: u64 = 9_900_000;

/// Units set aside as reserve.
pub const RESERVE: u64 = 1_100_000;

/// The token registry: one record for the whole ledger. A registry whose
/// `total_supply` is zero has not been initialized yet; once a supply has been
/// issued it never changes.
#[derive(Clone, Debug, PartialEq, Eq)]
pub struct TokenDetails {
    pub name: String,
    pub symbol: String,
    pub total_supply: u64,
    pub mint: Identity,
    pub owner: Identity,
    pub initial_offering: u64,
    pub second_offering: u64,
    pub collective_reserves: u64,
    pub development_fund: u64,
    pub reserve: u64,
    pub second_offering_unlock_time: i64,
}

/// What a registry holds, with its texts as sequences of characters.
pub struct TokenDetailsView {
    pub name: Seq<char>,
    pub symbol: Seq<char>,
    pub total_supply: u64,
    pub mint: Identity,
    pub owner: Identity,
    pub initial_offering: u64,
    pub second_offering: u64,
    pub collective_reserves: u64,
    pub development_fund: u64,
    pub reserve: u64,
    pub second_offering_unlock_time: i64,
}

impl View for TokenDetails {
    type V = TokenDetailsView;

    open spec fn view(&self) -> TokenDetailsView {
        TokenDetailsView {
            name: self.name@,
            symbol: self.symbol@,
            total_supply: self.total_supply,
            mint: self.mint,
            owner: self.owner,
            initial_offering: self.initial_offering,
            second_offering: self.second_offering,
            collective_reserves: self.collective_reserves,
            development_fund: self.development_fund,
            reserve: self.reserve,
            second_offering_unlock_time: self.second_offering_unlock_time,
        }
    }
}

impl TokenDetailsView {
    /// The registry as storage hands it out before any supply was issued:
    /// empty texts, zero counters, the all-zero identity.
    pub open spec fn blank() -> TokenDetailsView {
        TokenDetailsView {
            name: Seq::empty(),
            symbol: Seq::empty(),
            total_supply: 0,
            mint: Identity::zero_spec(),
            owner: Identity::zero_spec(),
            initial_offering: 0,
            second_offering: 0,
            collective_reserves: 0,
            development_fund: 0,
            reserve: 0,
            second_offering_unlock_time: 0,
        }
    }

    /// Whether a supply has been issued.
    pub open spec fn is_initialized(self) -> bool {
        self.total_supply != 0
    }
}

/// Whether a supply can be issued: the first failed check in the order
/// single initialization, supply, name, symbol. A registry that holds a
/// supply rejects every call with `AlreadyInitialized`, whatever the
/// arguments.
pub open spec fn check_initialize_spec(
    registry: TokenDetailsView,
    total_supply: u64,
    name: Seq<char>,
    symbol: Seq<char>,
) -> Result<(), CustomError> {
    if registry.is_initialized() {
        Err(CustomError::AlreadyInitialized)
    } else if total_supply == 0 {
        Err(CustomError::InvalidTotalSupply)
    } else if name.len() == 0 {
        Err(CustomError::InvalidTokenName)
    } else if symbol.len() == 0 {
        Err(CustomError::InvalidTokenSymbol)
    } else {
        Ok(())
    }
}

/// The outcome of issuing the supply at time `now`: the rejection that
/// `check_initialize_spec` gives, or the filled registry and the issuance of
/// the whole supply to `token_account`.
pub open spec fn initialize_spec(
    registry: TokenDetailsView,
    mint: Identity,
    token_account: Identity,
    mint_authority: Identity,
    total_supply: u64,
    name: Seq<char>,
    symbol: Seq<char>,
    now: i64,
) -> Result<(TokenDetailsView, MintTo), CustomError> {
    match check_initialize_spec(registry, total_supply, name, symbol) {
        Err(e) => Err(e),
        Ok(_) => Ok(
            (
                TokenDetailsView {
                    name,
                    symbol,
                    total_supply,
                    mint,
                    owner: mint_authority,
                    initial_offering: INITIAL_OFFERING,
                    second_offering: SECOND_OFFERING,
                    collective_reserves: COLLECTIVE_RESERVES,
                    development_fund: DEVELOPMENT_FUND,
                    reserve: RESERVE,
                    second_offering_unlock_time: (now + SECOND_OFFERING_LOCK) as i64,
                },
                MintTo { mint, to: token_account, authority: mint_authority, amount: total_supply },
            ),
        ),
    }
}

impl TokenDetails {
    /// A registry that has not been initialized.
    pub fn new() -> (registry: TokenDetails)
        ensures
            registry@ == TokenDetailsView::blank(),
            !registry@.is_initialized(),
    {
        TokenDetails {
            name: String::new(),
            symbol: String::new(),
            total_supply: 0,
            mint: Identity::zero(),
            owner: Identity::zero(),
            initial_offering: 0,
            second_offering: 0,
            collective_reserves: 0,
            development_fund: 0,
            reserve: 0,
            second_offering_unlock_time: 0,
        }
    }
}

/// Checks what an issuance needs, before the clock is read: a registry
/// without a supply, a positive supply, a name and a symbol.
pub fn check_initialize(
    token_details: &TokenDetails,
    total_supply: u64,
    name: &str,
    symbol: &str,
) -> (r: Result<(), CustomError>)
    ensures
        r == check_initialize_spec(token_details@, total_supply, name@, symbol@),
        token_details@.is_initialized() ==> r == Err::<(), CustomError>(
            CustomError::AlreadyInitialized,
        ),
{
    if token_details.total_supply != 0 {
        return Err(CustomError::AlreadyInitialized);
    }
    if total_supply == 0 {
        return Err(CustomError::InvalidTotalSupply);
    }
    if name.is_empty() {
        return Err(CustomError::InvalidTokenName);
    }
    if symbol.is_empty() {
        return Err(CustomError::InvalidTokenSymbol);
    }
    Ok(())
}

/// Issues the fixed supply, once. On success the registry is filled, the
/// second offering is closed until `now` plus 365 days, and the returned
/// request issues `total_supply` units to `token_account`. On failure the
/// registry is untouched; on a registry that holds a supply the failure is
/// `AlreadyInitialized`, whatever the arguments. The time has to leave room
/// for the 365 days only where the issuance is accepted.
pub fn initialize(
    token_details: &mut TokenDetails,
    mint: Identity,
    token_account: Identity,
    mint_authority: Identity,
    total_supply: u64,
    name: String,
    symbol: String,
    now: i64,
) -> (r: Result<MintTo, CustomError>)
    requires
        check_initialize_spec(old(token_details)@, total_supply, name@, symbol@) is Ok ==> now
            + SECOND_OFFERING_LOCK <= i64::MAX,
    ensures
        match initialize_spec(
            old(token_details)@,
            mint,
            token_account,
            mint_authority,
            total_supply,
            name@,
            symbol@,
            now,
        ) {
            Ok((registry, issue)) => {
                &&& r == Ok::<MintTo, CustomError>(issue)
                &&& final(token_details)@ == registry
            },
            Err(e) => {
                &&& r == Err::<MintTo, CustomError>(e)
                &&& *final(token_details) == *old(token_details)
            },
        },
        old(token_details)@.is_initialized() ==> r == Err::<MintTo, CustomError>(
            CustomError::AlreadyInitialized,
        ),
        r is Ok ==> final(token_details).second_offering_unlock_time == now + 31_536_000,
{
    match check_initialize(token_details, total_supply, name.as_str(), symbol.as_str()) {
        Err(e) => {
            return Err(e);
        },
        Ok(_) => {},
    }
    token_details.name = name;
    token_details.symbol = symbol;
    token_details.total_supply = total_supply;
    token_details.mint = mint;
    token_details.owner = mint_authority;
    token_details.initial_offering = INITIAL_OFFERING;
    token_details.second_offering = SECOND_OFFERING;
    token_details.collective_reserves = COLLECTIVE_RESERVES;
    token_details.development_fund = DEVELOPMENT_FUND;
    token_details.reserve = RESERVE;
    token_details.second_offering_unlock_time = now + SECOND_OFFERING_LOCK;
    Ok(MintTo { mint, to: token_account, authority: mint_authority, amount: total_supply })
}

/// A registry is initialized at most once: a call on a registry that holds a
/// supply is rejected with `AlreadyInitialized`, whatever its arguments.
pub proof fn lemma_initialize_only_once(
    filled: TokenDetailsView,
    mint: Identity,
    token_account: Identity,
    mint_authority: Identity,
    total_supply: u64,
    name: Seq<char>,
    symbol: Seq<char>,
    now: i64,
)
    requires
        filled.is_initialized(),
    ensures
        initialize_spec(
            filled,
            mint,
            token_account,
            mint_authority,
            total_supply,
            name,
            symbol,
            now,
        ) == Err::<(TokenDetailsView, MintTo), CustomError>(CustomError::AlreadyInitialized),
{
}

/// Initialization succeeds exactly once: after a call that was accepted,
/// every further call on the registry is rejected with `AlreadyInitialized`,
/// whatever its arguments and whenever it is made.
pub proof fn lemma_second_initialize_rejected(
    registry: TokenDetailsView,
    mint: Identity,
    token_account: Identity,
    mint_authority: Identity,
    total_supply: u64,
    name: Seq<char>,
    symbol: Seq<char>,
    now: i64,
    second_mint: Identity,
    second_token_account: Identity,
    second_mint_authority: Identity,
    second_total_supply: u64,
    second_name: Seq<char>,
    second_symbol: Seq<char>,
    second_now: i64,
)
    requires
        initialize_spec(
            registry,
            mint,
            token_account,
            mint_authority,
            total_supply,
            name,
            symbol,
            now,
        ) is Ok,
    ensures
        ({
            let filled = initialize_spec(
                registry,
                mint,
                token_account,
                mint_authority,
                total_supply,
                name,
                symbol,
                now,
            )->Ok_0.0;
            initialize_spec(
                filled,
                second_mint,
                second_token_account,
                second_mint_authority,
                second_total_supply,
                second_name,
                second_symbol,
                second_now,
            ) == Err::<(TokenDetailsView, MintTo), CustomError>(CustomError::AlreadyInitialized)
        }),
{
}

/// On a registry without a supply, every positive supply with a name and a
/// symbol is accepted, and the registry it leaves is initialized with exactly
/// that supply.
pub proof fn lemma_initialize_succeeds(
    registry: TokenDetailsView,
    mint: Identity,
    token_account: Identity,
    mint_authority: Identity,
    total_supply: u64,
    name: Seq<char>,
    symbol: Seq<char>,
    now: i64,
)
    requires
        !registry.is_initialized(),
        total_supply > 0,
        name.len() > 0,
        symbol.len() > 0,
    ensures
        initialize_spec(
            registry,
            mint,
            token_account,
            mint_authority,
            total_supply,
            name,
            symbol,
            now,
        ) matches Ok((filled, issue)) && filled.is_initialized() && filled.total_supply
            == total_supply && issue.amount == total_supply,
{
}

} // verus!
