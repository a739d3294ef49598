use vstd::prelude::*;

use crate::constants::{
    MARKET_TYPE_SEED_LEN, METADATA_NAME_MAX_LEN, METADATA_SYMBOL_MAX_LEN, METADATA_URI_MAX_LEN,
};
use crate::error::OutcomeMarketsError;
use crate::events::OutcomeSide;
use crate::oracle::{
    read_verified_price, require_update_at_or_after, spec_read_verified_price, PriceUpdate,
};
use crate::state::{
    same_key, InitializeMarketParams, OutcomeMarket, Pubkey, RecordedPrice, Resolution,
};
use crate::token::{
    market_signer_seeds, transfer_market_collateral, MarketSigner, TokenEffects, TokenInstruction,
};

verus! {

/// A token account as the program sees it: its address, its owner and its mint.
#[derive(Clone, Copy, Debug, PartialEq, Eq)]
pub struct TokenAccountRef {
    pub address: Pubkey,
    pub owner: Pubkey,
    pub mint: Pubkey,
}

/// The accounts of `initialize_market`, by address.
#[derive(Clone, Copy, Debug, PartialEq, Eq)]
pub struct InitializeMarket {
    pub payer: Pubkey,
    pub market: Pubkey,
    pub yes_mint: Pubkey,
    pub no_mint: Pubkey,
    pub collateral_vault: Pubkey,
    pub collateral_mint: Pubkey,
}

/// The bumps found for the addresses that `initialize_market` creates.
#[derive(Clone, Copy, Debug, PartialEq, Eq)]
pub struct MarketBumps {
    pub market: u8,
    pub yes_mint: u8,
    pub no_mint: u8,
    pub collateral_vault: u8,
}

/// The accounts of `split`.
#[derive(Clone, Copy, Debug, PartialEq, Eq)]
pub struct Split {
    pub user: Pubkey,
    pub market: Pubkey,
    pub collateral_mint: Pubkey,
    pub collateral_decimals: u8,
    pub yes_mint: Pubkey,
    pub no_mint: Pubkey,
    pub collateral_vault: Pubkey,
    pub user_collateral_account: TokenAccountRef,
    pub user_yes_token_account: TokenAccountRef,
    pub user_no_token_account: TokenAccountRef,
}

/// The accounts of `merge`.
#[derive(Clone, Copy, Debug, PartialEq, Eq)]
pub struct Merge {
    pub user: Pubkey,
    pub market: Pubkey,
    pub collateral_mint: Pubkey,
    pub collateral_decimals: u8,
    pub yes_mint: Pubkey,
    pub no_mint: Pubkey,
    pub collateral_vault: Pubkey,
    pub user_collateral_account: TokenAccountRef,
    pub user_yes_token_account: TokenAccountRef,
    pub user_no_token_account: TokenAccountRef,
}

/// The accounts of `set_start_price`.
#[derive(Clone, Copy, Debug, PartialEq, Eq)]
pub struct SetStartPrice {
    pub updater: Pubkey,
    pub market: Pubkey,
}

/// The accounts of `resolve`.
#[derive(Clone, Copy, Debug, PartialEq, Eq)]
pub struct Resolve {
    pub resolver: Pubkey,
    pub market: Pubkey,
}

/// The accounts of `claim`.
#[derive(Clone, Copy, Debug, PartialEq, Eq)]
pub struct Claim {
    pub user: Pubkey,
    pub market: Pubkey,
    pub collateral_mint: Pubkey,
    pub collateral_decimals: u8,
    pub collateral_vault: Pubkey,
    pub outcome_mint: Pubkey,
    pub user_collateral_account: TokenAccountRef,
    pub user_outcome_token_account: TokenAccountRef,
}

/// The accounts of `initialize_metadata`.
#[derive(Clone, Copy, Debug, PartialEq, Eq)]
pub struct InitializeMetadata {
    pub payer: Pubkey,
    pub market: Pubkey,
    pub mint: Pubkey,
    pub metadata: Pubkey,
}

/// The checks on the accounts of `split` and `merge`, in the order in which they are made:
/// the mints and the vault must be the market's, and each user token account must belong to
/// the user and hold the right mint.
pub open spec fn spec_check_pair_accounts(
    market: OutcomeMarket,
    user: Pubkey,
    collateral_mint: Pubkey,
    yes_mint: Pubkey,
    no_mint: Pubkey,
    collateral_vault: Pubkey,
    user_collateral: TokenAccountRef,
    user_yes: TokenAccountRef,
    user_no: TokenAccountRef,
) -> Result<(), OutcomeMarketsError> {
    if market.collateral_mint != collateral_mint {
        Err(OutcomeMarketsError::InvalidCollateralMint)
    } else if market.yes_mint != yes_mint {
        Err(OutcomeMarketsError::InvalidYesMint)
    } else if market.no_mint != no_mint {
        Err(OutcomeMarketsError::InvalidNoMint)
    } else if market.collateral_vault != collateral_vault {
        Err(OutcomeMarketsError::InvalidCollateralVault)
    } else if user_collateral.owner != user {
        Err(OutcomeMarketsError::InvalidTokenOwner)
    } else if user_collateral.mint != collateral_mint {
        Err(OutcomeMarketsError::InvalidCollateralAccount)
    } else if user_yes.owner != user {
        Err(OutcomeMarketsError::InvalidTokenOwner)
    } else if user_yes.mint != yes_mint {
        Err(OutcomeMarketsError::InvalidYesTokenAccount)
    } else if user_no.owner != user {
        Err(OutcomeMarketsError::InvalidTokenOwner)
    } else if user_no.mint != no_mint {
        Err(OutcomeMarketsError::InvalidNoTokenAccount)
    } else {
        Ok(())
    }
}

fn check_pair_accounts(
    market: &OutcomeMarket,
    user: &Pubkey,
    collateral_mint: &Pubkey,
    yes_mint: &Pubkey,
    no_mint: &Pubkey,
    collateral_vault: &Pubkey,
    user_collateral: &TokenAccountRef,
    user_yes: &TokenAccountRef,
    user_no: &TokenAccountRef,
) -> (r: Result<(), OutcomeMarketsError>)
    ensures
        r == spec_check_pair_accounts(
            *market,
            *user,
            *collateral_mint,
            *yes_mint,
            *no_mint,
            *collateral_vault,
            *user_collateral,
            *user_yes,
            *user_no,
        ),
{
    if !same_key(&market.collateral_mint, collateral_mint) {
        return Err(OutcomeMarketsError::InvalidCollateralMint);
    }
    if !same_key(&market.yes_mint, yes_mint) {
        return Err(OutcomeMarketsError::InvalidYesMint);
    }
    if !same_key(&market.no_mint, no_mint) {
        return Err(OutcomeMarketsError::InvalidNoMint);
    }
    if !same_key(&market.collateral_vault, collateral_vault) {
        return Err(OutcomeMarketsError::InvalidCollateralVault);
    }
    if !same_key(&user_collateral.owner, user) {
        return Err(OutcomeMarketsError::InvalidTokenOwner);
    }
    if !same_key(&user_collateral.mint, collateral_mint) {
        return Err(OutcomeMarketsError::InvalidCollateralAccount);
    }
    if !same_key(&user_yes.owner, user) {
        return Err(OutcomeMarketsError::InvalidTokenOwner);
    }
    if !same_key(&user_yes.mint, yes_mint) {
        return Err(OutcomeMarketsError::InvalidYesTokenAccount);
    }
    if !same_key(&user_no.owner, user) {
        return Err(OutcomeMarketsError::InvalidTokenOwner);
    }
    if !same_key(&user_no.mint, no_mint) {
        return Err(OutcomeMarketsError::InvalidNoTokenAccount);
    }
    Ok(())
}

impl Split {
    /// The checks that the accounts of `split` undergo before the instruction runs.
    pub open spec fn spec_check_accounts(self, market: OutcomeMarket) -> Result<
        (),
        OutcomeMarketsError,
    > {
        spec_check_pair_accounts(
            market,
            self.user,
            self.collateral_mint,
            self.yes_mint,
            self.no_mint,
            self.collateral_vault,
            self.user_collateral_account,
            self.user_yes_token_account,
            self.user_no_token_account,
        )
    }

    /// Checks the accounts of `split` against the market.
    pub fn check_accounts(&self, market: &OutcomeMarket) -> (r: Result<(), OutcomeMarketsError>)
        ensures
            r == self.spec_check_accounts(*market),
    {
        check_pair_accounts(
            market,
            &self.user,
            &self.collateral_mint,
            &self.yes_mint,
            &self.no_mint,
            &self.collateral_vault,
            &self.user_collateral_account,
            &self.user_yes_token_account,
            &self.user_no_token_account,
        )
    }
}

impl Merge {
    /// The checks that the accounts of `merge` undergo before the instruction runs.
    pub open spec fn spec_check_accounts(self, market: OutcomeMarket) -> Result<
        (),
        OutcomeMarketsError,
    > {
        spec_check_pair_accounts(
            market,
            self.user,
            self.collateral_mint,
            self.yes_mint,
            self.no_mint,
            self.collateral_vault,
            self.user_collateral_account,
            self.user_yes_token_account,
            self.user_no_token_account,
        )
    }

    /// Checks the accounts of `merge` against the market.
    pub fn check_accounts(&self, market: &OutcomeMarket) -> (r: Result<(), OutcomeMarketsError>)
        ensures
            r == self.spec_check_accounts(*market),
    {
        check_pair_accounts(
            market,
            &self.user,
            &self.collateral_mint,
            &self.yes_mint,
            &self.no_mint,
            &self.collateral_vault,
            &self.user_collateral_account,
            &self.user_yes_token_account,
            &self.user_no_token_account,
        )
    }
}

impl Claim {
    /// The checks that the accounts of `claim` undergo before the instruction runs.
    pub open spec fn spec_check_accounts(self, market: OutcomeMarket) -> Result<
        (),
        OutcomeMarketsError,
    > {
        if market.collateral_mint != self.collateral_mint {
            Err(OutcomeMarketsError::InvalidCollateralMint)
        } else if market.collateral_vault != self.collateral_vault {
            Err(OutcomeMarketsError::InvalidCollateralVault)
        } else if self.user_collateral_account.owner != self.user {
            Err(OutcomeMarketsError::InvalidTokenOwner)
        } else if self.user_collateral_account.mint != self.collateral_mint {
            Err(OutcomeMarketsError::InvalidCollateralAccount)
        } else if self.user_outcome_token_account.owner != self.user {
            Err(OutcomeMarketsError::InvalidTokenOwner)
        } else if self.user_outcome_token_account.mint != self.outcome_mint {
            Err(OutcomeMarketsError::InvalidOutcomeTokenAccount)
        } else {
            Ok(())
        }
    }

    /// Checks the accounts of `claim` against the market.
    pub fn check_accounts(&self, market: &OutcomeMarket) -> (r: Result<(), OutcomeMarketsError>)
        ensures
            r == self.spec_check_accounts(*market),
    {
        if !same_key(&market.collateral_mint, &self.collateral_mint) {
            return Err(OutcomeMarketsError::InvalidCollateralMint);
        }
        if !same_key(&market.collateral_vault, &self.collateral_vault) {
            return Err(OutcomeMarketsError::InvalidCollateralVault);
        }
        if !same_key(&self.user_collateral_account.owner, &self.user) {
            return Err(OutcomeMarketsError::InvalidTokenOwner);
        }
        if !same_key(&self.user_collateral_account.mint, &self.collateral_mint) {
            return Err(OutcomeMarketsError::InvalidCollateralAccount);
        }
        if !same_key(&self.user_outcome_token_account.owner, &self.user) {
            return Err(OutcomeMarketsError::InvalidTokenOwner);
        }
        if !same_key(&self.user_outcome_token_account.mint, &self.outcome_mint) {
            return Err(OutcomeMarketsError::InvalidOutcomeTokenAccount);
        }
        Ok(())
    }
}

// ---------------------------------------------------------------------------------------------
// initialize_market
// ---------------------------------------------------------------------------------------------

/// The outcome of the checks of `initialize_market` at time `now`.
pub open spec fn spec_initialize_market_check(params: InitializeMarketParams, now: i64) -> Result<
    (),
    OutcomeMarketsError,
> {
    match params.spec_validate() {
        Err(e) => Err(e),
        Ok(_) => if now < params.end_time {
            Ok(())
        } else {
            Err(OutcomeMarketsError::MarketAlreadyEnded)
        },
    }
}

/// The market that `initialize_market` creates.
pub open spec fn spec_new_market(
    params: InitializeMarketParams,
    accounts: InitializeMarket,
    bumps: MarketBumps,
    market_type_seed: [u8; MARKET_TYPE_SEED_LEN],
) -> OutcomeMarket {
    OutcomeMarket {
        creator: accounts.payer,
        price_feed_id: params.price_feed_id,
        market_type_seed,
        market_type: params.market_type,
        collateral_mint: accounts.collateral_mint,
        yes_mint: accounts.yes_mint,
        no_mint: accounts.no_mint,
        collateral_vault: accounts.collateral_vault,
        start_time: params.start_time,
        end_time: params.end_time,
        start_price: None,
        resolved_price: None,
        resolution: Resolution::Unresolved,
        bump: bumps.market,
        yes_mint_bump: bumps.yes_mint,
        no_mint_bump: bumps.no_mint,
        collateral_vault_bump: bumps.collateral_vault,
    }
}

/// Creates a market: checks the parameters and that the market has not already ended at
/// `now`, and gives the market's initial state.
pub fn initialize_market(
    accounts: &InitializeMarket,
    bumps: &MarketBumps,
    params: InitializeMarketParams,
    now: i64,
) -> (r: Result<OutcomeMarket, OutcomeMarketsError>)
    ensures
        r is Ok <==> spec_initialize_market_check(params, now) is Ok,
        r matches Err(e) ==> spec_initialize_market_check(params, now) == Err::<(), _>(e),
        r matches Ok(market) ==> {
            &&& market == spec_new_market(params, *accounts, *bumps, market.market_type_seed)
            &&& market.market_type_seed@ == params.market_type.spec_seed_bytes()
            &&& market.wf()
        },
{
    params.validate()?;
    if !(now < params.end_time) {
        return Err(OutcomeMarketsError::MarketAlreadyEnded);
    }
    Ok(
        OutcomeMarket {
            creator: accounts.payer,
            price_feed_id: params.price_feed_id,
            market_type_seed: params.market_type.seed_bytes(),
            market_type: params.market_type,
            collateral_mint: accounts.collateral_mint,
            yes_mint: accounts.yes_mint,
            no_mint: accounts.no_mint,
            collateral_vault: accounts.collateral_vault,
            start_time: params.start_time,
            end_time: params.end_time,
            start_price: None,
            resolved_price: None,
            resolution: Resolution::Unresolved,
            bump: bumps.market,
            yes_mint_bump: bumps.yes_mint,
            no_mint_bump: bumps.no_mint,
            collateral_vault_bump: bumps.collateral_vault,
        },
    )
}

// ---------------------------------------------------------------------------------------------
// split
// ---------------------------------------------------------------------------------------------

/// The outcome of the checks of `split` at time `now`: the accounts first, then the amount,
/// then that the market is neither resolved nor ended.
pub open spec fn spec_split_check(market: OutcomeMarket, accounts: Split, now: i64, amount: u64) -> Result<
    (),
    OutcomeMarketsError,
> {
    match accounts.spec_check_accounts(market) {
        Err(e) => Err(e),
        Ok(_) => if amount == 0 {
            Err(OutcomeMarketsError::InvalidAmount)
        } else if market.spec_is_resolved() {
            Err(OutcomeMarketsError::MarketAlreadyResolved)
        } else if !(now < market.end_time) {
            Err(OutcomeMarketsError::MarketClosedForSplits)
        } else {
            Ok(())
        },
    }
}

/// The token calls of `split`: the user's collateral goes into the vault, and as many YES
/// and NO tokens are minted to the user.
pub open spec fn spec_split_instructions(accounts: Split, amount: u64) -> Seq<TokenInstruction> {
    seq![
        TokenInstruction::TransferChecked {
            from: accounts.user_collateral_account.address,
            mint: accounts.collateral_mint,
            to: accounts.collateral_vault,
            authority: accounts.user,
            amount,
            decimals: accounts.collateral_decimals,
        },
        TokenInstruction::MintTo {
            mint: accounts.yes_mint,
            to: accounts.user_yes_token_account.address,
            authority: accounts.market,
            amount,
        },
        TokenInstruction::MintTo {
            mint: accounts.no_mint,
            to: accounts.user_no_token_account.address,
            authority: accounts.market,
            amount,
        },
    ]
}

/// Deposits `amount` collateral and mints `amount` YES and `amount` NO to the user: gives
/// the token calls to make.
pub fn split(market: &OutcomeMarket, accounts: &Split, now: i64, amount: u64) -> (r: Result<
    TokenEffects,
    OutcomeMarketsError,
>)
    ensures
        r is Ok <==> spec_split_check(*market, *accounts, now, amount) is Ok,
        r matches Err(e) ==> spec_split_check(*market, *accounts, now, amount) == Err::<(), _>(e),
        r matches Ok(effects) ==> {
            &&& effects.instructions@ == spec_split_instructions(*accounts, amount)
            &&& effects.signer@ == market.spec_signer_seeds()
        },
{
    accounts.check_accounts(market)?;
    if !(amount > 0) {
        return Err(OutcomeMarketsError::InvalidAmount);
    }
    if market.is_resolved() {
        return Err(OutcomeMarketsError::MarketAlreadyResolved);
    }
    if !(now < market.end_time) {
        return Err(OutcomeMarketsError::MarketClosedForSplits);
    }
    let mut instructions: Vec<TokenInstruction> = Vec::new();
    instructions.push(
        TokenInstruction::TransferChecked {
            from: accounts.user_collateral_account.address,
            mint: accounts.collateral_mint,
            to: accounts.collateral_vault,
            authority: accounts.user,
            amount,
            decimals: accounts.collateral_decimals,
        },
    );
    instructions.push(
        TokenInstruction::MintTo {
            mint: accounts.yes_mint,
            to: accounts.user_yes_token_account.address,
            authority: accounts.market,
            amount,
        },
    );
    instructions.push(
        TokenInstruction::MintTo {
            mint: accounts.no_mint,
            to: accounts.user_no_token_account.address,
            authority: accounts.market,
            amount,
        },
    );
    assert(instructions@ =~= spec_split_instructions(*accounts, amount));
    Ok(TokenEffects { instructions, signer: market_signer_seeds(market) })
}

// ---------------------------------------------------------------------------------------------
// merge
// ---------------------------------------------------------------------------------------------

/// The outcome of the checks of `merge`: the accounts, then the amount. Neither the time nor
/// the resolution of the market matters.
pub open spec fn spec_merge_check(market: OutcomeMarket, accounts: Merge, amount: u64) -> Result<
    (),
    OutcomeMarketsError,
> {
    match accounts.spec_check_accounts(market) {
        Err(e) => Err(e),
        Ok(_) => if amount == 0 {
            Err(OutcomeMarketsError::InvalidAmount)
        } else {
            Ok(())
        },
    }
}

/// The token calls of `merge`: `amount` YES and `amount` NO are burned from the user, and
/// `amount` collateral goes from the vault back to the user.
pub open spec fn spec_merge_instructions(accounts: Merge, amount: u64) -> Seq<TokenInstruction> {
    seq![
        TokenInstruction::Burn {
            mint: accounts.yes_mint,
            from: accounts.user_yes_token_account.address,
            authority: accounts.user,
            amount,
        },
        TokenInstruction::Burn {
            mint: accounts.no_mint,
            from: accounts.user_no_token_account.address,
            authority: accounts.user,
            amount,
        },
        TokenInstruction::TransferChecked {
            from: accounts.collateral_vault,
            mint: accounts.collateral_mint,
            to: accounts.user_collateral_account.address,
            authority: accounts.market,
            amount,
            decimals: accounts.collateral_decimals,
        },
    ]
}

/// Burns `amount` YES and `amount` NO of the user and returns `amount` collateral: gives the
/// token calls to make.
pub fn merge(market: &OutcomeMarket, accounts: &Merge, amount: u64) -> (r: Result<
    TokenEffects,
    OutcomeMarketsError,
>)
    ensures
        r is Ok <==> spec_merge_check(*market, *accounts, amount) is Ok,
        r matches Err(e) ==> spec_merge_check(*market, *accounts, amount) == Err::<(), _>(e),
        r matches Ok(effects) ==> {
            &&& effects.instructions@ == spec_merge_instructions(*accounts, amount)
            &&& effects.signer@ == market.spec_signer_seeds()
        },
{
    accounts.check_accounts(market)?;
    if !(amount > 0) {
        return Err(OutcomeMarketsError::InvalidAmount);
    }
    let mut instructions: Vec<TokenInstruction> = Vec::new();
    instructions.push(
        TokenInstruction::Burn {
            mint: accounts.yes_mint,
            from: accounts.user_yes_token_account.address,
            authority: accounts.user,
            amount,
        },
    );
    instructions.push(
        TokenInstruction::Burn {
            mint: accounts.no_mint,
            from: accounts.user_no_token_account.address,
            authority: accounts.user,
            amount,
        },
    );
    instructions.push(
        transfer_market_collateral(
            &accounts.market,
            &accounts.collateral_vault,
            &accounts.collateral_mint,
            accounts.collateral_decimals,
            &accounts.user_collateral_account.address,
            amount,
        ),
    );
    assert(instructions@ =~= spec_merge_instructions(*accounts, amount));
    Ok(TokenEffects { instructions, signer: market_signer_seeds(market) })
}

// ---------------------------------------------------------------------------------------------
// set_start_price
// ---------------------------------------------------------------------------------------------

/// The outcome of `set_start_price` at time `now` with `price_update`: the start price it
/// records, or why it is refused.
pub open spec fn spec_set_start_price(market: OutcomeMarket, price_update: PriceUpdate, now: i64) -> Result<
    RecordedPrice,
    OutcomeMarketsError,
> {
    if !market.market_type.spec_supports_start_price() {
        Err(OutcomeMarketsError::StartPriceNotSupported)
    } else if market.spec_is_resolved() {
        Err(OutcomeMarketsError::MarketAlreadyResolved)
    } else if market.start_price is Some {
        Err(OutcomeMarketsError::StartPriceAlreadySet)
    } else if !(now >= market.start_time) {
        Err(OutcomeMarketsError::MarketStartTimeNotReached)
    } else {
        match spec_read_verified_price(price_update, market.price_feed_id) {
            Err(e) => Err(e),
            Ok(price) => if !(market.start_time <= price_update.price_message.publish_time) {
                Err(OutcomeMarketsError::OracleUpdateTooEarly)
            } else {
                Ok(RecordedPrice::spec_from_pyth(price))
            },
        }
    }
}

/// Records the start price of an up/down market from a verified oracle update published at
/// or after the start time, once the clock has reached the start time. The accounts of the
/// instruction (its signer and the market) do not affect the outcome.
pub fn set_start_price(
    market: &mut OutcomeMarket,
    accounts: &SetStartPrice,
    price_update: &PriceUpdate,
    now: i64,
) -> (r: Result<(), OutcomeMarketsError>)
    ensures
        r is Ok <==> spec_set_start_price(*old(market), *price_update, now) is Ok,
        r matches Err(e) ==> {
            &&& spec_set_start_price(*old(market), *price_update, now) == Err::<
                RecordedPrice,
                _,
            >(e)
            &&& *final(market) == *old(market)
        },
        r is Ok ==> *final(market) == (OutcomeMarket {
            start_price: Some(spec_set_start_price(*old(market), *price_update, now)->Ok_0),
            ..*old(market)
        }),
{
    if !market.market_type.supports_start_price() {
        return Err(OutcomeMarketsError::StartPriceNotSupported);
    }
    if market.is_resolved() {
        return Err(OutcomeMarketsError::MarketAlreadyResolved);
    }
    if market.start_price.is_some() {
        return Err(OutcomeMarketsError::StartPriceAlreadySet);
    }
    if !(now >= market.start_time) {
        return Err(OutcomeMarketsError::MarketStartTimeNotReached);
    }
    let price = read_verified_price(price_update, &market.price_feed_id)?;
    require_update_at_or_after(price_update, market.start_time)?;
    market.start_price = Some(RecordedPrice::from_pyth(price));
    Ok(())
}

// ---------------------------------------------------------------------------------------------
// resolve
// ---------------------------------------------------------------------------------------------

/// The outcome of `resolve` at time `now` with `price_update`: the resolution and the
/// resolved price, or why it is refused.
pub open spec fn spec_resolve(market: OutcomeMarket, price_update: PriceUpdate, now: i64) -> Result<
    (Resolution, RecordedPrice),
    OutcomeMarketsError,
> {
    if market.spec_is_resolved() {
        Err(OutcomeMarketsError::MarketAlreadyResolved)
    } else if !(now >= market.end_time) {
        Err(OutcomeMarketsError::MarketEndTimeNotReached)
    } else {
        match spec_read_verified_price(price_update, market.price_feed_id) {
            Err(e) => Err(e),
            Ok(price) => if !(market.end_time <= price_update.price_message.publish_time) {
                Err(OutcomeMarketsError::OracleUpdateTooEarly)
            } else {
                let resolved_price = RecordedPrice::spec_from_pyth(price);
                match market.market_type.spec_resolve_outcome(market.start_price, resolved_price) {
                    Err(e) => Err(e),
                    Ok(outcome) => Ok((outcome, resolved_price)),
                }
            },
        }
    }
}

/// Settles the market from a verified oracle update published at or after the end time,
/// once the clock has reached the end time. The accounts of the instruction (its signer and
/// the market) do not affect the outcome.
pub fn resolve(
    market: &mut OutcomeMarket,
    accounts: &Resolve,
    price_update: &PriceUpdate,
    now: i64,
) -> (r: Result<(), OutcomeMarketsError>)
    ensures
        r is Ok <==> spec_resolve(*old(market), *price_update, now) is Ok,
        r matches Err(e) ==> {
            &&& spec_resolve(*old(market), *price_update, now) == Err::<
                (Resolution, RecordedPrice),
                _,
            >(e)
            &&& *final(market) == *old(market)
        },
        r is Ok ==> {
            let (resolution, resolved_price) = spec_resolve(*old(market), *price_update, now)->Ok_0;
            *final(market) == (OutcomeMarket {
                resolution,
                resolved_price: Some(resolved_price),
                ..*old(market)
            })
        },
{
    if market.is_resolved() {
        return Err(OutcomeMarketsError::MarketAlreadyResolved);
    }
    if !(now >= market.end_time) {
        return Err(OutcomeMarketsError::MarketEndTimeNotReached);
    }
    let price = read_verified_price(price_update, &market.price_feed_id)?;
    require_update_at_or_after(price_update, market.end_time)?;
    let resolved_price = RecordedPrice::from_pyth(price);
    let outcome = market.market_type.resolve_outcome(market.start_price.as_ref(), &resolved_price)?;
    market.resolution = outcome;
    market.resolved_price = Some(resolved_price);
    Ok(())
}

// ---------------------------------------------------------------------------------------------
// claim
// ---------------------------------------------------------------------------------------------

/// The mint of the winning side of a resolved market.
pub open spec fn spec_winning_mint(market: OutcomeMarket) -> Pubkey
    recommends
        market.spec_is_resolved(),
{
    if market.resolution == Resolution::Yes {
        market.yes_mint
    } else {
        market.no_mint
    }
}

/// The outcome of the checks of `claim`: the accounts, the amount, that the market is
/// resolved, and that the outcome mint is the winning one.
pub open spec fn spec_claim_check(market: OutcomeMarket, accounts: Claim, amount: u64) -> Result<
    (),
    OutcomeMarketsError,
> {
    match accounts.spec_check_accounts(market) {
        Err(e) => Err(e),
        Ok(_) => if amount == 0 {
            Err(OutcomeMarketsError::InvalidAmount)
        } else if !market.spec_is_resolved() {
            Err(OutcomeMarketsError::MarketNotResolved)
        } else if accounts.outcome_mint != spec_winning_mint(market) {
            Err(OutcomeMarketsError::InvalidOutcomeMint)
        } else {
            Ok(())
        },
    }
}

/// The token calls of `claim`: `amount` winning tokens are burned from the user and `amount`
/// collateral goes from the vault to the user.
pub open spec fn spec_claim_instructions(accounts: Claim, amount: u64) -> Seq<TokenInstruction> {
    seq![
        TokenInstruction::Burn {
            mint: accounts.outcome_mint,
            from: accounts.user_outcome_token_account.address,
            authority: accounts.user,
            amount,
        },
        TokenInstruction::TransferChecked {
            from: accounts.collateral_vault,
            mint: accounts.collateral_mint,
            to: accounts.user_collateral_account.address,
            authority: accounts.market,
            amount,
            decimals: accounts.collateral_decimals,
        },
    ]
}

/// Redeems `amount` winning tokens of a resolved market for `amount` collateral: gives the
/// token calls to make.
pub fn claim(market: &OutcomeMarket, accounts: &Claim, amount: u64) -> (r: Result<
    TokenEffects,
    OutcomeMarketsError,
>)
    ensures
        r is Ok <==> spec_claim_check(*market, *accounts, amount) is Ok,
        r matches Err(e) ==> spec_claim_check(*market, *accounts, amount) == Err::<(), _>(e),
        r matches Ok(effects) ==> {
            &&& effects.instructions@ == spec_claim_instructions(*accounts, amount)
            &&& effects.signer@ == market.spec_signer_seeds()
        },
{
    accounts.check_accounts(market)?;
    if !(amount > 0) {
        return Err(OutcomeMarketsError::InvalidAmount);
    }
    let expected_outcome_mint = match market.resolution {
        Resolution::Yes => market.yes_mint,
        Resolution::No => market.no_mint,
        Resolution::Unresolved => {
            return Err(OutcomeMarketsError::MarketNotResolved);
        },
    };
    if !same_key(&accounts.outcome_mint, &expected_outcome_mint) {
        return Err(OutcomeMarketsError::InvalidOutcomeMint);
    }
    let mut instructions: Vec<TokenInstruction> = Vec::new();
    instructions.push(
        TokenInstruction::Burn {
            mint: accounts.outcome_mint,
            from: accounts.user_outcome_token_account.address,
            authority: accounts.user,
            amount,
        },
    );
    instructions.push(
        transfer_market_collateral(
            &accounts.market,
            &accounts.collateral_vault,
            &accounts.collateral_mint,
            accounts.collateral_decimals,
            &accounts.user_collateral_account.address,
            amount,
        ),
    );
    assert(instructions@ =~= spec_claim_instructions(*accounts, amount));
    Ok(TokenEffects { instructions, signer: market_signer_seeds(market) })
}

// ---------------------------------------------------------------------------------------------
// initialize_metadata
// ---------------------------------------------------------------------------------------------

/// Length in bytes of the UTF-8 encoding of a text.
pub open spec fn utf8_len(s: Seq<char>) -> nat {
    vstd::utf8::encode_utf8(s).len()
}

/// The mint of one side of a market.
pub open spec fn spec_side_mint(market: OutcomeMarket, side: OutcomeSide) -> Pubkey {
    match side {
        OutcomeSide::Yes => market.yes_mint,
        OutcomeSide::No => market.no_mint,
    }
}

/// The outcome of the checks of `initialize_metadata`: the lengths of the name, the symbol
/// and the URI, then that the mint is the one of the requested side.
pub open spec fn spec_initialize_metadata_check(
    market: OutcomeMarket,
    accounts: InitializeMetadata,
    side: OutcomeSide,
    name: Seq<char>,
    symbol: Seq<char>,
    uri: Seq<char>,
) -> Result<(), OutcomeMarketsError> {
    if utf8_len(name) > METADATA_NAME_MAX_LEN {
        Err(OutcomeMarketsError::MetadataNameTooLong)
    } else if utf8_len(symbol) > METADATA_SYMBOL_MAX_LEN {
        Err(OutcomeMarketsError::MetadataSymbolTooLong)
    } else if utf8_len(uri) > METADATA_URI_MAX_LEN {
        Err(OutcomeMarketsError::MetadataUriTooLong)
    } else if accounts.mint != spec_side_mint(market, side) {
        Err(OutcomeMarketsError::InvalidOutcomeSide)
    } else {
        Ok(())
    }
}

/// One creator of a token, with its share of royalties.
#[derive(Clone, Copy, Debug, PartialEq, Eq)]
pub struct Creator {
    pub address: Pubkey,
    pub verified: bool,
    pub share: u8,
}

/// The collection that a token belongs to.
#[derive(Clone, Copy, Debug, PartialEq, Eq)]
pub struct Collection {
    pub verified: bool,
    pub key: Pubkey,
}

/// How the uses of a token are consumed.
#[derive(Clone, Copy, Debug, PartialEq, Eq, Structural)]
pub enum UseMethod {
    Burn,
    Multiple,
    Single,
}

/// How many times a token can be used.
#[derive(Clone, Copy, Debug, PartialEq, Eq)]
pub struct Uses {
    pub use_method: UseMethod,
    pub remaining: u64,
    pub total: u64,
}

/// The size record of a collection token.
#[derive(Clone, Copy, Debug, PartialEq, Eq)]
pub enum CollectionDetails {
    V1 { size: u64 },
    V2 { padding: [u8; 8] },
}

/// The call to the token metadata program that creates the metadata of an outcome mint:
/// the accounts it names, the metadata itself, and its options.
#[derive(Clone, Debug, PartialEq, Eq)]
pub struct MetadataArgs {
    pub metadata: Pubkey,
    pub mint: Pubkey,
    pub mint_authority: Pubkey,
    pub payer: Pubkey,
    pub update_authority: Pubkey,
    pub name: String,
    pub symbol: String,
    pub uri: String,
    pub seller_fee_basis_points: u16,
    pub creators: Option<Vec<Creator>>,
    pub collection: Option<Collection>,
    pub uses: Option<Uses>,
    pub is_mutable: bool,
    pub update_authority_is_signer: bool,
    pub collection_details: Option<CollectionDetails>,
}

/// Checks a request for token metadata of one side of a market, and gives the call that
/// creates it and the seeds with which the market signs that call. The metadata holds the
/// given name, symbol and URI, no seller fee, no creators, collection or uses; it is
/// immutable, and the market is its mint authority and its signing update authority.
pub fn initialize_metadata(
    market: &OutcomeMarket,
    accounts: &InitializeMetadata,
    side: OutcomeSide,
    name: String,
    symbol: String,
    uri: String,
) -> (r: Result<(MarketSigner, MetadataArgs), OutcomeMarketsError>)
    requires
        utf8_len(name@) <= usize::MAX,
        utf8_len(symbol@) <= usize::MAX,
        utf8_len(uri@) <= usize::MAX,
    ensures
        r is Ok <==> spec_initialize_metadata_check(
            *market,
            *accounts,
            side,
            name@,
            symbol@,
            uri@,
        ) is Ok,
        r matches Err(e) ==> spec_initialize_metadata_check(
            *market,
            *accounts,
            side,
            name@,
            symbol@,
            uri@,
        ) == Err::<(), _>(e),
        r matches Ok((signer, args)) ==> {
            &&& signer@ == market.spec_signer_seeds()
            &&& args.metadata == accounts.metadata
            &&& args.mint == accounts.mint
            &&& args.mint_authority == accounts.market
            &&& args.payer == accounts.payer
            &&& args.update_authority == accounts.market
            &&& args.name@ == name@
            &&& args.symbol@ == symbol@
            &&& args.uri@ == uri@
            &&& args.seller_fee_basis_points == 0
            &&& args.creators is None
            &&& args.collection is None
            &&& args.uses is None
            &&& !args.is_mutable
            &&& args.update_authority_is_signer
            &&& args.collection_details is None
        },
{
    if !(name.as_str().len() <= METADATA_NAME_MAX_LEN) {
        return Err(OutcomeMarketsError::MetadataNameTooLong);
    }
    if !(symbol.as_str().len() <= METADATA_SYMBOL_MAX_LEN) {
        return Err(OutcomeMarketsError::MetadataSymbolTooLong);
    }
    if !(uri.as_str().len() <= METADATA_URI_MAX_LEN) {
        return Err(OutcomeMarketsError::MetadataUriTooLong);
    }
    let expected_mint = match side {
        OutcomeSide::Yes => market.yes_mint,
        OutcomeSide::No => market.no_mint,
    };
    if !same_key(&accounts.mint, &expected_mint) {
        return Err(OutcomeMarketsError::InvalidOutcomeSide);
    }
    let signer = market_signer_seeds(market);
    let args = MetadataArgs {
        metadata: accounts.metadata,
        mint: accounts.mint,
        mint_authority: accounts.market,
        payer: accounts.payer,
        update_authority: accounts.market,
        name,
        symbol,
        uri,
        seller_fee_basis_points: 0,
        creators: None,
        collection: None,
        uses: None,
        is_mutable: false,
        update_authority_is_signer: true,
        collection_details: None,
    };
    Ok((signer, args))
}

} // verus!
