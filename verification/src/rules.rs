use vstd::prelude::*;

use crate::constants::{METADATA_NAME_MAX_LEN, METADATA_SYMBOL_MAX_LEN, METADATA_URI_MAX_LEN};
use crate::events::OutcomeSide;
use crate::instructions::{
    spec_claim_check, spec_initialize_market_check, spec_initialize_metadata_check,
    spec_merge_check, spec_new_market, spec_resolve, spec_set_start_price, spec_split_check,
    Claim, InitializeMarket, InitializeMetadata, MarketBumps, Merge, Split, TokenAccountRef,
};
use crate::oracle::{PriceUpdate, VerificationLevel};
use crate::state::{
    InitializeMarketParams, MarketType, OutcomeMarket, Pubkey, RecordedPrice, Resolution,
};

verus! {

// The rules that each instruction follows, stated over the raw fields of its inputs.

/// The price that an oracle update carries: the price, exponent and publish time of its
/// price message (not its EMA price).
pub open spec fn message_price(update: PriceUpdate) -> RecordedPrice {
    RecordedPrice {
        price: update.price_message.price,
        exponent: update.price_message.exponent,
        publish_time: update.price_message.publish_time,
    }
}

/// An oracle update that the program accepts for a market at a boundary time: fully
/// verified, for the market's feed, and published at or after the boundary.
pub open spec fn update_accepted(market: OutcomeMarket, update: PriceUpdate, boundary: i64) -> bool {
    &&& update.verification_level == VerificationLevel::Full
    &&& update.price_message.feed_id == market.price_feed_id
    &&& boundary <= update.price_message.publish_time
}

/// Whether `price` is a YES answer for a market of type `market_type`, given its start
/// price: strictly above the threshold, strictly below it, inside the range bounds included,
/// or strictly above the start price.
pub open spec fn answers_yes(market_type: MarketType, start: Option<RecordedPrice>, price: i64) -> bool {
    match market_type {
        MarketType::AbovePrice { price: threshold, .. } => price > threshold,
        MarketType::BelowPrice { price: threshold, .. } => price < threshold,
        MarketType::WithinRange { lower_price, upper_price, .. } => lower_price <= price && price
            <= upper_price,
        MarketType::UpDown => price > start->Some_0.price,
    }
}

/// Whether the exponent of an end price fits the market: the market's own exponent, or for
/// an up/down market a recorded start price with the same exponent.
pub open spec fn exponent_fits(market_type: MarketType, start: Option<RecordedPrice>, exponent: i32) -> bool {
    match market_type {
        MarketType::AbovePrice { exponent: e, .. } => exponent == e,
        MarketType::BelowPrice { exponent: e, .. } => exponent == e,
        MarketType::WithinRange { exponent: e, .. } => exponent == e,
        MarketType::UpDown => start is Some && start->Some_0.exponent == exponent,
    }
}

// ---------------------------------------------------------------------------------------------
// resolve
// ---------------------------------------------------------------------------------------------

/// A successful `resolve` settles the market on the price of the update's message: that is
/// the resolved price, and the market resolves YES exactly when that price answers the
/// market's question, NO otherwise. It only succeeds on an unresolved market, once the clock
/// has reached the end time, with an accepted update whose exponent fits.
pub proof fn resolve_settles_on_the_message_price(
    market: OutcomeMarket,
    update: PriceUpdate,
    now: i64,
)
    requires
        spec_resolve(market, update, now) is Ok,
    ensures
        ({
            let (resolution, resolved_price) = spec_resolve(market, update, now)->Ok_0;
            &&& resolved_price == message_price(update)
            &&& resolution == Resolution::Yes <==> answers_yes(
                market.market_type,
                market.start_price,
                update.price_message.price,
            )
            &&& resolution == Resolution::No <==> !answers_yes(
                market.market_type,
                market.start_price,
                update.price_message.price,
            )
        }),
        market.resolution == Resolution::Unresolved,
        market.end_time <= now,
        update_accepted(market, update, market.end_time),
        exponent_fits(market.market_type, market.start_price, update.price_message.exponent),
{
}

/// `resolve` succeeds on every unresolved market once the clock has reached the end time,
/// with any accepted update whose exponent fits.
pub proof fn resolve_accepts_valid_updates(market: OutcomeMarket, update: PriceUpdate, now: i64)
    requires
        market.resolution == Resolution::Unresolved,
        market.end_time <= now,
        update_accepted(market, update, market.end_time),
        exponent_fits(market.market_type, market.start_price, update.price_message.exponent),
    ensures
        spec_resolve(market, update, now) is Ok,
{
}

// ---------------------------------------------------------------------------------------------
// set_start_price
// ---------------------------------------------------------------------------------------------

/// A successful `set_start_price` records the price of the update's message, and only
/// succeeds on an unresolved up/down market without a start price, once the clock has reached
/// the start time, with an accepted update.
pub proof fn start_price_is_the_message_price(market: OutcomeMarket, update: PriceUpdate, now: i64)
    requires
        spec_set_start_price(market, update, now) is Ok,
    ensures
        spec_set_start_price(market, update, now)->Ok_0 == message_price(update),
        market.market_type == MarketType::UpDown,
        market.resolution == Resolution::Unresolved,
        market.start_price is None,
        market.start_time <= now,
        update_accepted(market, update, market.start_time),
{
}

/// `set_start_price` succeeds on every unresolved up/down market without a start price once
/// the clock has reached the start time, with any accepted update, even after the end time.
pub proof fn start_price_accepts_valid_updates(market: OutcomeMarket, update: PriceUpdate, now: i64)
    requires
        market.market_type == MarketType::UpDown,
        market.resolution == Resolution::Unresolved,
        market.start_price is None,
        market.start_time <= now,
        update_accepted(market, update, market.start_time),
    ensures
        spec_set_start_price(market, update, now) is Ok,
{
}

// ---------------------------------------------------------------------------------------------
// Accounts
// ---------------------------------------------------------------------------------------------

/// The accounts of a `split` or `merge` that belong together: the market's mints and vault,
/// and token accounts of the user for the collateral, YES and NO mints.
pub open spec fn pair_accounts_valid(
    market: OutcomeMarket,
    user: Pubkey,
    collateral_mint: Pubkey,
    yes_mint: Pubkey,
    no_mint: Pubkey,
    collateral_vault: Pubkey,
    user_collateral: TokenAccountRef,
    user_yes: TokenAccountRef,
    user_no: TokenAccountRef,
) -> bool {
    &&& collateral_mint == market.collateral_mint
    &&& yes_mint == market.yes_mint
    &&& no_mint == market.no_mint
    &&& collateral_vault == market.collateral_vault
    &&& user_collateral.owner == user && user_collateral.mint == market.collateral_mint
    &&& user_yes.owner == user && user_yes.mint == market.yes_mint
    &&& user_no.owner == user && user_no.mint == market.no_mint
}

// ---------------------------------------------------------------------------------------------
// split
// ---------------------------------------------------------------------------------------------

/// `split` succeeds exactly with accounts that belong together, a positive amount, an
/// unresolved market and a clock before the end time; the start time and start price play no
/// part.
pub proof fn split_accepted_exactly_while_open(
    market: OutcomeMarket,
    accounts: Split,
    now: i64,
    amount: u64,
)
    ensures
        spec_split_check(market, accounts, now, amount) is Ok <==> {
            &&& pair_accounts_valid(
                market,
                accounts.user,
                accounts.collateral_mint,
                accounts.yes_mint,
                accounts.no_mint,
                accounts.collateral_vault,
                accounts.user_collateral_account,
                accounts.user_yes_token_account,
                accounts.user_no_token_account,
            )
            &&& amount > 0
            &&& market.resolution == Resolution::Unresolved
            &&& now < market.end_time
        },
        spec_split_check(market, accounts, now, amount) == spec_split_check(
            OutcomeMarket { start_price: None, ..market },
            accounts,
            now,
            amount,
        ),
{
}

// ---------------------------------------------------------------------------------------------
// merge
// ---------------------------------------------------------------------------------------------

/// `merge` succeeds exactly with accounts that belong together and a positive amount, at any
/// time and whatever the market's resolution.
pub proof fn merge_accepted_exactly_with_valid_accounts(market: OutcomeMarket, accounts: Merge, amount: u64)
    ensures
        spec_merge_check(market, accounts, amount) is Ok <==> {
            &&& pair_accounts_valid(
                market,
                accounts.user,
                accounts.collateral_mint,
                accounts.yes_mint,
                accounts.no_mint,
                accounts.collateral_vault,
                accounts.user_collateral_account,
                accounts.user_yes_token_account,
                accounts.user_no_token_account,
            )
            &&& amount > 0
        },
{
}

// ---------------------------------------------------------------------------------------------
// claim
// ---------------------------------------------------------------------------------------------

/// `claim` succeeds exactly with the market's collateral mint and vault, token accounts of
/// the user for the collateral and the outcome mint, a positive amount, and a resolved market
/// whose winning mint (YES for a YES resolution, NO for a NO one) is the outcome mint.
pub proof fn claim_accepted_exactly_for_winners(market: OutcomeMarket, accounts: Claim, amount: u64)
    ensures
        spec_claim_check(market, accounts, amount) is Ok <==> {
            &&& accounts.collateral_mint == market.collateral_mint
            &&& accounts.collateral_vault == market.collateral_vault
            &&& accounts.user_collateral_account.owner == accounts.user
            &&& accounts.user_collateral_account.mint == market.collateral_mint
            &&& accounts.user_outcome_token_account.owner == accounts.user
            &&& accounts.user_outcome_token_account.mint == accounts.outcome_mint
            &&& amount > 0
            &&& (market.resolution == Resolution::Yes && accounts.outcome_mint == market.yes_mint
                || market.resolution == Resolution::No && accounts.outcome_mint == market.no_mint)
        },
{
}

// ---------------------------------------------------------------------------------------------
// initialize_market
// ---------------------------------------------------------------------------------------------

/// `initialize_market` succeeds exactly when the market ends after it starts, a range market
/// has ordered bounds, and the clock is before the end time; whatever the market type, a start
/// time already past does not matter.
pub proof fn initialize_market_accepted_exactly_before_end(
    params: InitializeMarketParams,
    now: i64,
)
    ensures
        spec_initialize_market_check(params, now) is Ok <==> {
            &&& params.start_time < params.end_time
            &&& (params.market_type matches MarketType::WithinRange { lower_price, upper_price, .. }
                ==> lower_price <= upper_price)
            &&& now < params.end_time
        },
{
}

/// The market that `initialize_market` creates holds its parameters, accounts and bumps,
/// is unresolved and has neither a start price nor a resolved price.
pub proof fn new_market_records_its_parameters(
    params: InitializeMarketParams,
    accounts: InitializeMarket,
    bumps: MarketBumps,
    market_type_seed: [u8; 21],
)
    ensures
        ({
            let m = spec_new_market(params, accounts, bumps, market_type_seed);
            &&& m.creator == accounts.payer
            &&& m.price_feed_id == params.price_feed_id
            &&& m.market_type == params.market_type
            &&& m.market_type_seed == market_type_seed
            &&& m.collateral_mint == accounts.collateral_mint
            &&& m.yes_mint == accounts.yes_mint
            &&& m.no_mint == accounts.no_mint
            &&& m.collateral_vault == accounts.collateral_vault
            &&& m.start_time == params.start_time
            &&& m.end_time == params.end_time
            &&& m.start_price is None
            &&& m.resolved_price is None
            &&& m.resolution == Resolution::Unresolved
            &&& m.bump == bumps.market
            &&& m.yes_mint_bump == bumps.yes_mint
            &&& m.no_mint_bump == bumps.no_mint
            &&& m.collateral_vault_bump == bumps.collateral_vault
        }),
{
}

// ---------------------------------------------------------------------------------------------
// initialize_metadata
// ---------------------------------------------------------------------------------------------

/// `initialize_metadata` succeeds exactly when the name, symbol and URI fit their byte limits
/// and the mint is the market's YES mint for the YES side and its NO mint for the NO side.
pub proof fn metadata_accepted_exactly_for_the_side_mint(
    market: OutcomeMarket,
    accounts: InitializeMetadata,
    side: OutcomeSide,
    name: Seq<char>,
    symbol: Seq<char>,
    uri: Seq<char>,
)
    ensures
        spec_initialize_metadata_check(market, accounts, side, name, symbol, uri) is Ok <==> {
            &&& vstd::utf8::encode_utf8(name).len() <= METADATA_NAME_MAX_LEN
            &&& vstd::utf8::encode_utf8(symbol).len() <= METADATA_SYMBOL_MAX_LEN
            &&& vstd::utf8::encode_utf8(uri).len() <= METADATA_URI_MAX_LEN
            &&& (side == OutcomeSide::Yes ==> accounts.mint == market.yes_mint)
            &&& (side == OutcomeSide::No ==> accounts.mint == market.no_mint)
        },
{
}

// ---------------------------------------------------------------------------------------------
// Outcome rule and signer seeds
// ---------------------------------------------------------------------------------------------

/// The outcome rule of every market type: with a fitting exponent the outcome is YES exactly
/// when the end price answers the market's question and NO otherwise; with any other
/// exponent, or an up/down market without a start price, there is no outcome.
pub proof fn outcome_follows_the_question(
    market_type: MarketType,
    start_price: Option<RecordedPrice>,
    end_price: RecordedPrice,
)
    ensures
        market_type.spec_resolve_outcome(start_price, end_price) is Ok <==> exponent_fits(
            market_type,
            start_price,
            end_price.exponent,
        ),
        market_type.spec_resolve_outcome(start_price, end_price) is Ok ==> (
        market_type.spec_resolve_outcome(start_price, end_price)->Ok_0 == if answers_yes(
            market_type,
            start_price,
            end_price.price,
        ) {
            Resolution::Yes
        } else {
            Resolution::No
        }),
{
}

/// The market signs with the seeds of its own address: those of the parameters it was
/// created with, followed by its bump.
pub proof fn market_signs_with_its_address_seeds(
    params: InitializeMarketParams,
    accounts: InitializeMarket,
    bumps: MarketBumps,
    market_type_seed: [u8; 21],
)
    requires
        market_type_seed@ == params.market_type.spec_seed_bytes(),
    ensures
        spec_new_market(params, accounts, bumps, market_type_seed).spec_signer_seeds()
            == params.spec_address_seeds().push(seq![bumps.market]),
{
    assert(spec_new_market(params, accounts, bumps, market_type_seed).spec_signer_seeds()
        =~= params.spec_address_seeds().push(seq![bumps.market]));
}

} // verus!
