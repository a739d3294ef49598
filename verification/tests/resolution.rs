use std::collections::HashMap;

use outcome_markets::instructions::{
    claim, initialize_market, resolve, set_start_price, split, Claim, InitializeMarket,
    MarketBumps, Resolve, SetStartPrice, Split, TokenAccountRef,
};
use outcome_markets::oracle::{PriceFeedMessage, PriceUpdate, VerificationLevel};
use outcome_markets::state::{InitializeMarketParams, MarketType, OutcomeMarket, Pubkey, Resolution};
use outcome_markets::token::{TokenEffects, TokenInstruction};

const FEED_ID: [u8; 32] = [9u8; 32];
const ONE_USDC: u64 = 1_000_000;
const USDC_DECIMALS: u8 = 6;

const USER: Pubkey = [1u8; 32];
const MARKET: Pubkey = [2u8; 32];
const USDC_MINT: Pubkey = [3u8; 32];
const YES_MINT: Pubkey = [4u8; 32];
const NO_MINT: Pubkey = [5u8; 32];
const VAULT: Pubkey = [6u8; 32];
const USER_COLLATERAL: Pubkey = [7u8; 32];
const USER_YES: Pubkey = [8u8; 32];
const USER_NO: Pubkey = [10u8; 32];

/// Token balances and supplies, changed as the token program changes them.
#[derive(Default)]
struct Tokens {
    balances: HashMap<Pubkey, u64>,
    supplies: HashMap<Pubkey, u64>,
}

impl Tokens {
    fn balance(&self, account: &Pubkey) -> u64 {
        *self.balances.get(account).unwrap_or(&0)
    }

    fn apply(&mut self, effects: &TokenEffects) {
        for instruction in &effects.instructions {
            match *instruction {
                TokenInstruction::TransferChecked { from, to, amount, .. } => {
                    let from_balance = self.balance(&from).checked_sub(amount).unwrap();
                    self.balances.insert(from, from_balance);
                    let to_balance = self.balance(&to).checked_add(amount).unwrap();
                    self.balances.insert(to, to_balance);
                }
                TokenInstruction::MintTo { mint, to, amount, .. } => {
                    let to_balance = self.balance(&to).checked_add(amount).unwrap();
                    self.balances.insert(to, to_balance);
                    let supply = self.supplies.get(&mint).copied().unwrap_or(0);
                    self.supplies.insert(mint, supply.checked_add(amount).unwrap());
                }
                TokenInstruction::Burn { mint, from, amount, .. } => {
                    let from_balance = self.balance(&from).checked_sub(amount).unwrap();
                    self.balances.insert(from, from_balance);
                    let supply = self.supplies.get(&mint).copied().unwrap_or(0);
                    self.supplies.insert(mint, supply.checked_sub(amount).unwrap());
                }
            }
        }
    }
}

fn token_account(address: Pubkey, mint: Pubkey) -> TokenAccountRef {
    TokenAccountRef { address, owner: USER, mint }
}

fn create_market(params: InitializeMarketParams, now: i64) -> OutcomeMarket {
    let accounts = InitializeMarket {
        payer: USER,
        market: MARKET,
        yes_mint: YES_MINT,
        no_mint: NO_MINT,
        collateral_vault: VAULT,
        collateral_mint: USDC_MINT,
    };
    let bumps = MarketBumps { market: 255, yes_mint: 254, no_mint: 253, collateral_vault: 252 };
    initialize_market(&accounts, &bumps, params, now).unwrap()
}

fn split_accounts() -> Split {
    Split {
        user: USER,
        market: MARKET,
        collateral_mint: USDC_MINT,
        collateral_decimals: USDC_DECIMALS,
        yes_mint: YES_MINT,
        no_mint: NO_MINT,
        collateral_vault: VAULT,
        user_collateral_account: token_account(USER_COLLATERAL, USDC_MINT),
        user_yes_token_account: token_account(USER_YES, YES_MINT),
        user_no_token_account: token_account(USER_NO, NO_MINT),
    }
}

fn claim_accounts(outcome_mint: Pubkey, user_outcome_account: Pubkey) -> Claim {
    Claim {
        user: USER,
        market: MARKET,
        collateral_mint: USDC_MINT,
        collateral_decimals: USDC_DECIMALS,
        collateral_vault: VAULT,
        outcome_mint,
        user_collateral_account: token_account(USER_COLLATERAL, USDC_MINT),
        user_outcome_token_account: token_account(user_outcome_account, outcome_mint),
    }
}

fn price_update(feed_id: [u8; 32], price: i64, exponent: i32, publish_time: i64) -> PriceUpdate {
    PriceUpdate {
        write_authority: [42u8; 32],
        verification_level: VerificationLevel::Full,
        price_message: PriceFeedMessage {
            feed_id,
            price,
            conf: 0,
            exponent,
            publish_time,
            prev_publish_time: publish_time.saturating_sub(1),
            ema_price: price,
            ema_conf: 0,
        },
        posted_slot: 0,
    }
}

#[test]
fn updown_market_sets_start_price_resolves_yes_and_claims() {
    let mut tokens = Tokens::default();
    tokens.balances.insert(USER_COLLATERAL, 3 * ONE_USDC);

    let params = InitializeMarketParams {
        price_feed_id: FEED_ID,
        end_time: 100,
        market_type: MarketType::UpDown,
        start_time: 10,
    };
    let mut market = create_market(params, 0);

    let effects = split(&market, &split_accounts(), 0, ONE_USDC).unwrap();
    tokens.apply(&effects);

    let start_price_update = price_update(FEED_ID, 100_000_000, -8, 12);
    let updater = SetStartPrice { updater: USER, market: MARKET };
    set_start_price(&mut market, &updater, &start_price_update, 12).unwrap();

    let resolve_price_update = price_update(FEED_ID, 125_000_000, -8, 101);
    let resolver = Resolve { resolver: USER, market: MARKET };
    resolve(&mut market, &resolver, &resolve_price_update, 101).unwrap();

    assert_eq!(market.resolution, Resolution::Yes);
    assert_eq!(market.start_price.unwrap().price, 100_000_000);
    assert_eq!(market.resolved_price.unwrap().price, 125_000_000);

    let effects = claim(&market, &claim_accounts(YES_MINT, USER_YES), ONE_USDC).unwrap();
    tokens.apply(&effects);

    assert_eq!(tokens.balance(&USER_COLLATERAL), 3 * ONE_USDC);
    assert_eq!(tokens.balance(&VAULT), 0);
    assert_eq!(tokens.balance(&USER_YES), 0);
    assert_eq!(tokens.balance(&USER_NO), ONE_USDC);
}

#[test]
fn within_range_resolution_is_inclusive() {
    let mut tokens = Tokens::default();
    tokens.balances.insert(USER_COLLATERAL, 2 * ONE_USDC);

    let params = InitializeMarketParams {
        price_feed_id: FEED_ID,
        end_time: 100,
        market_type: MarketType::WithinRange {
            lower_price: 90_000_000,
            upper_price: 100_000_000,
            exponent: -8,
        },
        start_time: 10,
    };
    let mut market = create_market(params, 0);

    let effects = split(&market, &split_accounts(), 0, ONE_USDC).unwrap();
    tokens.apply(&effects);

    let resolve_price_update = price_update(FEED_ID, 100_000_000, -8, 101);
    let resolver = Resolve { resolver: USER, market: MARKET };
    resolve(&mut market, &resolver, &resolve_price_update, 101).unwrap();

    assert_eq!(market.resolution, Resolution::Yes);
}

#[test]
fn set_start_price_requires_clock_to_reach_market_start_time() {
    let params = InitializeMarketParams {
        price_feed_id: FEED_ID,
        end_time: 100,
        market_type: MarketType::UpDown,
        start_time: 10,
    };
    let mut market = create_market(params, 0);

    let start_price_update = price_update(FEED_ID, 100_000_000, -8, 10);
    let updater = SetStartPrice { updater: USER, market: MARKET };

    assert!(set_start_price(&mut market, &updater, &start_price_update, 9).is_err());

    set_start_price(&mut market, &updater, &start_price_update, 10).unwrap();
}

#[test]
fn resolve_requires_clock_to_reach_market_end_time() {
    let params = InitializeMarketParams {
        price_feed_id: FEED_ID,
        end_time: 100,
        market_type: MarketType::AbovePrice { price: 100_000_000, exponent: -8 },
        start_time: 10,
    };
    let mut market = create_market(params, 0);

    let resolve_price_update = price_update(FEED_ID, 125_000_000, -8, 100);
    let resolver = Resolve { resolver: USER, market: MARKET };

    assert!(resolve(&mut market, &resolver, &resolve_price_update, 99).is_err());

    resolve(&mut market, &resolver, &resolve_price_update, 100).unwrap();
}
