use std::collections::HashMap;

use outcome_markets::constants::{MARKET_SEED, MARKET_TYPE_SEED_LEN};
use outcome_markets::error::OutcomeMarketsError;
use outcome_markets::events::OutcomeSide;
use outcome_markets::instructions::{
    claim, initialize_market, initialize_metadata, merge, resolve, set_start_price, split, Claim,
    InitializeMarket, InitializeMetadata, MarketBumps, Merge, Resolve, SetStartPrice, Split,
    TokenAccountRef,
};
use outcome_markets::oracle::{
    read_verified_price, require_update_at_or_after, GetPriceError, Price, PriceFeedMessage,
    PriceUpdate, VerificationLevel,
};
use outcome_markets::state::{
    same_key, InitializeMarketParams, MarketType, OutcomeMarket, Pubkey, RecordedPrice, Resolution,
};
use outcome_markets::token::{market_signer_seeds, TokenEffects, TokenInstruction};

const FEED_ID: [u8; 32] = [9u8; 32];
const ONE_USDC: u64 = 1_000_000;
const USDC_DECIMALS: u8 = 6;

const USER: Pubkey = [1u8; 32];
const MARKET: Pubkey = [2u8; 32];
const USDC_MINT: Pubkey = [3u8; 32];
const YES_MINT: Pubkey = [4u8; 32];
const NO_MINT: Pubkey = [5u8; 32];
const VAULT: Pubkey = [6u8; 32];
const USER_COLLATERAL: Pubkey = [7u8; 32];
const USER_YES: Pubkey = [8u8; 32];
const USER_NO: Pubkey = [10u8; 32];

/// Token balances and supplies, changed as the token program changes them.
#[derive(Default)]
struct Tokens {
    balances: HashMap<Pubkey, u64>,
    supplies: HashMap<Pubkey, u64>,
}

impl Tokens {
    fn balance(&self, account: &Pubkey) -> u64 {
        *self.balances.get(account).unwrap_or(&0)
    }

    fn apply(&mut self, effects: &TokenEffects) {
        for instruction in &effects.instructions {
            match *instruction {
                TokenInstruction::TransferChecked { from, to, amount, .. } => {
                    let from_balance = self.balance(&from).checked_sub(amount).unwrap();
                    self.balances.insert(from, from_balance);
                    let to_balance = self.balance(&to).checked_add(amount).unwrap();
                    self.balances.insert(to, to_balance);
                }
                TokenInstruction::MintTo { mint, to, amount, .. } => {
                    let to_balance = self.balance(&to).checked_add(amount).unwrap();
                    self.balances.insert(to, to_balance);
                    let supply = self.supplies.get(&mint).copied().unwrap_or(0);
                    self.supplies.insert(mint, supply.checked_add(amount).unwrap());
                }
                TokenInstruction::Burn { mint, from, amount, .. } => {
                    let from_balance = self.balance(&from).checked_sub(amount).unwrap();
                    self.balances.insert(from, from_balance);
                    let supply = self.supplies.get(&mint).copied().unwrap_or(0);
                    self.supplies.insert(mint, supply.checked_sub(amount).unwrap());
                }
            }
        }
    }
}

fn token_account(address: Pubkey, mint: Pubkey) -> TokenAccountRef {
    TokenAccountRef { address, owner: USER, mint }
}

fn create_market(params: InitializeMarketParams, now: i64) -> OutcomeMarket {
    let accounts = InitializeMarket {
        payer: USER,
        market: MARKET,
        yes_mint: YES_MINT,
        no_mint: NO_MINT,
        collateral_vault: VAULT,
        collateral_mint: USDC_MINT,
    };
    let bumps = MarketBumps { market: 255, yes_mint: 254, no_mint: 253, collateral_vault: 252 };
    initialize_market(&accounts, &bumps, params, now).unwrap()
}

fn split_accounts() -> Split {
    Split {
        user: USER,
        market: MARKET,
        collateral_mint: USDC_MINT,
        collateral_decimals: USDC_DECIMALS,
        yes_mint: YES_MINT,
        no_mint: NO_MINT,
        collateral_vault: VAULT,
        user_collateral_account: token_account(USER_COLLATERAL, USDC_MINT),
        user_yes_token_account: token_account(USER_YES, YES_MINT),
        user_no_token_account: token_account(USER_NO, NO_MINT),
    }
}

fn claim_accounts(outcome_mint: Pubkey, user_outcome_account: Pubkey) -> Claim {
    Claim {
        user: USER,
        market: MARKET,
        collateral_mint: USDC_MINT,
        collateral_decimals: USDC_DECIMALS,
        collateral_vault: VAULT,
        outcome_mint,
        user_collateral_account: token_account(USER_COLLATERAL, USDC_MINT),
        user_outcome_token_account: token_account(user_outcome_account, outcome_mint),
    }
}

fn price_update(feed_id: [u8; 32], price: i64, exponent: i32, publish_time: i64) -> PriceUpdate {
    PriceUpdate {
        write_authority: [42u8; 32],
        verification_level: VerificationLevel::Full,
        price_message: PriceFeedMessage {
            feed_id,
            price,
            conf: 0,
            exponent,
            publish_time,
            prev_publish_time: publish_time.saturating_sub(1),
            ema_price: price,
            ema_conf: 0,
        },
        posted_slot: 0,
    }
}

fn merge_accounts() -> Merge {
    let s = split_accounts();
    Merge {
        user: s.user,
        market: s.market,
        collateral_mint: s.collateral_mint,
        collateral_decimals: s.collateral_decimals,
        yes_mint: s.yes_mint,
        no_mint: s.no_mint,
        collateral_vault: s.collateral_vault,
        user_collateral_account: s.user_collateral_account,
        user_yes_token_account: s.user_yes_token_account,
        user_no_token_account: s.user_no_token_account,
    }
}

fn above_params() -> InitializeMarketParams {
    InitializeMarketParams {
        price_feed_id: FEED_ID,
        end_time: 100,
        market_type: MarketType::AbovePrice { price: 100_000_000, exponent: -8 },
        start_time: 10,
    }
}

fn updown_params() -> InitializeMarketParams {
    InitializeMarketParams { market_type: MarketType::UpDown, ..above_params() }
}

fn resolved_market(market_type: MarketType, price: i64) -> OutcomeMarket {
    let mut market = create_market(InitializeMarketParams { market_type, ..above_params() }, 0);
    let resolver = Resolve { resolver: USER, market: MARKET };
    resolve(&mut market, &resolver, &price_update(FEED_ID, price, -8, 100), 100).unwrap();
    market
}

fn recorded(price: i64, exponent: i32) -> RecordedPrice {
    RecordedPrice { price, exponent, publish_time: 0 }
}

// ----- parameters and encodings -----

#[test]
fn params_require_end_after_start() {
    let params = InitializeMarketParams { end_time: 10, ..above_params() };
    assert_eq!(params.validate(), Err(OutcomeMarketsError::InvalidTimeRange));
    let params = InitializeMarketParams { end_time: 5, ..above_params() };
    assert_eq!(params.validate(), Err(OutcomeMarketsError::InvalidTimeRange));
    assert_eq!(above_params().validate(), Ok(()));
}

#[test]
fn range_bounds_must_be_ordered() {
    let bad = MarketType::WithinRange { lower_price: 11, upper_price: 10, exponent: 0 };
    assert_eq!(bad.validate(), Err(OutcomeMarketsError::InvalidPriceBounds));
    let point = MarketType::WithinRange { lower_price: 10, upper_price: 10, exponent: 0 };
    assert_eq!(point.validate(), Ok(()));
    let params = InitializeMarketParams { market_type: bad, ..above_params() };
    assert_eq!(params.validate(), Err(OutcomeMarketsError::InvalidPriceBounds));
    let both_bad = InitializeMarketParams { market_type: bad, end_time: 0, ..above_params() };
    assert_eq!(both_bad.validate(), Err(OutcomeMarketsError::InvalidTimeRange));
}

#[test]
fn seed_bytes_encode_tag_exponent_and_prices() {
    let above = MarketType::AbovePrice { price: 100_000_000, exponent: -8 };
    let mut expected = [0u8; MARKET_TYPE_SEED_LEN];
    expected[0] = 0;
    expected[1..5].copy_from_slice(&(-8i32).to_le_bytes());
    expected[5..13].copy_from_slice(&100_000_000i64.to_le_bytes());
    assert_eq!(above.seed_bytes(), expected);
    assert_eq!(
        above.seed_bytes(),
        [0, 0xf8, 0xff, 0xff, 0xff, 0x00, 0xe1, 0xf5, 0x05, 0, 0, 0, 0, 0, 0, 0, 0, 0, 0, 0, 0]
    );

    let below = MarketType::BelowPrice { price: -1, exponent: 2 };
    assert_eq!(
        below.seed_bytes(),
        [1, 2, 0, 0, 0, 0xff, 0xff, 0xff, 0xff, 0xff, 0xff, 0xff, 0xff, 0, 0, 0, 0, 0, 0, 0, 0]
    );

    let range = MarketType::WithinRange { lower_price: 1, upper_price: 258, exponent: -1 };
    assert_eq!(
        range.seed_bytes(),
        [2, 0xff, 0xff, 0xff, 0xff, 1, 0, 0, 0, 0, 0, 0, 0, 2, 1, 0, 0, 0, 0, 0, 0]
    );

    let mut updown = [0u8; MARKET_TYPE_SEED_LEN];
    updown[0] = 3;
    assert_eq!(MarketType::UpDown.seed_bytes(), updown);
}

#[test]
fn address_seeds_follow_market_identity() {
    let params = above_params();
    let seeds = params.address_seeds();
    assert_eq!(MARKET_SEED, *b"market");
    assert_eq!(seeds.price_feed_id, FEED_ID);
    assert_eq!(seeds.end_time, 100i64.to_le_bytes());
    assert_eq!(seeds.market_type_seed, params.market_type.seed_bytes());
    assert_eq!(seeds.start_time, 10i64.to_le_bytes());
    let other = InitializeMarketParams { start_time: 11, ..above_params() };
    assert_ne!(other.address_seeds(), seeds);
}

#[test]
fn signer_seeds_carry_the_bump() {
    let market = create_market(above_params(), 0);
    let signer = market_signer_seeds(&market);
    assert_eq!(signer.price_feed_id, FEED_ID);
    assert_eq!(signer.end_time, 100i64.to_le_bytes());
    assert_eq!(signer.market_type_seed, market.market_type_seed);
    assert_eq!(signer.start_time, 10i64.to_le_bytes());
    assert_eq!(signer.bump, [255]);
}

#[test]
fn same_key_compares_all_bytes() {
    let a = [1u8; 32];
    let mut b = a;
    assert!(same_key(&a, &b));
    b[31] = 2;
    assert!(!same_key(&a, &b));
}

// ----- initialize_market -----

#[test]
fn initialize_market_refuses_ended_markets() {
    let accounts = InitializeMarket {
        payer: USER,
        market: MARKET,
        yes_mint: YES_MINT,
        no_mint: NO_MINT,
        collateral_vault: VAULT,
        collateral_mint: USDC_MINT,
    };
    let bumps = MarketBumps { market: 1, yes_mint: 2, no_mint: 3, collateral_vault: 4 };
    assert_eq!(
        initialize_market(&accounts, &bumps, above_params(), 100).err(),
        Some(OutcomeMarketsError::MarketAlreadyEnded)
    );
    let bad = InitializeMarketParams { end_time: 10, ..above_params() };
    assert_eq!(
        initialize_market(&accounts, &bumps, bad, 200).err(),
        Some(OutcomeMarketsError::InvalidTimeRange)
    );
    let market = initialize_market(&accounts, &bumps, above_params(), 50).unwrap();
    assert_eq!(market.creator, USER);
    assert_eq!(market.start_price, None);
    assert_eq!(market.resolved_price, None);
    assert_eq!(market.resolution, Resolution::Unresolved);
    assert_eq!(market.market_type_seed, above_params().market_type.seed_bytes());
    assert_eq!((market.bump, market.yes_mint_bump, market.no_mint_bump), (1, 2, 3));
    assert_eq!(market.collateral_vault_bump, 4);
    assert_eq!(market.market_type, above_params().market_type);
    assert_eq!((market.start_time, market.end_time), (10, 100));
}

// ----- outcome rules -----

#[test]
fn above_and_below_are_strict() {
    let above = MarketType::AbovePrice { price: 100, exponent: -8 };
    assert_eq!(above.resolve_outcome(None, &recorded(100, -8)), Ok(Resolution::No));
    assert_eq!(above.resolve_outcome(None, &recorded(101, -8)), Ok(Resolution::Yes));
    assert_eq!(
        above.resolve_outcome(None, &recorded(101, -6)),
        Err(OutcomeMarketsError::UnexpectedPriceExponent)
    );
    let below = MarketType::BelowPrice { price: 100, exponent: -8 };
    assert_eq!(below.resolve_outcome(None, &recorded(100, -8)), Ok(Resolution::No));
    assert_eq!(below.resolve_outcome(None, &recorded(99, -8)), Ok(Resolution::Yes));
    assert_eq!(
        below.resolve_outcome(None, &recorded(99, -7)),
        Err(OutcomeMarketsError::UnexpectedPriceExponent)
    );
}

#[test]
fn range_is_inclusive_on_both_ends() {
    let range = MarketType::WithinRange { lower_price: 90, upper_price: 100, exponent: -8 };
    assert_eq!(range.resolve_outcome(None, &recorded(90, -8)), Ok(Resolution::Yes));
    assert_eq!(range.resolve_outcome(None, &recorded(100, -8)), Ok(Resolution::Yes));
    assert_eq!(range.resolve_outcome(None, &recorded(89, -8)), Ok(Resolution::No));
    assert_eq!(range.resolve_outcome(None, &recorded(101, -8)), Ok(Resolution::No));
    assert_eq!(
        range.resolve_outcome(None, &recorded(95, -9)),
        Err(OutcomeMarketsError::UnexpectedPriceExponent)
    );
}

#[test]
fn updown_compares_with_the_start_price() {
    let start = recorded(100, -8);
    assert_eq!(
        MarketType::UpDown.resolve_outcome(None, &recorded(101, -8)),
        Err(OutcomeMarketsError::StartPriceNotSet)
    );
    assert_eq!(MarketType::UpDown.resolve_outcome(Some(&start), &recorded(100, -8)), Ok(Resolution::No));
    assert_eq!(MarketType::UpDown.resolve_outcome(Some(&start), &recorded(101, -8)), Ok(Resolution::Yes));
    assert_eq!(
        MarketType::UpDown.resolve_outcome(Some(&start), &recorded(101, -6)),
        Err(OutcomeMarketsError::UnexpectedPriceExponent)
    );
    assert!(MarketType::UpDown.supports_start_price());
    assert!(!MarketType::AbovePrice { price: 0, exponent: 0 }.supports_start_price());
}

// ----- oracle -----

#[test]
fn price_updates_need_full_verification_and_the_right_feed() {
    let mut update = price_update(FEED_ID, 5, -2, 7);
    assert_eq!(
        read_verified_price(&update, &FEED_ID),
        Ok(Price { price: 5, conf: 0, exponent: -2, publish_time: 7 })
    );
    assert_eq!(
        read_verified_price(&update, &[0u8; 32]),
        Err(OutcomeMarketsError::InvalidPriceUpdate)
    );
    assert_eq!(update.get_price_unchecked(&[0u8; 32]), Err(GetPriceError::MismatchedFeedId));
    update.verification_level = VerificationLevel::Partial { num_signatures: 255 };
    assert_eq!(
        read_verified_price(&update, &FEED_ID),
        Err(OutcomeMarketsError::InsufficientPythVerification)
    );
    assert_eq!(
        update.get_price_unchecked(&FEED_ID),
        Ok(Price { price: 5, conf: 0, exponent: -2, publish_time: 7 })
    );
    assert_eq!(RecordedPrice::from_pyth(Price { price: 5, conf: 9, exponent: -2, publish_time: 7 }),
        RecordedPrice { price: 5, exponent: -2, publish_time: 7 });
}

#[test]
fn updates_published_before_the_boundary_are_too_early() {
    assert_eq!(require_update_at_or_after(&price_update(FEED_ID, 1, 0, 10), 10), Ok(()));
    assert_eq!(require_update_at_or_after(&price_update(FEED_ID, 1, 0, 50), 10), Ok(()));
    assert_eq!(
        require_update_at_or_after(&price_update(FEED_ID, 1, 0, 9), 10),
        Err(OutcomeMarketsError::OracleUpdateTooEarly)
    );
}

// ----- set_start_price -----

#[test]
fn start_price_rules() {
    let updater = SetStartPrice { updater: USER, market: MARKET };

    let mut above = create_market(above_params(), 0);
    assert_eq!(
        set_start_price(&mut above, &updater, &price_update(FEED_ID, 1, -8, 10), 10),
        Err(OutcomeMarketsError::StartPriceNotSupported)
    );

    let mut market = create_market(updown_params(), 0);
    let before = market;
    assert_eq!(
        set_start_price(&mut market, &updater, &price_update(FEED_ID, 1, -8, 9), 10),
        Err(OutcomeMarketsError::OracleUpdateTooEarly)
    );
    assert_eq!(
        set_start_price(&mut market, &updater, &price_update([0u8; 32], 1, -8, 10), 10),
        Err(OutcomeMarketsError::InvalidPriceUpdate)
    );
    assert_eq!(
        set_start_price(&mut market, &updater, &price_update(FEED_ID, 1, -8, 10), 9),
        Err(OutcomeMarketsError::MarketStartTimeNotReached)
    );
    assert_eq!(market, before);

    set_start_price(&mut market, &updater, &price_update(FEED_ID, 7, -8, 300), 300).unwrap();
    assert_eq!(market.start_price, Some(RecordedPrice { price: 7, exponent: -8, publish_time: 300 }));
    assert_eq!(
        set_start_price(&mut market, &updater, &price_update(FEED_ID, 8, -8, 301), 301),
        Err(OutcomeMarketsError::StartPriceAlreadySet)
    );

    let resolver = Resolve { resolver: USER, market: MARKET };
    let mut fresh = create_market(updown_params(), 0);
    set_start_price(&mut fresh, &updater, &price_update(FEED_ID, 7, -8, 10), 10).unwrap();
    resolve(&mut fresh, &resolver, &price_update(FEED_ID, 6, -8, 100), 100).unwrap();
    let mut resolved_without_start = fresh;
    resolved_without_start.start_price = None;
    assert_eq!(
        set_start_price(&mut resolved_without_start, &updater, &price_update(FEED_ID, 7, -8, 10), 10),
        Err(OutcomeMarketsError::MarketAlreadyResolved)
    );
}

// ----- resolve -----

#[test]
fn resolve_rules() {
    let resolver = Resolve { resolver: USER, market: MARKET };

    let mut updown = create_market(updown_params(), 0);
    assert_eq!(
        resolve(&mut updown, &resolver, &price_update(FEED_ID, 1, -8, 100), 100),
        Err(OutcomeMarketsError::StartPriceNotSet)
    );

    let mut market = create_market(above_params(), 0);
    assert_eq!(
        resolve(&mut market, &resolver, &price_update(FEED_ID, 1, -8, 99), 100),
        Err(OutcomeMarketsError::OracleUpdateTooEarly)
    );
    assert_eq!(
        resolve(&mut market, &resolver, &price_update(FEED_ID, 1, -7, 100), 100),
        Err(OutcomeMarketsError::UnexpectedPriceExponent)
    );
    assert_eq!(
        resolve(&mut market, &resolver, &price_update(FEED_ID, 1, -8, 100), 99),
        Err(OutcomeMarketsError::MarketEndTimeNotReached)
    );
    assert_eq!(market.resolution, Resolution::Unresolved);

    resolve(&mut market, &resolver, &price_update(FEED_ID, 100_000_000, -8, 150), 160).unwrap();
    assert_eq!(market.resolution, Resolution::No);
    assert_eq!(market.resolved_price, Some(RecordedPrice { price: 100_000_000, exponent: -8, publish_time: 150 }));
    assert_eq!(
        resolve(&mut market, &resolver, &price_update(FEED_ID, 200_000_000, -8, 170), 170),
        Err(OutcomeMarketsError::MarketAlreadyResolved)
    );
}

// ----- split -----

#[test]
fn split_checks_accounts_in_order() {
    let market = create_market(above_params(), 0);
    let good = split_accounts();
    let cases: Vec<(Split, OutcomeMarketsError)> = vec![
        (Split { collateral_mint: [99u8; 32], ..good }, OutcomeMarketsError::InvalidCollateralMint),
        (Split { yes_mint: [99u8; 32], ..good }, OutcomeMarketsError::InvalidYesMint),
        (Split { no_mint: [99u8; 32], ..good }, OutcomeMarketsError::InvalidNoMint),
        (Split { collateral_vault: [99u8; 32], ..good }, OutcomeMarketsError::InvalidCollateralVault),
        (
            Split { user_collateral_account: TokenAccountRef { owner: [99u8; 32], ..good.user_collateral_account }, ..good },
            OutcomeMarketsError::InvalidTokenOwner,
        ),
        (
            Split { user_collateral_account: TokenAccountRef { mint: YES_MINT, ..good.user_collateral_account }, ..good },
            OutcomeMarketsError::InvalidCollateralAccount,
        ),
        (
            Split { user_yes_token_account: TokenAccountRef { owner: [99u8; 32], ..good.user_yes_token_account }, ..good },
            OutcomeMarketsError::InvalidTokenOwner,
        ),
        (
            Split { user_yes_token_account: TokenAccountRef { mint: NO_MINT, ..good.user_yes_token_account }, ..good },
            OutcomeMarketsError::InvalidYesTokenAccount,
        ),
        (
            Split { user_no_token_account: TokenAccountRef { owner: [99u8; 32], ..good.user_no_token_account }, ..good },
            OutcomeMarketsError::InvalidTokenOwner,
        ),
        (
            Split { user_no_token_account: TokenAccountRef { mint: YES_MINT, ..good.user_no_token_account }, ..good },
            OutcomeMarketsError::InvalidNoTokenAccount,
        ),
    ];
    for (accounts, error) in cases {
        assert_eq!(split(&market, &accounts, 0, ONE_USDC).err(), Some(error));
        // an account error comes before any check of the amount or the clock
        assert_eq!(split(&market, &accounts, 1_000, 0).err(), Some(error));
    }
}

#[test]
fn split_rules() {
    let market = create_market(above_params(), 0);
    assert_eq!(split(&market, &split_accounts(), 0, 0).err(), Some(OutcomeMarketsError::InvalidAmount));
    assert_eq!(
        split(&market, &split_accounts(), 100, 1).err(),
        Some(OutcomeMarketsError::MarketClosedForSplits)
    );
    let resolved = resolved_market(above_params().market_type, 1);
    assert_eq!(
        split(&resolved, &split_accounts(), 0, 1).err(),
        Some(OutcomeMarketsError::MarketAlreadyResolved)
    );
    let effects = split(&market, &split_accounts(), 99, 3).unwrap();
    assert_eq!(
        effects.instructions,
        vec![
            TokenInstruction::TransferChecked {
                from: USER_COLLATERAL,
                mint: USDC_MINT,
                to: VAULT,
                authority: USER,
                amount: 3,
                decimals: USDC_DECIMALS,
            },
            TokenInstruction::MintTo { mint: YES_MINT, to: USER_YES, authority: MARKET, amount: 3 },
            TokenInstruction::MintTo { mint: NO_MINT, to: USER_NO, authority: MARKET, amount: 3 },
        ]
    );
    assert_eq!(effects.signer, market_signer_seeds(&market));
}

// ----- merge -----

#[test]
fn merge_works_before_and_after_resolution_and_end() {
    let open = create_market(above_params(), 0);
    let resolved = resolved_market(above_params().market_type, 200_000_000);
    assert_eq!(resolved.resolution, Resolution::Yes);
    for market in [open, resolved] {
        {
            let effects = merge(&market, &merge_accounts(), 2).unwrap();
            assert_eq!(
                effects.instructions,
                vec![
                    TokenInstruction::Burn { mint: YES_MINT, from: USER_YES, authority: USER, amount: 2 },
                    TokenInstruction::Burn { mint: NO_MINT, from: USER_NO, authority: USER, amount: 2 },
                    TokenInstruction::TransferChecked {
                        from: VAULT,
                        mint: USDC_MINT,
                        to: USER_COLLATERAL,
                        authority: MARKET,
                        amount: 2,
                        decimals: USDC_DECIMALS,
                    },
                ]
            );
            assert_eq!(effects.signer, market_signer_seeds(&market));
        }
    }
    assert_eq!(merge(&open, &merge_accounts(), 0).err(), Some(OutcomeMarketsError::InvalidAmount));
    let wrong_vault = Merge { collateral_vault: USER_COLLATERAL, ..merge_accounts() };
    assert_eq!(
        merge(&open, &wrong_vault, 1).err(),
        Some(OutcomeMarketsError::InvalidCollateralVault)
    );
}

// ----- claim -----

#[test]
fn claim_rules() {
    let open = create_market(above_params(), 0);
    assert_eq!(
        claim(&open, &claim_accounts(YES_MINT, USER_YES), 1).err(),
        Some(OutcomeMarketsError::MarketNotResolved)
    );
    let no_market = resolved_market(above_params().market_type, 1);
    assert_eq!(no_market.resolution, Resolution::No);
    assert_eq!(
        claim(&no_market, &claim_accounts(YES_MINT, USER_YES), 1).err(),
        Some(OutcomeMarketsError::InvalidOutcomeMint)
    );
    assert_eq!(
        claim(&no_market, &claim_accounts(NO_MINT, USER_NO), 0).err(),
        Some(OutcomeMarketsError::InvalidAmount)
    );
    let mut wrong_account = claim_accounts(NO_MINT, USER_NO);
    wrong_account.user_outcome_token_account.mint = YES_MINT;
    assert_eq!(
        claim(&no_market, &wrong_account, 1).err(),
        Some(OutcomeMarketsError::InvalidOutcomeTokenAccount)
    );
    let mut wrong_mint = claim_accounts(NO_MINT, USER_NO);
    wrong_mint.collateral_mint = YES_MINT;
    assert_eq!(claim(&no_market, &wrong_mint, 1).err(), Some(OutcomeMarketsError::InvalidCollateralMint));

    let effects = claim(&no_market, &claim_accounts(NO_MINT, USER_NO), 4).unwrap();
    assert_eq!(
        effects.instructions,
        vec![
            TokenInstruction::Burn { mint: NO_MINT, from: USER_NO, authority: USER, amount: 4 },
            TokenInstruction::TransferChecked {
                from: VAULT,
                mint: USDC_MINT,
                to: USER_COLLATERAL,
                authority: MARKET,
                amount: 4,
                decimals: USDC_DECIMALS,
            },
        ]
    );
    assert_eq!(effects.signer, market_signer_seeds(&no_market));
}

// ----- collateral backing -----

#[test]
fn vault_stays_backed_through_a_market_life() {
    let mut tokens = Tokens::default();
    tokens.balances.insert(USER_COLLATERAL, 10);
    let mut market = create_market(above_params(), 0);

    let effects = split(&market, &split_accounts(), 0, 6).unwrap();
    tokens.apply(&effects);
    assert_eq!(tokens.balance(&VAULT), 6);
    assert_eq!(tokens.supplies[&YES_MINT], 6);
    assert_eq!(tokens.supplies[&NO_MINT], 6);

    let effects = merge(&market, &merge_accounts(), 2).unwrap();
    tokens.apply(&effects);
    assert_eq!((tokens.balance(&VAULT), tokens.supplies[&YES_MINT], tokens.supplies[&NO_MINT]), (4, 4, 4));

    let resolver = Resolve { resolver: USER, market: MARKET };
    resolve(&mut market, &resolver, &price_update(FEED_ID, 100_000_001, -8, 100), 100).unwrap();
    assert_eq!(market.resolution, Resolution::Yes);

    let effects = merge(&market, &merge_accounts(), 1).unwrap();
    tokens.apply(&effects);
    let effects = claim(&market, &claim_accounts(YES_MINT, USER_YES), 3).unwrap();
    tokens.apply(&effects);
    assert_eq!(tokens.balance(&VAULT), 0);
    assert_eq!(tokens.supplies[&YES_MINT], 0);
    assert_eq!(tokens.balance(&USER_NO), 3);
    assert_eq!(tokens.balance(&USER_COLLATERAL), 10);
}

// ----- initialize_metadata -----

#[test]
fn metadata_rules() {
    let market = create_market(above_params(), 0);
    let accounts = InitializeMetadata { payer: USER, market: MARKET, mint: YES_MINT, metadata: [77u8; 32] };
    let long_name = "a".repeat(33);
    assert_eq!(
        initialize_metadata(&market, &accounts, OutcomeSide::Yes, long_name, "S".into(), "u".into()).err(),
        Some(OutcomeMarketsError::MetadataNameTooLong)
    );
    // 17 two-byte characters are 34 bytes
    let wide_name = "é".repeat(17);
    assert_eq!(
        initialize_metadata(&market, &accounts, OutcomeSide::Yes, wide_name, "S".into(), "u".into()).err(),
        Some(OutcomeMarketsError::MetadataNameTooLong)
    );
    assert_eq!(
        initialize_metadata(&market, &accounts, OutcomeSide::Yes, "n".into(), "S".repeat(11), "u".into()).err(),
        Some(OutcomeMarketsError::MetadataSymbolTooLong)
    );
    assert_eq!(
        initialize_metadata(&market, &accounts, OutcomeSide::Yes, "n".into(), "S".into(), "u".repeat(201)).err(),
        Some(OutcomeMarketsError::MetadataUriTooLong)
    );
    assert_eq!(
        initialize_metadata(&market, &accounts, OutcomeSide::No, "n".into(), "S".into(), "u".into()).err(),
        Some(OutcomeMarketsError::InvalidOutcomeSide)
    );
    let (signer, args) = initialize_metadata(
        &market,
        &accounts,
        OutcomeSide::Yes,
        "a".repeat(32),
        "S".repeat(10),
        "u".repeat(200),
    )
    .unwrap();
    assert_eq!(signer, market_signer_seeds(&market));
    assert_eq!(args.name, "a".repeat(32));
    assert_eq!(args.symbol, "S".repeat(10));
    assert_eq!(args.uri, "u".repeat(200));
    assert_eq!(args.seller_fee_basis_points, 0);
    assert!(!args.is_mutable);
    assert!(args.update_authority_is_signer);
    assert_eq!(args.creators, None);
    assert_eq!(args.collection, None);
    assert_eq!(args.uses, None);
    assert_eq!(args.collection_details, None);
    assert_eq!((args.metadata, args.mint, args.payer), ([77u8; 32], YES_MINT, USER));
    assert_eq!((args.mint_authority, args.update_authority), (MARKET, MARKET));
}

#[test]
fn vault_backs_winners_after_outside_burns() {
    let mut tokens = Tokens::default();
    tokens.balances.insert(USER_COLLATERAL, 10);
    let mut market = create_market(above_params(), 0);

    let effects = split(&market, &split_accounts(), 0, 6).unwrap();
    tokens.apply(&effects);

    // the holder burns two YES tokens through the token program, outside the market
    tokens.balances.insert(USER_YES, 4);
    tokens.supplies.insert(YES_MINT, 4);
    assert!(tokens.supplies[&YES_MINT] <= tokens.balance(&VAULT));
    assert!(tokens.supplies[&NO_MINT] <= tokens.balance(&VAULT));

    let resolver = Resolve { resolver: USER, market: MARKET };
    resolve(&mut market, &resolver, &price_update(FEED_ID, 100_000_001, -8, 100), 100).unwrap();
    assert_eq!(market.resolution, Resolution::Yes);

    let effects = claim(&market, &claim_accounts(YES_MINT, USER_YES), 4).unwrap();
    tokens.apply(&effects);
    assert_eq!(tokens.balance(&VAULT), 2);
    assert_eq!(tokens.supplies[&YES_MINT], 0);
    assert_eq!(tokens.balance(&USER_COLLATERAL), 8);
}
