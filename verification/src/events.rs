use vstd::prelude::*;

use crate::state::{MarketType, Pubkey, RecordedPrice, Resolution};

verus! {

/// A record of a market's creation. The program itself emits no events.
#[derive(Clone, Copy, Debug, PartialEq, Eq)]
pub struct MarketInitializedEvent {
    pub market: Pubkey,
    pub creator: Pubkey,
    pub collateral_mint: Pubkey,
    pub yes_mint: Pubkey,
    pub no_mint: Pubkey,
    pub collateral_vault: Pubkey,
    pub price_feed_id: [u8; 32],
    pub market_type: MarketType,
    pub start_time: i64,
    pub end_time: i64,
    pub market_bump: u8,
    pub yes_mint_bump: u8,
    pub no_mint_bump: u8,
    pub collateral_vault_bump: u8,
    pub emitted_at: i64,
}

/// A record of collateral split into a YES and a NO token per unit.
#[derive(Clone, Copy, Debug, PartialEq, Eq)]
pub struct MarketSplitEvent {
    pub market: Pubkey,
    pub user: Pubkey,
    pub collateral_mint: Pubkey,
    pub yes_mint: Pubkey,
    pub no_mint: Pubkey,
    pub collateral_vault: Pubkey,
    pub user_collateral_account: Pubkey,
    pub user_yes_token_account: Pubkey,
    pub user_no_token_account: Pubkey,
    pub amount: u64,
    pub emitted_at: i64,
}

/// A record of YES and NO pairs merged back into collateral.
#[derive(Clone, Copy, Debug, PartialEq, Eq)]
pub struct MarketMergedEvent {
    pub market: Pubkey,
    pub user: Pubkey,
    pub collateral_mint: Pubkey,
    pub yes_mint: Pubkey,
    pub no_mint: Pubkey,
    pub collateral_vault: Pubkey,
    pub user_collateral_account: Pubkey,
    pub user_yes_token_account: Pubkey,
    pub user_no_token_account: Pubkey,
    pub amount: u64,
    pub emitted_at: i64,
}

/// A record of the start price of an up/down market being set.
#[derive(Clone, Copy, Debug, PartialEq, Eq)]
pub struct MarketStartPriceSetEvent {
    pub market: Pubkey,
    pub updater: Pubkey,
    pub price_feed_id: [u8; 32],
    pub start_time: i64,
    pub start_price: RecordedPrice,
    pub emitted_at: i64,
}

/// A record of a market's resolution.
#[derive(Clone, Copy, Debug, PartialEq, Eq)]
pub struct MarketResolvedEvent {
    pub market: Pubkey,
    pub resolver: Pubkey,
    pub price_feed_id: [u8; 32],
    pub market_type: MarketType,
    pub start_price: Option<RecordedPrice>,
    pub resolved_price: RecordedPrice,
    pub resolution: Resolution,
    pub end_time: i64,
    pub emitted_at: i64,
}

/// A record of token metadata created for one side of a market.
#[derive(Clone, Debug, PartialEq, Eq)]
pub struct MarketMetadataInitializedEvent {
    pub market: Pubkey,
    pub mint: Pubkey,
    pub metadata: Pubkey,
    pub side: OutcomeSide,
    pub name: String,
    pub symbol: String,
    pub uri: String,
    pub emitted_at: i64,
}

/// One of the two outcome tokens of a market.
#[derive(Clone, Copy, Debug, PartialEq, Eq, Structural)]
pub enum OutcomeSide {
    Yes,
    No,
}

/// A record of winning tokens redeemed for collateral.
#[derive(Clone, Copy, Debug, PartialEq, Eq)]
pub struct MarketClaimedEvent {
    pub market: Pubkey,
    pub user: Pubkey,
    pub collateral_mint: Pubkey,
    pub collateral_vault: Pubkey,
    pub outcome_mint: Pubkey,
    pub user_collateral_account: Pubkey,
    pub user_outcome_token_account: Pubkey,
    pub resolution: Resolution,
    pub amount: u64,
    pub emitted_at: i64,
}

} // verus!
