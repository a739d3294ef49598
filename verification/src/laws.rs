use vstd::prelude::*;
use vstd::bytes::{spec_u32_from_le_bytes, spec_u32_to_le_bytes, spec_u64_from_le_bytes};

use crate::error::OutcomeMarketsError;
use crate::instructions::{
    spec_claim_check, spec_merge_check, spec_resolve, spec_set_start_price, spec_split_check,
    Claim, Merge, Split,
};
use crate::oracle::PriceUpdate;
use crate::state::{
    i32_le_bytes, i64_le_bytes, InitializeMarketParams, MarketType, OutcomeMarket, RecordedPrice,
    Resolution,
};

verus! {

/// The market after a successful `resolve`.
pub open spec fn resolved_market(market: OutcomeMarket, price_update: PriceUpdate, now: i64) -> OutcomeMarket {
    let (resolution, resolved_price) = spec_resolve(market, price_update, now)->Ok_0;
    OutcomeMarket { resolution, resolved_price: Some(resolved_price), ..market }
}

/// The market after a successful `set_start_price`.
pub open spec fn started_market(market: OutcomeMarket, price_update: PriceUpdate, now: i64) -> OutcomeMarket {
    OutcomeMarket {
        start_price: Some(spec_set_start_price(market, price_update, now)->Ok_0),
        ..market
    }
}

/// Resolving a market keeps its invariant, settles it as YES or NO, changes nothing but its
/// resolution and resolved price, and a market can be resolved only once: every later
/// `resolve` is refused.
pub proof fn resolve_settles_once(
    market: OutcomeMarket,
    price_update: PriceUpdate,
    now: i64,
    later_update: PriceUpdate,
    later: i64,
)
    requires
        market.wf(),
        spec_resolve(market, price_update, now) is Ok,
    ensures
        resolved_market(market, price_update, now).wf(),
        resolved_market(market, price_update, now).resolution != Resolution::Unresolved,
        spec_resolve(resolved_market(market, price_update, now), later_update, later)
            == Err::<(Resolution, RecordedPrice), _>(OutcomeMarketsError::MarketAlreadyResolved),
{
}

/// Recording the start price keeps the market's invariant and resolution, and the start
/// price can be recorded only once: every later `set_start_price` is refused.
pub proof fn start_price_set_once(
    market: OutcomeMarket,
    price_update: PriceUpdate,
    now: i64,
    later_update: PriceUpdate,
    later: i64,
)
    requires
        market.wf(),
        spec_set_start_price(market, price_update, now) is Ok,
    ensures
        started_market(market, price_update, now).wf(),
        started_market(market, price_update, now).resolution == market.resolution,
        spec_set_start_price(started_market(market, price_update, now), later_update, later)
            is Err,
{
}

/// Splitting is only possible while the market is unresolved and has not ended.
pub proof fn split_only_while_open(market: OutcomeMarket, accounts: Split, now: i64, amount: u64)
    requires
        spec_split_check(market, accounts, now, amount) is Ok,
    ensures
        market.resolution == Resolution::Unresolved,
        now < market.end_time,
        amount > 0,
{
}

/// Merging does not depend on time or resolution: with valid accounts and a positive amount
/// it is accepted whatever the market's resolution, before or after its end.
pub proof fn merge_always_available(
    market: OutcomeMarket,
    accounts: Merge,
    amount: u64,
    resolution: Resolution,
)
    requires
        accounts.spec_check_accounts(market) is Ok,
        amount > 0,
    ensures
        spec_merge_check(market, accounts, amount) is Ok,
        spec_merge_check(OutcomeMarket { resolution, ..market }, accounts, amount) is Ok,
{
}

/// Only the winning side of a resolved market can be claimed.
pub proof fn claim_only_winning_side(market: OutcomeMarket, accounts: Claim, amount: u64)
    requires
        spec_claim_check(market, accounts, amount) is Ok,
    ensures
        market.resolution != Resolution::Unresolved,
        market.resolution == Resolution::Yes ==> accounts.outcome_mint == market.yes_mint,
        market.resolution == Resolution::No ==> accounts.outcome_mint == market.no_mint,
{
}

/// Two 64-bit integers with the same little-endian bytes are equal.
proof fn i64_le_bytes_injective(a: i64, b: i64)
    requires
        i64_le_bytes(a) == i64_le_bytes(b),
    ensures
        a == b,
{
    vstd::bytes::lemma_auto_spec_u64_to_from_le_bytes();
    assert(spec_u64_from_le_bytes(i64_le_bytes(a)) == a as u64);
    assert(spec_u64_from_le_bytes(i64_le_bytes(b)) == b as u64);
    assert((a as u64) == (b as u64) ==> a == b) by (bit_vector);
}

/// Two 32-bit integers with the same little-endian bytes are equal.
proof fn i32_le_bytes_injective(a: i32, b: i32)
    requires
        i32_le_bytes(a) == i32_le_bytes(b),
    ensures
        a == b,
{
    vstd::bytes::lemma_auto_spec_u32_to_from_le_bytes();
    assert(spec_u32_to_le_bytes(a as u32).len() == 4);
    assert(spec_u32_to_le_bytes(b as u32).len() == 4);
    assert(spec_u32_from_le_bytes(i32_le_bytes(a)) == a as u32);
    assert(spec_u32_from_le_bytes(i32_le_bytes(b)) == b as u32);
    assert((a as u32) == (b as u32) ==> a == b) by (bit_vector);
}

/// The first byte of the encoding of a market type.
spec fn seed_tag(t: MarketType) -> u8 {
    match t {
        MarketType::AbovePrice { .. } => 0,
        MarketType::BelowPrice { .. } => 1,
        MarketType::WithinRange { .. } => 2,
        MarketType::UpDown => 3,
    }
}

/// Different market types have different encodings.
pub proof fn seed_bytes_injective(a: MarketType, b: MarketType)
    requires
        a.spec_seed_bytes() == b.spec_seed_bytes(),
    ensures
        a == b,
{
    vstd::bytes::lemma_auto_spec_u32_to_from_le_bytes();
    vstd::bytes::lemma_auto_spec_u64_to_from_le_bytes();
    let s = a.spec_seed_bytes();
    assert(s[0] == b.spec_seed_bytes()[0]);
    assert(s[0] == seed_tag(a) && s[0] == seed_tag(b)) by {
        match a {
            MarketType::AbovePrice { price, exponent } | MarketType::BelowPrice { price, exponent } => {
                assert(spec_u32_to_le_bytes(exponent as u32).len() == 4);
            },
            MarketType::WithinRange { exponent, .. } => {
                assert(spec_u32_to_le_bytes(exponent as u32).len() == 4);
            },
            MarketType::UpDown => {},
        }
        match b {
            MarketType::AbovePrice { price, exponent } | MarketType::BelowPrice { price, exponent } => {
                assert(spec_u32_to_le_bytes(exponent as u32).len() == 4);
            },
            MarketType::WithinRange { exponent, .. } => {
                assert(spec_u32_to_le_bytes(exponent as u32).len() == 4);
            },
            MarketType::UpDown => {},
        }
    }
    match (a, b) {
        (MarketType::AbovePrice { price: p1, exponent: e1 }, MarketType::AbovePrice { price: p2, exponent: e2 })
        | (MarketType::BelowPrice { price: p1, exponent: e1 }, MarketType::BelowPrice { price: p2, exponent: e2 }) => {
            assert(spec_u32_to_le_bytes(e1 as u32).len() == 4);
            assert(spec_u32_to_le_bytes(e2 as u32).len() == 4);
            assert(i32_le_bytes(e1) =~= s.subrange(1, 5));
            assert(i32_le_bytes(e2) =~= s.subrange(1, 5));
            assert(i64_le_bytes(p1) =~= s.subrange(5, 13));
            assert(i64_le_bytes(p2) =~= s.subrange(5, 13));
            i32_le_bytes_injective(e1, e2);
            i64_le_bytes_injective(p1, p2);
        },
        (
            MarketType::WithinRange { lower_price: l1, upper_price: u1, exponent: e1 },
            MarketType::WithinRange { lower_price: l2, upper_price: u2, exponent: e2 },
        ) => {
            assert(spec_u32_to_le_bytes(e1 as u32).len() == 4);
            assert(spec_u32_to_le_bytes(e2 as u32).len() == 4);
            assert(i32_le_bytes(e1) =~= s.subrange(1, 5));
            assert(i32_le_bytes(e2) =~= s.subrange(1, 5));
            assert(i64_le_bytes(l1) =~= s.subrange(5, 13));
            assert(i64_le_bytes(l2) =~= s.subrange(5, 13));
            assert(i64_le_bytes(u1) =~= s.subrange(13, 21));
            assert(i64_le_bytes(u2) =~= s.subrange(13, 21));
            i32_le_bytes_injective(e1, e2);
            i64_le_bytes_injective(l1, l2);
            i64_le_bytes_injective(u1, u2);
        },
        _ => {},
    }
}

/// A market's address seeds determine its parameters: two different sets of parameters never
/// lead to the same market address.
pub proof fn address_seeds_identify_market(a: InitializeMarketParams, b: InitializeMarketParams)
    requires
        a.spec_address_seeds() == b.spec_address_seeds(),
    ensures
        a == b,
{
    broadcast use vstd::array::group_array_axioms;

    let s = a.spec_address_seeds();
    assert(a.price_feed_id@ == s[1] && b.price_feed_id@ == s[1]);
    assert(a.price_feed_id =~= b.price_feed_id);
    i64_le_bytes_injective(a.end_time, b.end_time);
    seed_bytes_injective(a.market_type, b.market_type);
    i64_le_bytes_injective(a.start_time, b.start_time);
}

} // verus!
