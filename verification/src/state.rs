use vstd::prelude::*;
use vstd::bytes::{spec_u32_to_le_bytes, spec_u64_to_le_bytes, u32_to_le_bytes, u64_to_le_bytes};

use crate::constants::MARKET_TYPE_SEED_LEN;
use crate::error::OutcomeMarketsError;

verus! {

/// An account address: the 32 bytes of a public key.
pub type Pubkey = [u8; 32];

/// Whether two addresses are the same.
pub fn same_key(a: &Pubkey, b: &Pubkey) -> (r: bool)
    ensures
        r == (*a == *b),
{
    let mut i: usize = 0;
    while i < 32
        invariant
            i <= 32,
            forall|j: int| 0 <= j < i ==> a[j] == b[j],
        decreases 32 - i,
    {
        if a[i] != b[i] {
            return false;
        }
        i = i + 1;
    }
    proof {
        broadcast use vstd::array::group_array_axioms;
        assert(*a =~= *b);
    }
    true
}

/// The parameters with which a market is created.
#[derive(Clone, Copy, Debug, PartialEq, Eq)]
pub struct InitializeMarketParams {
    pub price_feed_id: [u8; 32],
    pub end_time: i64,
    pub market_type: MarketType,
    pub start_time: i64,
}

impl InitializeMarketParams {
    /// The outcome of validating the parameters: the time range first, then the market type.
    pub open spec fn spec_validate(self) -> Result<(), OutcomeMarketsError> {
        if self.end_time <= self.start_time {
            Err(OutcomeMarketsError::InvalidTimeRange)
        } else {
            self.market_type.spec_validate()
        }
    }

    /// Checks that the market ends strictly after it starts and that its type is valid.
    pub fn validate(&self) -> (r: Result<(), OutcomeMarketsError>)
        ensures
            r == self.spec_validate(),
    {
        if !(self.end_time > self.start_time) {
            return Err(OutcomeMarketsError::InvalidTimeRange);
        }
        self.market_type.validate()
    }
}

/// The question that a market answers.
#[derive(Clone, Copy, Debug, PartialEq, Eq, Structural)]
pub enum MarketType {
    /// YES when the resolved price is strictly above `price`.
    AbovePrice { price: i64, exponent: i32 },
    /// YES when the resolved price is strictly below `price`.
    BelowPrice { price: i64, exponent: i32 },
    /// YES when the resolved price lies in `[lower_price, upper_price]`.
    WithinRange { lower_price: i64, upper_price: i64, exponent: i32 },
    /// YES when the resolved price is strictly above the recorded start price.
    UpDown,
}

/// `n` zero bytes.
pub open spec fn zero_bytes(n: nat) -> Seq<u8> {
    Seq::new(n, |i: int| 0u8)
}

/// Little-endian bytes of a 32-bit signed integer (two's complement).
pub open spec fn i32_le_bytes(x: i32) -> Seq<u8> {
    spec_u32_to_le_bytes(x as u32)
}

/// Little-endian bytes of a 64-bit signed integer (two's complement).
pub open spec fn i64_le_bytes(x: i64) -> Seq<u8> {
    spec_u64_to_le_bytes(x as u64)
}

impl MarketType {
    /// The encoding of a market type that takes part in the market address:
    /// a tag byte, the exponent, the price or prices, padded with zeros.
    pub open spec fn spec_seed_bytes(self) -> Seq<u8> {
        match self {
            MarketType::AbovePrice { price, exponent } => seq![0u8] + i32_le_bytes(exponent)
                + i64_le_bytes(price) + zero_bytes(8),
            MarketType::BelowPrice { price, exponent } => seq![1u8] + i32_le_bytes(exponent)
                + i64_le_bytes(price) + zero_bytes(8),
            MarketType::WithinRange { lower_price, upper_price, exponent } => seq![2u8]
                + i32_le_bytes(exponent) + i64_le_bytes(lower_price) + i64_le_bytes(
                upper_price,
            ),
            MarketType::UpDown => seq![3u8] + zero_bytes(20),
        }
    }

    /// The outcome of validating a market type.
    pub open spec fn spec_validate(self) -> Result<(), OutcomeMarketsError> {
        match self {
            MarketType::WithinRange { lower_price, upper_price, .. } => if lower_price
                <= upper_price {
                Ok(())
            } else {
                Err(OutcomeMarketsError::InvalidPriceBounds)
            },
            _ => Ok(()),
        }
    }

    /// Whether markets of this type record a start price.
    pub open spec fn spec_supports_start_price(self) -> bool {
        self is UpDown
    }

    /// The resolution of a market of this type, given its start price (if any) and its end price.
    pub open spec fn spec_resolve_outcome(
        self,
        start_price: Option<RecordedPrice>,
        end_price: RecordedPrice,
    ) -> Result<Resolution, OutcomeMarketsError> {
        match self {
            MarketType::AbovePrice { price, exponent } => if end_price.exponent != exponent {
                Err(OutcomeMarketsError::UnexpectedPriceExponent)
            } else {
                Ok(Resolution::from_answer(end_price.price > price))
            },
            MarketType::BelowPrice { price, exponent } => if end_price.exponent != exponent {
                Err(OutcomeMarketsError::UnexpectedPriceExponent)
            } else {
                Ok(Resolution::from_answer(end_price.price < price))
            },
            MarketType::WithinRange { lower_price, upper_price, exponent } => if end_price.exponent
                != exponent {
                Err(OutcomeMarketsError::UnexpectedPriceExponent)
            } else {
                Ok(
                    Resolution::from_answer(
                        lower_price <= end_price.price && end_price.price <= upper_price,
                    ),
                )
            },
            MarketType::UpDown => match start_price {
                None => Err(OutcomeMarketsError::StartPriceNotSet),
                Some(start) => if start.exponent != end_price.exponent {
                    Err(OutcomeMarketsError::UnexpectedPriceExponent)
                } else {
                    Ok(Resolution::from_answer(end_price.price > start.price))
                },
            },
        }
    }

    /// Encodes the market type for the market address.
    pub fn seed_bytes(&self) -> (r: [u8; MARKET_TYPE_SEED_LEN])
        ensures
            r@ == self.spec_seed_bytes(),
    {
        let mut bytes = [0u8; MARKET_TYPE_SEED_LEN];
        match self {
            MarketType::AbovePrice { price, exponent } => {
                bytes[0] = 0;
                write_le(&mut bytes, 1, &u32_to_le_bytes(*exponent as u32));
                write_le(&mut bytes, 5, &u64_to_le_bytes(*price as u64));
            },
            MarketType::BelowPrice { price, exponent } => {
                bytes[0] = 1;
                write_le(&mut bytes, 1, &u32_to_le_bytes(*exponent as u32));
                write_le(&mut bytes, 5, &u64_to_le_bytes(*price as u64));
            },
            MarketType::WithinRange { lower_price, upper_price, exponent } => {
                bytes[0] = 2;
                write_le(&mut bytes, 1, &u32_to_le_bytes(*exponent as u32));
                write_le(&mut bytes, 5, &u64_to_le_bytes(*lower_price as u64));
                write_le(&mut bytes, 13, &u64_to_le_bytes(*upper_price as u64));
            },
            MarketType::UpDown => {
                bytes[0] = 3;
            },
        }
        proof {
            broadcast use vstd::array::group_array_axioms;
            vstd::bytes::lemma_auto_spec_u32_to_from_le_bytes();
            vstd::bytes::lemma_auto_spec_u64_to_from_le_bytes();
            assert(bytes@ =~= self.spec_seed_bytes());
        }
        bytes
    }

    /// Checks the price bounds of a range market.
    pub fn validate(&self) -> (r: Result<(), OutcomeMarketsError>)
        ensures
            r == self.spec_validate(),
    {
        if let MarketType::WithinRange { lower_price, upper_price, .. } = self {
            if !(*lower_price <= *upper_price) {
                return Err(OutcomeMarketsError::InvalidPriceBounds);
            }
        }
        Ok(())
    }

    /// Whether markets of this type record a start price.
    pub fn supports_start_price(&self) -> (r: bool)
        ensures
            r == self.spec_supports_start_price(),
    {
        matches!(self, MarketType::UpDown)
    }

    /// Decides the outcome of a market from its start price (if any) and its end price.
    pub fn resolve_outcome(
        &self,
        start_price: Option<&RecordedPrice>,
        end_price: &RecordedPrice,
    ) -> (r: Result<Resolution, OutcomeMarketsError>)
        ensures
            r == self.spec_resolve_outcome(
                match start_price {
                    Some(p) => Some(*p),
                    None => None,
                },
                *end_price,
            ),
    {
        match self {
            MarketType::AbovePrice { price, exponent } => {
                if end_price.exponent != *exponent {
                    return Err(OutcomeMarketsError::UnexpectedPriceExponent);
                }
                Ok(
                    if end_price.price > *price {
                        Resolution::Yes
                    } else {
                        Resolution::No
                    },
                )
            },
            MarketType::BelowPrice { price, exponent } => {
                if end_price.exponent != *exponent {
                    return Err(OutcomeMarketsError::UnexpectedPriceExponent);
                }
                Ok(
                    if end_price.price < *price {
                        Resolution::Yes
                    } else {
                        Resolution::No
                    },
                )
            },
            MarketType::WithinRange { lower_price, upper_price, exponent } => {
                if end_price.exponent != *exponent {
                    return Err(OutcomeMarketsError::UnexpectedPriceExponent);
                }
                Ok(
                    if end_price.price >= *lower_price && end_price.price <= *upper_price {
                        Resolution::Yes
                    } else {
                        Resolution::No
                    },
                )
            },
            MarketType::UpDown => {
                let start_price = match start_price {
                    Some(p) => p,
                    None => {
                        return Err(OutcomeMarketsError::StartPriceNotSet);
                    },
                };
                if start_price.exponent != end_price.exponent {
                    return Err(OutcomeMarketsError::UnexpectedPriceExponent);
                }
                Ok(
                    if end_price.price > start_price.price {
                        Resolution::Yes
                    } else {
                        Resolution::No
                    },
                )
            },
        }
    }
}

/// Copies `src` into `dst` from position `at` on.
fn write_le(dst: &mut [u8; MARKET_TYPE_SEED_LEN], at: usize, src: &Vec<u8>)
    requires
        at + src@.len() <= MARKET_TYPE_SEED_LEN,
    ensures
        final(dst)@ == old(dst)@.subrange(0, at as int) + src@ + old(dst)@.subrange(
            at + src@.len(),
            MARKET_TYPE_SEED_LEN as int,
        ),
{
    broadcast use vstd::array::group_array_axioms;

    let ghost start = *dst;
    let mut i: usize = 0;
    while i < src.len()
        invariant
            at + src@.len() <= MARKET_TYPE_SEED_LEN,
            i <= src@.len(),
            dst@.len() == MARKET_TYPE_SEED_LEN,
            forall|j: int| 0 <= j < at ==> dst@[j] == start@[j],
            forall|j: int| 0 <= j < i ==> dst@[at + j] == src@[j],
            forall|j: int| at + i <= j < MARKET_TYPE_SEED_LEN ==> dst@[j] == start@[j],
        decreases src@.len() - i,
    {
        dst[at + i] = src[i];
        i = i + 1;
    }
    assert(dst@ =~= start@.subrange(0, at as int) + src@ + start@.subrange(
        at + src@.len(),
        MARKET_TYPE_SEED_LEN as int,
    ));
}

/// How a market was settled.
#[derive(Clone, Copy, Debug, PartialEq, Eq, Structural)]
pub enum Resolution {
    Unresolved,
    Yes,
    No,
}

impl Resolution {
    /// `Yes` for a true answer, `No` for a false one.
    pub open spec fn from_answer(answer: bool) -> Resolution {
        if answer {
            Resolution::Yes
        } else {
            Resolution::No
        }
    }
}

/// A price as the market stores it.
#[derive(Clone, Copy, Debug, PartialEq, Eq, Structural)]
pub struct RecordedPrice {
    pub price: i64,
    pub exponent: i32,
    pub publish_time: i64,
}

/// The state of one market.
#[derive(Clone, Copy, Debug, PartialEq, Eq)]
pub struct OutcomeMarket {
    pub creator: Pubkey,
    pub price_feed_id: [u8; 32],
    pub market_type_seed: [u8; MARKET_TYPE_SEED_LEN],
    pub market_type: MarketType,
    pub collateral_mint: Pubkey,
    pub yes_mint: Pubkey,
    pub no_mint: Pubkey,
    pub collateral_vault: Pubkey,
    pub start_time: i64,
    pub end_time: i64,
    pub start_price: Option<RecordedPrice>,
    pub resolved_price: Option<RecordedPrice>,
    pub resolution: Resolution,
    pub bump: u8,
    pub yes_mint_bump: u8,
    pub no_mint_bump: u8,
    pub collateral_vault_bump: u8,
}

impl OutcomeMarket {
    /// Bytes that the market account occupies: the discriminator and the fields.
    pub const LEN: usize = 8 + 297;

    /// Whether the market has been settled.
    pub open spec fn spec_is_resolved(self) -> bool {
        self.resolution != Resolution::Unresolved
    }

    /// What every market satisfies from its creation on: the stored type encoding matches the
    /// type, the time range and type are valid, a resolved price is recorded exactly when the
    /// market is resolved, and only an up/down market records a start price.
    pub open spec fn wf(self) -> bool {
        &&& self.market_type_seed@ == self.market_type.spec_seed_bytes()
        &&& self.start_time < self.end_time
        &&& self.market_type.spec_validate() is Ok
        &&& (self.resolved_price is Some <==> self.spec_is_resolved())
        &&& (self.start_price is Some ==> self.market_type is UpDown)
    }

    /// Whether the market has been settled.
    pub fn is_resolved(&self) -> (r: bool)
        ensures
            r == self.spec_is_resolved(),
    {
        self.resolution != Resolution::Unresolved
    }
}

} // verus!
