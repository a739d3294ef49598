use vstd::prelude::*;

use pyth_solana_receiver_sdk::price_update::VerificationLevel as PythVerificationLevel;

use crate::error::OutcomeMarketsError;
use crate::state::{Pubkey, RecordedPrice};

verus! {

/// How many Wormhole guardian signatures were checked for a Pyth price update.
#[derive(Clone, Copy, Debug, PartialEq, Eq, Structural)]
pub enum VerificationLevel {
    Partial { num_signatures: u8 },
    Full,
}

/// `level` is at least `other`: full verification is above every partial one, and among
/// partial ones more signatures rank higher.
pub open spec fn spec_gte(level: VerificationLevel, other: VerificationLevel) -> bool {
    match level {
        VerificationLevel::Full => true,
        VerificationLevel::Partial { num_signatures } => match other {
            VerificationLevel::Full => false,
            VerificationLevel::Partial { num_signatures: other_num_signatures } => num_signatures
                >= other_num_signatures,
        },
    }
}

/// Compares two verification levels with `VerificationLevel::gte` of the Pyth Solana receiver
/// SDK. Trusted: the result is that of the SDK's `gte`, which ranks `Full` above every
/// `Partial` and orders `Partial` levels by their number of signatures.
#[verifier::external_body]
fn pyth_verification_gte(level: VerificationLevel, other: VerificationLevel) -> (r: bool)
    ensures
        r == spec_gte(level, other),
{
    let to_pyth = |l: VerificationLevel| match l {
        VerificationLevel::Partial { num_signatures } => PythVerificationLevel::Partial { num_signatures },
        VerificationLevel::Full => PythVerificationLevel::Full,
    };
    to_pyth(level).gte(to_pyth(other))
}

/// The price message that a Pyth price update carries.
#[derive(Clone, Copy, Debug, PartialEq, Eq)]
pub struct PriceFeedMessage {
    pub feed_id: [u8; 32],
    pub price: i64,
    pub conf: u64,
    pub exponent: i32,
    pub publish_time: i64,
    pub prev_publish_time: i64,
    pub ema_price: i64,
    pub ema_conf: u64,
}

/// The content of a Pyth `PriceUpdateV2` account.
#[derive(Clone, Copy, Debug, PartialEq, Eq)]
pub struct PriceUpdate {
    pub write_authority: Pubkey,
    pub verification_level: VerificationLevel,
    pub price_message: PriceFeedMessage,
    pub posted_slot: u64,
}

/// A price read from a price update.
#[derive(Clone, Copy, Debug, PartialEq, Eq, Structural)]
pub struct Price {
    pub price: i64,
    pub conf: u64,
    pub exponent: i32,
    pub publish_time: i64,
}

/// Why a price could not be read from a price update.
#[derive(Clone, Copy, Debug, PartialEq, Eq, Structural)]
pub enum GetPriceError {
    /// The update is for another feed.
    MismatchedFeedId,
}

impl PriceUpdate {
    /// The price of the update's message.
    pub open spec fn spec_price(self) -> Price {
        Price {
            price: self.price_message.price,
            conf: self.price_message.conf,
            exponent: self.price_message.exponent,
            publish_time: self.price_message.publish_time,
        }
    }

    /// Reads the price for `feed_id`, as the Pyth receiver SDK's `get_price_unchecked` does:
    /// the update must be for that feed; neither its age nor its verification is checked.
    pub fn get_price_unchecked(&self, feed_id: &[u8; 32]) -> (r: Result<Price, GetPriceError>)
        ensures
            r == (if self.price_message.feed_id == *feed_id {
                Ok(self.spec_price())
            } else {
                Err(GetPriceError::MismatchedFeedId)
            }),
    {
        if !crate::state::same_key(&self.price_message.feed_id, feed_id) {
            return Err(GetPriceError::MismatchedFeedId);
        }
        Ok(
            Price {
                price: self.price_message.price,
                conf: self.price_message.conf,
                exponent: self.price_message.exponent,
                publish_time: self.price_message.publish_time,
            },
        )
    }
}

/// The outcome of reading a fully verified price for `feed_id` from `price_update`.
pub open spec fn spec_read_verified_price(price_update: PriceUpdate, feed_id: [u8; 32]) -> Result<
    Price,
    OutcomeMarketsError,
> {
    if !spec_gte(price_update.verification_level, VerificationLevel::Full) {
        Err(OutcomeMarketsError::InsufficientPythVerification)
    } else if price_update.price_message.feed_id != feed_id {
        Err(OutcomeMarketsError::InvalidPriceUpdate)
    } else {
        Ok(price_update.spec_price())
    }
}

/// Reads the price for `feed_id` from an update that has full verification.
pub fn read_verified_price(price_update: &PriceUpdate, feed_id: &[u8; 32]) -> (r: Result<
    Price,
    OutcomeMarketsError,
>)
    ensures
        r == spec_read_verified_price(*price_update, *feed_id),
{
    if !pyth_verification_gte(price_update.verification_level, VerificationLevel::Full) {
        return Err(OutcomeMarketsError::InsufficientPythVerification);
    }
    match price_update.get_price_unchecked(feed_id) {
        Ok(price) => Ok(price),
        Err(_) => Err(OutcomeMarketsError::InvalidPriceUpdate),
    }
}

/// Accepts an update only if it was published at or after `boundary_time`.
pub fn require_update_at_or_after(price_update: &PriceUpdate, boundary_time: i64) -> (r: Result<
    (),
    OutcomeMarketsError,
>)
    ensures
        r == (if boundary_time <= price_update.price_message.publish_time {
            Ok(())
        } else {
            Err(OutcomeMarketsError::OracleUpdateTooEarly)
        }),
{
    if !(boundary_time <= price_update.price_message.publish_time) {
        return Err(OutcomeMarketsError::OracleUpdateTooEarly);
    }
    Ok(())
}

impl RecordedPrice {
    /// The stored form of a price read from an update.
    pub open spec fn spec_from_pyth(price: Price) -> RecordedPrice {
        RecordedPrice {
            price: price.price,
            exponent: price.exponent,
            publish_time: price.publish_time,
        }
    }

    /// Keeps the price, exponent and publish time of an oracle price.
    pub fn from_pyth(price: Price) -> (r: RecordedPrice)
        ensures
            r == RecordedPrice::spec_from_pyth(price),
    {
        RecordedPrice {
            price: price.price,
            exponent: price.exponent,
            publish_time: price.publish_time,
        }
    }
}

} // verus!
