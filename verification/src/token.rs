use vstd::prelude::*;
use vstd::bytes::u64_to_le_bytes;

use crate::constants::{MARKET_SEED, MARKET_TYPE_SEED_LEN};
use crate::state::{i64_le_bytes, InitializeMarketParams, OutcomeMarket, Pubkey};

verus! {

/// The seeds with which the market address signs for the mints and the vault:
/// `MARKET_SEED`, the feed id, the end time, the encoded market type, the start time
/// and the bump.
#[derive(Clone, Copy, Debug, PartialEq, Eq)]
pub struct MarketSigner {
    pub price_feed_id: [u8; 32],
    pub end_time: [u8; 8],
    pub market_type_seed: [u8; MARKET_TYPE_SEED_LEN],
    pub start_time: [u8; 8],
    pub bump: [u8; 1],
}

impl View for MarketSigner {
    type V = Seq<Seq<u8>>;

    open spec fn view(&self) -> Seq<Seq<u8>> {
        seq![
            MARKET_SEED@,
            self.price_feed_id@,
            self.end_time@,
            self.market_type_seed@,
            self.start_time@,
            self.bump@,
        ]
    }
}

/// The seeds of a market address before its bump: `MARKET_SEED`, the feed id, the end time,
/// the encoded market type and the start time.
#[derive(Clone, Copy, Debug, PartialEq, Eq)]
pub struct MarketAddressSeeds {
    pub price_feed_id: [u8; 32],
    pub end_time: [u8; 8],
    pub market_type_seed: [u8; MARKET_TYPE_SEED_LEN],
    pub start_time: [u8; 8],
}

impl View for MarketAddressSeeds {
    type V = Seq<Seq<u8>>;

    open spec fn view(&self) -> Seq<Seq<u8>> {
        seq![
            MARKET_SEED@,
            self.price_feed_id@,
            self.end_time@,
            self.market_type_seed@,
            self.start_time@,
        ]
    }
}

impl InitializeMarketParams {
    /// The seeds of the address of the market that these parameters create.
    pub open spec fn spec_address_seeds(self) -> Seq<Seq<u8>> {
        seq![
            MARKET_SEED@,
            self.price_feed_id@,
            i64_le_bytes(self.end_time),
            self.market_type.spec_seed_bytes(),
            i64_le_bytes(self.start_time),
        ]
    }

    /// Builds the seeds of the address of the market that these parameters create.
    pub fn address_seeds(&self) -> (r: MarketAddressSeeds)
        ensures
            r@ == self.spec_address_seeds(),
    {
        let r = MarketAddressSeeds {
            price_feed_id: self.price_feed_id,
            end_time: i64_to_le_bytes(self.end_time),
            market_type_seed: self.market_type.seed_bytes(),
            start_time: i64_to_le_bytes(self.start_time),
        };
        assert(r@ =~= self.spec_address_seeds());
        r
    }
}

impl OutcomeMarket {
    /// The seeds of the market address, bump included.
    pub open spec fn spec_signer_seeds(self) -> Seq<Seq<u8>> {
        seq![
            MARKET_SEED@,
            self.price_feed_id@,
            i64_le_bytes(self.end_time),
            self.market_type_seed@,
            i64_le_bytes(self.start_time),
            seq![self.bump],
        ]
    }
}

/// The little-endian bytes of `x`, as `i64::to_le_bytes` gives them.
pub fn i64_to_le_bytes(x: i64) -> (r: [u8; 8])
    ensures
        r@ == i64_le_bytes(x),
{
    broadcast use vstd::array::group_array_axioms;

    proof {
        vstd::bytes::lemma_auto_spec_u64_to_from_le_bytes();
    }
    let v = u64_to_le_bytes(x as u64);
    let mut r = [0u8; 8];
    let mut i: usize = 0;
    while i < 8
        invariant
            v@ == i64_le_bytes(x),
            v@.len() == 8,
            i <= 8,
            forall|j: int| 0 <= j < i ==> r@[j] == v@[j],
        decreases 8 - i,
    {
        r[i] = v[i];
        i = i + 1;
    }
    assert(r@ =~= v@);
    r
}

/// Builds the seeds with which the market address signs.
pub fn market_signer_seeds(market: &OutcomeMarket) -> (r: MarketSigner)
    ensures
        r@ == market.spec_signer_seeds(),
{
    let r = MarketSigner {
        price_feed_id: market.price_feed_id,
        end_time: i64_to_le_bytes(market.end_time),
        market_type_seed: market.market_type_seed,
        start_time: i64_to_le_bytes(market.start_time),
        bump: [market.bump],
    };
    assert(r.bump@ =~= seq![market.bump]);
    assert(r@ =~= market.spec_signer_seeds());
    r
}

/// A call into the token program.
#[derive(Clone, Copy, Debug, PartialEq, Eq)]
pub enum TokenInstruction {
    /// Moves `amount` of `mint` from the token account `from` to the token account `to`.
    TransferChecked {
        from: Pubkey,
        mint: Pubkey,
        to: Pubkey,
        authority: Pubkey,
        amount: u64,
        decimals: u8,
    },
    /// Creates `amount` new tokens of `mint` in the token account `to`.
    MintTo { mint: Pubkey, to: Pubkey, authority: Pubkey, amount: u64 },
    /// Destroys `amount` tokens of `mint` held in the token account `from`.
    Burn { mint: Pubkey, from: Pubkey, authority: Pubkey, amount: u64 },
}

/// Token program calls to make, signed by their authority: by the market address, with
/// `signer`, where that is the authority, and by the user otherwise.
#[derive(Clone, Debug, PartialEq, Eq)]
pub struct TokenEffects {
    pub instructions: Vec<TokenInstruction>,
    pub signer: MarketSigner,
}

/// Pays `amount` collateral out of the market vault into `destination`, signed by the market.
pub fn transfer_market_collateral(
    market_address: &Pubkey,
    collateral_vault: &Pubkey,
    collateral_mint: &Pubkey,
    collateral_decimals: u8,
    destination: &Pubkey,
    amount: u64,
) -> (r: TokenInstruction)
    ensures
        r == (TokenInstruction::TransferChecked {
            from: *collateral_vault,
            mint: *collateral_mint,
            to: *destination,
            authority: *market_address,
            amount,
            decimals: collateral_decimals,
        }),
{
    TokenInstruction::TransferChecked {
        from: *collateral_vault,
        mint: *collateral_mint,
        to: *destination,
        authority: *market_address,
        amount,
        decimals: collateral_decimals,
    }
}

} // verus!
