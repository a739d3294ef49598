use vstd::prelude::*;

verus! {

/// First seed of every market address: the ASCII bytes of `market`.
pub const MARKET_SEED: [u8; 6] = [109, 97, 114, 107, 101, 116];

/// Seed, after the market address, of the YES mint: the ASCII bytes of `yes`.
pub const YES_MINT_SEED: [u8; 3] = [121, 101, 115];

/// Seed, after the market address, of the NO mint: the ASCII bytes of `no`.
pub const NO_MINT_SEED: [u8; 2] = [110, 111];

/// Seed, after the market address, of the collateral vault: the ASCII bytes of `vault`.
pub const COLLATERAL_VAULT_SEED: [u8; 5] = [118, 97, 117, 108, 116];

/// Length of the encoded market type that takes part in the market address.
pub const MARKET_TYPE_SEED_LEN: usize = 21;

/// Longest accepted metadata name, in bytes.
pub const METADATA_NAME_MAX_LEN: usize = 32;

/// Longest accepted metadata symbol, in bytes.
pub const METADATA_SYMBOL_MAX_LEN: usize = 10;

/// Longest accepted metadata URI, in bytes.
pub const METADATA_URI_MAX_LEN: usize = 200;

} // verus!
