//! Breedable, ownable and tradeable kitties.
//!
//! - `dna`: genetic codes, gender, the breeding rule and fresh codes.
//! - `nft`: the registry that says who owns which token.
//! - `balances`: the currency ledger that pays for purchases.
//! - `pallet`: creating, breeding, giving, pricing and buying kitties, with the
//!   ownership index kept in step with the registry.
//! - `mock`: a predictable randomness source and a ready-made system for tests.

pub mod balances;
pub mod dna;
pub mod mock;
pub mod nft;
pub mod pallet;
