//! Cofactor clearing for the two groups G1 and G2 of the pairing-friendly
//! curve BLS12-381.
//!
//! A point that comes out of a map to the curve lies in a group that is
//! larger than the subgroup of prime order which protocols work in. Clearing
//! the cofactor multiplies the point by a fixed integer and so moves it into
//! that subgroup. The multiplications are carried out by fixed addition
//! chains, and each chain is proved to multiply by exactly its integer, in
//! every group that provides doubling, addition and subtraction.
//!
//! - [`group`]: the operations and the laws that a representation of curve
//!   points provides.
//! - [`scalar`]: the multiples of a group element.
//! - [`chain`]: the chain for `-z` and the chain for the effective cofactor
//!   of G2.
//! - [`clear`]: clearing the cofactor of a point of G1 or of G2.
//! - [`subgroup`]: clearing and the subgroup of prime order.
//! - [`residue`]: the integers modulo `M`, a group in which the product of a
//!   chain can be read off as a number.

pub mod group;
pub mod scalar;
pub mod chain;
pub mod clear;
pub mod subgroup;
pub mod residue;

pub use chain::{chain_h2_eff, chain_z, NEG_Z};
pub use clear::{ClearH, G1, G2};
pub use group::CurveProjective;
pub use residue::Residue;
