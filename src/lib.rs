//! Synthetic ECDSA-over-Ed25519 fixtures: curve points and scalars, the
//! fixed-width limb encoding of 256-bit values, and the flat token format of
//! the records that carry them.
pub mod bignum;
pub mod codec;
pub mod types;
pub mod curves;
pub mod utils;
pub mod generators;
