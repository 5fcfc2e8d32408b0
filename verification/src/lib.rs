//! A single-node proof-of-work chain: content-hashed blocks, mining,
//! difficulty retargeting, validation and longest-valid-chain replacement.

pub mod block;
pub mod chain;
pub mod clock;
pub mod difficulty;
pub mod digest;
pub mod pow;
pub mod validation;
