//! Building blocks for multiformat types: length-prefixed byte strings
//! (`Varbytes`) over unsigned varints, and base encoders over multibase.

pub mod base;
pub mod base_encoded;
pub mod base_encoder;
pub mod error;
pub mod multibase;
pub mod varbytes;
pub mod varuint;
