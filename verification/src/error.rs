//! Errors of the library.
use multi_trait::Error as VarintDecodeError;
use vstd::prelude::*;

verus! {

/// Errors about base encoded values.
#[derive(Clone, Debug, PartialEq, Eq)]
pub enum BaseEncodedError {
    /// The value could not be decoded in any base the encoder accepts.
    ValueFailed,
}

/// Errors of a particular base encoder.
#[derive(Clone, Debug, PartialEq, Eq)]
pub enum BaseEncoderError {
    /// Strict Base58Btc decoding failed; holds the decoder's error text.
    Base58(String),
}

/// Errors generated by this library.
#[derive(Debug)]
pub enum Error {
    /// A base encoded value failed to decode.
    BaseEncoded(BaseEncodedError),
    /// A base encoder failed.
    BaseEncoder(BaseEncoderError),
    /// A varint length prefix failed to decode.
    Multitrait(VarintDecodeError),
    /// A length prefix claims more bytes than the configured maximum.
    InputTooLarge {
        /// The length that the prefix claims.
        claimed: usize,
        /// The maximum that was in force.
        max: usize,
    },
    /// A length prefix claims more bytes than the buffer holds after it.
    InsufficientData {
        /// The length that the prefix claims.
        expected: usize,
        /// The number of bytes that follow the prefix.
        actual: usize,
    },
}

} // verus!
