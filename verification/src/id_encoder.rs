//! Sequence-number obfuscation.
//!
//! Numeric database ids are not exposed raw; an encoder turns them into an
//! opaque string and back. The encodings themselves are supplied by the
//! user of this trait.

use vstd::prelude::*;

verus! {

/// Why an id could not be encoded or decoded.
#[derive(Clone, Debug)]
pub enum IdEncoderError {
    InvalidConfig(String),
    InvalidObfuscatedId(String),
}

/// Sequence number obfuscation.
pub trait IdEncoder: 'static + Send + Sync {
    fn obfuscate(&self, id: u64) -> Result<String, IdEncoderError>;

    fn deobfuscate(&self, id: &str) -> Result<u64, IdEncoderError>;
}

} // verus!
