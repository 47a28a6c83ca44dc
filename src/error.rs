use vstd::prelude::*;

verus! {

/// Every way in which producing a witness can fail.
#[derive(Debug, Clone, Copy, PartialEq, Eq, Structural)]
pub enum WitnessError {
    /// The key has the wrong byte length for the requested mode.
    InvalidKeyLength,
    /// The IV or nonce has the wrong byte length.
    InvalidIvLength,
    /// A single-block input is not exactly one block long.
    InvalidBlockLength,
    /// A length does not fit the field or limit that carries it.
    LengthOverflow,
    /// The mode is a placeholder with no construction behind it.
    ModeNotImplemented,
    /// The circuit-input schema exists for GCM-SIV only.
    UnsupportedModeForSchema,
    /// The authentication tag did not match on decryption.
    AuthenticationFailed,
}

} // verus!
