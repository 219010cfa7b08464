use vstd::prelude::*;

verus! {

/// Faults in process configuration: a master key that does not decode or has
/// the wrong length, or a requested expiry that cannot be represented.
#[derive(Clone, Copy, Debug, PartialEq, Eq, Structural)]
pub enum ConfigError {
    MasterKeyEncoding,
    MasterKeyLength,
    ExpiryOverflow,
}

/// Faults while producing a fresh ciphertext: the system's random source
/// failed, or the cipher refused to seal.
#[derive(Clone, Copy, Debug, PartialEq, Eq, Structural)]
pub enum CryptoError {
    RandomSource,
    Seal,
}

/// The authentication tag did not verify: tampered data, a wrong key, or
/// corrupted storage. An internal integrity fault, never a user-facing one.
#[derive(Clone, Copy, Debug, PartialEq, Eq, Structural)]
pub struct DecryptionError;

/// Why an access token was rejected. Distinguished internally for logging,
/// but surfaced to callers uniformly as unauthorized.
#[derive(Clone, Copy, Debug, PartialEq, Eq, Structural)]
pub enum AuthError {
    Malformed,
    Expired,
    BadSignature,
}

/// Why a login (code exchange already done) could not complete.
#[derive(Clone, Copy, Debug, PartialEq, Eq, Structural)]
pub enum LoginError {
    /// The provider's profile lacks a required field (email or secondary id).
    IncompleteProfile,
    /// The requested expiry cannot be represented.
    Config,
    /// Sealing a provider token failed.
    Crypto,
    /// The freshly drawn refresh-token hash collided with a stored one.
    Storage,
}

/// Why a refresh-token rotation failed. An unknown and an expired token are
/// reported identically, to give an attacker no oracle between the two.
#[derive(Clone, Copy, Debug, PartialEq, Eq, Structural)]
pub enum RotateError {
    InvalidRefreshToken,
    Config,
    Storage,
}

/// Why a profile lookup with a bearer token failed.
#[derive(Clone, Copy, Debug, PartialEq, Eq, Structural)]
pub enum MeError {
    MissingAuthorization,
    MalformedAuthorization,
    InvalidToken,
    NotFound,
}

/// The authorization URL could not be built from this configuration.
#[derive(Clone, Copy, Debug, PartialEq, Eq, Structural)]
pub struct UrlError;

} // verus!
