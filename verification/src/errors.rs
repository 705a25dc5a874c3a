//! The discrete error codes of the engine.
//!
//! Every entry point aborts with one of these codes and zero state change;
//! no partial mutation is ever observable after a failure.

use vstd::prelude::*;

verus! {

/// Why an entry point refused to act.
#[derive(Clone, Copy, Debug, PartialEq, Eq, Structural)]
pub enum WalletError {
    /// Authorization is missing or supplied data does not fit the action.
    InvalidOperation,
    /// The guardian registry is full.
    LimitExceeded,
    /// There is no guardian to remove.
    GuardianError,
    /// The wallet configuration is invalid.
    InvalidConfig,
    /// An owner guardian needs a signing key.
    WebAuthnNotConfigured,
    /// A name or identifier exceeds its size limit.
    NameTooLong,
    /// The presented recovery proof does not match the stored digest.
    InvalidRecoveryKey,
    /// The nonce is not the successor of the wallet's transaction nonce.
    InvalidNonce,
    /// The timestamp lies too far in the future.
    FutureTimestamp,
    /// The timestamp precedes the last executed transaction.
    OutdatedTimestamp,
    /// The timestamp lies too far in the past.
    ExpiredTimestamp,
    /// No signature-verification call was co-submitted.
    InstructionMissing,
    /// The co-submitted call does not target the verification precompile.
    InvalidSignatureVerification,
    /// The verified public key differs from the stored one.
    PublicKeyMismatch,
    /// The signed message differs from the reconstructed binding.
    MessageMismatch,
    /// The verification call's payload is malformed.
    InvalidInstructionData,
    /// The verification call does not carry exactly one signature.
    InvalidSignatureCount,
    /// The requested action is not supported.
    UnsupportedAction,
    /// No guardian with the given identifier exists.
    InvalidGuardian,
    /// The guardian is deactivated.
    InactiveGuardian,
    /// Crediting the destination would overflow its balance.
    ArithmeticOverflow,
    /// The wallet balance cannot cover the amount.
    InsufficientFunds,
}

} // verus!
