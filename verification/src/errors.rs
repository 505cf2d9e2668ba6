//! The failure taxonomy of the two subsystems.
//!
//! Every failure carries the plain values a caller needs to diagnose it
//! without re-running; nothing here is retried automatically.

use vstd::prelude::*;

verus! {

/// What went wrong when talking to the relayer service.
#[derive(Debug, PartialEq, Eq, Structural, Clone, Copy)]
pub enum RelayerFault {
    /// The HTTP status was not a success.
    HttpStatus,
    /// The response body was not a JSON document.
    BadJson,
    /// The payload held no relay address.
    MissingRelayAddress,
    /// The relay address did not parse as a 20-byte hex address.
    BadRelayAddress,
}

/// A failed merge attempt.
#[derive(Debug)]
pub enum MergeError {
    /// Both balances were read but their minimum is zero; terminal, not
    /// retried. Carries the two balances as 32-byte big-endian words.
    NothingToMerge { yes: Vec<u8>, no: Vec<u8> },
    /// The derived forwarding-proxy address disagrees with the
    /// configured proxy; fatal unless explicitly overridden.
    ProxyKindMismatch { configured: Vec<u8>, derived: Vec<u8> },
    /// The forwarding-proxy path needs the three relayer credentials
    /// and at least one is absent.
    MissingRelayerCredentials,
    /// A relayer endpoint answered with a non-success status or a
    /// malformed payload; the body is kept for diagnosis.
    RelayerRequestFailed { fault: RelayerFault, body: Vec<u8> },
    /// The relayer secret did not decode as base64.
    SecretDecodeFailed,
    /// A read from the multisig wallet failed; when the failure looks
    /// like a revert, the address may not be a multisig wallet at all.
    WalletReadFailed { hint_not_multisig: bool, message: Vec<u8> },
    /// The submission call itself errored, on chain or at the relayer.
    SubmissionFailed { message: Vec<u8> },
}

/// The simplified reason a leg reported for not filling.
#[derive(Debug)]
pub enum LegFailReason {
    /// The book held no order to match against.
    NoMatchingOrders,
    /// The order could not be filled under its time-in-force policy.
    NotFilled,
    /// Anything else, kept verbatim.
    Other { message: Vec<u8> },
}

/// A failed order-pair attempt.
#[derive(Debug)]
pub enum TradeError {
    /// One or both legs' notional is at or below the venue's floor; the
    /// pair is aborted before any network call. Notionals are in
    /// trillionths of the quote unit (price and size are each in
    /// millionths).
    MinimumNotionalViolation { yes_notional: u128, no_notional: u128 },
    /// The batch submission itself errored; no per-leg interpretation
    /// is attempted.
    SubmissionFailed { message: Vec<u8> },
    /// The batch call did not return exactly two results.
    BatchResultShapeMismatch { count: usize },
    /// Both legs filled zero; the pair failed outright.
    TotalFillFailure { yes_reason: LegFailReason, no_reason: LegFailReason },
}

} // verus!
