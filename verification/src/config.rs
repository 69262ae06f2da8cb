//! Fixed budgets and the per-send configuration handed to the gateway.

use vstd::prelude::*;

verus! {

/// Retries delegated to the transport layer for one send call.
pub const PER_SEND_RETRY_BUDGET: u64 = 0;

/// Outer lease-renewal attempts beyond the first before terminal failure.
pub const GATEWAY_RETRIES: u64 = 10;

/// Confirmation polls per successful broadcast before falling back to resend.
pub const CONFIRM_RETRIES: u64 = 10;

/// Wait, in milliseconds, between block-height or confirmation checks.
pub const POLL_INTERVAL_MS: u64 = 100;

/// Safety margin, in blocks, subtracted from the reference slot to decide
/// whether a blockhash lease has expired.
pub const EXPIRY_MARGIN: u64 = 300;

/// Durability guarantee requested from a ledger query.
#[derive(Debug, Clone, Copy, PartialEq, Eq)]
pub enum Commitment {
    Processed,
    Confirmed,
    Finalized,
}

/// Wire encoding of a submitted transaction.
#[derive(Debug, Clone, Copy, PartialEq, Eq)]
pub enum Encoding {
    Base58,
    Base64,
}

/// Configuration attached to every broadcast of a signed transaction.
#[derive(Debug, Clone, Copy, PartialEq, Eq)]
pub struct SendConfig {
    /// Skip the pre-submission simulation step.
    pub skip_preflight: bool,
    /// Commitment level a (skipped) preflight would run at.
    pub preflight_commitment: Commitment,
    /// Wire encoding of the transaction payload.
    pub encoding: Encoding,
    /// Retries delegated to the transport layer for this send.
    pub max_retries: u64,
    /// Lowest slot the gateway may evaluate the send at.
    pub min_context_slot: u64,
}

impl SendConfig {
    /// The configuration used for every broadcast within the attempt whose
    /// lease was drawn at `slot`: preflight skipped for latency, base-64
    /// payloads, no transport-level retries, and the lease's slot as the
    /// context floor.
    pub fn for_slot(slot: u64) -> (c: SendConfig)
        ensures
            c.skip_preflight,
            c.preflight_commitment is Confirmed,
            c.encoding is Base64,
            c.max_retries == PER_SEND_RETRY_BUDGET,
            c.min_context_slot == slot,
    {
        SendConfig {
            skip_preflight: true,
            preflight_commitment: Commitment::Confirmed,
            encoding: Encoding::Base64,
            max_retries: PER_SEND_RETRY_BUDGET,
            min_context_slot: slot,
        }
    }
}

} // verus!
