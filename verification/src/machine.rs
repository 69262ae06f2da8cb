//! The retry/confirmation orchestrator as a pure state machine.
//!
//! One call to submit a set of instructions is a run of this machine.
//! The machine never performs an outside effect itself: from each state
//! it requests one [`Action`]; the embedding performs the action against
//! the gateway and feeds the observation back as an [`Event`].  Every
//! decision — lease expiry, both retry budgets, success and failure
//! classification — is taken by [`step`], whose behaviour is pinned down
//! exactly by [`spec_step`].
//!
//! A run starts in `Leasing` and is strictly sequential: at most one
//! transaction is in flight for confirmation at a time, and a fresh
//! attempt always discards the prior lease rather than reusing it.

use vstd::prelude::*;

use crate::config::{CONFIRM_RETRIES, EXPIRY_MARGIN, GATEWAY_RETRIES};

verus! {

/// A recent blockhash, carried as the raw bytes the ledger reports.
#[derive(Debug, Clone, PartialEq, Eq)]
pub struct Blockhash {
    pub bytes: Vec<u8>,
}

/// The signature identifying a submitted transaction, as raw bytes.
#[derive(Debug, Clone, PartialEq, Eq)]
pub struct Signature {
    pub bytes: Vec<u8>,
}

/// A time-bounded blockhash lease: a hash together with the slot it was
/// drawn at.  The lease backs exactly one outer attempt.
#[derive(Debug, Clone, PartialEq, Eq)]
pub struct BlockhashLease {
    pub hash: Blockhash,
    pub reference_slot: u64,
}

/// A lease drawn at `reference_slot` is still usable at block height
/// `height` while the height has not passed `reference_slot` less the
/// safety margin.  A reference slot below the margin leaves no window at
/// all: the lease counts as already expired, it does not wrap around.
pub open spec fn lease_valid_at(reference_slot: u64, height: u64) -> bool {
    reference_slot >= EXPIRY_MARGIN && height <= reference_slot - EXPIRY_MARGIN
}

impl BlockhashLease {
    /// [`lease_valid_at`] of this lease's reference slot.
    pub open spec fn spec_valid_at(&self, height: u64) -> bool {
        lease_valid_at(self.reference_slot, height)
    }

    /// Decides whether the lease is still usable at `height`.
    pub fn valid_at(&self, height: u64) -> (r: bool)
        ensures
            r == self.spec_valid_at(height),
    {
        self.reference_slot >= EXPIRY_MARGIN && height <= self.reference_slot - EXPIRY_MARGIN
    }
}

/// The status the confirmation poller reports for a signature.  The
/// three outcomes stay distinguishable end to end, even though the
/// orchestrator reacts to `Unseen` and `ConfirmedFailure` alike.
#[derive(Debug, Clone, Copy, PartialEq, Eq)]
pub enum ConfirmStatus {
    /// The queried node has not observed the transaction yet.
    Unseen,
    /// Confirmed, and executed without error.
    ConfirmedSuccess,
    /// Confirmed, but execution ended in an on-chain error.
    ConfirmedFailure,
}

/// What the embedding observed after performing the requested action.
#[derive(Debug, Clone, PartialEq, Eq)]
pub enum Event {
    /// A fresh (blockhash, reference slot) pair was fetched.
    LeaseAcquired { lease: BlockhashLease },
    /// The transaction was assembled and signed against the current lease.
    Built,
    /// The current block height was read.
    HeightRead { height: u64 },
    /// The broadcast was accepted and returned a signature.
    SendSucceeded { signature: Signature },
    /// The broadcast was rejected or failed on the wire.
    SendFailed,
    /// A confirmation poll returned a status.
    StatusRead { status: ConfirmStatus },
    /// A confirmation poll itself failed at the transport layer.
    PollFailed,
}

/// What the embedding must do next.  Each `Wait…` action pauses for the
/// poll interval before performing the read, yielding the executor.
#[derive(Debug, Clone, Copy, PartialEq, Eq)]
pub enum Action {
    /// Fetch a fresh blockhash lease at confirmed commitment.
    AcquireLease,
    /// Assemble and sign the transaction against the current lease.
    BuildAndSign,
    /// Wait one poll interval, then read the current block height.
    WaitThenReadHeight,
    /// Broadcast the signed transaction of the current attempt.
    SendTransaction,
    /// Wait one poll interval, then poll the current signature's status.
    WaitThenPollStatus,
    /// The run is over; report the outcome.
    Finish,
}

/// The terminal result of a run.
#[derive(Debug, Clone, PartialEq, Eq)]
pub enum Outcome {
    /// A broadcast succeeded and, unless confirmation was skipped, the
    /// network confirmed successful execution under this signature.
    Confirmed { signature: Signature },
    /// Every outer attempt's lease expired before a confirmed success.
    MaxRetriesExceeded,
}

/// The orchestrator's state: which observation it is waiting for, and
/// the data of the current attempt.  `attempts` counts completed lease
/// renewals, so the first attempt runs with `attempts == 0`.
#[derive(Debug, Clone, PartialEq, Eq)]
pub enum State {
    /// Waiting for a fresh lease.
    Leasing { attempts: u64 },
    /// Waiting for the transaction to be built and signed.
    Building { attempts: u64, lease: BlockhashLease },
    /// Waiting for a block-height reading to re-check the lease.
    CheckingHeight { attempts: u64, lease: BlockhashLease },
    /// Waiting for the result of a broadcast.
    Sending { attempts: u64, lease: BlockhashLease },
    /// Waiting for a confirmation poll; `polls` of the budget are spent.
    Confirming { attempts: u64, lease: BlockhashLease, signature: Signature, polls: u64 },
    /// Terminal.
    Done { outcome: Outcome },
}

/// The initial state: about to lease for the first attempt.
pub open spec fn spec_init() -> State {
    State::Leasing { attempts: 0 }
}

/// Starts a run.
pub fn init() -> (s: State)
    ensures
        s == spec_init(),
{
    State::Leasing { attempts: 0 }
}

/// The transition function.  An event that does not answer the pending
/// action leaves the state unchanged, and a terminal state absorbs every
/// event; on a matching event:
///
/// - a fresh lease moves the machine on to building;
/// - a height reading either keeps the attempt alive (the lease is still
///   valid, so broadcast), or ends the attempt: the next lease is drawn,
///   unless the renewal budget is spent, in which case the run fails;
/// - a successful broadcast returns at once when confirmation is
///   skipped, and otherwise opens a fresh confirmation budget;
/// - a failed broadcast goes back to the height check;
/// - a confirmed success ends the run with the current signature; any
///   other poll outcome spends one unit of the confirmation budget, and
///   a spent budget falls back to the broadcast loop.
pub open spec fn spec_step(s: State, skip_confirm: bool, ev: Event) -> State {
    match (s, ev) {
        (State::Leasing { attempts }, Event::LeaseAcquired { lease }) => State::Building {
            attempts,
            lease,
        },
        (State::Building { attempts, lease }, Event::Built) => State::CheckingHeight {
            attempts,
            lease,
        },
        (State::CheckingHeight { attempts, lease }, Event::HeightRead { height }) => {
            if lease_valid_at(lease.reference_slot, height) {
                State::Sending { attempts, lease }
            } else if attempts < GATEWAY_RETRIES {
                State::Leasing { attempts: (attempts + 1) as u64 }
            } else {
                State::Done { outcome: Outcome::MaxRetriesExceeded }
            }
        },
        (State::Sending { attempts, lease }, Event::SendSucceeded { signature }) => {
            if skip_confirm {
                State::Done { outcome: Outcome::Confirmed { signature } }
            } else {
                State::Confirming { attempts, lease, signature, polls: 0 }
            }
        },
        (State::Sending { attempts, lease }, Event::SendFailed) => State::CheckingHeight {
            attempts,
            lease,
        },
        (State::Confirming { attempts, lease, signature, polls }, Event::StatusRead { status }) => {
            if status is ConfirmedSuccess {
                State::Done { outcome: Outcome::Confirmed { signature } }
            } else if polls + 1 < CONFIRM_RETRIES {
                State::Confirming { attempts, lease, signature, polls: (polls + 1) as u64 }
            } else {
                State::CheckingHeight { attempts, lease }
            }
        },
        (State::Confirming { attempts, lease, signature, polls }, Event::PollFailed) => {
            if polls + 1 < CONFIRM_RETRIES {
                State::Confirming { attempts, lease, signature, polls: (polls + 1) as u64 }
            } else {
                State::CheckingHeight { attempts, lease }
            }
        },
        (s0, _) => s0,
    }
}

/// Performs one transition; behaves exactly as [`spec_step`] says.
pub fn step(s: State, skip_confirm: bool, ev: Event) -> (r: State)
    ensures
        r == spec_step(s, skip_confirm, ev),
{
    match (s, ev) {
        (State::Leasing { attempts }, Event::LeaseAcquired { lease }) => State::Building {
            attempts,
            lease,
        },
        (State::Building { attempts, lease }, Event::Built) => State::CheckingHeight {
            attempts,
            lease,
        },
        (State::CheckingHeight { attempts, lease }, Event::HeightRead { height }) => {
            if lease.valid_at(height) {
                State::Sending { attempts, lease }
            } else if attempts < GATEWAY_RETRIES {
                State::Leasing { attempts: attempts + 1 }
            } else {
                State::Done { outcome: Outcome::MaxRetriesExceeded }
            }
        },
        (State::Sending { attempts, lease }, Event::SendSucceeded { signature }) => {
            if skip_confirm {
                State::Done { outcome: Outcome::Confirmed { signature } }
            } else {
                State::Confirming { attempts, lease, signature, polls: 0 }
            }
        },
        (State::Sending { attempts, lease }, Event::SendFailed) => State::CheckingHeight {
            attempts,
            lease,
        },
        (State::Confirming { attempts, lease, signature, polls }, Event::StatusRead { status }) => {
            if matches!(status, ConfirmStatus::ConfirmedSuccess) {
                State::Done { outcome: Outcome::Confirmed { signature } }
            } else if polls < CONFIRM_RETRIES - 1 {
                State::Confirming { attempts, lease, signature, polls: polls + 1 }
            } else {
                State::CheckingHeight { attempts, lease }
            }
        },
        (State::Confirming { attempts, lease, signature, polls }, Event::PollFailed) => {
            if polls < CONFIRM_RETRIES - 1 {
                State::Confirming { attempts, lease, signature, polls: polls + 1 }
            } else {
                State::CheckingHeight { attempts, lease }
            }
        },
        (s0, _) => s0,
    }
}

/// The action pending in each state.
pub open spec fn spec_action(s: State) -> Action {
    match s {
        State::Leasing { .. } => Action::AcquireLease,
        State::Building { .. } => Action::BuildAndSign,
        State::CheckingHeight { .. } => Action::WaitThenReadHeight,
        State::Sending { .. } => Action::SendTransaction,
        State::Confirming { .. } => Action::WaitThenPollStatus,
        State::Done { .. } => Action::Finish,
    }
}

/// Reports what the embedding must do next.
pub fn action_of(s: &State) -> (a: Action)
    ensures
        a == spec_action(*s),
{
    match s {
        State::Leasing { .. } => Action::AcquireLease,
        State::Building { .. } => Action::BuildAndSign,
        State::CheckingHeight { .. } => Action::WaitThenReadHeight,
        State::Sending { .. } => Action::SendTransaction,
        State::Confirming { .. } => Action::WaitThenPollStatus,
        State::Done { .. } => Action::Finish,
    }
}

/// Both budgets stay in bounds: completed renewals never exceed the
/// renewal budget, and spent polls stay below the confirmation budget.
pub open spec fn wf(s: State) -> bool {
    match s {
        State::Leasing { attempts } => attempts <= GATEWAY_RETRIES,
        State::Building { attempts, .. } => attempts <= GATEWAY_RETRIES,
        State::CheckingHeight { attempts, .. } => attempts <= GATEWAY_RETRIES,
        State::Sending { attempts, .. } => attempts <= GATEWAY_RETRIES,
        State::Confirming { attempts, polls, .. } => attempts <= GATEWAY_RETRIES && polls
            < CONFIRM_RETRIES,
        State::Done { .. } => true,
    }
}

/// The state a run reaches from `s` after consuming `evs` in order.
pub open spec fn run(s: State, skip_confirm: bool, evs: Seq<Event>) -> State
    decreases evs.len(),
{
    if evs.len() == 0 {
        s
    } else {
        run(spec_step(s, skip_confirm, evs[0]), skip_confirm, evs.drop_first())
    }
}

/// Consumes a recorded event sequence in order, front to back.
pub fn run_events(s: State, skip_confirm: bool, evs: Vec<Event>) -> (r: State)
    ensures
        r == run(s, skip_confirm, evs@),
{
    let ghost evs0 = evs@;
    let ghost s0 = s;
    let mut evs = evs;
    let mut cur = s;
    while evs.len() > 0
        invariant
            run(cur, skip_confirm, evs@) == run(s0, skip_confirm, evs0),
        decreases evs@.len(),
    {
        let ev = evs.remove(0);
        cur = step(cur, skip_confirm, ev);
    }
    cur
}

} // verus!
