//! Proved properties of the orchestrator machine.
//!
//! These are the crate's laws: statements that hold of every run of the
//! machine, established by the verifier rather than by testing.
//! Scenario-shaped properties, stated of chosen inputs, live in the test
//! suite instead.

use vstd::prelude::*;

use crate::config::{EXPIRY_MARGIN, GATEWAY_RETRIES};
use crate::machine::{
    lease_valid_at, run, spec_action, spec_init, spec_step, wf, Action, BlockhashLease,
    ConfirmStatus, Event, Outcome, Signature, State,
};

verus! {

/// A run starts within both budgets.
pub proof fn lemma_init_wf()
    ensures
        wf(spec_init()),
{
}

/// Every transition keeps both budgets in bounds.
pub proof fn lemma_step_preserves_wf(s: State, skip_confirm: bool, ev: Event)
    requires
        wf(s),
    ensures
        wf(spec_step(s, skip_confirm, ev)),
{
}

/// Whole runs keep both budgets in bounds.
pub proof fn lemma_run_preserves_wf(s: State, skip_confirm: bool, evs: Seq<Event>)
    requires
        wf(s),
    ensures
        wf(run(s, skip_confirm, evs)),
    decreases evs.len(),
{
    if evs.len() > 0 {
        lemma_step_preserves_wf(s, skip_confirm, evs[0]);
        lemma_run_preserves_wf(spec_step(s, skip_confirm, evs[0]), skip_confirm, evs.drop_first());
    }
}

/// A reference slot below the safety margin leaves no validity window:
/// the lease counts as expired at every height, with no wrap-around.
pub proof fn lemma_low_slot_already_expired(reference_slot: u64, height: u64)
    requires
        reference_slot < EXPIRY_MARGIN,
    ensures
        !lease_valid_at(reference_slot, height),
{
}

/// With confirmation skipped, a successful broadcast ends the run at
/// once with the signature that broadcast returned.
pub proof fn lemma_skip_confirm_returns_first_signature(
    attempts: u64,
    lease: BlockhashLease,
    signature: Signature,
)
    ensures
        spec_step(State::Sending { attempts, lease }, true, Event::SendSucceeded { signature })
            == (State::Done { outcome: Outcome::Confirmed { signature } }),
{
}

/// With confirmation skipped the machine never starts confirmation: no
/// state of such a run is a confirming state, so the poll action is
/// never requested of the embedding.
pub proof fn lemma_skip_confirm_never_polls(s: State, evs: Seq<Event>)
    requires
        !(s is Confirming),
    ensures
        !(run(s, true, evs) is Confirming),
        spec_action(run(s, true, evs)) != Action::WaitThenPollStatus,
    decreases evs.len(),
{
    if evs.len() > 0 {
        lemma_skip_confirm_never_polls(spec_step(s, true, evs[0]), evs.drop_first());
    }
}

/// A confirmed success ends the run immediately with the confirmed
/// signature, however much of the poll budget is still unspent.
pub proof fn lemma_confirmed_success_returns_immediately(
    attempts: u64,
    lease: BlockhashLease,
    signature: Signature,
    polls: u64,
    skip_confirm: bool,
)
    ensures
        spec_step(
            State::Confirming { attempts, lease, signature, polls },
            skip_confirm,
            Event::StatusRead { status: ConfirmStatus::ConfirmedSuccess },
        ) == (State::Done { outcome: Outcome::Confirmed { signature } }),
{
}

/// The step from `s` on `ev` grants a lease: it answers a pending lease
/// request.
pub open spec fn grants_lease(s: State, ev: Event) -> bool {
    s is Leasing && ev is LeaseAcquired
}

/// The step from `s` on `ev` signs a transaction: it answers a pending
/// build request.
pub open spec fn signs_transaction(s: State, ev: Event) -> bool {
    s is Building && ev is Built
}

/// Leases granted along a run.
pub open spec fn leases_granted(s: State, skip_confirm: bool, evs: Seq<Event>) -> nat
    decreases evs.len(),
{
    if evs.len() == 0 {
        0
    } else {
        (if grants_lease(s, evs[0]) {
            1nat
        } else {
            0nat
        }) + leases_granted(spec_step(s, skip_confirm, evs[0]), skip_confirm, evs.drop_first())
    }
}

/// Transactions signed along a run.
pub open spec fn transactions_signed(s: State, skip_confirm: bool, evs: Seq<Event>) -> nat
    decreases evs.len(),
{
    if evs.len() == 0 {
        0
    } else {
        (if signs_transaction(s, evs[0]) {
            1nat
        } else {
            0nat
        }) + transactions_signed(spec_step(s, skip_confirm, evs[0]), skip_confirm, evs.drop_first())
    }
}

/// How a state relates to the counts of leases granted and transactions
/// signed since the start of a run: every attempt before the current one
/// granted exactly one lease and signed exactly once; the current
/// attempt has its lease once it is past leasing, and its signing once
/// it is past building; and a terminal budget failure has spent the full
/// renewal budget on both.
pub open spec fn attempt_progress(s: State, leases: nat, signed: nat) -> bool {
    &&& wf(s)
    &&& match s {
        State::Leasing { attempts } => leases == attempts && signed == attempts,
        State::Building { attempts, .. } => leases == attempts + 1 && signed == attempts,
        State::CheckingHeight { attempts, .. } => leases == attempts + 1 && signed == attempts
            + 1,
        State::Sending { attempts, .. } => leases == attempts + 1 && signed == attempts + 1,
        State::Confirming { attempts, .. } => leases == attempts + 1 && signed == attempts + 1,
        State::Done { outcome } => outcome is MaxRetriesExceeded ==> (leases == GATEWAY_RETRIES
            + 1 && signed == GATEWAY_RETRIES + 1),
    }
}

proof fn lemma_attempt_progress_step(
    s: State,
    skip_confirm: bool,
    ev: Event,
    leases: nat,
    signed: nat,
)
    requires
        attempt_progress(s, leases, signed),
    ensures
        attempt_progress(
            spec_step(s, skip_confirm, ev),
            leases + (if grants_lease(s, ev) {
                1nat
            } else {
                0nat
            }),
            signed + (if signs_transaction(s, ev) {
                1nat
            } else {
                0nat
            }),
        ),
{
}

/// At every point of every run, the machine has granted exactly one
/// lease per attempt it entered, and signed exactly one transaction per
/// attempt it built in, as [`attempt_progress`] relates them.
pub proof fn lemma_one_lease_one_signing_per_attempt(
    s: State,
    skip_confirm: bool,
    evs: Seq<Event>,
    leases: nat,
    signed: nat,
)
    requires
        attempt_progress(s, leases, signed),
    ensures
        attempt_progress(
            run(s, skip_confirm, evs),
            leases + leases_granted(s, skip_confirm, evs),
            signed + transactions_signed(s, skip_confirm, evs),
        ),
    decreases evs.len(),
{
    if evs.len() > 0 {
        lemma_attempt_progress_step(s, skip_confirm, evs[0], leases, signed);
        lemma_one_lease_one_signing_per_attempt(
            spec_step(s, skip_confirm, evs[0]),
            skip_confirm,
            evs.drop_first(),
            leases + (if grants_lease(s, evs[0]) {
                1nat
            } else {
                0nat
            }),
            signed + (if signs_transaction(s, evs[0]) {
                1nat
            } else {
                0nat
            }),
        );
    }
}

/// A run from the initial state that ends in `MaxRetriesExceeded`
/// granted exactly `GATEWAY_RETRIES + 1` leases and signed exactly
/// `GATEWAY_RETRIES + 1` transactions: one per outer attempt, never
/// fewer, never more.
pub proof fn lemma_max_retries_spends_full_budget(skip_confirm: bool, evs: Seq<Event>)
    requires
        run(spec_init(), skip_confirm, evs) == (State::Done {
            outcome: Outcome::MaxRetriesExceeded,
        }),
    ensures
        leases_granted(spec_init(), skip_confirm, evs) == GATEWAY_RETRIES + 1,
        transactions_signed(spec_init(), skip_confirm, evs) == GATEWAY_RETRIES + 1,
{
    lemma_one_lease_one_signing_per_attempt(spec_init(), skip_confirm, evs, 0, 0);
}

/// The event is not a successful broadcast.
pub open spec fn is_not_send_success(ev: Event) -> bool {
    !(ev is SendSucceeded)
}

/// No broadcast succeeds anywhere along `evs`.
pub open spec fn no_send_succeeded(evs: Seq<Event>) -> bool {
    forall|i: int| 0 <= i < evs.len() ==> is_not_send_success(evs[i])
}

/// The run reached a confirmed outcome.
pub open spec fn is_confirmed(s: State) -> bool {
    s matches State::Done { outcome: Outcome::Confirmed { .. } }
}

/// If every broadcast fails, the run never confirms anything and never
/// even starts confirmation: the only terminal outcome it can reach is
/// `MaxRetriesExceeded`.
pub proof fn lemma_all_sends_fail_never_confirms(s: State, skip_confirm: bool, evs: Seq<Event>)
    requires
        no_send_succeeded(evs),
        !(s is Confirming),
        !is_confirmed(s),
    ensures
        !(run(s, skip_confirm, evs) is Confirming),
        !is_confirmed(run(s, skip_confirm, evs)),
    decreases evs.len(),
{
    if evs.len() > 0 {
        assert(is_not_send_success(evs[0]));
        assert forall|i: int|
            0 <= i < evs.drop_first().len() implies is_not_send_success(
            evs.drop_first()[i],
        ) by {
            assert(evs.drop_first()[i] == evs[i + 1]);
        }
        lemma_all_sends_fail_never_confirms(
            spec_step(s, skip_confirm, evs[0]),
            skip_confirm,
            evs.drop_first(),
        );
    }
}

/// The lease-carrying states of an attempt.
pub open spec fn carries_lease(s: State) -> bool {
    s is Building || s is CheckingHeight || s is Sending || s is Confirming
}

/// The attempt index of a non-terminal state.
pub open spec fn attempt_of(s: State) -> u64
    recommends
        !(s is Done),
{
    match s {
        State::Leasing { attempts } => attempts,
        State::Building { attempts, .. } => attempts,
        State::CheckingHeight { attempts, .. } => attempts,
        State::Sending { attempts, .. } => attempts,
        State::Confirming { attempts, .. } => attempts,
        State::Done { .. } => 0,
    }
}

/// The lease of a lease-carrying state.
pub open spec fn lease_of(s: State) -> BlockhashLease
    recommends
        carries_lease(s),
{
    match s {
        State::Building { lease, .. } => lease,
        State::CheckingHeight { lease, .. } => lease,
        State::Sending { lease, .. } => lease,
        State::Confirming { lease, .. } => lease,
        _ => arbitrary(),
    }
}

/// Within an attempt the lease never changes: a step out of a
/// lease-carrying state stays in the same attempt with the same lease,
/// or moves on to leasing for the next attempt, or ends the run.  A
/// transaction signed under one lease is therefore never broadcast or
/// confirmed under another.
pub proof fn lemma_lease_stable_within_attempt(s: State, skip_confirm: bool, ev: Event)
    requires
        carries_lease(s),
    ensures
        ({
            let s2 = spec_step(s, skip_confirm, ev);
            ||| (carries_lease(s2) && lease_of(s2) == lease_of(s) && attempt_of(s2)
                == attempt_of(s))
            ||| (s2 is Leasing && attempt_of(s2) == attempt_of(s) + 1)
            ||| s2 is Done
        }),
{
}

/// A confirming state holds only the signature of a broadcast made in
/// the same attempt under the same lease: confirmation is entered from a
/// successful send with a fresh poll budget, and every later confirming
/// state carries that signature unchanged.
pub proof fn lemma_confirmed_signature_is_current(s: State, skip_confirm: bool, ev: Event)
    ensures
        spec_step(s, skip_confirm, ev) matches State::Confirming {
            attempts,
            lease,
            signature,
            polls,
        } ==> ((polls == 0 && s == (State::Sending { attempts, lease }) && ev
            == (Event::SendSucceeded { signature })) || (polls >= 1 && s == (State::Confirming {
            attempts,
            lease,
            signature,
            polls: (polls - 1) as u64,
        })) || s == (State::Confirming { attempts, lease, signature, polls })),
{
}

/// The run fails terminally only once the renewal budget is spent: the
/// failing step reads an expired height in the last allowed attempt.
pub proof fn lemma_terminal_failure_only_after_full_budget(s: State, skip_confirm: bool, ev: Event)
    requires
        wf(s),
        !(s is Done),
    ensures
        (spec_step(s, skip_confirm, ev) == (State::Done { outcome: Outcome::MaxRetriesExceeded }))
            <==> ({
            &&& s matches State::CheckingHeight { attempts, lease }
            &&& attempts == GATEWAY_RETRIES
            &&& ev matches Event::HeightRead { height } && !lease_valid_at(
                lease.reference_slot,
                height,
            )
        }),
{
}

/// Some successful broadcast along `evs` returned the signature `g`.
pub open spec fn some_send_returned(evs: Seq<Event>, g: Signature) -> bool {
    exists|i: int| 0 <= i < evs.len() && evs[i] == (Event::SendSucceeded { signature: g })
}

/// The state holds `g` as the signature being confirmed or returned.
pub open spec fn carries_signature(s: State, g: Signature) -> bool {
    ||| s matches State::Confirming { signature, .. } && signature == g
    ||| s matches State::Done { outcome: Outcome::Confirmed { signature } } && signature == g
}

/// Provenance of the returned signature: a signature that a run comes to
/// confirm or return, and was not already carrying at the start, was
/// returned by a successful broadcast along that run.  The caller is
/// never handed a signature the gateway did not produce.
pub proof fn lemma_confirmed_signature_came_from_a_send(
    s: State,
    skip_confirm: bool,
    evs: Seq<Event>,
    g: Signature,
)
    requires
        carries_signature(run(s, skip_confirm, evs), g),
        !carries_signature(s, g),
    ensures
        some_send_returned(evs, g),
    decreases evs.len(),
{
    let s1 = spec_step(s, skip_confirm, evs[0]);
    if carries_signature(s1, g) {
        assert(some_send_returned(evs, g)) by {
            assert(evs[0] == (Event::SendSucceeded { signature: g }));
        }
    } else {
        lemma_confirmed_signature_came_from_a_send(s1, skip_confirm, evs.drop_first(), g);
        let i = choose|i: int|
            0 <= i < evs.drop_first().len() && evs.drop_first()[i] == (Event::SendSucceeded {
                signature: g,
            });
        assert(some_send_returned(evs, g)) by {
            assert(evs[i + 1] == (Event::SendSucceeded { signature: g }));
        }
    }
}

/// The event `ev` keeps the broadcast loop of a lease alive: any height
/// it reports lies inside the lease's validity window, and it is not a
/// successful broadcast.
pub open spec fn keeps_window(lease: BlockhashLease, ev: Event) -> bool {
    &&& (ev matches Event::HeightRead { height } ==> lease_valid_at(lease.reference_slot, height))
    &&& !(ev is SendSucceeded)
}

/// Every event along `evs` keeps the broadcast loop of `lease` alive.
pub open spec fn stays_in_window(lease: BlockhashLease, evs: Seq<Event>) -> bool {
    forall|i: int| 0 <= i < evs.len() ==> keeps_window(lease, evs[i])
}

/// While the block height stays inside the lease's validity window and
/// no broadcast succeeds, the machine never leaves the broadcast loop:
/// it neither terminates nor renews the lease, however long the run.
pub proof fn lemma_broadcast_loop_never_exits(
    attempts: u64,
    lease: BlockhashLease,
    skip_confirm: bool,
    evs: Seq<Event>,
    s: State,
)
    requires
        stays_in_window(lease, evs),
        s == (State::CheckingHeight { attempts, lease }) || s == (State::Sending {
            attempts,
            lease,
        }),
    ensures
        run(s, skip_confirm, evs) == (State::CheckingHeight { attempts, lease }) || run(
            s,
            skip_confirm,
            evs,
        ) == (State::Sending { attempts, lease }),
    decreases evs.len(),
{
    if evs.len() > 0 {
        assert(keeps_window(lease, evs[0]));
        assert forall|i: int|
            0 <= i < evs.drop_first().len() implies keeps_window(lease, evs.drop_first()[i]) by {
            assert(evs.drop_first()[i] == evs[i + 1]);
        }
        lemma_broadcast_loop_never_exits(
            attempts,
            lease,
            skip_confirm,
            evs.drop_first(),
            spec_step(s, skip_confirm, evs[0]),
        );
    }
}

} // verus!

