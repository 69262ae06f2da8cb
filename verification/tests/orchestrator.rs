use submitter::config::{CONFIRM_RETRIES, GATEWAY_RETRIES};
use submitter::machine::{
    action_of, init, run_events, step, Action, Blockhash, BlockhashLease, ConfirmStatus, Event,
    Outcome, Signature, State,
};

fn lease(tag: u8, slot: u64) -> BlockhashLease {
    BlockhashLease { hash: Blockhash { bytes: vec![tag; 32] }, reference_slot: slot }
}

fn sig(tag: u8) -> Signature {
    Signature { bytes: vec![tag; 64] }
}

#[test]
fn skip_confirm_returns_first_signature_without_polling() {
    // skipConfirm = true and the first broadcast succeeds: the call returns
    // that signature at once and the confirmation poller is never invoked.
    let mut s = init();
    let mut polled = false;

    assert_eq!(action_of(&s), Action::AcquireLease);
    s = step(s, true, Event::LeaseAcquired { lease: lease(1, 1000) });
    polled = polled || action_of(&s) == Action::WaitThenPollStatus;
    s = step(s, true, Event::Built);
    polled = polled || action_of(&s) == Action::WaitThenPollStatus;
    s = step(s, true, Event::HeightRead { height: 600 });
    polled = polled || action_of(&s) == Action::WaitThenPollStatus;
    assert_eq!(action_of(&s), Action::SendTransaction);
    s = step(s, true, Event::SendSucceeded { signature: sig(7) });
    polled = polled || action_of(&s) == Action::WaitThenPollStatus;

    assert!(!polled);
    assert_eq!(action_of(&s), Action::Finish);
    match s {
        State::Done { outcome: Outcome::Confirmed { signature } } => {
            assert_eq!(signature, sig(7));
        }
        other => panic!("expected a confirmed outcome, got {:?}", other),
    }
}

#[test]
fn broadcaster_always_failing_exhausts_renewal_budget_exactly() {
    // Every broadcast fails; every lease eventually expires.  The run ends
    // in MaxRetriesExceeded after exactly GATEWAY_RETRIES + 1 lease
    // acquisitions, never fewer, never more.
    let mut s = init();
    let mut leases_granted: u64 = 0;
    let mut signings: u64 = 0;
    let mut sends: u64 = 0;
    let mut expire_next = false;

    loop {
        match action_of(&s) {
            Action::AcquireLease => {
                leases_granted += 1;
                expire_next = false;
                s = step(s, false, Event::LeaseAcquired { lease: lease(leases_granted as u8, 1000) });
            }
            Action::BuildAndSign => {
                signings += 1;
                s = step(s, false, Event::Built);
            }
            Action::WaitThenReadHeight => {
                let height = if expire_next { 701 } else { 600 };
                s = step(s, false, Event::HeightRead { height });
            }
            Action::SendTransaction => {
                sends += 1;
                expire_next = true;
                s = step(s, false, Event::SendFailed);
            }
            Action::WaitThenPollStatus => panic!("no broadcast ever succeeded"),
            Action::Finish => break,
        }
    }

    assert_eq!(leases_granted, GATEWAY_RETRIES + 1);
    assert_eq!(signings, GATEWAY_RETRIES + 1);
    assert_eq!(sends, GATEWAY_RETRIES + 1);
    assert!(matches!(s, State::Done { outcome: Outcome::MaxRetriesExceeded }));
}

#[test]
fn each_attempt_signs_once_against_its_own_lease() {
    // One lease and one signing per outer attempt, and the transaction
    // broadcast in an attempt is the one built from that attempt's lease.
    let mut s = init();
    let mut acquired: Vec<(u64, Vec<u8>)> = Vec::new();
    let mut built: Vec<(u64, Vec<u8>)> = Vec::new();
    let mut sent: Vec<(u64, Vec<u8>)> = Vec::new();
    let mut next_tag: u8 = 0;
    let mut expire_next = false;

    loop {
        match action_of(&s) {
            Action::AcquireLease => {
                let attempts = match &s {
                    State::Leasing { attempts } => *attempts,
                    other => panic!("lease requested outside Leasing: {:?}", other),
                };
                next_tag += 1;
                expire_next = false;
                acquired.push((attempts, vec![next_tag; 32]));
                s = step(s, false, Event::LeaseAcquired { lease: lease(next_tag, 1000) });
            }
            Action::BuildAndSign => {
                match &s {
                    State::Building { attempts, lease } => {
                        built.push((*attempts, lease.hash.bytes.clone()));
                    }
                    other => panic!("build requested outside Building: {:?}", other),
                }
                s = step(s, false, Event::Built);
            }
            Action::WaitThenReadHeight => {
                let height = if expire_next { 701 } else { 600 };
                s = step(s, false, Event::HeightRead { height });
            }
            Action::SendTransaction => {
                match &s {
                    State::Sending { attempts, lease } => {
                        sent.push((*attempts, lease.hash.bytes.clone()));
                    }
                    other => panic!("send requested outside Sending: {:?}", other),
                }
                expire_next = true;
                s = step(s, false, Event::SendFailed);
            }
            Action::WaitThenPollStatus => panic!("no broadcast ever succeeded"),
            Action::Finish => break,
        }
    }

    assert_eq!(acquired.len(), (GATEWAY_RETRIES + 1) as usize);
    assert_eq!(built, acquired);
    assert_eq!(sent, acquired);
    // Attempt indices are 0..=GATEWAY_RETRIES, each exactly once.
    for (i, (attempts, _)) in acquired.iter().enumerate() {
        assert_eq!(*attempts, i as u64);
    }
}

#[test]
fn confirmation_stops_at_first_confirmed_success() {
    // Polling returns unseen twice and a transport error once, then a
    // confirmed success: the run ends immediately, without consuming the
    // rest of the poll budget.
    let mut s = init();
    s = step(s, false, Event::LeaseAcquired { lease: lease(1, 1000) });
    s = step(s, false, Event::Built);
    s = step(s, false, Event::HeightRead { height: 600 });
    s = step(s, false, Event::SendSucceeded { signature: sig(9) });

    assert_eq!(action_of(&s), Action::WaitThenPollStatus);
    s = step(s, false, Event::StatusRead { status: ConfirmStatus::Unseen });
    s = step(s, false, Event::PollFailed);
    s = step(s, false, Event::StatusRead { status: ConfirmStatus::Unseen });
    match &s {
        State::Confirming { polls, .. } => assert_eq!(*polls, 3),
        other => panic!("expected to still be confirming, got {:?}", other),
    }

    s = step(s, false, Event::StatusRead { status: ConfirmStatus::ConfirmedSuccess });
    match s {
        State::Done { outcome: Outcome::Confirmed { signature } } => {
            assert_eq!(signature, sig(9));
        }
        other => panic!("expected a confirmed outcome, got {:?}", other),
    }
}

#[test]
fn exhausted_confirmation_budget_falls_back_to_broadcasting() {
    // CONFIRM_RETRIES polls without a confirmed success resume the
    // broadcast loop of the same attempt, with the same lease.
    let mut s = init();
    s = step(s, false, Event::LeaseAcquired { lease: lease(4, 1000) });
    s = step(s, false, Event::Built);
    s = step(s, false, Event::HeightRead { height: 600 });
    s = step(s, false, Event::SendSucceeded { signature: sig(9) });

    let mut polls_answered: u64 = 0;
    while action_of(&s) == Action::WaitThenPollStatus {
        s = step(s, false, Event::StatusRead { status: ConfirmStatus::ConfirmedFailure });
        polls_answered += 1;
        assert!(polls_answered <= CONFIRM_RETRIES);
    }

    assert_eq!(polls_answered, CONFIRM_RETRIES);
    match s {
        State::CheckingHeight { attempts, lease } => {
            assert_eq!(attempts, 0);
            assert_eq!(lease.hash.bytes, vec![4u8; 32]);
        }
        other => panic!("expected to resume the broadcast loop, got {:?}", other),
    }
}

#[test]
fn single_attempt_send_retry_then_confirmed() {
    // A lease drawn at slot 1000: the first broadcast fails, the second,
    // still inside the validity window, succeeds with signature S, and the
    // first poll confirms success.  The overall result is S, within one
    // outer attempt.
    let mut s = init();
    s = step(s, false, Event::LeaseAcquired { lease: lease(2, 1000) });
    s = step(s, false, Event::Built);

    s = step(s, false, Event::HeightRead { height: 600 });
    assert_eq!(action_of(&s), Action::SendTransaction);
    s = step(s, false, Event::SendFailed);

    assert_eq!(action_of(&s), Action::WaitThenReadHeight);
    s = step(s, false, Event::HeightRead { height: 700 });
    assert_eq!(action_of(&s), Action::SendTransaction);
    s = step(s, false, Event::SendSucceeded { signature: sig(5) });

    s = step(s, false, Event::StatusRead { status: ConfirmStatus::ConfirmedSuccess });
    match s {
        State::Done { outcome: Outcome::Confirmed { signature } } => {
            assert_eq!(signature, sig(5));
        }
        other => panic!("expected a confirmed outcome, got {:?}", other),
    }
}

#[test]
fn valid_lease_with_failing_sends_never_terminates() {
    // The block height stays inside the validity window and every send
    // fails: the inner loop never exits via expiry, so the run neither
    // terminates nor renews the lease over any bounded number of steps.
    let mut s = init();
    s = step(s, false, Event::LeaseAcquired { lease: lease(3, 1000) });
    s = step(s, false, Event::Built);

    for _ in 0..500 {
        match action_of(&s) {
            Action::WaitThenReadHeight => {
                s = step(s, false, Event::HeightRead { height: 650 });
            }
            Action::SendTransaction => {
                s = step(s, false, Event::SendFailed);
            }
            other => panic!("left the broadcast loop via {:?}", other),
        }
        match &s {
            State::CheckingHeight { attempts, .. } | State::Sending { attempts, .. } => {
                assert_eq!(*attempts, 0);
            }
            other => panic!("left the broadcast loop into {:?}", other),
        }
    }
}

#[test]
fn expired_lease_is_discarded_and_replaced_with_fresh_payload() {
    // The lease expires before any successful send: the orchestrator
    // discards it, fetches a new one and rebuilds, and the new attempt's
    // payload is observably distinct from the old one.
    let mut s = init();
    s = step(s, false, Event::LeaseAcquired { lease: lease(1, 1000) });
    s = step(s, false, Event::Built);
    s = step(s, false, Event::HeightRead { height: 600 });
    s = step(s, false, Event::SendFailed);

    // Block height passes referenceSlot - 300: the attempt ends.
    s = step(s, false, Event::HeightRead { height: 701 });
    assert_eq!(action_of(&s), Action::AcquireLease);
    assert!(matches!(s, State::Leasing { attempts: 1 }));

    s = step(s, false, Event::LeaseAcquired { lease: lease(2, 2000) });
    match &s {
        State::Building { attempts, lease } => {
            assert_eq!(*attempts, 1);
            assert_eq!(lease.hash.bytes, vec![2u8; 32]);
            assert_ne!(lease.hash.bytes, vec![1u8; 32]);
            assert_eq!(lease.reference_slot, 2000);
        }
        other => panic!("expected a rebuild under the fresh lease, got {:?}", other),
    }

    s = step(s, false, Event::Built);
    s = step(s, false, Event::HeightRead { height: 1700 });
    s = step(s, false, Event::SendSucceeded { signature: sig(6) });
    s = step(s, false, Event::StatusRead { status: ConfirmStatus::ConfirmedSuccess });
    assert!(matches!(
        s,
        State::Done { outcome: Outcome::Confirmed { signature: _ } }
    ));
}

#[test]
fn mismatched_event_leaves_state_unchanged() {
    let s = init();
    let s2 = step(s, false, Event::Built);
    assert!(matches!(s2, State::Leasing { attempts: 0 }));
    let s3 = step(s2, false, Event::SendFailed);
    assert!(matches!(s3, State::Leasing { attempts: 0 }));
}

#[test]
fn terminal_state_absorbs_every_event() {
    let mut s = init();
    s = step(s, true, Event::LeaseAcquired { lease: lease(1, 1000) });
    s = step(s, true, Event::Built);
    s = step(s, true, Event::HeightRead { height: 600 });
    s = step(s, true, Event::SendSucceeded { signature: sig(8) });
    let done = s.clone();
    s = step(s, true, Event::HeightRead { height: 0 });
    assert_eq!(s, done);
    s = step(s, true, Event::SendFailed);
    assert_eq!(s, done);
}

#[test]
fn run_events_agrees_with_stepping() {
    let evs = vec![
        Event::LeaseAcquired { lease: lease(1, 1000) },
        Event::Built,
        Event::HeightRead { height: 600 },
        Event::SendSucceeded { signature: sig(5) },
        Event::StatusRead { status: ConfirmStatus::Unseen },
        Event::StatusRead { status: ConfirmStatus::ConfirmedSuccess },
    ];

    let mut expected = init();
    for ev in evs.clone() {
        expected = step(expected, false, ev);
    }
    let got = run_events(init(), false, evs);
    assert_eq!(got, expected);
    assert!(matches!(
        got,
        State::Done { outcome: Outcome::Confirmed { signature: _ } }
    ));
}
