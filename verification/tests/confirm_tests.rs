use ore_miner::confirm::{
    read_statuses, Action, BundleSubmission, Event, SendError, StatusReport, StatusVerdict,
    CONFIRM_DELAY, GATEWAY_DELAY, GATEWAY_RETRIES, LANDING_DELAY,
};

fn pending() -> Option<StatusReport> {
    Some(StatusReport { error: None, confirmed: false })
}

fn landed() -> Option<StatusReport> {
    Some(StatusReport { error: None, confirmed: true })
}

fn failed(msg: &str) -> Option<StatusReport> {
    Some(StatusReport { error: Some(msg.to_string()), confirmed: false })
}

fn expect_sleep(a: &Action<u64>, millis: u64) {
    match a {
        Action::Sleep { millis: m } => assert_eq!(*m, millis),
        _ => panic!("expected a sleep"),
    }
}

#[test]
fn status_reading_takes_first_decisive_report() {
    assert!(matches!(read_statuses(&vec![]), StatusVerdict::Pending));
    assert!(matches!(read_statuses(&vec![None, pending()]), StatusVerdict::Pending));
    assert!(matches!(read_statuses(&vec![None, landed(), failed("x")]), StatusVerdict::Landed));
    match read_statuses(&vec![pending(), failed("boom"), landed()]) {
        StatusVerdict::Failed(m) => assert_eq!(m, "boom"),
        _ => panic!("expected failure"),
    }
    // an error beats a confirmation in the same report
    let both = Some(StatusReport { error: Some("bad".to_string()), confirmed: true });
    assert!(matches!(read_statuses(&vec![both]), StatusVerdict::Failed(_)));
}

#[test]
fn landed_on_first_attempt() {
    let (s, a) = BundleSubmission::<u64>::start();
    assert!(matches!(a, Action::Submit { attempt: 0 }));
    let (s, a) = s.step(Event::Submitted(Some(77)));
    expect_sleep(&a, LANDING_DELAY);
    let (s, a) = s.step(Event::Slept);
    expect_sleep(&a, CONFIRM_DELAY);
    let (s, a) = s.step(Event::Slept);
    assert!(matches!(a, Action::QueryStatus { sig: 77 }));
    let (s, a) = s.step(Event::Statuses(Some(vec![landed()])));
    assert!(matches!(a, Action::Finish(Ok(77))));
    assert!(s.is_finished());
}

#[test]
fn failed_transaction_ends_the_run() {
    let (s, _) = BundleSubmission::<u64>::start();
    let (s, _) = s.step(Event::Submitted(Some(5)));
    let (s, _) = s.step(Event::Slept);
    let (s, _) = s.step(Event::Slept);
    let (s, a) = s.step(Event::Statuses(Some(vec![failed("InstructionError")])));
    match a {
        Action::Finish(Err(SendError::TransactionFailed(m))) => assert_eq!(m, "InstructionError"),
        _ => panic!("expected a failure"),
    }
    assert!(s.is_finished());
    assert!(!s.accepts(&Event::Slept));
}

#[test]
fn unconfirmed_submission_is_retried() {
    let (s, _) = BundleSubmission::<u64>::start();
    let (s, _) = s.step(Event::Submitted(Some(5)));
    let (s, _) = s.step(Event::Slept);
    let (s, _) = s.step(Event::Slept);
    let (s, a) = s.step(Event::Statuses(Some(vec![pending()])));
    expect_sleep(&a, GATEWAY_DELAY);
    let (s, a) = s.step(Event::Slept);
    assert!(matches!(a, Action::Submit { attempt: 1 }));
    // a failed status query is retried the same way
    let (s, _) = s.step(Event::Submitted(Some(6)));
    let (s, _) = s.step(Event::Slept);
    let (s, _) = s.step(Event::Slept);
    let (s, a) = s.step(Event::Statuses(None));
    expect_sleep(&a, GATEWAY_DELAY);
    let (_, a) = s.step(Event::Slept);
    assert!(matches!(a, Action::Submit { attempt: 2 }));
}

#[test]
fn gives_up_after_twenty_one_submissions() {
    let (mut s, mut a) = BundleSubmission::<u64>::start();
    let mut submissions = 0usize;
    let mut steps = 0usize;
    loop {
        let event = match a {
            Action::Submit { attempt } => {
                assert_eq!(attempt, submissions);
                submissions += 1;
                Event::Submitted(None)
            }
            Action::Sleep { millis } => {
                assert_eq!(millis, GATEWAY_DELAY);
                Event::Slept
            }
            Action::QueryStatus { .. } => panic!("nothing was accepted"),
            Action::Finish(r) => {
                assert!(matches!(r, Err(SendError::MaxRetries)));
                break;
            }
        };
        assert!(s.accepts(&event));
        let next = s.step(event);
        s = next.0;
        a = next.1;
        steps += 1;
    }
    assert_eq!(submissions, GATEWAY_RETRIES + 1);
    assert_eq!(steps, 2 * (GATEWAY_RETRIES + 1));
    assert!(s.is_finished());
}

#[test]
fn events_out_of_turn_are_not_accepted() {
    let (s, _) = BundleSubmission::<u64>::start();
    assert!(s.accepts(&Event::Submitted(None)));
    assert!(!s.accepts(&Event::Slept));
    assert!(!s.accepts(&Event::Statuses(None)));
}
