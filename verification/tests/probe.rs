use ledger_envelope::error::ErrorKind;
use ledger_envelope::instance::Instance;
use ledger_envelope::probe::run_probe;
use ledger_envelope::probe::timeout_error;
use ledger_envelope::probe::Attempt;
use ledger_envelope::probe::ProbeDecision;
use ledger_envelope::probe::ProbeOutcome;
use ledger_envelope::probe::PROBE_SLEEP_SECS;

fn sample_instance() -> Instance {
    Instance::new(
        "val-0".to_string(),
        "http://10.0.0.1:8080/".to_string(),
        Some(9101),
    )
}

#[test]
fn success_is_terminal_at_once() {
    let d = ledger_envelope::probe::decide(100, Attempt::Succeeded);
    assert_eq!(d, ProbeDecision::Ready);
}

#[test]
fn failure_past_deadline_times_out() {
    let d = ledger_envelope::probe::decide(100, Attempt::Failed { now: 101 });
    assert_eq!(d, ProbeDecision::TimedOut);
}

#[test]
fn failure_within_deadline_retries() {
    let d = ledger_envelope::probe::decide(100, Attempt::Failed { now: 100 });
    assert_eq!(d, ProbeDecision::RetryAfterSleep);
}

#[test]
fn past_deadline_times_out_without_sleep() {
    let attempts = vec![
        Attempt::Failed { now: 100 },
        Attempt::Failed { now: 105 },
        Attempt::Failed { now: 110 },
    ];
    let report = run_probe(50, &attempts).unwrap();
    assert_eq!(report.outcome, ProbeOutcome::TimedOut);
    assert_eq!(report.attempts_made, 1);
    assert_eq!(report.sleeps, 0);
}

#[test]
fn ready_after_failures_counts_sleeps() {
    let attempts = vec![
        Attempt::Failed { now: 3 },
        Attempt::Failed { now: 6 },
        Attempt::Succeeded,
    ];
    let report = run_probe(1000, &attempts).unwrap();
    assert_eq!(report.outcome, ProbeOutcome::Ready);
    assert_eq!(report.attempts_made, 3);
    assert_eq!(report.sleeps, 2);
}

#[test]
fn exhausted_history_reaches_no_terminal_state() {
    let attempts = vec![Attempt::Failed { now: 3 }, Attempt::Failed { now: 6 }];
    assert!(run_probe(1000, &attempts).is_none());
}

#[test]
fn sleep_interval_is_fixed() {
    assert_eq!(PROBE_SLEEP_SECS, 3);
}

#[test]
fn timeout_error_names_the_endpoint() {
    let err = timeout_error(&sample_instance());
    assert_eq!(err.kind, ErrorKind::Timeout);
    assert_eq!(err.status_code, 504);
    assert_eq!(
        err.message,
        "wait_server_ready for val-0(http://10.0.0.1:8080/) timed out"
    );
}

#[test]
fn instance_accessors_return_the_fields() {
    let instance = sample_instance();
    assert_eq!(instance.peer_name(), "val-0");
    assert_eq!(instance.api_url(), "http://10.0.0.1:8080/");
    assert_eq!(instance.inspection_service_port(), Some(9101));
    assert_eq!(instance.display_string(), "val-0(http://10.0.0.1:8080/)");
    let copy = instance.clone();
    assert_eq!(copy.peer_name(), "val-0");
}
