//! The readiness probe's decision logic: a pure state machine over attempt
//! outcomes and an injectable clock. The caller that owns the network stack
//! performs the remote call and the sleep, and feeds each outcome back in.

use vstd::prelude::*;

use crate::error::ApiError;
use crate::error::ErrorKind;
use crate::instance::Instance;

verus! {

/// Seconds slept between two attempts. A fixed interval, not a backoff: the
/// probe is a bring-up mechanism used once per instance lifecycle.
pub const PROBE_SLEEP_SECS: u64 = 3;

/// HTTP-style status code attached to a readiness timeout.
pub const GATEWAY_TIMEOUT: u16 = 504;

/// The outcome of one "fetch ledger information" attempt. A failure carries
/// the time observed right after the call came back, in the caller's clock
/// units; the specific cause of the failure is deliberately not
/// distinguished.
#[derive(Clone, Copy, PartialEq, Eq, Structural, Debug)]
pub enum Attempt {
    Succeeded,
    Failed { now: u64 },
}

/// What the probe does after one attempt: stop ready, stop timed out, or
/// sleep for [`PROBE_SLEEP_SECS`] and try again.
#[derive(Clone, Copy, PartialEq, Eq, Structural, Debug)]
pub enum ProbeDecision {
    Ready,
    TimedOut,
    RetryAfterSleep,
}

/// The terminal state of a whole probe run.
#[derive(Clone, Copy, PartialEq, Eq, Structural, Debug)]
pub enum ProbeOutcome {
    Ready,
    TimedOut,
}

/// The single transition of the probe's state machine: success is terminal
/// at once; a failure is conclusive only when the deadline has passed, and
/// the deadline is checked after the failed attempt, never before the sleep.
pub open spec fn spec_decide(deadline: u64, attempt: Attempt) -> ProbeDecision {
    match attempt {
        Attempt::Succeeded => ProbeDecision::Ready,
        Attempt::Failed { now } => if now > deadline {
            ProbeDecision::TimedOut
        } else {
            ProbeDecision::RetryAfterSleep
        },
    }
}

pub fn decide(deadline: u64, attempt: Attempt) -> (r: ProbeDecision)
    ensures
        r == spec_decide(deadline, attempt),
{
    match attempt {
        Attempt::Succeeded => ProbeDecision::Ready,
        Attempt::Failed { now } => if now > deadline {
            ProbeDecision::TimedOut
        } else {
            ProbeDecision::RetryAfterSleep
        },
    }
}

/// Runs the state machine over a history of attempt outcomes: the terminal
/// state and how many attempts it took, or `None` when the history ends
/// before a terminal state is reached.
pub open spec fn spec_run(deadline: u64, attempts: Seq<Attempt>) -> Option<(ProbeOutcome, nat)>
    decreases attempts.len(),
{
    if attempts.len() == 0 {
        None
    } else {
        match spec_decide(deadline, attempts[0]) {
            ProbeDecision::Ready => Some((ProbeOutcome::Ready, 1nat)),
            ProbeDecision::TimedOut => Some((ProbeOutcome::TimedOut, 1nat)),
            ProbeDecision::RetryAfterSleep => match spec_run(deadline, attempts.drop_first()) {
                Option::None => None,
                Option::Some(rest) => Some((rest.0, (rest.1 + 1) as nat)),
            },
        }
    }
}

/// How one probe run ended: the terminal state, how many attempts were
/// made, and how many sleep intervals elapsed (one after every failed,
/// non-conclusive attempt, so always one less than the attempts).
#[derive(Clone, Copy, PartialEq, Eq, Structural, Debug)]
pub struct ProbeReport {
    pub outcome: ProbeOutcome,
    pub attempts_made: usize,
    pub sleeps: usize,
}

/// Replays a recorded attempt history against a deadline. Timeout behavior
/// is a pure function of the history and the observed clock values, so a
/// driver with an injectable clock can test it deterministically.
pub fn run_probe(deadline: u64, attempts: &Vec<Attempt>) -> (r: Option<ProbeReport>)
    ensures
        r is Some <==> spec_run(deadline, attempts@) is Some,
        r matches Some(rep) ==> spec_run(deadline, attempts@) == Some(
            (rep.outcome, rep.attempts_made as nat),
        ) && rep.attempts_made >= 1 && rep.sleeps == rep.attempts_made - 1,
{
    let n = attempts.len();
    let mut i: usize = 0;
    while i < n
        invariant
            0 <= i <= n,
            n == attempts@.len(),
            forall|j: int|
                0 <= j < i ==> spec_decide(deadline, #[trigger] attempts@[j])
                    == ProbeDecision::RetryAfterSleep,
        decreases n - i,
    {
        let d = decide(deadline, attempts[i]);
        match d {
            ProbeDecision::Ready => {
                proof {
                    lemma_run_prefix_retries(deadline, attempts@, i as int);
                }
                return Some(
                    ProbeReport { outcome: ProbeOutcome::Ready, attempts_made: i + 1, sleeps: i },
                );
            },
            ProbeDecision::TimedOut => {
                proof {
                    lemma_run_prefix_retries(deadline, attempts@, i as int);
                }
                return Some(
                    ProbeReport {
                        outcome: ProbeOutcome::TimedOut,
                        attempts_made: i + 1,
                        sleeps: i,
                    },
                );
            },
            ProbeDecision::RetryAfterSleep => {
                i = i + 1;
            },
        }
    }
    proof {
        lemma_run_all_retries(deadline, attempts@);
    }
    None
}

/// While every attempt before position `i` asks for a retry, the run over
/// the whole history is the run from position `i`, with `i` more attempts.
proof fn lemma_run_prefix_retries(deadline: u64, attempts: Seq<Attempt>, i: int)
    requires
        0 <= i < attempts.len(),
        forall|j: int|
            0 <= j < i ==> spec_decide(deadline, #[trigger] attempts[j])
                == ProbeDecision::RetryAfterSleep,
        spec_decide(deadline, attempts[i]) != ProbeDecision::RetryAfterSleep,
    ensures
        spec_decide(deadline, attempts[i]) == ProbeDecision::Ready ==> spec_run(deadline, attempts)
            == Some((ProbeOutcome::Ready, (i + 1) as nat)),
        spec_decide(deadline, attempts[i]) == ProbeDecision::TimedOut ==> spec_run(
            deadline,
            attempts,
        ) == Some((ProbeOutcome::TimedOut, (i + 1) as nat)),
    decreases i,
{
    if i == 0 {
    } else {
        lemma_run_prefix_retries(deadline, attempts.drop_first(), i - 1);
    }
}

/// A history made of retries alone never reaches a terminal state.
proof fn lemma_run_all_retries(deadline: u64, attempts: Seq<Attempt>)
    requires
        forall|j: int|
            0 <= j < attempts.len() ==> spec_decide(deadline, #[trigger] attempts[j])
                == ProbeDecision::RetryAfterSleep,
    ensures
        spec_run(deadline, attempts) is None,
    decreases attempts.len(),
{
    if attempts.len() > 0 {
        lemma_run_all_retries(deadline, attempts.drop_first());
    }
}

/// When the remote calls all fail and the deadline already lies in the
/// past, the probe times out on the very first attempt: one attempt made,
/// no sleep performed.
pub proof fn lemma_past_deadline_times_out_without_sleep(deadline: u64, attempts: Seq<Attempt>)
    requires
        attempts.len() >= 1,
        forall|i: int|
            0 <= i < attempts.len() ==> ((#[trigger] attempts[i]) matches Attempt::Failed { now }
                && now > deadline),
    ensures
        spec_run(deadline, attempts) == Some((ProbeOutcome::TimedOut, 1nat)),
{
    assert(attempts[0] matches Attempt::Failed { now } && now > deadline);
}

/// When the first `n` attempts fail within the deadline and the next one
/// succeeds, the probe is ready after exactly `n + 1` attempts, so after
/// exactly `n` sleep intervals.
pub proof fn lemma_ready_after_failures(deadline: u64, attempts: Seq<Attempt>, n: int)
    requires
        0 <= n < attempts.len(),
        forall|i: int|
            0 <= i < n ==> ((#[trigger] attempts[i]) matches Attempt::Failed { now } && now
                <= deadline),
        attempts[n] == Attempt::Succeeded,
    ensures
        spec_run(deadline, attempts) == Some((ProbeOutcome::Ready, (n + 1) as nat)),
    decreases n,
{
    if n == 0 {
    } else {
        assert(attempts[0] matches Attempt::Failed { now } && now <= deadline);
        lemma_ready_after_failures(deadline, attempts.drop_first(), n - 1);
    }
}

/// The failure a timed-out probe surfaces: a `Timeout` carrying the
/// endpoint's display form for diagnostics.
pub fn timeout_error(instance: &Instance) -> (r: ApiError)
    ensures
        r.kind == ErrorKind::Timeout,
        r.status_code == GATEWAY_TIMEOUT,
        r.message@ == "wait_server_ready for "@ + instance@.peer_name + "("@ + instance@.url + ")"@
            + " timed out"@,
{
    let mut msg = String::from_str("wait_server_ready for ");
    let rest = instance.display_string();
    msg.append(rest.as_str());
    msg.append(" timed out");
    ApiError::new(ErrorKind::Timeout, GATEWAY_TIMEOUT, msg)
}

} // verus!
