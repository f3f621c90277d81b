//! The request-execution engine: classifying what one attempt at an
//! operation produced and driving retries through a caller-supplied schedule.
//!
//! The engine itself performs no I/O. A caller performs one attempt, hands
//! the [`Outcome`] to [`step`], and either returns the finished result or
//! waits the returned duration and tries again. [`execute`] runs the same
//! decision process over a pre-recorded sequence of outcomes and is the
//! reference for how a whole call behaves.
//!
//! A response body that arrives intact but fails to decode is not retried,
//! for reads and writes alike: a write may have taken effect even when its
//! response was unreadable, so repeating it is not idempotence-safe. Decode
//! failures therefore surface as decode errors after the engine is done.

use vstd::prelude::*;
use crate::v1::json::{spec_u64_str, u64_to_string};

verus! {

/// What one attempt at the underlying operation produced, as seen at the
/// transport boundary.
pub enum Outcome {
    /// No response was received: the connection failed.
    NoResponse,
    /// A response with the given status arrived, but its body was lost
    /// while being received.
    BodyLost {
        /// The response status.
        status: u16,
    },
    /// A response arrived with the given status, and its body was received
    /// whole.
    Received {
        /// The response status.
        status: u16,
        /// The body text.
        body: String,
    },
}

/// How the engine classifies one outcome.
#[derive(Copy, Clone, PartialEq, Eq, Structural, Debug)]
pub enum Class {
    /// The operation finished and its body is available.
    Success,
    /// The failure may pass: eligible for a retry.
    Transient,
    /// The failure is final: never retried.
    Permanent,
}

/// A transport-level failure, surfaced when the engine gives up.
#[derive(Copy, Clone, PartialEq, Eq, Structural, Debug)]
pub enum Fault {
    /// The connection failed before any response arrived.
    Connection,
    /// A response arrived but its body was lost while being received.
    BodyLost {
        /// The response status.
        status: u16,
    },
    /// The response status reported a failure.
    Status {
        /// The response status.
        status: u16,
    },
}

/// The classification of an outcome: no response and a lost body may pass;
/// a server error (5xx) may pass; any other non-success status is final;
/// everything else is a success.
pub open spec fn spec_classify(o: Outcome) -> Class {
    match o {
        Outcome::NoResponse => Class::Transient,
        Outcome::BodyLost { .. } => Class::Transient,
        Outcome::Received { status, .. } => if 500 <= status <= 599 {
            Class::Transient
        } else if 400 <= status <= 499 {
            Class::Permanent
        } else {
            Class::Success
        },
    }
}

/// The fault that describes a failed outcome.
pub open spec fn spec_fault_of(o: Outcome) -> Fault {
    match o {
        Outcome::NoResponse => Fault::Connection,
        Outcome::BodyLost { status } => Fault::BodyLost { status },
        Outcome::Received { status, .. } => Fault::Status { status },
    }
}

/// The body of a successful outcome.
pub open spec fn spec_body_of(o: Outcome) -> Seq<char> {
    match o {
        Outcome::Received { body, .. } => body@,
        _ => Seq::empty(),
    }
}

/// Classifies one outcome; see [`spec_classify`].
pub fn classify(o: &Outcome) -> (r: Class)
    ensures
        r == spec_classify(*o),
{
    match o {
        Outcome::NoResponse => Class::Transient,
        Outcome::BodyLost { .. } => Class::Transient,
        Outcome::Received { status, .. } => {
            let st = *status;
            if 500 <= st && st <= 599 {
                Class::Transient
            } else if 400 <= st && st <= 499 {
                Class::Permanent
            } else {
                Class::Success
            }
        },
    }
}

/// What the caller must do after one attempt.
pub enum Step {
    /// The operation finished: here is the body.
    Done {
        /// The body text of the successful response.
        body: String,
    },
    /// The operation failed for good: stop and surface the fault.
    Fail {
        /// The fault to surface.
        fault: Fault,
        /// Whether the failure was transient and the schedule ran out, as
        /// opposed to a failure that is never retried.
        exhausted: bool,
    },
    /// Wait this long, in milliseconds, then attempt again.
    RetryAfter {
        /// The wait before the next attempt, in milliseconds.
        wait_ms: u64,
    },
}

/// What a transient fault leads to: the next wait of the schedule where
/// one is left, else the fault itself, marked exhausted.
pub open spec fn spec_try_wait(f: Fault, schedule: Seq<u64>, used: int) -> Step {
    if used < schedule.len() {
        Step::RetryAfter { wait_ms: schedule[used] }
    } else {
        Step::Fail { fault: f, exhausted: true }
    }
}

/// What the engine decides after the attempt with the given outcome, when
/// `used` waits of the schedule have already been consumed.
pub open spec fn spec_step(o: Outcome, schedule: Seq<u64>, used: int) -> Step {
    match o {
        Outcome::NoResponse => spec_try_wait(Fault::Connection, schedule, used),
        Outcome::BodyLost { status } => spec_try_wait(
            Fault::BodyLost { status },
            schedule,
            used,
        ),
        Outcome::Received { status, body } => if 500 <= status <= 599 {
            spec_try_wait(Fault::Status { status }, schedule, used)
        } else if 400 <= status <= 499 {
            Step::Fail { fault: Fault::Status { status }, exhausted: false }
        } else {
            Step::Done { body }
        },
    }
}

/// Decides what to do after one attempt.
///
/// A success returns the body at once. A permanent failure surfaces at
/// once, whatever is left of the schedule. A transient failure consumes the
/// next wait of the schedule, or surfaces the same fault with `exhausted`
/// set once the schedule has run out.
pub fn step(o: Outcome, schedule: &Vec<u64>, used: usize) -> (r: Step)
    ensures
        r == spec_step(o, schedule@, used as int),
{
    match o {
        Outcome::NoResponse => try_wait(Fault::Connection, schedule, used),
        Outcome::BodyLost { status } => try_wait(Fault::BodyLost { status }, schedule, used),
        Outcome::Received { status, body } => {
            if 500 <= status && status <= 599 {
                try_wait(Fault::Status { status }, schedule, used)
            } else if 400 <= status && status <= 499 {
                Step::Fail { fault: Fault::Status { status }, exhausted: false }
            } else {
                Step::Done { body }
            }
        },
    }
}

/// The next wait of the schedule where one is left, else the fault itself.
fn try_wait(f: Fault, schedule: &Vec<u64>, used: usize) -> (r: Step)
    ensures
        r == spec_try_wait(f, schedule@, used as int),
{
    if used < schedule.len() {
        Step::RetryAfter { wait_ms: schedule[used] }
    } else {
        Step::Fail { fault: f, exhausted: true }
    }
}

/// The fault that describes a failed outcome; see [`spec_fault_of`].
pub fn fault_of(o: &Outcome) -> (r: Fault)
    ensures
        r == spec_fault_of(*o),
{
    match o {
        Outcome::NoResponse => Fault::Connection,
        Outcome::BodyLost { status } => Fault::BodyLost { status: *status },
        Outcome::Received { status, .. } => Fault::Status { status: *status },
    }
}

/// How a whole call runs against a recorded sequence of outcomes, one per
/// attempt, starting at attempt `i`: the pair of how many attempts were
/// made in all and what the call returned. `None` stands for a run that
/// needs more outcomes than were recorded.
pub open spec fn spec_run(outcomes: Seq<Outcome>, schedule: Seq<u64>, i: int) -> Option<
    (int, Result<Seq<char>, Fault>),
>
    decreases outcomes.len() - i,
{
    if !(0 <= i < outcomes.len()) {
        None
    } else {
        let o = outcomes[i];
        match spec_classify(o) {
            Class::Success => Some((i + 1, Ok(spec_body_of(o)))),
            Class::Permanent => Some((i + 1, Err(spec_fault_of(o)))),
            Class::Transient => if i < schedule.len() {
                spec_run(outcomes, schedule, i + 1)
            } else {
                Some((i + 1, Err(spec_fault_of(o))))
            },
        }
    }
}

/// Runs a whole call against a recorded sequence of outcomes, one per
/// attempt: the operation is attempted at least once; each transient
/// failure consumes one wait of the schedule until it runs out; a success
/// or a permanent failure ends the run at once.
///
/// Returns how many attempts were made and the call's result.
#[verifier::loop_isolation(false)]
pub fn execute(outcomes: &Vec<Outcome>, schedule: &Vec<u64>) -> (r: (usize, Result<String, Fault>))
    requires
        schedule@.len() < outcomes@.len(),
    ensures
        spec_run(outcomes@, schedule@, 0) == Some(
            (r.0 as int, match r.1 {
                Ok(body) => Ok::<Seq<char>, Fault>(body@),
                Err(f) => Err(f),
            }),
        ),
        r.0 <= schedule@.len() + 1,
{
    let total = outcomes.len();
    let mut i: usize = 0;
    loop
        invariant
            0 <= i <= schedule@.len(),
            i < total,
            spec_run(outcomes@, schedule@, 0) == spec_run(outcomes@, schedule@, i as int),
        decreases outcomes@.len() - i,
    {
        let o = &outcomes[i];
        match classify(o) {
            Class::Success => {
                let body = match o {
                    Outcome::Received { status: _, body } => body.clone(),
                    _ => String::new(),
                };
                return (i + 1, Ok(body));
            },
            Class::Permanent => {
                return (i + 1, Err(fault_of(o)));
            },
            Class::Transient => {
                if i < schedule.len() {
                    i = i + 1;
                } else {
                    return (i + 1, Err(fault_of(o)));
                }
            },
        }
    }
}

/// Transient outcomes before attempt `n` only walk the run forward: with a
/// long enough schedule, the run from attempt `i` is the run from attempt
/// `n`.
pub proof fn lemma_run_transient_prefix(
    outcomes: Seq<Outcome>,
    schedule: Seq<u64>,
    i: int,
    n: int,
)
    requires
        0 <= i <= n < outcomes.len(),
        n <= schedule.len(),
        forall|k: int| i <= k < n ==> spec_classify(#[trigger] outcomes[k]) == Class::Transient,
    ensures
        spec_run(outcomes, schedule, i) == spec_run(outcomes, schedule, n),
    decreases n - i,
{
    if i < n {
        lemma_run_transient_prefix(outcomes, schedule, i + 1, n);
    }
}

/// After a row of transient failures answered by a success, the engine has
/// attempted once per failure plus once for the success, and returns the
/// success: `n` consecutive transient outcomes followed by a success, with
/// a schedule of at least `n` waits, make exactly `n + 1` attempts and
/// return the successful body.
pub proof fn lemma_success_after_transients(
    outcomes: Seq<Outcome>,
    schedule: Seq<u64>,
    n: int,
)
    requires
        0 <= n < outcomes.len(),
        n <= schedule.len(),
        forall|k: int| 0 <= k < n ==> spec_classify(#[trigger] outcomes[k]) == Class::Transient,
        spec_classify(outcomes[n]) == Class::Success,
    ensures
        spec_run(outcomes, schedule, 0) == Some(
            (n + 1, Ok::<Seq<char>, Fault>(spec_body_of(outcomes[n]))),
        ),
{
    lemma_run_transient_prefix(outcomes, schedule, 0, n);
}

/// A schedule shorter than a row of transient failures is exhausted: with
/// transient outcomes at every attempt, the engine attempts once per wait
/// plus a final time, and surfaces the last transient fault.
pub proof fn lemma_exhaustion(outcomes: Seq<Outcome>, schedule: Seq<u64>)
    requires
        schedule.len() < outcomes.len(),
        forall|k: int| 0 <= k <= schedule.len() ==> spec_classify(#[trigger] outcomes[k])
            == Class::Transient,
    ensures
        spec_run(outcomes, schedule, 0) == Some(
            (schedule.len() as int + 1, Err::<Seq<char>, Fault>(
                spec_fault_of(outcomes[schedule.len() as int]),
            )),
        ),
{
    lemma_run_transient_prefix(outcomes, schedule, 0, schedule.len() as int);
}

/// A permanent failure on the first attempt — a client-error status such as
/// 404 — ends the call at once, whatever the schedule holds: exactly one
/// attempt, and the status surfaces as the fault.
pub proof fn lemma_permanent_first(outcomes: Seq<Outcome>, schedule: Seq<u64>, status: u16)
    requires
        outcomes.len() > 0,
        400 <= status <= 499,
        outcomes[0] matches Outcome::Received { status: st, .. } && st == status,
    ensures
        spec_run(outcomes, schedule, 0) == Some(
            (1int, Err::<Seq<char>, Fault>(Fault::Status { status })),
        ),
{
}


/// The notice for a retried attempt: nothing for a wait of zero, which
/// denotes the first attempt, and otherwise one line naming the wait in
/// whole seconds — with `second` for exactly one — and the error's text.
pub open spec fn spec_retry_notice(wait_ms: u64, error_text: Seq<char>) -> Option<Seq<char>> {
    if wait_ms == 0 {
        None
    } else {
        Some(
            "network operation failed (retried after waiting "@ + spec_u64_str(
                wait_ms as int / 1000,
            ) + " second"@ + (if wait_ms / 1000 == 1 {
                Seq::<char>::empty()
            } else {
                seq!['s']
            }) + "): "@ + error_text,
        )
    }
}

/// Builds the notice for a retried attempt; see [`spec_retry_notice`].
/// A caller logs the text; the engine itself reports nothing.
pub fn retry_notice(wait_ms: u64, error_text: &str) -> (r: Option<String>)
    ensures
        match r {
            Some(s) => spec_retry_notice(wait_ms, error_text@) == Some(s@),
            None => wait_ms == 0,
        },
        r is None <==> wait_ms == 0,
{
    if wait_ms == 0 {
        return None;
    }
    let secs = wait_ms / 1000;
    let mut out: Vec<char> = Vec::new();
    crate::v1::json::push_chars(&mut out, "network operation failed (retried after waiting ");
    let num = u64_to_string(secs);
    crate::v1::json::push_chars(&mut out, num.as_str());
    crate::v1::json::push_chars(&mut out, " second");
    if secs != 1 {
        out.push('s');
    }
    crate::v1::json::push_chars(&mut out, "): ");
    crate::v1::json::push_chars(&mut out, error_text);
    let r = crate::v1::json::chars_to_string(&out);
    proof {
        assert(out@ =~= spec_retry_notice(wait_ms, error_text@)->Some_0);
    }
    Some(r)
}


/// The wait before retry `i` under an exponential schedule: the base wait
/// grown by the factor once per earlier retry, never beyond the cap, and
/// saturating instead of overflowing.
pub open spec fn spec_backoff(base_ms: u64, factor: u64, max_ms: u64, i: int) -> u64
    decreases i,
{
    if i <= 0 {
        if base_ms <= max_ms {
            base_ms
        } else {
            max_ms
        }
    } else {
        let prev = spec_backoff(base_ms, factor, max_ms, i - 1);
        if prev * factor > max_ms {
            max_ms
        } else {
            (prev * factor) as u64
        }
    }
}

/// Builds a fixed schedule: `n` equal waits.
#[verifier::loop_isolation(false)]
pub fn fixed_schedule(wait_ms: u64, n: usize) -> (r: Vec<u64>)
    ensures
        r@.len() == n,
        forall|i: int| 0 <= i < n ==> r@[i] == wait_ms,
{
    let mut out: Vec<u64> = Vec::new();
    let mut i: usize = 0;
    while i < n
        invariant
            i <= n,
            out@.len() == i,
            forall|k: int| 0 <= k < i ==> out@[k] == wait_ms,
        decreases n - i,
    {
        out.push(wait_ms);
        i = i + 1;
    }
    out
}

/// Builds an exponential schedule of `n` waits: the base wait, grown by
/// the factor after each retry and capped at `max_ms`.
#[verifier::loop_isolation(false)]
pub fn exponential_schedule(base_ms: u64, factor: u64, max_ms: u64, n: usize) -> (r: Vec<u64>)
    ensures
        r@.len() == n,
        forall|i: int| 0 <= i < n ==> r@[i] == spec_backoff(base_ms, factor, max_ms, i),
{
    let mut out: Vec<u64> = Vec::new();
    let mut wait: u64 = if base_ms <= max_ms {
        base_ms
    } else {
        max_ms
    };
    let mut i: usize = 0;
    while i < n
        invariant
            i <= n,
            out@.len() == i,
            wait == spec_backoff(base_ms, factor, max_ms, i as int),
            forall|k: int| 0 <= k < i ==> out@[k] == spec_backoff(base_ms, factor, max_ms, k),
        decreases n - i,
    {
        out.push(wait);
        if factor != 0 && wait > max_ms / factor {
            proof {
                vstd::arithmetic::div_mod::lemma_fundamental_div_mod(
                    max_ms as int,
                    factor as int,
                );
                vstd::arithmetic::div_mod::lemma_mod_bound(max_ms as int, factor as int);
                assert(wait as int * factor as int > max_ms as int) by (nonlinear_arith)
                    requires
                        factor as int >= 1,
                        wait as int > max_ms as int / (factor as int),
                        max_ms as int == factor as int * (max_ms as int / (factor as int)) + (
                        max_ms as int) % (factor as int),
                        (max_ms as int) % (factor as int) < factor as int,
                ;
            }
            wait = max_ms;
        } else {
            proof {
                if factor != 0 {
                    vstd::arithmetic::div_mod::lemma_fundamental_div_mod(
                        max_ms as int,
                        factor as int,
                    );
                    vstd::arithmetic::div_mod::lemma_mod_bound(max_ms as int, factor as int);
                    assert(wait as int * factor as int <= max_ms as int) by (nonlinear_arith)
                        requires
                            factor as int >= 1,
                            wait as int <= max_ms as int / (factor as int),
                            max_ms as int == factor as int * (max_ms as int / (factor as int))
                                + (max_ms as int) % (factor as int),
                            (max_ms as int) % (factor as int) >= 0,
                    ;
                }
            }
            wait = wait * factor;
        }
        i = i + 1;
    }
    out
}

} // verus!
