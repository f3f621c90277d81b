//! Tests for the request-execution engine.

use tes::v1::client::retry::{
    classify, execute, exponential_schedule, fixed_schedule, retry_notice, step, Class, Fault,
    Outcome, Step,
};

fn received(status: u16, body: &str) -> Outcome {
    Outcome::Received {
        status,
        body: body.to_string(),
    }
}

#[test]
fn failures_then_success_uses_one_attempt_per_failure_plus_one() {
    // Two transient failures (a connection failure and a 503), then a
    // success, with a schedule long enough: three attempts, and the
    // success comes back.
    let outcomes = vec![
        Outcome::NoResponse,
        received(503, "upstream down"),
        received(200, "the body"),
    ];
    let schedule: Vec<u64> = vec![10, 10, 10];
    let (attempts, result) = execute(&outcomes, &schedule);
    assert_eq!(attempts, 3);
    assert_eq!(result, Ok("the body".to_string()));
}

#[test]
fn a_long_enough_schedule_is_not_consumed_further_by_success() {
    // A success on the first attempt uses exactly one attempt whatever
    // the schedule holds.
    let outcomes = vec![received(200, "ok"), received(500, "unused")];
    let schedule: Vec<u64> = vec![1];
    let (attempts, result) = execute(&outcomes, &schedule);
    assert_eq!(attempts, 1);
    assert_eq!(result, Ok("ok".to_string()));
}

#[test]
fn a_short_schedule_is_exhausted_and_surfaces_the_last_fault() {
    // Three transient failures against a schedule of two waits: three
    // attempts (one per wait, plus the first), and the last transient
    // fault surfaces.
    let outcomes = vec![
        Outcome::NoResponse,
        received(500, "boom"),
        Outcome::NoResponse,
    ];
    let schedule: Vec<u64> = vec![5, 5];
    let (attempts, result) = execute(&outcomes, &schedule);
    assert_eq!(attempts, 3);
    assert_eq!(result, Err(Fault::Connection));
}

#[test]
fn an_empty_schedule_means_no_retries() {
    let outcomes = vec![received(503, "unavailable")];
    let schedule: Vec<u64> = vec![];
    let (attempts, result) = execute(&outcomes, &schedule);
    assert_eq!(attempts, 1);
    assert_eq!(result, Err(Fault::Status { status: 503 }));
}

#[test]
fn a_single_404_is_one_attempt_and_a_permanent_error() {
    // A client error is never retried, whatever the schedule's length.
    let outcomes = vec![received(404, "no such task"), received(200, "unused")];
    let schedule: Vec<u64> = vec![5, 5, 5, 5];
    let (attempts, result) = execute(&outcomes, &schedule);
    assert_eq!(attempts, 1);
    assert_eq!(result, Err(Fault::Status { status: 404 }));
}

#[test]
fn a_lost_body_is_transient() {
    let outcomes = vec![
        Outcome::BodyLost { status: 200 },
        received(200, "recovered"),
    ];
    let schedule: Vec<u64> = vec![1];
    let (attempts, result) = execute(&outcomes, &schedule);
    assert_eq!(attempts, 2);
    assert_eq!(result, Ok("recovered".to_string()));
}

#[test]
fn classification_follows_the_status() {
    assert_eq!(classify(&Outcome::NoResponse), Class::Transient);
    assert_eq!(classify(&Outcome::BodyLost { status: 200 }), Class::Transient);
    assert_eq!(classify(&received(500, "")), Class::Transient);
    assert_eq!(classify(&received(599, "")), Class::Transient);
    assert_eq!(classify(&received(400, "")), Class::Permanent);
    assert_eq!(classify(&received(499, "")), Class::Permanent);
    assert_eq!(classify(&received(200, "")), Class::Success);
    assert_eq!(classify(&received(302, "")), Class::Success);
}

#[test]
fn step_walks_the_schedule_one_wait_at_a_time() {
    let schedule: Vec<u64> = vec![100, 200];
    match step(received(503, ""), &schedule, 0) {
        Step::RetryAfter { wait_ms } => assert_eq!(wait_ms, 100),
        _ => panic!("the first transient failure must wait"),
    }
    match step(received(503, ""), &schedule, 1) {
        Step::RetryAfter { wait_ms } => assert_eq!(wait_ms, 200),
        _ => panic!("the second transient failure must wait"),
    }
    match step(received(503, ""), &schedule, 2) {
        Step::Fail { fault, exhausted } => {
            assert_eq!(fault, Fault::Status { status: 503 });
            assert!(exhausted);
        }
        _ => panic!("the schedule must be exhausted"),
    }
    match step(received(404, ""), &schedule, 0) {
        Step::Fail { fault, exhausted } => {
            assert_eq!(fault, Fault::Status { status: 404 });
            assert!(!exhausted);
        }
        _ => panic!("a client error must fail at once"),
    }
    match step(received(200, "payload"), &schedule, 0) {
        Step::Done { body } => assert_eq!(body, "payload"),
        _ => panic!("a success must finish"),
    }
}

#[test]
fn the_first_attempt_gets_no_notice() {
    assert_eq!(retry_notice(0, "boom"), None);
}

#[test]
fn notices_name_the_wait_and_the_error() {
    assert_eq!(
        retry_notice(2000, "boom").unwrap(),
        "network operation failed (retried after waiting 2 seconds): boom"
    );
    assert_eq!(
        retry_notice(1000, "gone").unwrap(),
        "network operation failed (retried after waiting 1 second): gone"
    );
}

#[test]
fn schedules_are_built_as_asked() {
    assert_eq!(fixed_schedule(10, 3), vec![10, 10, 10]);
    assert_eq!(
        exponential_schedule(1000, 2, 10000, 5),
        vec![1000, 2000, 4000, 8000, 10000]
    );
    assert_eq!(exponential_schedule(500, 3, 10000, 0), Vec::<u64>::new());
    assert_eq!(exponential_schedule(20000, 2, 10000, 2), vec![10000, 10000]);
}
