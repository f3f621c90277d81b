//! Tests for the auxiliary entities: client options, the view used by the
//! client's task helpers, the legacy task response shape, and error texts.

use tes::v1::client::options::Options;
use tes::v1::client::retry::Fault;
use tes::v1::client::tasks;
use tes::v1::client::Error;
use tes::v1::types::responses::task::{MinimalTask, Response, View};
use tes::v1::types::task::executor::{Executor, Log};
use tes::v1::types::task::file::Type;
use tes::v1::types::task::State;
use tes::v1::types::Task;

#[test]
fn options_default_to_three_retries() {
    let options = Options::default();
    assert!(options.headers.is_empty());
    assert_eq!(options.retries, 3);
}

#[test]
fn client_views_default_to_minimal_and_spell_upper_case() {
    assert_eq!(tasks::View::default(), tasks::View::Minimal);
    assert_eq!(tasks::View::Minimal.query_value(), "MINIMAL");
    assert_eq!(tasks::View::Basic.query_value(), "BASIC");
    assert_eq!(tasks::View::Full.query_value(), "FULL");
}

#[test]
fn legacy_responses_unwrap_by_variant() {
    let minimal = Response::Minimal(MinimalTask {
        id: "m".to_string(),
        state: Some(State::Paused),
    });
    assert_eq!(minimal.as_minimal().unwrap().id, "m");
    assert!(minimal.as_task().is_none());
    assert_eq!(minimal.clone().into_minimal().unwrap().id, "m");
    assert!(minimal.into_task().is_none());

    let basic = Response::Basic(Task::default());
    assert!(basic.as_minimal().is_none());
    assert!(basic.as_task().is_some());
    assert!(basic.clone().into_minimal().is_none());
    assert!(basic.into_task().is_some());

    let full = Response::Full(Task::default());
    assert!(full.as_task().is_some());
    assert_eq!(View::Full, View::Full);
}

#[test]
fn executor_logs_and_file_types_construct() {
    let log = Log {
        exit_code: Some(0),
        ..Default::default()
    };
    assert_eq!(log.exit_code, Some(0));
    let executor = Executor {
        image: "ubuntu".to_string(),
        ..Default::default()
    };
    assert_eq!(executor.image, "ubuntu");
    assert_eq!(Type::default(), Type::File);
}

#[test]
fn error_messages_name_the_failure() {
    assert_eq!(
        Error::InvalidRequest("page size must be less than 2048".to_string()).message(),
        "page size must be less than 2048"
    );
    assert_eq!(
        Error::Transport {
            fault: Fault::Connection,
            exhausted: true
        }
        .message(),
        "retries exhausted: connection failed"
    );
    assert_eq!(
        Error::Transport {
            fault: Fault::Status { status: 404 },
            exhausted: false
        }
        .message(),
        "unexpected status 404"
    );
    assert_eq!(
        Error::Transport {
            fault: Fault::BodyLost { status: 200 },
            exhausted: false
        }
        .message(),
        "response body lost (status 200)"
    );
    assert_eq!(Error::Decode.message(), "failed to decode the response body");
}
