//! Tests for the JSON codec, the query-string builder, and the client's
//! request and response handling.

use tes::v1::client::{
    resolve_created_task, resolve_list_tasks, resolve_task, Client, Error,
};
use tes::v1::json::{encode_json, parse_i64, parse_json, Json};
use tes::v1::types::requests::{
    GetTaskParams, ListTasksParams, Task, View, DEFAULT_PAGE_SIZE, MAX_PAGE_SIZE,
};
use tes::v1::types::responses::TaskResponse;
use tes::v1::types::task::{Executor, State};

fn client() -> Client {
    Client::builder()
        .url_from_string("http://localhost:4000/v1")
        .unwrap()
        .try_build()
        .unwrap()
}

#[test]
fn json_documents_round_trip_through_the_codec() {
    let text = r#" {"a" : [1, true, null, "xA\n"], "b": {"k": -2.5e3} } "#;
    let doc = parse_json(text).unwrap();
    let compact = encode_json(&doc);
    assert_eq!(compact, r#"{"a":[1,true,null,"xA\n"],"b":{"k":-2.5e3}}"#);
    let again = parse_json(&compact).unwrap();
    assert_eq!(doc, again);
}

#[test]
fn the_parser_rejects_malformed_documents() {
    assert!(parse_json("").is_none());
    assert!(parse_json("{").is_none());
    assert!(parse_json(r#"{"a":1,}"#).is_none());
    assert!(parse_json("1 2").is_none());
    assert!(parse_json("nul").is_none());
    assert!(parse_json(r#""unterminated"#).is_none());
    assert!(parse_json("01").is_none());
}

#[test]
fn unicode_escapes_decode_to_their_character() {
    assert_eq!(parse_json(r#""\u0041""#), Some(Json::Str("A".to_string())));
    assert_eq!(parse_json(r#""\u20AC""#), Some(Json::Str("\u{20AC}".to_string())));
    // Surrogate halves are not scalar values and are refused.
    assert!(parse_json(r#""\uD800""#).is_none());
}

#[test]
fn string_escapes_are_written_and_read_back() {
    let doc = Json::Str("a\"b\\c\nd\u{01}".to_string());
    let text = encode_json(&doc);
    assert_eq!(text, "\"a\\\"b\\\\c\\nd\\u0001\"");
    assert_eq!(parse_json(&text).unwrap(), doc);
}

#[test]
fn integers_are_read_with_their_bounds() {
    assert_eq!(parse_i64("42"), Some(42));
    assert_eq!(parse_i64("-7"), Some(-7));
    assert_eq!(parse_i64("9223372036854775807"), Some(i64::MAX));
    assert_eq!(parse_i64("-9223372036854775808"), Some(i64::MIN));
    assert_eq!(parse_i64("9223372036854775808"), None);
    assert_eq!(parse_i64(""), None);
    assert_eq!(parse_i64("1.5"), None);
}

#[test]
fn query_strings_hold_the_present_fields_in_order() {
    let params = ListTasksParams {
        name_prefix: Some("foo bar".to_string()),
        state: Some(State::Running),
        tag_keys: Some(vec!["a".to_string(), "b".to_string()]),
        tag_values: Some(vec!["b/c".to_string()]),
        page_size: Some(10),
        page_token: Some("tok".to_string()),
        view: Some(View::Full),
    };
    assert_eq!(
        params.query_string(),
        "name_prefix=foo+bar&state=RUNNING&tag_key=a&tag_key=b&tag_value=b%2Fc&page_size=10&page_token=tok&view=FULL"
    );

    let empty = ListTasksParams::default();
    assert_eq!(empty.query_string(), "");
}

#[test]
fn oversized_page_sizes_are_rejected_before_any_request() {
    let c = client();
    let params = ListTasksParams {
        page_size: Some(MAX_PAGE_SIZE),
        ..Default::default()
    };
    match c.list_tasks_url(Some(&params)) {
        Err(Error::InvalidRequest(m)) => {
            assert_eq!(m, "page size must be less than 2048");
        }
        _ => panic!("a page size at the bound must be refused"),
    }

    let params = ListTasksParams {
        page_size: Some(4000),
        ..Default::default()
    };
    assert!(c.list_tasks_url(Some(&params)).is_err());

    // The highest allowed size, the default, and absent parameters pass.
    let params = ListTasksParams {
        page_size: Some(MAX_PAGE_SIZE - 1),
        ..Default::default()
    };
    assert!(c.list_tasks_url(Some(&params)).is_ok());
    assert!(u32::from(DEFAULT_PAGE_SIZE) < u32::from(MAX_PAGE_SIZE));
    assert_eq!(
        c.list_tasks_url(None).unwrap(),
        "http://localhost:4000/v1/tasks"
    );
}

#[test]
fn request_urls_join_the_base_and_the_endpoint() {
    let c = client();
    assert_eq!(c.service_info_url(), "http://localhost:4000/v1/service-info");
    assert_eq!(c.create_task_url(), "http://localhost:4000/v1/tasks");
    assert_eq!(
        c.get_task_url("task1", None),
        "http://localhost:4000/v1/tasks/task1"
    );
    assert_eq!(
        c.get_task_url("task1", Some(&GetTaskParams { view: View::Minimal })),
        "http://localhost:4000/v1/tasks/task1?view=MINIMAL"
    );
    assert_eq!(
        c.cancel_task_url("task1"),
        "http://localhost:4000/v1/tasks/task1:cancel"
    );
    let params = ListTasksParams {
        view: Some(View::Basic),
        ..Default::default()
    };
    assert_eq!(
        c.list_tasks_url(Some(&params)).unwrap(),
        "http://localhost:4000/v1/tasks?view=BASIC"
    );
}

#[test]
fn a_minimal_view_ignores_extra_payload_fields() {
    // The payload holds fields beyond id and state: the minimal decode
    // keeps only id and state, with no error.
    let body = r#"{"id":"tid","state":"RUNNING","name":"x","logs":[{"weird":true}],"extra":42}"#;
    let resolved = resolve_task(View::Minimal, body).unwrap();
    match &resolved {
        TaskResponse::Minimal(t) => {
            assert_eq!(t.id, "tid");
            assert_eq!(t.state, Some(State::Running));
        }
        _ => panic!("the tag must match the requested view"),
    }
    assert!(resolved.as_minimal().is_some());
    assert!(resolved.as_task().is_none());
}

#[test]
fn the_tag_follows_the_requested_view_not_the_payload() {
    let body = r#"{"id":"tid","state":"COMPLETE","executors":[]}"#;
    let minimal = resolve_task(View::Minimal, body).unwrap();
    assert!(minimal.as_minimal().is_some());
    let basic = resolve_task(View::Basic, body).unwrap();
    let task = basic.as_task().unwrap();
    assert_eq!(task.id.as_deref(), Some("tid"));
    assert_eq!(task.state, Some(State::Complete));
    let full = resolve_task(View::Full, body).unwrap();
    assert!(matches!(full, TaskResponse::Full(_)));
}

#[test]
fn a_basic_decode_needs_the_executors_field() {
    // The basic and full shapes require `executors`; the minimal shape
    // does not read it.
    let body = r#"{"id":"tid"}"#;
    assert!(resolve_task(View::Minimal, body).is_ok());
    assert_eq!(resolve_task(View::Basic, body), Err(Error::Decode));
}

#[test]
fn malformed_bodies_surface_as_decode_errors() {
    assert_eq!(resolve_task(View::Minimal, "{"), Err(Error::Decode));
    assert_eq!(
        resolve_task(View::Minimal, r#"{"state":"RUNNING"}"#),
        Err(Error::Decode)
    );
    assert_eq!(
        resolve_task(View::Minimal, r#"{"id":"t","state":"SOMETIMES"}"#),
        Err(Error::Decode)
    );
    assert_eq!(resolve_created_task("[]"), Err(Error::Decode));
}

#[test]
fn timestamps_must_be_rfc3339_to_decode() {
    let good = r#"{"id":"t","executors":[],"creation_time":"2024-09-07T20:27:35Z"}"#;
    let task = resolve_task(View::Full, good).unwrap();
    assert_eq!(
        task.as_task().unwrap().creation_time.as_deref(),
        Some("2024-09-07T20:27:35Z")
    );

    let bad = r#"{"id":"t","executors":[],"creation_time":"yesterday"}"#;
    assert_eq!(resolve_task(View::Full, bad), Err(Error::Decode));
}

#[test]
fn list_pages_decode_per_view_and_keep_the_token() {
    let body = r#"{"tasks":[{"id":"a","state":"QUEUED"},{"id":"b"}],"next_page_token":"abc"}"#;
    let page = resolve_list_tasks(View::Minimal, body).unwrap();
    assert_eq!(page.next_page_token.as_deref(), Some("abc"));
    assert_eq!(page.tasks.len(), 2);
    match &page.tasks[0] {
        TaskResponse::Minimal(t) => {
            assert_eq!(t.id, "a");
            assert_eq!(t.state, Some(State::Queued));
        }
        _ => panic!("the tag must match the requested view"),
    }

    let last = r#"{"tasks":[]}"#;
    let page = resolve_list_tasks(View::Minimal, last).unwrap();
    assert!(page.next_page_token.is_none());
    assert!(page.tasks.is_empty());

    assert_eq!(
        resolve_list_tasks(View::Minimal, r#"{"next_page_token":"abc"}"#),
        Err(Error::Decode)
    );
}

#[test]
fn created_tasks_carry_their_id() {
    let created = resolve_created_task(r#"{"id":"task-9"}"#).unwrap();
    assert_eq!(created.id, "task-9");
}

#[test]
fn create_task_bodies_write_the_document_the_server_expects() {
    let task = Task {
        name: Some("hello".to_string()),
        executors: vec![Executor {
            image: "ubuntu".to_string(),
            command: vec!["echo".to_string(), "hi there".to_string()],
            ..Default::default()
        }],
        ..Default::default()
    };
    assert_eq!(
        task.body_string(),
        r#"{"name":"hello","executors":[{"image":"ubuntu","command":["echo","hi there"],"workdir":null,"stdin":null,"stdout":null,"stderr":null,"env":null,"ignore_error":null}]}"#
    );
}

#[test]
fn the_default_state_is_unknown() {
    assert_eq!(State::default(), State::Unknown);
}

#[test]
fn states_answer_whether_they_are_executing() {
    assert!(State::Queued.is_executing());
    assert!(State::Running.is_executing());
    assert!(State::Unknown.is_executing());
    assert!(!State::Complete.is_executing());
    assert!(!State::Canceled.is_executing());
}
