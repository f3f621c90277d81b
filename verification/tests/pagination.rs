//! Tests for the pagination walker.

use tes::v1::client::pagination::collect_pages;
use tes::v1::types::responses::{ListTasks, MinimalTask, TaskResponse};

fn minimal(id: &str) -> TaskResponse {
    TaskResponse::Minimal(MinimalTask {
        id: id.to_string(),
        state: None,
    })
}

fn id_of(t: &TaskResponse) -> String {
    match t {
        TaskResponse::Minimal(m) => m.id.clone(),
        _ => panic!("expected a minimal task"),
    }
}

#[test]
fn three_pages_collect_in_order_with_three_requests() {
    // Pages with tokens "abc" and "xyz" and then one without, holding
    // [a], [b, c] and [d]: the walker returns [a, b, c, d] after exactly
    // three requests, in that order.
    let pages = vec![
        ListTasks {
            tasks: vec![minimal("a")],
            next_page_token: Some("abc".to_string()),
        },
        ListTasks {
            tasks: vec![minimal("b"), minimal("c")],
            next_page_token: Some("xyz".to_string()),
        },
        ListTasks {
            tasks: vec![minimal("d")],
            next_page_token: None,
        },
    ];
    let (items, requests) = collect_pages(pages).unwrap();
    assert_eq!(requests, 3);
    let ids: Vec<String> = items.iter().map(id_of).collect();
    assert_eq!(ids, vec!["a", "b", "c", "d"]);
}

#[test]
fn a_single_tokenless_page_is_one_request() {
    let pages = vec![ListTasks {
        tasks: vec![minimal("only")],
        next_page_token: None,
    }];
    let (items, requests) = collect_pages(pages).unwrap();
    assert_eq!(requests, 1);
    assert_eq!(items.len(), 1);
    assert_eq!(id_of(&items[0]), "only");
}

#[test]
fn pages_that_never_stop_cannot_be_folded() {
    // Every recorded page still carries a token: the walk needs more
    // pages than were recorded.
    let pages = vec![ListTasks {
        tasks: vec![minimal("a")],
        next_page_token: Some("more".to_string()),
    }];
    assert!(collect_pages(pages).is_none());
}

#[test]
fn later_pages_after_the_stop_are_not_requested() {
    let pages = vec![
        ListTasks {
            tasks: vec![minimal("a")],
            next_page_token: None,
        },
        ListTasks {
            tasks: vec![minimal("never")],
            next_page_token: None,
        },
    ];
    let (items, requests) = collect_pages(pages).unwrap();
    assert_eq!(requests, 1);
    assert_eq!(items.len(), 1);
    assert_eq!(id_of(&items[0]), "a");
}
