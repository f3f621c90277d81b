//! Tests for the client builder.

use tes::v1::client::builder::{Builder, Error};
use tes::v1::client::Client;

#[test]
fn it_adds_a_trailing_slash() {
    let client = Builder::default()
        .url_from_string("http://localhost:4000/v1")
        .unwrap()
        .try_build()
        .unwrap();

    assert_eq!(client.url.as_str(), "http://localhost:4000/v1/");
}

#[test]
fn url_is_normalized_by_the_url_crate() {
    let client = Client::builder()
        .url_from_string("HTTP://EXAMPLE.com/v1")
        .unwrap()
        .try_build()
        .unwrap();

    assert_eq!(client.url.as_str(), "http://example.com/v1/");
}

#[test]
fn an_existing_trailing_slash_is_kept() {
    let client = Client::builder()
        .url_from_string("http://localhost:4000/v1/")
        .unwrap()
        .try_build()
        .unwrap();

    assert_eq!(client.url.as_str(), "http://localhost:4000/v1/");
}

#[test]
fn an_invalid_url_is_refused() {
    let result = Client::builder().url_from_string("not a url");
    assert!(matches!(result, Err(Error::Url)));
}

#[test]
fn a_missing_url_fails_the_build() {
    let result = Client::builder().try_build();
    match result {
        Err(e) => {
            assert_eq!(e, Error::Missing("url"));
            assert_eq!(e.message(), "missing required field `url`");
        }
        Ok(_) => panic!("building without a URL must fail"),
    }
}

#[test]
fn headers_are_lowered_and_replaced() {
    let b = Client::builder()
        .insert_header("Authorization", "Basic one")
        .insert_header("X-Custom", "a")
        .insert_header("authorization", "Basic two");
    assert_eq!(b.headers.len(), 2);
    assert_eq!(b.headers[0].0, "authorization");
    assert_eq!(b.headers[0].1, "Basic two");
    assert_eq!(b.headers[1].0, "x-custom");
    assert_eq!(b.headers[1].1, "a");
}

#[test]
fn timeouts_default_to_sixty_seconds() {
    let client = Client::builder()
        .url_from_string("http://localhost:4000/v1")
        .unwrap()
        .try_build()
        .unwrap();
    assert_eq!(client.connect_timeout, 60_000);
    assert_eq!(client.read_timeout, 60_000);

    let client = Client::builder()
        .url_from_string("http://localhost:4000/v1")
        .unwrap()
        .connect_timeout(1_000)
        .read_timeout(2_000)
        .try_build()
        .unwrap();
    assert_eq!(client.connect_timeout, 1_000);
    assert_eq!(client.read_timeout, 2_000);
}
