//! Tests for the service-info shapes, their codec, and the builder.

use tes::v1::json::parse_json;
use tes::v1::types::responses::service;
use tes::v1::types::responses::service_info;

const EXAMPLE: &str = r#"{
  "id": "org.ga4gh.myservice",
  "name": "My project",
  "type": {
    "group": "org.ga4gh",
    "artifact": "tes",
    "version": "1.0.0"
  },
  "description": "This service provides...",
  "organization": {
    "name": "My organization",
    "url": "https://example.com"
  },
  "contactUrl": "mailto:support@example.com",
  "documentationUrl": "https://docs.myservice.example.com",
  "createdAt": "2019-06-04T12:58:19Z",
  "updatedAt": "2019-06-04T12:58:19Z",
  "environment": "test",
  "version": "1.0.0",
  "storage": [
    "file:///path/to/local/funnel-storage",
    "s3://ohsu-compbio-funnel/storage"
  ]
}"#;

const FULL_COMPACT: &str = r#"{"id":"org.ga4gh.myservice","name":"My Server","type":{"group":"org.ga4gh","artifact":"tes","version":"1.0.0"},"description":"A description","organization":{"name":"My Organization","url":"https://example.com/"},"contactUrl":"mailto:foo@bar.com","documentationUrl":"https://docs.myservice.example.com/","createdAt":"2024-09-07T20:27:35.345673Z","updatedAt":"2024-09-07T20:27:35.345673Z","environment":"test","version":"1.5.0","storage":["file:///path/to/local/funnel-storage","s3://ohsu-compbio-funnel/storage"]}"#;

fn rfc3339(s: &str) -> String {
    chrono::DateTime::parse_from_rfc3339(s).unwrap().to_rfc3339()
}

#[test]
fn service_smoke() {
    let doc = parse_json(EXAMPLE).unwrap();
    let result = service::ServiceInfo::from_json(&doc).unwrap();

    assert_eq!(result.id, "org.ga4gh.myservice");
    assert_eq!(result.name, "My project");
    assert_eq!(result.ty.group, "org.ga4gh");
    assert_eq!(result.ty.artifact, service::Artifact::TaskExecutionService);
    assert_eq!(result.ty.version, "1.0.0");
    assert_eq!(result.description.unwrap(), "This service provides...");
    assert_eq!(result.organization.name, "My organization");
    assert_eq!(result.organization.url, "https://example.com/");
    assert_eq!(result.contact_url.unwrap(), "mailto:support@example.com");
    assert_eq!(
        result.documentation_url.unwrap(),
        "https://docs.myservice.example.com/"
    );
    assert_eq!(
        rfc3339(result.created_at.as_ref().unwrap()),
        "2019-06-04T12:58:19+00:00"
    );
    assert_eq!(
        rfc3339(result.updated_at.as_ref().unwrap()),
        "2019-06-04T12:58:19+00:00"
    );
    assert_eq!(result.environment.unwrap(), "test");
    assert_eq!(result.version, "1.0.0");
    assert_eq!(
        result.storage.unwrap(),
        vec![
            "file:///path/to/local/funnel-storage",
            "s3://ohsu-compbio-funnel/storage"
        ]
    );
}

fn full_example() -> service::ServiceInfo {
    let now = chrono::DateTime::parse_from_rfc3339("2024-09-07T20:27:35.345673Z")
        .unwrap()
        .to_rfc3339_opts(chrono::SecondsFormat::AutoSi, true);

    service::ServiceInfo {
        id: String::from("org.ga4gh.myservice"),
        name: String::from("My Server"),
        ty: service::ServiceType {
            group: String::from("org.ga4gh"),
            artifact: service::Artifact::TaskExecutionService,
            version: String::from("1.0.0"),
        },
        description: Some(String::from("A description")),
        organization: service::Organization {
            name: String::from("My Organization"),
            url: url::Url::parse("https://example.com").unwrap().to_string(),
        },
        contact_url: Some(String::from("mailto:foo@bar.com")),
        documentation_url: Some(
            url::Url::parse("https://docs.myservice.example.com")
                .unwrap()
                .to_string(),
        ),
        created_at: Some(now.clone()),
        updated_at: Some(now),
        environment: Some(String::from("test")),
        version: String::from("1.5.0"),
        storage: Some(vec![
            String::from("file:///path/to/local/funnel-storage"),
            String::from("s3://ohsu-compbio-funnel/storage"),
        ]),
    }
}

#[test]
fn full_conversion() {
    let info = full_example();

    let serialized = info.body_string();
    assert_eq!(serialized, FULL_COMPACT);

    let doc = parse_json(&serialized).unwrap();
    let deserialized = service::ServiceInfo::from_json(&doc).unwrap();
    assert_eq!(info, deserialized);
}

#[test]
fn encoding_a_decoded_document_round_trips() {
    // Decoding the example document, encoding it, and decoding it again
    // yields a value equal to the first decoding.
    let doc = parse_json(EXAMPLE).unwrap();
    let first = service::ServiceInfo::from_json(&doc).unwrap();
    let encoded = first.body_string();
    let doc2 = parse_json(&encoded).unwrap();
    let second = service::ServiceInfo::from_json(&doc2).unwrap();
    assert_eq!(first, second);
}

#[test]
fn service_info_smoke() {
    let doc = parse_json(EXAMPLE).unwrap();
    let result = service_info::ServiceInfo::from_json(&doc).unwrap();

    assert_eq!(result.id(), "org.ga4gh.myservice");
    assert_eq!(result.name(), "My project");
    assert_eq!(result.ty().group, "org.ga4gh");
    assert_eq!(
        result.ty().artifact,
        service_info::Artifact::TaskExecutionService
    );
    assert_eq!(result.ty().version, "1.0.0");
    assert_eq!(result.description().unwrap(), "This service provides...");
    assert_eq!(result.organization().name, "My organization");
    assert_eq!(result.organization().url, "https://example.com/");
    assert_eq!(result.contact_url().unwrap(), "mailto:support@example.com");
    assert_eq!(
        result.documentation_url().unwrap(),
        "https://docs.myservice.example.com/"
    );
    assert_eq!(
        rfc3339(result.created_at().unwrap()),
        "2019-06-04T12:58:19+00:00"
    );
    assert_eq!(
        rfc3339(result.updated_at().unwrap()),
        "2019-06-04T12:58:19+00:00"
    );
    assert_eq!(result.environment().unwrap(), "test");
    assert_eq!(result.version(), "1.0.0");
    assert_eq!(
        result.storage().unwrap(),
        &vec![
            "file:///path/to/local/funnel-storage".to_string(),
            "s3://ohsu-compbio-funnel/storage".to_string()
        ]
    );
}

#[test]
fn service_info_full_conversion() {
    let now = chrono::DateTime::parse_from_rfc3339("2024-09-07T20:27:35.345673Z")
        .unwrap()
        .to_rfc3339_opts(chrono::SecondsFormat::AutoSi, true);

    let info = service_info::Builder::default()
        .id(String::from("org.ga4gh.myservice"))
        .name(String::from("My Server"))
        .tes_version(String::from("1.0.0"))
        .description(String::from("A description"))
        .org_name(String::from("My Organization"))
        .org_url(url::Url::parse("https://example.com").unwrap().to_string())
        .contact_url(String::from("mailto:foo@bar.com"))
        .documentation_url(
            url::Url::parse("https://docs.myservice.example.com")
                .unwrap()
                .to_string(),
        )
        .created_at(now.clone())
        .updated_at(now)
        .environment(String::from("test"))
        .version(String::from("1.5.0"))
        .storage(vec![
            String::from("file:///path/to/local/funnel-storage"),
            String::from("s3://ohsu-compbio-funnel/storage"),
        ])
        .try_build()
        .unwrap();

    let serialized = info.body_string();
    assert_eq!(serialized, FULL_COMPACT);

    let doc = parse_json(&serialized).unwrap();
    let deserialized = service_info::ServiceInfo::from_json(&doc).unwrap();
    assert_eq!(info, deserialized);
}

#[test]
fn urls_must_parse_to_decode() {
    // The shape is right, but the organization URL is no URL: the
    // document does not decode.
    let bad_org = r#"{"id":"i","name":"n","type":{"group":"g","artifact":"tes","version":"1"},
        "organization":{"name":"o","url":"not a url"},"version":"1"}"#;
    let doc = parse_json(bad_org).unwrap();
    assert!(service::ServiceInfo::from_json(&doc).is_none());
    assert!(service_info::ServiceInfo::from_json(&doc).is_none());

    // Likewise for a documentation URL that is present but unparsable.
    let bad_doc_url = r#"{"id":"i","name":"n","type":{"group":"g","artifact":"tes","version":"1"},
        "organization":{"name":"o","url":"https://example.com"},
        "documentationUrl":"::not a url::","version":"1"}"#;
    let doc = parse_json(bad_doc_url).unwrap();
    assert!(service::ServiceInfo::from_json(&doc).is_none());

    // With both URLs acceptable the same shape decodes.
    let good = r#"{"id":"i","name":"n","type":{"group":"g","artifact":"tes","version":"1"},
        "organization":{"name":"o","url":"https://example.com"},"version":"1"}"#;
    let doc = parse_json(good).unwrap();
    let info = service::ServiceInfo::from_json(&doc).unwrap();
    assert_eq!(info.organization.url, "https://example.com/");
    assert!(info.documentation_url.is_none());
}

#[test]
fn the_builder_reports_the_first_missing_field() {
    let err = service_info::Builder::default().try_build().unwrap_err();
    assert_eq!(
        err.message(),
        "missing required value for 'id' in a service information builder"
    );

    let err = service_info::Builder::default()
        .id(String::from("x"))
        .name(String::from("y"))
        .try_build()
        .unwrap_err();
    assert_eq!(
        err.message(),
        "missing required value for 'organization name' in a service information builder"
    );
}
