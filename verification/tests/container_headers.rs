use azure_sdk_storage::container::{public_access_from_header, Container, PublicAccess};
use azure_sdk_storage::errors::{AzureError, ParseKind};
use azure_sdk_storage::lease::{LeaseDuration, LeaseState, LeaseStatus};
use azure_sdk_storage::time::Instant;
use http::header::HeaderValue;
use http::HeaderMap;

fn full_headers() -> HeaderMap {
    let mut h = HeaderMap::new();
    h.insert("last-modified", HeaderValue::from_static("Wed, 18 Feb 2015 23:16:09 GMT"));
    h.insert("etag", HeaderValue::from_static("\"abc\""));
    h.insert("x-ms-lease-status", HeaderValue::from_static("unlocked"));
    h.insert("x-ms-lease-state", HeaderValue::from_static("available"));
    h.insert("x-ms-has-immutability-policy", HeaderValue::from_static("false"));
    h.insert("x-ms-has-legal-hold", HeaderValue::from_static("true"));
    h
}

fn missing_name(r: Result<Container, AzureError>) -> String {
    match r {
        Err(AzureError::MissingHeaderError(name)) => name,
        other => panic!("expected a missing header, got {:?}", other),
    }
}

fn parse_kind(r: Result<Container, AzureError>) -> ParseKind {
    match r {
        Err(AzureError::ParseError(kind)) => kind,
        other => panic!("expected a parse error, got {:?}", other),
    }
}

#[test]
fn from_response_holds_header_values_verbatim() {
    let c = Container::from_response("c1".to_owned(), &full_headers()).unwrap();
    assert_eq!(c.name, "c1");
    assert_eq!(c.e_tag, "\"abc\"");
    assert_eq!(c.last_modified, Instant { secs: 1424301369, nanos: 0 });
    assert_eq!(c.lease_status, LeaseStatus::Unlocked);
    assert_eq!(c.lease_state, LeaseState::Available);
    assert_eq!(c.lease_duration, None);
    assert_eq!(c.public_access, PublicAccess::Private);
    assert!(!c.has_immutability_policy);
    assert!(c.has_legal_hold);
    assert_eq!(c.metadata.len(), 0);
    assert_eq!(c.as_ref(), "c1");
}

#[test]
fn from_response_takes_date_with_offset_to_utc() {
    let mut h = full_headers();
    h.insert("last-modified", HeaderValue::from_static("Thu, 19 Feb 2015 01:16:09 +0200"));
    let c = Container::from_response("c1".to_owned(), &h).unwrap();
    assert_eq!(c.last_modified, Instant { secs: 1424301369, nanos: 0 });
}

#[test]
fn from_response_reads_optional_headers() {
    let mut h = full_headers();
    h.insert("x-ms-lease-duration", HeaderValue::from_static("infinite"));
    h.insert("x-ms-blob-public-access", HeaderValue::from_static("blob"));
    h.insert("x-ms-lease-status", HeaderValue::from_static("locked"));
    h.insert("x-ms-lease-state", HeaderValue::from_static("leased"));
    let c = Container::from_response("c1".to_owned(), &h).unwrap();
    assert_eq!(c.lease_duration, Some(LeaseDuration::Infinite));
    assert_eq!(c.public_access, PublicAccess::Blob);
    assert_eq!(c.lease_status, LeaseStatus::Locked);
    assert_eq!(c.lease_state, LeaseState::Leased);
}

#[test]
fn from_response_names_the_missing_last_modified() {
    let mut h = full_headers();
    h.remove("last-modified");
    assert_eq!(missing_name(Container::from_response("c".to_owned(), &h)), "last-modified");
}

#[test]
fn from_response_names_the_missing_etag() {
    let mut h = full_headers();
    h.remove("etag");
    assert_eq!(missing_name(Container::from_response("c".to_owned(), &h)), "etag");
}

#[test]
fn from_response_names_the_missing_lease_status() {
    let mut h = full_headers();
    h.remove("x-ms-lease-status");
    assert_eq!(missing_name(Container::from_response("c".to_owned(), &h)), "x-ms-lease-status");
}

#[test]
fn from_response_names_the_missing_lease_state() {
    let mut h = full_headers();
    h.remove("x-ms-lease-state");
    assert_eq!(missing_name(Container::from_response("c".to_owned(), &h)), "x-ms-lease-state");
}

#[test]
fn from_response_names_the_missing_immutability_policy() {
    let mut h = full_headers();
    h.remove("x-ms-has-immutability-policy");
    assert_eq!(
        missing_name(Container::from_response("c".to_owned(), &h)),
        "x-ms-has-immutability-policy"
    );
}

#[test]
fn from_response_names_the_missing_legal_hold() {
    let mut h = full_headers();
    h.remove("x-ms-has-legal-hold");
    assert_eq!(missing_name(Container::from_response("c".to_owned(), &h)), "x-ms-has-legal-hold");
}

#[test]
fn from_response_reports_the_first_missing_header() {
    let h = HeaderMap::new();
    assert_eq!(missing_name(Container::from_response("c".to_owned(), &h)), "last-modified");
}

#[test]
fn from_response_rejects_a_malformed_date() {
    let mut h = full_headers();
    h.insert("last-modified", HeaderValue::from_static("yesterday"));
    assert_eq!(parse_kind(Container::from_response("c".to_owned(), &h)), ParseKind::Date);
}

#[test]
fn from_response_rejects_a_loose_boolean() {
    let mut h = full_headers();
    h.insert("x-ms-has-legal-hold", HeaderValue::from_static("True"));
    assert_eq!(parse_kind(Container::from_response("c".to_owned(), &h)), ParseKind::Bool);
}

#[test]
fn from_response_rejects_an_unknown_word() {
    let mut h = full_headers();
    h.insert("x-ms-lease-state", HeaderValue::from_static("sleeping"));
    assert_eq!(parse_kind(Container::from_response("c".to_owned(), &h)), ParseKind::Enumeration);
    let mut h = full_headers();
    h.insert("x-ms-lease-duration", HeaderValue::from_static("long"));
    assert_eq!(parse_kind(Container::from_response("c".to_owned(), &h)), ParseKind::Enumeration);
}

#[test]
fn from_response_rejects_a_value_that_is_no_text() {
    let mut h = full_headers();
    h.insert("etag", HeaderValue::from_bytes(&[0xC3, 0xA9]).unwrap());
    assert_eq!(parse_kind(Container::from_response("c".to_owned(), &h)), ParseKind::Text);
}

#[test]
fn from_response_collects_metadata_without_the_prefix() {
    let mut h = full_headers();
    h.insert("x-ms-meta-foo", HeaderValue::from_static("bar"));
    h.insert("x-ms-meta-colour", HeaderValue::from_static("green"));
    let c = Container::from_response("c".to_owned(), &h).unwrap();
    assert_eq!(c.metadata.len(), 2);
    assert_eq!(c.metadata.get("foo"), Some("bar"));
    assert_eq!(c.metadata.get("colour"), Some("green"));
    assert_eq!(c.metadata.get("x-ms-meta-foo"), None);
}

#[test]
fn from_response_keeps_the_last_of_repeated_metadata() {
    let mut h = full_headers();
    h.append("x-ms-meta-foo", HeaderValue::from_static("one"));
    h.append("x-ms-meta-foo", HeaderValue::from_static("two"));
    let c = Container::from_response("c".to_owned(), &h).unwrap();
    assert_eq!(c.metadata.len(), 1);
    assert_eq!(c.metadata.get("foo"), Some("two"));
}

#[test]
fn from_response_rejects_metadata_that_is_no_text() {
    let mut h = full_headers();
    h.insert("x-ms-meta-foo", HeaderValue::from_bytes(&[0xFF]).unwrap());
    assert_eq!(parse_kind(Container::from_response("c".to_owned(), &h)), ParseKind::Text);
}

#[test]
fn from_response_twice_gives_equal_entities() {
    let mut h = full_headers();
    h.insert("x-ms-meta-foo", HeaderValue::from_static("bar"));
    let a = Container::from_response("c".to_owned(), &h).unwrap();
    let b = Container::from_response("c".to_owned(), &h).unwrap();
    assert_eq!(format!("{:?}", a), format!("{:?}", b));
}

#[test]
fn from_header_lines_uses_the_first_line_of_a_name() {
    let lines = vec![
        ("last-modified".to_owned(), Some("Wed, 18 Feb 2015 23:16:09 GMT".to_owned())),
        ("etag".to_owned(), Some("first".to_owned())),
        ("etag".to_owned(), Some("second".to_owned())),
        ("x-ms-lease-status".to_owned(), Some("unlocked".to_owned())),
        ("x-ms-lease-state".to_owned(), Some("broken".to_owned())),
        ("x-ms-has-immutability-policy".to_owned(), Some("true".to_owned())),
        ("x-ms-has-legal-hold".to_owned(), Some("false".to_owned())),
    ];
    let c = Container::from_header_lines("c".to_owned(), &lines).unwrap();
    assert_eq!(c.e_tag, "first");
    assert_eq!(c.lease_state, LeaseState::Broken);
    assert!(c.has_immutability_policy);
}

#[test]
fn public_access_from_header_defaults_to_private() {
    let h = HeaderMap::new();
    assert_eq!(public_access_from_header(&h).unwrap(), PublicAccess::Private);
}

#[test]
fn public_access_from_header_reads_the_word() {
    let mut h = HeaderMap::new();
    h.insert("x-ms-blob-public-access", HeaderValue::from_static("container"));
    assert_eq!(public_access_from_header(&h).unwrap(), PublicAccess::Container);
    h.insert("x-ms-blob-public-access", HeaderValue::from_static("everyone"));
    assert!(matches!(
        public_access_from_header(&h),
        Err(AzureError::ParseError(ParseKind::Enumeration))
    ));
}

#[test]
fn new_container_has_the_defaults() {
    let c = Container::new("fresh");
    assert_eq!(c.name, "fresh");
    assert_eq!(c.e_tag, "");
    assert_eq!(c.lease_status, LeaseStatus::Unlocked);
    assert_eq!(c.lease_state, LeaseState::Available);
    assert_eq!(c.lease_duration, None);
    assert_eq!(c.public_access, PublicAccess::Private);
    assert!(!c.has_immutability_policy);
    assert!(!c.has_legal_hold);
    assert_eq!(c.metadata.len(), 0);
    assert!(c.last_modified.secs > 1514764800);
}
