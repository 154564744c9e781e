use extractor_chain::chain::{empty_endpoint, Chain, Failure};
use extractor_chain::extractor::{Extracted, Extractor, FailureKind, FieldSpec, FieldValue};
use extractor_chain::path::segment;
use extractor_chain::request::RequestView;

const CONTACT: &str = "{\"name\":\"John Doe\",\"email\":\"foo@john.com\",\"age\":42}";

fn request(path: &str, body: &str) -> RequestView {
    RequestView::new(
        "GET".to_string(),
        path.to_string(),
        vec![("accept".to_string(), "application/json".to_string())],
        body.as_bytes().to_vec(),
    )
}

fn contact_extractor() -> Extractor {
    Extractor::body(vec![
        FieldSpec::text("name"),
        FieldSpec::text("email"),
        FieldSpec::unsigned("age", 255),
    ])
}

fn contact_chain() -> Chain {
    empty_endpoint()
        .with_extractor(Extractor::path_text(1))
        .with_extractor(Extractor::path_unsigned(2))
        .with_extractor(contact_extractor())
}

fn contact_value() -> Extracted {
    Extracted::Record(vec![
        FieldValue::Text("John Doe".to_string()),
        FieldValue::Text("foo@john.com".to_string()),
        FieldValue::Unsigned(42),
    ])
}

#[test]
fn worked_scenario() {
    let r = contact_chain().run_all(&request("/hello/1337", CONTACT));
    assert_eq!(
        r,
        Ok(vec![
            Extracted::Text("hello".to_string()),
            Extracted::Unsigned(1337),
            contact_value(),
        ])
    );
}

#[test]
fn malformed_body_fails_at_body_extractor() {
    let r = contact_chain().run_all(&request("/hello/1337", "{\"name\": \"John"));
    assert_eq!(r, Err(Failure { position: 2, kind: FailureKind::Decode }));
}

#[test]
fn missing_segment_fails_at_second_extractor() {
    let r = contact_chain().run_all(&request("/hello", CONTACT));
    assert_eq!(r, Err(Failure { position: 1, kind: FailureKind::MetadataAccess }));
}

#[test]
fn empty_chain_gives_empty_aggregate() {
    assert_eq!(Chain::empty().run_all(&request("/a/b", CONTACT)), Ok(vec![]));
    assert_eq!(empty_endpoint().run_all(&request("", "not json")), Ok(vec![]));
    assert_eq!(empty_endpoint().len(), 0);
}

#[test]
fn aggregate_length_and_types_follow_chain() {
    let c = contact_chain();
    assert_eq!(c.len(), 3);
    let v = c.run_all(&request("/x/7", "{\"age\":255,\"email\":\"e\",\"name\":\"n\",\"extra\":true}"))
        .unwrap();
    assert_eq!(v.len(), 3);
    assert!(matches!(v[0], Extracted::Text(_)));
    assert!(matches!(v[1], Extracted::Unsigned(7)));
    match &v[2] {
        Extracted::Record(fields) => {
            assert_eq!(fields.len(), 3);
            assert_eq!(fields[0], FieldValue::Text("n".to_string()));
            assert_eq!(fields[1], FieldValue::Text("e".to_string()));
            assert_eq!(fields[2], FieldValue::Unsigned(255));
        }
        _ => panic!("expected a record"),
    }
}

#[test]
fn append_runs_new_extractor_last() {
    let req = request("/hello/1337", CONTACT);
    let c = empty_endpoint().append(Extractor::path_text(1));
    let before = c.run_all(&req).unwrap();
    let e = Extractor::path_unsigned(2);
    let alone = e.extract(&req).unwrap();
    let after = c.append(e).run_all(&req).unwrap();
    let mut expected = before.clone();
    expected.push(alone);
    assert_eq!(after, expected);
}

#[test]
fn append_failure_reported_past_prior_chain() {
    let req = request("/hello/abc", CONTACT);
    let r = empty_endpoint()
        .append(Extractor::path_text(1))
        .append(Extractor::path_unsigned(2))
        .run_all(&req);
    assert_eq!(r, Err(Failure { position: 1, kind: FailureKind::MetadataAccess }));
}

#[test]
fn identical_requests_give_equal_aggregates() {
    let c = contact_chain();
    let a = c.run_all(&request("/hello/1337", CONTACT));
    let b = c.run_all(&request("/hello/1337", CONTACT));
    assert_eq!(a, b);
    let e1 = c.run_all(&request("/hello", CONTACT));
    let e2 = c.run_all(&request("/hello", CONTACT));
    assert_eq!(e1, e2);
}

#[test]
fn first_failure_short_circuits() {
    // Both the path and the body are bad: only the first failure is reported.
    let r = contact_chain().run_all(&request("/hello", "oops"));
    assert_eq!(r, Err(Failure { position: 1, kind: FailureKind::MetadataAccess }));
    let r = empty_endpoint()
        .append(Extractor::path_text(5))
        .append(contact_extractor())
        .run_all(&request("/a", "oops"));
    assert_eq!(r, Err(Failure { position: 0, kind: FailureKind::MetadataAccess }));
}

#[test]
fn missing_member_is_decode_failure() {
    let r = contact_extractor().extract(&request("/", "{\"name\":\"a\",\"age\":3}"));
    assert_eq!(r, Err(FailureKind::Decode));
}

#[test]
fn wrong_member_type_is_decode_failure() {
    let r = contact_extractor().extract(&request("/", "{\"name\":1,\"email\":\"e\",\"age\":3}"));
    assert_eq!(r, Err(FailureKind::Decode));
    let r = contact_extractor().extract(&request("/", "{\"name\":\"n\",\"email\":\"e\",\"age\":\"3\"}"));
    assert_eq!(r, Err(FailureKind::Decode));
}

#[test]
fn member_over_bound_is_decode_failure() {
    let r = contact_extractor().extract(&request("/", "{\"name\":\"n\",\"email\":\"e\",\"age\":256}"));
    assert_eq!(r, Err(FailureKind::Decode));
    let r = contact_extractor().extract(&request("/", "{\"name\":\"n\",\"email\":\"e\",\"age\":-1}"));
    assert_eq!(r, Err(FailureKind::Decode));
}

#[test]
fn body_that_is_not_an_object_is_decode_failure() {
    let r = contact_extractor().extract(&request("/", "[1, 2, 3]"));
    assert_eq!(r, Err(FailureKind::Decode));
}

#[test]
fn empty_field_list_accepts_any_object() {
    let e = Extractor::body(vec![]);
    assert_eq!(e.extract(&request("/", "{}")), Ok(Extracted::Record(vec![])));
    assert_eq!(e.extract(&request("/", "{")), Err(FailureKind::Decode));
}

#[test]
fn path_unsigned_parsing() {
    let e = Extractor::path_unsigned(1);
    assert_eq!(e.extract(&request("/42", "")), Ok(Extracted::Unsigned(42)));
    assert_eq!(e.extract(&request("/+42", "")), Ok(Extracted::Unsigned(42)));
    assert_eq!(
        e.extract(&request("/18446744073709551615", "")),
        Ok(Extracted::Unsigned(u64::MAX))
    );
    assert_eq!(e.extract(&request("/18446744073709551616", "")), Err(FailureKind::MetadataAccess));
    assert_eq!(e.extract(&request("/-1", "")), Err(FailureKind::MetadataAccess));
    assert_eq!(e.extract(&request("/ 1", "")), Err(FailureKind::MetadataAccess));
    assert_eq!(e.extract(&request("/", "")), Err(FailureKind::MetadataAccess));
}

#[test]
fn path_segments() {
    assert_eq!(segment("/hello/1337", 0), Some("".to_string()));
    assert_eq!(segment("/hello/1337", 1), Some("hello".to_string()));
    assert_eq!(segment("/hello/1337", 2), Some("1337".to_string()));
    assert_eq!(segment("/hello/1337", 3), None);
    assert_eq!(segment("/a//b/", 2), Some("".to_string()));
    assert_eq!(segment("/a//b/", 4), Some("".to_string()));
    assert_eq!(segment("", 0), Some("".to_string()));
    assert_eq!(segment("", 1), None);
    assert_eq!(segment("/héllo/x", 1), Some("héllo".to_string()));
}

#[test]
fn request_view_accessors() {
    let r = request("/p", "b");
    assert_eq!(r.method(), "GET");
    assert_eq!(r.path(), "/p");
    assert_eq!(r.headers().len(), 1);
    assert_eq!(r.body(), &vec![b'b']);
}
