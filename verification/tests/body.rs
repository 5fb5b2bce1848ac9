use rustify::definition::{endpoint_derive, gen_body, gen_query, DerivedEndpoint};
use rustify::endpoint::Endpoint;
use rustify::enums::RequestType;
use rustify::errors::{ClientError, ErrorKind};
use rustify::fields::{field_attributes, fields_to_struct, EndpointAttribute, Field, FieldValue};
use rustify::json::{quoted, to_json};
use rustify::request::{build_body, build_query, query_checked};

fn text(s: &str) -> FieldValue {
    FieldValue::Text(s.to_string())
}

fn body_of(fields: &Vec<Field>) -> Option<Vec<u8>> {
    gen_body(&field_attributes(fields), RequestType::JSON).unwrap()
}

fn path_only() -> Vec<Vec<(String, String)>> {
    vec![vec![("path".to_string(), "p".to_string())]]
}

#[test]
fn raw_field_is_the_body_whatever_else_is_tagged() {
    let fields = vec![
        Field::with_role("a", EndpointAttribute::Body, text("x")),
        Field::with_role("data", EndpointAttribute::Raw, FieldValue::Bytes(vec![0, 159, 146, 150])),
        Field::with_role("b", EndpointAttribute::Body, FieldValue::Int(1)),
        Field::new("c", FieldValue::Bool(true)),
    ];
    assert_eq!(body_of(&fields), Some(vec![0, 159, 146, 150]));
}

#[test]
fn empty_raw_field_is_an_empty_body() {
    let fields = vec![
        Field::with_role("data", EndpointAttribute::Raw, FieldValue::Bytes(vec![])),
        Field::with_role("b", EndpointAttribute::Body, FieldValue::Int(1)),
    ];
    assert_eq!(body_of(&fields), Some(vec![]));
}

#[test]
fn body_fields_exclude_untagged_fields() {
    let fields = vec![
        Field::new("loose", text("x")),
        Field::with_role("kept", EndpointAttribute::Body, FieldValue::Int(-7)),
        Field::with_role("skipped", EndpointAttribute::Skip, FieldValue::Int(9)),
        Field::with_role("asked", EndpointAttribute::Query, FieldValue::Int(3)),
    ];
    assert_eq!(body_of(&fields).unwrap(), br#"{"kept":-7}"#);
}

#[test]
fn untagged_fields_are_the_body_as_if_tagged() {
    let untagged = vec![Field::new("name", text("a")), Field::new("age", FieldValue::UInt(5))];
    let tagged = vec![
        Field::with_role("name", EndpointAttribute::Body, text("a")),
        Field::with_role("age", EndpointAttribute::Body, FieldValue::UInt(5)),
    ];
    assert_eq!(body_of(&untagged).unwrap(), br#"{"name":"a","age":5}"#);
    assert_eq!(body_of(&untagged), body_of(&tagged));
}

#[test]
fn no_body_without_body_fields() {
    let fields = vec![
        Field::with_role("skipped", EndpointAttribute::Skip, FieldValue::Int(9)),
        Field::with_role("asked", EndpointAttribute::Query, FieldValue::Int(3)),
    ];
    assert_eq!(body_of(&fields), None);
    assert_eq!(body_of(&vec![]), None);
}

#[test]
fn unset_optional_field_is_left_out() {
    let unset = vec![Field::new("kind", text("test")), Field::new("special", FieldValue::Absent)];
    let set = vec![Field::new("kind", text("test")), Field::new("special", FieldValue::Bool(false))];
    assert_eq!(body_of(&unset).unwrap(), br#"{"kind":"test"}"#);
    assert_eq!(body_of(&set).unwrap(), br#"{"kind":"test","special":false}"#);
    assert_eq!(fields_to_struct(&unset).len(), 1);
    assert_eq!(fields_to_struct(&set).len(), 2);
    assert_eq!(fields_to_struct(&set)[1].name, "special");
}

#[test]
fn body_that_says_nothing_is_no_body() {
    let fields = vec![Field::new("a", FieldValue::Absent), Field::new("b", FieldValue::Absent)];
    assert_eq!(body_of(&fields), None);
    assert_eq!(build_body(&vec![], RequestType::JSON).unwrap(), None);
}

#[test]
fn build_body_writes_every_kind_of_value() {
    let object = vec![
        Field::new("t", text("a\"b\\c\n\u{e9}")),
        Field::new("i", FieldValue::Int(i64::MIN)),
        Field::new("u", FieldValue::UInt(u64::MAX)),
        Field::new("z", FieldValue::Int(0)),
        Field::new("yes", FieldValue::Bool(true)),
        Field::new("no", FieldValue::Bool(false)),
        Field::new("none", FieldValue::Absent),
        Field::new("bytes", FieldValue::Bytes(vec![0, 7, 255])),
        Field::new("empty", FieldValue::Bytes(vec![])),
    ];
    let body = build_body(&object, RequestType::JSON).unwrap().unwrap();
    let expected = "{\"t\":\"a\\\"b\\\\c\\n\u{e9}\",\"i\":-9223372036854775808,\
        \"u\":18446744073709551615,\"z\":0,\"yes\":true,\"no\":false,\"none\":null,\
        \"bytes\":[0,7,255],\"empty\":[]}";
    assert_eq!(String::from_utf8(body.clone()).unwrap(), expected);
    let read: serde_json::Value = serde_json::from_slice(&body).unwrap();
    assert_eq!(read["t"], "a\"b\\c\n\u{e9}");
    assert_eq!(read["u"], u64::MAX);
    assert_eq!(to_json(&object).unwrap(), expected);
}

#[test]
fn names_are_quoted_like_strings() {
    let object = vec![Field::new("a \"name\"", FieldValue::Int(1))];
    assert_eq!(to_json(&object).unwrap(), r#"{"a \"name\"":1}"#);
}

#[test]
fn body_round_trips_through_a_symmetric_reader() {
    let object = vec![
        Field::new("name", text("J\u{fc}rgen / \"x\"")),
        Field::new("age", FieldValue::UInt(30)),
        Field::new("debt", FieldValue::Int(-12)),
        Field::new("admin", FieldValue::Bool(true)),
        Field::new("tags", FieldValue::Bytes(vec![1, 2, 3])),
    ];
    let body = build_body(&object, RequestType::JSON).unwrap().unwrap();
    let read: serde_json::Value = serde_json::from_slice(&body).unwrap();
    assert_eq!(read["name"].as_str().unwrap(), "J\u{fc}rgen / \"x\"");
    assert_eq!(read["age"].as_u64().unwrap(), 30);
    assert_eq!(read["debt"].as_i64().unwrap(), -12);
    assert_eq!(read["admin"].as_bool().unwrap(), true);
    let tags: Vec<u8> = serde_json::from_value(read["tags"].clone()).unwrap();
    assert_eq!(tags, vec![1, 2, 3]);
    assert_eq!(read.as_object().unwrap().len(), 5);
}

#[test]
fn two_raw_fields_are_rejected() {
    let fields = vec![
        Field::new("name", text("x")),
        Field::with_role("data", EndpointAttribute::Raw, FieldValue::Bytes(vec![1])),
        Field::with_role("data_two", EndpointAttribute::Raw, FieldValue::Bytes(vec![2])),
    ];
    let err = gen_body(&field_attributes(&fields), RequestType::JSON).unwrap_err();
    match &err {
        ClientError::EndpointBuildError { source } => assert_eq!(source, "May only mark one field as raw"),
        _ => panic!("wrong error"),
    }
    let err = endpoint_derive::<()>(&path_only(), fields).err().unwrap();
    assert_eq!(err.kind(), ErrorKind::EndpointBuild);
}

#[test]
fn raw_field_must_hold_bytes() {
    let fields = vec![
        Field::new("name", text("x")),
        Field::with_role("data", EndpointAttribute::Raw, text("not bytes")),
    ];
    let err = gen_body(&field_attributes(&fields), RequestType::JSON).unwrap_err();
    match &err {
        ClientError::EndpointBuildError { source } => assert_eq!(source, "A raw field must hold bytes"),
        _ => panic!("wrong error"),
    }
    assert!(endpoint_derive::<()>(&path_only(), fields).is_err());
}

#[test]
fn endpoint_body_follows_the_roles() {
    let e: DerivedEndpoint<()> = endpoint_derive(
        &path_only(),
        vec![
            Field::new("loose", text("x")),
            Field::with_role("kept", EndpointAttribute::Body, FieldValue::Int(1)),
        ],
    )
    .unwrap();
    assert_eq!(e.body().unwrap().unwrap(), br#"{"kept":1}"#);
    assert_eq!(e.query().unwrap(), None);
}

#[test]
fn fields_are_grouped_by_role_in_order() {
    let fields = vec![
        Field::with_role("q1", EndpointAttribute::Query, FieldValue::Int(1)),
        Field::new("u1", FieldValue::Int(2)),
        Field::with_role("b1", EndpointAttribute::Body, FieldValue::Int(3)),
        Field::with_role("q2", EndpointAttribute::Query, FieldValue::Int(4)),
        Field::with_role("s1", EndpointAttribute::Skip, FieldValue::Int(5)),
        Field::with_role("r1", EndpointAttribute::Raw, FieldValue::Bytes(vec![6])),
        Field::new("u2", FieldValue::Int(7)),
    ];
    let groups = field_attributes(&fields);
    let names = |v: &Vec<Field>| v.iter().map(|f| f.name.clone()).collect::<Vec<_>>();
    assert_eq!(names(&groups.query), vec!["q1", "q2"]);
    assert_eq!(names(&groups.untagged), vec!["u1", "u2"]);
    assert_eq!(names(&groups.body), vec!["b1"]);
    assert_eq!(names(&groups.skip), vec!["s1"]);
    assert_eq!(names(&groups.raw), vec!["r1"]);
}

#[test]
fn query_holds_the_fields_that_are_set() {
    let object = vec![
        Field::new("name", text("a b&c=d")),
        Field::new("age", FieldValue::UInt(30)),
        Field::new("debt", FieldValue::Int(-5)),
        Field::new("scope", FieldValue::Absent),
        Field::new("admin", FieldValue::Bool(true)),
        Field::new("caf\u{e9}", text("\u{e9}")),
    ];
    assert_eq!(
        build_query(&object).unwrap(),
        "name=a+b%26c%3Dd&age=30&debt=-5&admin=true&caf%C3%A9=%C3%A9"
    );
    assert_eq!(build_query(&vec![]).unwrap(), "");
}

#[test]
fn query_rejects_bytes() {
    let object = vec![Field::new("data", FieldValue::Bytes(vec![1, 2]))];
    let err = build_query(&object).unwrap_err();
    assert!(matches!(err, ClientError::UrlQueryParseError { .. }));
    assert_eq!(err.message(), "Error serializing URL query parameters");
}

#[test]
fn endpoint_query_is_made_of_query_fields() {
    let fields = vec![
        Field::with_role("scope", EndpointAttribute::Query, text("global")),
        Field::with_role("page", EndpointAttribute::Query, FieldValue::Absent),
        Field::new("age", FieldValue::Int(42)),
    ];
    let groups = field_attributes(&fields);
    assert_eq!(gen_query(&groups).unwrap(), Some("scope=global".to_string()));
    let none = field_attributes(&vec![Field::new("age", FieldValue::Int(42))]);
    assert_eq!(gen_query(&none).unwrap(), None);
}

#[test]
fn outcomes_of_the_serializers_are_handed_on() {
    let json_error = serde_json::from_str::<u8>("x").unwrap_err();
    assert!(matches!(quoted(Err(json_error)), Err(ClientError::DataParseError { .. })));
    assert_eq!(quoted(Ok("\"a\"".to_string())).unwrap(), "\"a\"");

    let query_error = serde_urlencoded::to_string("no pairs").unwrap_err();
    assert!(matches!(query_checked(Err(query_error)), Err(ClientError::UrlQueryParseError { .. })));
    assert_eq!(query_checked(Ok("a=1".to_string())).unwrap(), "a=1");
}
