use rustify::definition::{endpoint_derive, parse_params, DerivedEndpoint};
use rustify::endpoint::Endpoint;
use rustify::enums::{RequestMethod, RequestType, ResponseType};
use rustify::errors::{ClientError, ErrorKind};
use rustify::fields::{EndpointAttribute, Field, FieldValue};
use rustify::params::{Parameters, ParametersBuilder};
use rustify::path::{display, gen_path, position_of};

fn pairs(list: &[(&str, &str)]) -> Vec<(String, String)> {
    list.iter().map(|(k, v)| (k.to_string(), v.to_string())).collect()
}

fn text(s: &str) -> FieldValue {
    FieldValue::Text(s.to_string())
}

fn message(e: ClientError) -> String {
    match e {
        ClientError::EndpointBuildError { source } => source,
        _ => panic!("not an error of the definition"),
    }
}

fn placeholder(e: ClientError) -> String {
    match e {
        ClientError::PathInterpolationError { placeholder } => placeholder,
        _ => panic!("not an error of the path"),
    }
}

#[test]
fn parameters_have_defaults() {
    let p = Parameters::new(&pairs(&[("path", "test/path")])).unwrap();
    assert_eq!(p.path, "test/path");
    assert_eq!(p.method, RequestMethod::GET);
    assert_eq!(p.response, "()");
    assert_eq!(p.request_type, RequestType::JSON);
    assert_eq!(p.response_type, ResponseType::JSON);
    assert!(!p.builder);
}

#[test]
fn parameters_are_read() {
    let p = parse_params(&pairs(&[
        ("method", "LIST"),
        ("response", "TestResponse"),
        ("request_type", "JSON"),
        ("response_type", "JSON"),
        ("builder", "false"),
        ("path", "first"),
        ("path", "second"),
    ]))
    .unwrap();
    assert_eq!(p.path, "second");
    assert_eq!(p.method, RequestMethod::LIST);
    assert_eq!(p.response, "TestResponse");
    assert!(p.builder);
}

#[test]
fn path_is_required() {
    let e = Parameters::new(&pairs(&[("method", "POST")])).unwrap_err();
    assert_eq!(message(e), "Missing required parameter: path");
    let e = ParametersBuilder::new().build().unwrap_err();
    assert_eq!(message(e), "Missing required parameter: path");
}

#[test]
fn unknown_parameter_is_rejected() {
    let e = Parameters::new(&pairs(&[("path", "test/path"), ("result", "DoesNotExist")])).unwrap_err();
    assert_eq!(message(e), "Unknown parameter");
}

#[test]
fn unreadable_values_are_rejected() {
    let e = Parameters::new(&pairs(&[("path", "test/path"), ("method", "TEST")])).unwrap_err();
    assert_eq!(message(e), "Unable to parse value");
    let e = Parameters::new(&pairs(&[("path", "p"), ("request_type", "BAD")])).unwrap_err();
    assert_eq!(message(e), "Unable to parse value");
    let e = Parameters::new(&pairs(&[("path", "p"), ("response_type", "BAD")])).unwrap_err();
    assert_eq!(message(e), "Unable to parse value");
    let e = Parameters::new(&pairs(&[("method", "get"), ("nothing", "x")])).unwrap_err();
    assert_eq!(message(e), "Unable to parse value");
}

#[test]
fn builder_reads_one_parameter_at_a_time() {
    let mut b = ParametersBuilder::new();
    b.set("path", "a").unwrap();
    b.set("method", "PUT").unwrap();
    assert!(b.set("colour", "red").is_err());
    let p = b.build().unwrap();
    assert_eq!(p.path, "a");
    assert_eq!(p.method, RequestMethod::PUT);
}

#[test]
fn methods_have_their_tokens() {
    let all = [
        (RequestMethod::CONNECT, "CONNECT"),
        (RequestMethod::DELETE, "DELETE"),
        (RequestMethod::GET, "GET"),
        (RequestMethod::HEAD, "HEAD"),
        (RequestMethod::LIST, "LIST"),
        (RequestMethod::OPTIONS, "OPTIONS"),
        (RequestMethod::PATCH, "PATCH"),
        (RequestMethod::POST, "POST"),
        (RequestMethod::PUT, "PUT"),
        (RequestMethod::TRACE, "TRACE"),
    ];
    for (method, token) in all {
        assert_eq!(method.as_str(), token);
        assert_eq!(RequestMethod::from_name(token), Some(method));
    }
    assert_eq!(RequestMethod::from_name("get"), None);
    assert_eq!(RequestMethod::from_name(""), None);
    assert_eq!(RequestType::JSON.content_type(), "application/json");
    assert_eq!(RequestType::from_name("JSON"), Some(RequestType::JSON));
    assert_eq!(ResponseType::from_name("XML"), None);
}

#[test]
fn attributes_are_read_from_tags() {
    assert_eq!(EndpointAttribute::try_from("body").unwrap(), EndpointAttribute::Body);
    assert_eq!(EndpointAttribute::try_from("QUERY").unwrap(), EndpointAttribute::Query);
    assert_eq!(EndpointAttribute::try_from("Raw").unwrap(), EndpointAttribute::Raw);
    assert_eq!(EndpointAttribute::try_from("sKiP").unwrap(), EndpointAttribute::Skip);
    assert_eq!(message(EndpointAttribute::try_from("Data").unwrap_err()), "Unknown attribute: Data");
    assert_eq!(EndpointAttribute::from_tag("BODY"), None);
    assert_eq!(EndpointAttribute::from_tag("untagged"), None);
}

#[test]
fn path_is_interpolated() {
    let fields = vec![
        Field::new("name", text("jmgilman")),
        Field::new("id", FieldValue::UInt(42)),
        Field::new("shift", FieldValue::Int(-3)),
        Field::new("live", FieldValue::Bool(true)),
        Field::new("name", text("shadowed")),
    ];
    assert_eq!(gen_path("test/path", &fields).unwrap(), "test/path");
    assert_eq!(gen_path("", &fields).unwrap(), "");
    assert_eq!(gen_path("users/{id}", &fields).unwrap(), "users/42");
    assert_eq!(gen_path("test/path/{self.name}", &fields).unwrap(), "test/path/jmgilman");
    assert_eq!(
        gen_path("{name}/{self.id}{shift}/x{live}}", &fields).unwrap(),
        "jmgilman/42-3/xtrue}"
    );
}

#[test]
fn path_with_unresolved_placeholder_is_rejected() {
    let fields = vec![
        Field::new("name", text("x")),
        Field::new("unset", FieldValue::Absent),
        Field::new("data", FieldValue::Bytes(vec![1])),
    ];
    assert_eq!(placeholder(gen_path("a/{other}/b", &fields).unwrap_err()), "other");
    assert_eq!(placeholder(gen_path("a/{self.other}", &fields).unwrap_err()), "self.other");
    assert_eq!(placeholder(gen_path("a/{unset}", &fields).unwrap_err()), "unset");
    assert_eq!(placeholder(gen_path("a/{data}", &fields).unwrap_err()), "data");
    assert_eq!(placeholder(gen_path("a/{}", &fields).unwrap_err()), "");
    assert_eq!(placeholder(gen_path("a/{name", &fields).unwrap_err()), "name");
    assert_eq!(placeholder(gen_path("{name}/{{name}}", &fields).unwrap_err()), "{name");
    let e = gen_path("a/{other}", &fields).unwrap_err();
    assert_eq!(e.kind(), ErrorKind::PathInterpolation);
    assert_eq!(e.message(), "Error resolving endpoint path");
}

#[test]
fn values_have_their_text() {
    assert_eq!(display(&text("a/b")), Some("a/b".to_string()));
    assert_eq!(display(&FieldValue::Int(0)), Some("0".to_string()));
    assert_eq!(display(&FieldValue::Int(-10)), Some("-10".to_string()));
    assert_eq!(display(&FieldValue::Int(i64::MIN)), Some("-9223372036854775808".to_string()));
    assert_eq!(display(&FieldValue::UInt(u64::MAX)), Some("18446744073709551615".to_string()));
    assert_eq!(display(&FieldValue::UInt(1000)), Some("1000".to_string()));
    assert_eq!(display(&FieldValue::Bool(false)), Some("false".to_string()));
    assert_eq!(display(&FieldValue::Absent), None);
    assert_eq!(display(&FieldValue::Bytes(vec![])), None);
    let fields = vec![Field::new("a", text("1")), Field::new("b", text("2")), Field::new("a", text("3"))];
    assert_eq!(position_of(&fields, "a"), Some(0));
    assert_eq!(position_of(&fields, "b"), Some(1));
    assert_eq!(position_of(&fields, "c"), None);
}

#[test]
fn definition_needs_exactly_one_attribute() {
    let e = endpoint_derive::<()>(&vec![], vec![]).err().unwrap();
    assert_eq!(message(e), "Deriving `Endpoint` requires attaching an `endpoint` attribute");
    let twice = vec![pairs(&[("path", "a")]), pairs(&[("path", "b")])];
    let e = endpoint_derive::<()>(&twice, vec![]).err().unwrap();
    assert_eq!(message(e), "Cannot define the endpoint attribute more than once");
}

#[test]
fn attribute_must_say_something() {
    let e = parse_params(&vec![]).unwrap_err();
    assert_eq!(message(e), "Attribute cannot be empty");
    let e = endpoint_derive::<()>(&vec![vec![]], vec![]).err().unwrap();
    assert_eq!(message(e), "Attribute cannot be empty");
    let e = Parameters::new(&vec![]).unwrap_err();
    assert_eq!(message(e), "Missing required parameter: path");
}

#[test]
fn definition_is_checked() {
    let e = endpoint_derive::<()>(&vec![pairs(&[("method", "POST")])], vec![]).err().unwrap();
    assert_eq!(message(e), "Missing required parameter: path");
    let e = endpoint_derive::<()>(&vec![pairs(&[("path", "a/{b}")])], vec![]).err().unwrap();
    assert_eq!(placeholder(e), "b");
}

#[test]
fn derived_endpoint_keeps_its_definition() {
    let e: DerivedEndpoint<()> = endpoint_derive(
        &vec![pairs(&[("path", "a/{b}"), ("method", "DELETE")])],
        vec![Field::with_role("b", EndpointAttribute::Skip, text("c d"))],
    )
    .unwrap();
    assert_eq!(e.path(), "a/c d");
    assert_eq!(e.method(), RequestMethod::DELETE);
    assert_eq!(e.request_body_type(), RequestType::JSON);
    assert_eq!(e.response_body_type(), ResponseType::JSON);
    assert_eq!(e.fields.len(), 1);
    assert_eq!(e.url("http://h").unwrap(), "http://h/a/c%20d");
}
