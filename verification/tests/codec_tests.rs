use gax::codec::{add_query_parameter, url_of, HttpMethod, HttpRequest, QueryValue};
use gax::error::Error;
use gax::json::Json;

fn url_string(endpoint: &str, r: &HttpRequest) -> String {
    String::from_utf8(url_of(endpoint, r)).unwrap()
}

#[test]
fn encoding_same_pair_twice_yields_identical_urls() {
    let mk = || HttpRequest::new(HttpMethod::Get, "/v1/projects/p/secrets".to_string());
    let v = || QueryValue::Text("tok en".to_string());
    let r1 = add_query_parameter(mk(), "pageToken", Some(&v()));
    let r2 = add_query_parameter(mk(), "pageToken", Some(&v()));
    let e = "https://secretmanager.googleapis.com/";
    assert_eq!(url_string(e, &r1), url_string(e, &r2));
}

#[test]
fn url_exact_value_with_escaping() {
    let r = HttpRequest::new(HttpMethod::Get, "/v1/projects/p/secrets".to_string());
    let r = add_query_parameter(r, "alt", Some(&QueryValue::Text("json".to_string())));
    let r = add_query_parameter(r, "pageSize", Some(&QueryValue::Int(5)));
    let r = add_query_parameter(r, "pageToken", Some(&QueryValue::Text("a b/c".to_string())));
    assert_eq!(
        url_string("https://h.example/", &r),
        "https://h.example//v1/projects/p/secrets?alt=json&pageSize=5&pageToken=a%20b%2Fc"
    );
}

#[test]
fn absent_query_value_leaves_request_unchanged() {
    let r = HttpRequest::new(HttpMethod::Get, "/v1/x".to_string());
    let r = add_query_parameter(r, "filter", None);
    assert_eq!(r.query.len(), 0);
}

#[test]
fn negative_and_zero_numbers_render_exactly() {
    let r = HttpRequest::new(HttpMethod::Get, "/x".to_string());
    let r = add_query_parameter(r, "a", Some(&QueryValue::Int(-42)));
    let r = add_query_parameter(r, "b", Some(&QueryValue::Int(0)));
    let r = add_query_parameter(r, "c", Some(&QueryValue::Int(1234567890123)));
    assert_eq!(
        r.query,
        vec![
            ("a".to_string(), "-42".to_string()),
            ("b".to_string(), "0".to_string()),
            ("c".to_string(), "1234567890123".to_string()),
        ]
    );
}

#[test]
fn bool_and_structured_values_render() {
    let r = HttpRequest::new(HttpMethod::Get, "/x".to_string());
    let r = add_query_parameter(r, "flag", Some(&QueryValue::Bool(true)));
    let mask = Json::Obj(vec![(
        "paths".to_string(),
        Json::Arr(vec![Json::Str("labels".to_string())]),
    )]);
    let r = add_query_parameter(r, "updateMask", Some(&QueryValue::Structured(mask)));
    assert_eq!(r.query[0], ("flag".to_string(), "true".to_string()));
    assert_eq!(
        r.query[1],
        ("updateMask".to_string(), r#"{"paths":["labels"]}"#.to_string())
    );
}

#[test]
fn missing_path_parameter_is_other_error() {
    let none: Option<String> = None;
    match gax::codec::require_path_parameter(&none, "secret") {
        Err(Error::Other(m)) => assert_eq!(m, "missing required parameter secret"),
        other => panic!("expected an other error, got {:?}", other),
    }
}

#[test]
fn present_path_parameter_is_borrowed() {
    let some = Some("projects/p/secrets/s".to_string());
    let v = gax::codec::require_path_parameter(&some, "secret").unwrap();
    assert_eq!(v, "projects/p/secrets/s");
}
