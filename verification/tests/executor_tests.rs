use gax::codec::{HttpMethod, HttpRequest};
use gax::error::Error;
use gax::executor::{authorize, interpret_response, render_body, Token, TransportOutcome};
use gax::json::Json;

#[test]
fn success_status_decodes_json() {
    let out = interpret_response(TransportOutcome::Received {
        status: 200,
        headers: vec![],
        body: br#"{"name":"projects/p/secrets/s"}"#.to_vec(),
    });
    let j = out.unwrap();
    assert_eq!(
        j,
        Json::Obj(vec![("name".to_string(), Json::Str("projects/p/secrets/s".to_string()))])
    );
}

#[test]
fn success_status_bad_body_is_serialization_error() {
    let out = interpret_response(TransportOutcome::Received {
        status: 201,
        headers: vec![],
        body: b"not json".to_vec(),
    });
    match out {
        Err(Error::Serialization(_)) => {}
        other => panic!("expected a serialization error, got {:?}", other),
    }
}

#[test]
fn non_success_status_is_http_error_with_exact_fields() {
    let headers = vec![("X-One".to_string(), "1".to_string())];
    let out = interpret_response(TransportOutcome::Received {
        status: 404,
        headers: headers.clone(),
        body: Vec::new(),
    });
    match out {
        Err(Error::Http(h)) => {
            assert_eq!(h.status, 404);
            assert_eq!(h.headers, headers);
            assert_eq!(h.body, Some(Vec::new()));
            assert_eq!(h.details.len(), 0);
        }
        other => panic!("expected an http error, got {:?}", other),
    }
}

#[test]
fn status_299_is_still_success() {
    let out = interpret_response(TransportOutcome::Received {
        status: 299,
        headers: vec![],
        body: b"null".to_vec(),
    });
    assert_eq!(out.unwrap(), Json::Null);
}

#[test]
fn status_300_is_http_error() {
    let out = interpret_response(TransportOutcome::Received {
        status: 300,
        headers: vec![],
        body: b"null".to_vec(),
    });
    match out {
        Err(Error::Http(h)) => assert_eq!(h.status, 300),
        other => panic!("expected an http error, got {:?}", other),
    }
}

#[test]
fn transport_failure_is_io_error() {
    let out = interpret_response(TransportOutcome::Failed {
        message: "connection reset".to_string(),
    });
    match out {
        Err(Error::Io(m)) => assert_eq!(m, "connection reset"),
        other => panic!("expected an io error, got {:?}", other),
    }
}

#[test]
fn authorize_attaches_bearer_header() {
    let r = HttpRequest::new(HttpMethod::Get, "/v1/x".to_string());
    let r2 = authorize(r, Ok(Token { value: "tok-1".to_string() })).unwrap();
    assert_eq!(
        r2.headers,
        vec![("authorization".to_string(), "Bearer tok-1".to_string())]
    );
}

#[test]
fn failed_token_is_authentication_error() {
    let r = HttpRequest::new(HttpMethod::Get, "/v1/x".to_string());
    match authorize(r, Err("no credential".to_string())) {
        Err(Error::Authentication(m)) => assert_eq!(m, "no credential"),
        other => panic!("expected an authentication error, got {:?}", other),
    }
}

#[test]
fn render_body_serializes_compact_json() {
    let r = HttpRequest::new(HttpMethod::Post, "/v1/x".to_string());
    let r = gax::executor::attach_body(
        r,
        Some(Json::Obj(vec![
            ("b".to_string(), Json::Bool(true)),
            ("n".to_string(), Json::Num("42".to_string())),
        ])),
    );
    let text = render_body(&r).unwrap().unwrap();
    assert_eq!(text, r#"{"b":true,"n":42}"#);
}

#[test]
fn render_body_of_bodiless_request_is_none() {
    let r = HttpRequest::new(HttpMethod::Get, "/v1/x".to_string());
    assert_eq!(render_body(&r).unwrap(), None);
}
