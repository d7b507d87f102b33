use gax::error::ErrorDetail;
use gax::rpc;

fn classify_body(status: u16, body: &str) -> gax::error::HttpError {
    gax::classify::classify(status, Vec::new(), body.as_bytes().to_vec())
}

#[test]
fn quota_failure_403_classifies() {
    let body = r#"{"error":{"details":[{"@type":"type.googleapis.com/google.rpc.QuotaFailure","violations":[{"subject":"project:123","description":"Daily limit exceeded"}]}]}}"#;
    let h = classify_body(403, body);
    assert_eq!(h.status, 403);
    assert_eq!(h.details.len(), 1);
    assert_eq!(
        h.details[0],
        ErrorDetail::QuotaFailure(rpc::QuotaFailure {
            violations: vec![rpc::quota_failure::Violation {
                subject: "project:123".to_string(),
                description: "Daily limit exceeded".to_string(),
            }],
        })
    );
}

#[test]
fn unknown_detail_is_skipped_order_kept() {
    let body = r#"{"error":{"details":[{"@type":"type.googleapis.com/google.rpc.ErrorInfo","reason":"R1","domain":"d.example"},{"@type":"type.example.com/not.a.known.Kind","whatever":1},{"@type":"type.googleapis.com/google.rpc.LocalizedMessage","locale":"en-US","message":"m"},{"@type":"type.googleapis.com/google.rpc.RequestInfo","requestId":"id-7"}]}}"#;
    let h = classify_body(429, body);
    assert_eq!(h.details.len(), 3);
    assert_eq!(
        h.details[0],
        ErrorDetail::ErrorInfo(rpc::ErrorInfo {
            reason: "R1".to_string(),
            domain: "d.example".to_string(),
            metadata: vec![],
        })
    );
    assert_eq!(
        h.details[1],
        ErrorDetail::LocalizedMessage(rpc::LocalizedMessage {
            locale: "en-US".to_string(),
            message: "m".to_string(),
        })
    );
    assert_eq!(
        h.details[2],
        ErrorDetail::RequestInfo(rpc::RequestInfo {
            request_id: "id-7".to_string(),
            serving_data: String::new(),
        })
    );
}

#[test]
fn malformed_detail_is_skipped_not_fatal() {
    let body = r#"{"error":{"details":[{"@type":"type.googleapis.com/google.rpc.QuotaFailure","violations":"oops"},{"@type":"type.googleapis.com/google.rpc.Help","links":[{"description":"doc","url":"https://e.example/x"}]}]}}"#;
    let h = classify_body(400, body);
    assert_eq!(h.details.len(), 1);
    assert_eq!(
        h.details[0],
        ErrorDetail::Help(rpc::Help {
            links: vec![rpc::help::Link {
                description: "doc".to_string(),
                url: "https://e.example/x".to_string(),
            }],
        })
    );
}

#[test]
fn empty_body_no_details() {
    let h = classify_body(500, "");
    assert_eq!(h.status, 500);
    assert_eq!(h.details.len(), 0);
    assert_eq!(h.body, Some(Vec::new()));
}

#[test]
fn non_json_body_no_details() {
    let h = classify_body(502, "<html>bad gateway</html>");
    assert_eq!(h.details.len(), 0);
    assert_eq!(h.body, Some(b"<html>bad gateway</html>".to_vec()));
}

#[test]
fn error_info_metadata_kept_in_order() {
    let body = r#"{"error":{"details":[{"@type":"type.googleapis.com/google.rpc.ErrorInfo","reason":"API_DISABLED","domain":"googleapis.com","metadata":{"resource":"projects/123","service":"pubsub.googleapis.com"}}]}}"#;
    let h = classify_body(403, body);
    assert_eq!(h.details.len(), 1);
    match &h.details[0] {
        ErrorDetail::ErrorInfo(info) => {
            assert_eq!(info.reason, "API_DISABLED");
            assert_eq!(info.domain, "googleapis.com");
            assert_eq!(info.metadata.len(), 2);
            assert!(info.metadata.contains(&(
                "resource".to_string(),
                "projects/123".to_string()
            )));
            assert!(info.metadata.contains(&(
                "service".to_string(),
                "pubsub.googleapis.com".to_string()
            )));
        }
        other => panic!("expected ErrorInfo, got {:?}", other),
    }
}

#[test]
fn retry_info_delay_decodes() {
    let body = r#"{"error":{"details":[{"@type":"type.googleapis.com/google.rpc.RetryInfo","retryDelay":"1.5s"}]}}"#;
    let h = classify_body(429, body);
    assert_eq!(h.details.len(), 1);
    assert_eq!(
        h.details[0],
        ErrorDetail::RetryInfo(rpc::RetryInfo {
            retry_delay: Some(rpc::Duration { seconds: 1, nanos: 500000000 }),
        })
    );
}

#[test]
fn several_detail_kinds_decode() {
    let body = r#"{"error":{"details":[{"@type":"type.googleapis.com/google.rpc.DebugInfo","stackEntries":["a","b"],"detail":"dd"},{"@type":"type.googleapis.com/google.rpc.PreconditionFailure","violations":[{"type":"TOS","subject":"google.com/cloud","description":"not accepted"}]},{"@type":"type.googleapis.com/google.rpc.BadRequest","fieldViolations":[{"field":"full_name","description":"required"}]},{"@type":"type.googleapis.com/google.rpc.ResourceInfo","resourceType":"sql table","resourceName":"t1","owner":"user:u","description":"denied"}]}}"#;
    let h = classify_body(400, body);
    assert_eq!(h.details.len(), 4);
    assert_eq!(
        h.details[0],
        ErrorDetail::DebugInfo(rpc::DebugInfo {
            stack_entries: vec!["a".to_string(), "b".to_string()],
            detail: "dd".to_string(),
        })
    );
    assert_eq!(
        h.details[1],
        ErrorDetail::PreconditionFailure(rpc::PreconditionFailure {
            violations: vec![rpc::precondition_failure::Violation {
                kind: "TOS".to_string(),
                subject: "google.com/cloud".to_string(),
                description: "not accepted".to_string(),
            }],
        })
    );
    assert_eq!(
        h.details[2],
        ErrorDetail::BadRequest(rpc::BadRequest {
            field_violations: vec![rpc::bad_request::FieldViolation {
                field: "full_name".to_string(),
                description: "required".to_string(),
            }],
        })
    );
    assert_eq!(
        h.details[3],
        ErrorDetail::ResourceInfo(rpc::ResourceInfo {
            resource_type: "sql table".to_string(),
            resource_name: "t1".to_string(),
            owner: "user:u".to_string(),
            description: "denied".to_string(),
        })
    );
}

#[test]
fn header_lookup_is_case_insensitive() {
    let h = gax::error::HttpError::new(
        404,
        vec![
            ("Content-Type".to_string(), "application/json".to_string()),
            ("X-Request-Id".to_string(), "abc".to_string()),
        ],
        None,
    );
    assert_eq!(h.header_value("content-type"), Some(&"application/json".to_string()));
    assert_eq!(h.header_value("X-REQUEST-ID"), Some(&"abc".to_string()));
    assert_eq!(h.header_value("authorization"), None);
}

#[test]
fn repeated_detail_kinds_are_all_kept_in_order() {
    let body = r#"{"error":{"details":[{"@type":"type.googleapis.com/google.rpc.QuotaFailure","violations":[{"subject":"a","description":"da"}]},{"@type":"type.googleapis.com/google.rpc.QuotaFailure","violations":[{"subject":"b","description":"db"}]}]}}"#;
    let h = classify_body(429, body);
    assert_eq!(h.details.len(), 2);
    match (&h.details[0], &h.details[1]) {
        (ErrorDetail::QuotaFailure(q1), ErrorDetail::QuotaFailure(q2)) => {
            assert_eq!(q1.violations[0].subject, "a");
            assert_eq!(q2.violations[0].subject, "b");
        }
        other => panic!("expected two quota failures, got {:?}", other),
    }
}

#[test]
fn retry_advice_is_surfaced_from_details() {
    let body = r#"{"error":{"details":[{"@type":"type.googleapis.com/google.rpc.ErrorInfo","reason":"R"},{"@type":"type.googleapis.com/google.rpc.RetryInfo","retryDelay":"0.25s"}]}}"#;
    let h = classify_body(429, body);
    assert_eq!(h.retry_advice(), Some(rpc::Duration { seconds: 0, nanos: 250000000 }));
    let none = classify_body(500, "");
    assert_eq!(none.retry_advice(), None);
}
