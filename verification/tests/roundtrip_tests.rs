use gax::codec::HttpMethod;
use gax::executor::{interpret_response, TransportOutcome};
use gax::json::Json;
use gax::secretmanager::SecretManagerServiceClient;

fn secret_resource_body() -> &'static str {
    r#"{"name":"projects/p1/secrets/s1","labels":{"integration-test":"true"}}"#
}

#[test]
fn create_then_get_round_trip() {
    let client = SecretManagerServiceClient::new();

    let create_req = client.create_secret(
        "projects/p1",
        Some(&"s1".to_string()),
        Json::Obj(vec![("replication".to_string(), Json::Obj(vec![]))]),
    );
    assert_eq!(create_req.method, HttpMethod::Post);
    assert_eq!(create_req.path, "/v1/projects/p1/secrets");

    let created = interpret_response(TransportOutcome::Received {
        status: 200,
        headers: vec![],
        body: secret_resource_body().as_bytes().to_vec(),
    })
    .unwrap();
    let name = match created.get("name") {
        Some(Json::Str(s)) => s.clone(),
        other => panic!("expected a name in the create response, got {:?}", other),
    };
    assert_eq!(name, "projects/p1/secrets/s1");
    assert!(name.ends_with("/secrets/s1"));

    let get_req = client.get_secret(&name);
    assert_eq!(get_req.method, HttpMethod::Get);
    assert_eq!(get_req.path, "/v1/projects/p1/secrets/s1");

    let fetched = interpret_response(TransportOutcome::Received {
        status: 200,
        headers: vec![],
        body: secret_resource_body().as_bytes().to_vec(),
    })
    .unwrap();
    assert_eq!(fetched, created);
}

fn decode(body: &[u8]) -> Json {
    interpret_response(TransportOutcome::Received {
        status: 200,
        headers: vec![],
        body: body.to_vec(),
    })
    .unwrap()
}

#[test]
fn parsed_response_and_field_access() {
    let j = decode(br#"{"a":[1,true,null],"b":"x"}"#);
    match j.get("a") {
        Some(Json::Arr(items)) => {
            assert_eq!(items.len(), 3);
            assert_eq!(items[0], Json::Num("1".to_string()));
            assert_eq!(items[1], Json::Bool(true));
            assert_eq!(items[2], Json::Null);
        }
        other => panic!("expected an array, got {:?}", other),
    }
    assert_eq!(j.get("b"), Some(&Json::Str("x".to_string())));
    assert_eq!(j.get("missing"), None);
}
