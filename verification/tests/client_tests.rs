use gax::codec::HttpMethod;
use gax::error::Error;
use gax::iam::Iampolicy;
use gax::json::Json;
use gax::location::LocationsClient;
use gax::secretmanager::{ConfigBuilder, SecretManagerServiceClient, SecretPayload};

#[test]
fn list_secrets_request_shape() {
    let client = SecretManagerServiceClient::new();
    let r = client.list_secrets(
        "projects/p",
        Some(10),
        Some(&"tok".to_string()),
        None,
    );
    assert_eq!(r.method, HttpMethod::Get);
    assert_eq!(r.path, "/v1/projects/p/secrets");
    assert_eq!(
        r.query,
        vec![
            ("alt".to_string(), "json".to_string()),
            ("pageSize".to_string(), "10".to_string()),
            ("pageToken".to_string(), "tok".to_string()),
        ]
    );
    assert_eq!(r.body, None);
}

fn sample_secret() -> Json {
    Json::Obj(vec![("replication".to_string(), Json::Obj(vec![]))])
}

#[test]
fn create_secret_request_shape() {
    let client = SecretManagerServiceClient::new();
    let r = client.create_secret("projects/p", Some(&"s1".to_string()), sample_secret());
    assert_eq!(r.method, HttpMethod::Post);
    assert_eq!(r.path, "/v1/projects/p/secrets");
    assert_eq!(r.query[1], ("secretId".to_string(), "s1".to_string()));
    assert_eq!(r.body, Some(sample_secret()));
}

#[test]
fn update_secret_requires_name() {
    let client = SecretManagerServiceClient::new();
    match client.update_secret(&None, None, Json::Null) {
        Err(Error::Other(m)) => assert_eq!(m, "missing required parameter secret.name"),
        other => panic!("expected an other error, got {:?}", other),
    }
}

#[test]
fn update_secret_request_shape() {
    let client = SecretManagerServiceClient::new();
    let mask = Json::Obj(vec![(
        "paths".to_string(),
        Json::Arr(vec![Json::Str("labels".to_string())]),
    )]);
    let r = client
        .update_secret(&Some("projects/p/secrets/s1".to_string()), Some(mask), Json::Null)
        .unwrap();
    assert_eq!(r.method, HttpMethod::Patch);
    assert_eq!(r.path, "/v1/projects/p/secrets/s1");
    assert_eq!(
        r.query[1],
        ("updateMask".to_string(), r#"{"paths":["labels"]}"#.to_string())
    );
}

#[test]
fn version_requests_use_suffixed_paths() {
    let client = SecretManagerServiceClient::new();
    let r = client.access_secret_version("projects/p/secrets/s/versions/1");
    assert_eq!(r.path, "/v1/projects/p/secrets/s/versions/1:access");
    let r = client.disable_secret_version("projects/p/secrets/s/versions/1", Json::Obj(vec![]));
    assert_eq!(r.path, "/v1/projects/p/secrets/s/versions/1:disable");
    assert_eq!(r.method, HttpMethod::Post);
    let r = client.destroy_secret_version("projects/p/secrets/s/versions/1", Json::Obj(vec![]));
    assert_eq!(r.path, "/v1/projects/p/secrets/s/versions/1:destroy");
}

#[test]
fn iam_requests_use_policy_suffixes() {
    let client = SecretManagerServiceClient::new();
    let r = client.set_iam_policy("projects/p/secrets/s", Json::Obj(vec![]));
    assert_eq!(r.path, "/v1/projects/p/secrets/s:setIamPolicy");
    let r = client.get_iam_policy("projects/p/secrets/s", None);
    assert_eq!(r.path, "/v1/projects/p/secrets/s:getIamPolicy");
    assert_eq!(r.method, HttpMethod::Post);
    let r = client.test_iam_permissions("projects/p/secrets/s", Json::Obj(vec![]));
    assert_eq!(r.path, "/v1/projects/p/secrets/s:testIamPermissions");
}

#[test]
fn iampolicy_client_posts_policy_calls() {
    let iam = Iampolicy::new();
    assert_eq!(iam.endpoint, "https://iam-meta-api.googleapis.com/");
    let r = iam.get_iam_policy("projects/p/secrets/s", Json::Obj(vec![]));
    assert_eq!(r.method, HttpMethod::Post);
    assert_eq!(r.path, "/v1/projects/p/secrets/s:getIamPolicy");
}

#[test]
fn locations_client_requests() {
    let client = LocationsClient::new();
    let r = client.list_locations("projects/p", None, Some(3), None);
    assert_eq!(r.path, "/v1/projects/p/locations");
    assert_eq!(
        r.query,
        vec![
            ("alt".to_string(), "json".to_string()),
            ("pageSize".to_string(), "3".to_string()),
        ]
    );
    let r = client.get_location("projects/p/locations/us-central1");
    assert_eq!(r.path, "/v1/projects/p/locations/us-central1");
}

#[test]
fn config_builder_overrides_endpoint() {
    let c = SecretManagerServiceClient::new_with_config(
        ConfigBuilder::new().set_endpoint("https://private.example/".to_string()),
    );
    assert_eq!(c.endpoint, "https://private.example/");
    let c = SecretManagerServiceClient::new_with_config(ConfigBuilder::new());
    assert_eq!(c.endpoint, "https://secretmanager.googleapis.com/");
}

#[test]
fn secret_payload_carries_crc32c() {
    let data = b"The quick brown fox jumps over the lazy dog".to_vec();
    let p = SecretPayload::new(data.clone());
    assert_eq!(p.data, data);
    assert_eq!(p.data_crc_32_c, Some(0x22620404));
}
