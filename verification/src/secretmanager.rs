//! The secret manager service client: one request builder per method.
//!
//! Each method encodes its parameters into an [`HttpRequest`] description;
//! the caller serializes the URL against the client's endpoint, sends it,
//! and interprets the outcome through the executor. Bodies arrive here
//! already as JSON values: the model structs that produce them are the
//! generated layer's concern.

use crate::codec::{
    add_query_parameter, add_query_spec, require_path_parameter, HttpMethod, HttpRequest,
    HttpRequestV, QueryValue, QueryValueV,
};
use crate::error::Error;
use crate::json::Json;
use vstd::prelude::*;
use vstd::string::StringExecFns;

verus! {

broadcast use vstd::std_specs::vec::group_vec_axioms, vstd::seq::group_seq_axioms;

/// A request description with the `alt=json` entry every generated call
/// appends first.
pub open spec fn alt_json_spec(method: HttpMethod, path: Seq<char>) -> HttpRequestV {
    HttpRequestV {
        method,
        path,
        query: seq![("alt"@, "json"@)],
        headers: Seq::empty(),
        body: None,
    }
}

/// Adding an optional query parameter: absent leaves the request as it
/// is.
pub open spec fn add_query_opt(r: HttpRequestV, name: Seq<char>, v: Option<QueryValueV>) -> HttpRequestV {
    match v {
        None => r,
        Some(q) => add_query_spec(r, name, q),
    }
}

/// The view of an optional numeric parameter.
pub open spec fn opt_int(v: Option<i64>) -> Option<QueryValueV> {
    match v {
        Some(n) => Some(QueryValueV::Int(n as int)),
        None => None,
    }
}

/// The view of an optional text parameter.
pub open spec fn opt_text(v: Option<&String>) -> Option<QueryValueV> {
    match v {
        Some(s) => Some(QueryValueV::Text(s@)),
        None => None,
    }
}

/// A fresh request with the method, the path, and `alt=json`.
pub(crate) fn base_request(method: HttpMethod, path: String) -> (r: HttpRequest)
    ensures
        r@ == alt_json_spec(method, path@),
{
    let r = HttpRequest::new(method, path);
    let ghost base = r@;
    let r2 = add_query_parameter(r, "alt", Some(&QueryValue::Text("json".to_owned())));
    proof {
        assert(base.query.push(("alt"@, "json"@)) =~= seq![("alt"@, "json"@)]);
    }
    r2
}

/// Adds an optional plain-text query parameter.
pub(crate) fn add_text_parameter(r: HttpRequest, name: &str, v: Option<&String>) -> (r2: HttpRequest)
    ensures
        r2@ == add_query_opt(r@, name@, opt_text(v)),
{
    let qv: Option<QueryValue> = match v {
        Some(s) => Some(QueryValue::Text(s.clone())),
        None => None,
    };
    let qvr: Option<&QueryValue> = match &qv {
        Some(q) => Some(q),
        None => None,
    };
    add_query_parameter(r, name, qvr)
}

/// Adds an optional numeric query parameter.
pub(crate) fn add_int_parameter(r: HttpRequest, name: &str, v: Option<i64>) -> (r2: HttpRequest)
    ensures
        r2@ == add_query_opt(r@, name@, opt_int(v)),
{
    let qv: Option<QueryValue> = match v {
        Some(n) => Some(QueryValue::Int(n)),
        None => None,
    };
    let qvr: Option<&QueryValue> = match &qv {
        Some(q) => Some(q),
        None => None,
    };
    add_query_parameter(r, name, qvr)
}

/// Attaches a JSON body to the request description; it is serialized
/// when the call executes.
fn with_json_body(r: HttpRequest, body: Json) -> (r2: HttpRequest)
    ensures
        r2@ == (HttpRequestV { body: Some(body@), ..r@ }),
{
    crate::executor::attach_body(r, Some(body))
}

/// Configuration for a client: only the endpoint is described here; the
/// transport and the credential provider are the caller's.
#[derive(Debug, PartialEq, Eq, Default)]
pub struct ConfigBuilder {
    /// An endpoint that overrides the service's default one.
    pub endpoint: Option<String>,
}

impl ConfigBuilder {
    /// A default configuration.
    pub fn new() -> (c: ConfigBuilder)
        ensures
            c.endpoint is None,
    {
        ConfigBuilder { endpoint: None }
    }

    /// Sets an endpoint that overrides the default endpoint for a
    /// service.
    pub fn set_endpoint(self, v: String) -> (c: ConfigBuilder)
        ensures
            c.endpoint matches Some(e) && e@ == v@,
    {
        ConfigBuilder { endpoint: Some(v) }
    }
}

/// The secret manager service: manages secrets and their versions over a
/// REST model.
#[derive(Debug, PartialEq, Eq)]
pub struct SecretManagerServiceClient {
    /// The service endpoint every request is sent against.
    pub endpoint: String,
}

/// The spec-level shape of the client.
pub struct ClientV {
    pub endpoint: Seq<char>,
}

impl View for SecretManagerServiceClient {
    type V = ClientV;

    open spec fn view(&self) -> ClientV {
        ClientV { endpoint: self.endpoint@ }
    }
}

impl SecretManagerServiceClient {
    /// A client against the service's default endpoint.
    pub fn new() -> (c: Self)
        ensures
            c@.endpoint == "https://secretmanager.googleapis.com/"@,
    {
        SecretManagerServiceClient { endpoint: "https://secretmanager.googleapis.com/".to_owned() }
    }

    /// A client against the configured endpoint, or the default one when
    /// none is set.
    pub fn new_with_config(conf: ConfigBuilder) -> (c: Self)
        ensures
            c@.endpoint == match conf.endpoint {
                Some(e) => e@,
                None => "https://secretmanager.googleapis.com/"@,
            },
    {
        match conf.endpoint {
            Some(e) => SecretManagerServiceClient { endpoint: e },
            None => Self::new(),
        }
    }

    /// Lists secrets under a parent: `GET /v1/{parent}/secrets` with the
    /// optional page and filter parameters.
    pub fn list_secrets(
        &self,
        parent: &str,
        page_size: Option<i64>,
        page_token: Option<&String>,
        filter: Option<&String>,
    ) -> (r: HttpRequest)
        ensures
            r@ == add_query_opt(
                add_query_opt(
                    add_query_opt(
                        alt_json_spec(HttpMethod::Get, "/v1/"@ + parent@ + "/secrets"@),
                        "pageSize"@,
                        opt_int(page_size),
                    ),
                    "pageToken"@,
                    opt_text(page_token),
                ),
                "filter"@,
                opt_text(filter),
            ),
    {
        let path = String::from_str("/v1/").concat(parent).concat("/secrets");
        let r = base_request(HttpMethod::Get, path);
        let r = add_int_parameter(r, "pageSize", page_size);
        let r = add_text_parameter(r, "pageToken", page_token);
        add_text_parameter(r, "filter", filter)
    }

    /// Creates a secret under a parent: `POST /v1/{parent}/secrets` with
    /// the optional `secretId` and the secret's JSON as the body.
    pub fn create_secret(
        &self,
        parent: &str,
        secret_id: Option<&String>,
        secret: Json,
    ) -> (r: HttpRequest)
        ensures
            r@ == (HttpRequestV {
                body: Some(secret@),
                ..add_query_opt(
                    alt_json_spec(HttpMethod::Post, "/v1/"@ + parent@ + "/secrets"@),
                    "secretId"@,
                    opt_text(secret_id),
                )
            }),
    {
        let path = String::from_str("/v1/").concat(parent).concat("/secrets");
        let r = base_request(HttpMethod::Post, path);
        let r = add_text_parameter(r, "secretId", secret_id);
        with_json_body(r, secret)
    }

    /// Adds a version to a secret: `POST /v1/{parent}:addVersion` with
    /// the request's JSON as the body.
    pub fn add_secret_version(&self, parent: &str, body: Json) -> (r: HttpRequest)
        ensures
            r@ == (HttpRequestV {
                body: Some(body@),
                ..alt_json_spec(HttpMethod::Post, "/v1/"@ + parent@ + ":addVersion"@)
            }),
    {
        let path = String::from_str("/v1/").concat(parent).concat(":addVersion");
        let r = base_request(HttpMethod::Post, path);
        with_json_body(r, body)
    }

    /// Reads a secret's metadata: `GET /v1/{name}`.
    pub fn get_secret(&self, name: &str) -> (r: HttpRequest)
        ensures
            r@ == alt_json_spec(HttpMethod::Get, "/v1/"@ + name@),
    {
        let path = String::from_str("/v1/").concat(name);
        base_request(HttpMethod::Get, path)
    }

    /// Updates a secret: `PATCH /v1/{secret.name}` with the update mask
    /// as a query parameter and the secret's JSON as the body. The
    /// secret's name is the required path parameter: the call fails, with
    /// an [`Error::Other`] naming the field, exactly when it is unset.
    pub fn update_secret(
        &self,
        secret_name: &Option<String>,
        update_mask: Option<Json>,
        secret: Json,
    ) -> (res: Result<HttpRequest, Error>)
        ensures
            match res {
                Ok(r) => (secret_name matches Some(n) && r@ == (HttpRequestV {
                    body: Some(secret@),
                    ..add_query_opt(
                        alt_json_spec(HttpMethod::Patch, "/v1/"@ + n@),
                        "updateMask"@,
                        match update_mask {
                            Some(m) => Some(QueryValueV::Structured(m@)),
                            None => None::<QueryValueV>,
                        },
                    )
                })),
                Err(e) => secret_name is None && e@ == crate::error::ErrorV::Other(
                    crate::codec::missing_parameter_msg("secret.name"@),
                ),
            },
    {
        let name = match require_path_parameter(secret_name, "secret.name") {
            Ok(n) => n,
            Err(e) => {
                return Err(e);
            },
        };
        let path = String::from_str("/v1/").concat(name.as_str());
        let r = base_request(HttpMethod::Patch, path);
        let qv: Option<QueryValue> = match update_mask {
            Some(m) => Some(QueryValue::Structured(m)),
            None => None,
        };
        let qvr: Option<&QueryValue> = match &qv {
            Some(q) => Some(q),
            None => None,
        };
        let r = add_query_parameter(r, "updateMask", qvr);
        Ok(with_json_body(r, secret))
    }

    /// Deletes a secret: `DELETE /v1/{name}` with the optional `etag`.
    pub fn delete_secret(&self, name: &str, etag: Option<&String>) -> (r: HttpRequest)
        ensures
            r@ == add_query_opt(
                alt_json_spec(HttpMethod::Delete, "/v1/"@ + name@),
                "etag"@,
                opt_text(etag),
            ),
    {
        let path = String::from_str("/v1/").concat(name);
        let r = base_request(HttpMethod::Delete, path);
        add_text_parameter(r, "etag", etag)
    }

    /// Lists a secret's versions: `GET /v1/{parent}/versions` with the
    /// optional page and filter parameters.
    pub fn list_secret_versions(
        &self,
        parent: &str,
        page_size: Option<i64>,
        page_token: Option<&String>,
        filter: Option<&String>,
    ) -> (r: HttpRequest)
        ensures
            r@ == add_query_opt(
                add_query_opt(
                    add_query_opt(
                        alt_json_spec(HttpMethod::Get, "/v1/"@ + parent@ + "/versions"@),
                        "pageSize"@,
                        opt_int(page_size),
                    ),
                    "pageToken"@,
                    opt_text(page_token),
                ),
                "filter"@,
                opt_text(filter),
            ),
    {
        let path = String::from_str("/v1/").concat(parent).concat("/versions");
        let r = base_request(HttpMethod::Get, path);
        let r = add_int_parameter(r, "pageSize", page_size);
        let r = add_text_parameter(r, "pageToken", page_token);
        add_text_parameter(r, "filter", filter)
    }

    /// Reads a version's metadata: `GET /v1/{name}`.
    pub fn get_secret_version(&self, name: &str) -> (r: HttpRequest)
        ensures
            r@ == alt_json_spec(HttpMethod::Get, "/v1/"@ + name@),
    {
        let path = String::from_str("/v1/").concat(name);
        base_request(HttpMethod::Get, path)
    }

    /// Reads a version's secret data: `GET /v1/{name}:access`.
    pub fn access_secret_version(&self, name: &str) -> (r: HttpRequest)
        ensures
            r@ == alt_json_spec(HttpMethod::Get, "/v1/"@ + name@ + ":access"@),
    {
        let path = String::from_str("/v1/").concat(name).concat(":access");
        base_request(HttpMethod::Get, path)
    }

    /// Disables a version: `POST /v1/{name}:disable` with the request's
    /// JSON as the body.
    pub fn disable_secret_version(&self, name: &str, body: Json) -> (r: HttpRequest)
        ensures
            r@ == (HttpRequestV {
                body: Some(body@),
                ..alt_json_spec(HttpMethod::Post, "/v1/"@ + name@ + ":disable"@)
            }),
    {
        let path = String::from_str("/v1/").concat(name).concat(":disable");
        let r = base_request(HttpMethod::Post, path);
        with_json_body(r, body)
    }

    /// Enables a version: `POST /v1/{name}:enable` with the request's
    /// JSON as the body.
    pub fn enable_secret_version(&self, name: &str, body: Json) -> (r: HttpRequest)
        ensures
            r@ == (HttpRequestV {
                body: Some(body@),
                ..alt_json_spec(HttpMethod::Post, "/v1/"@ + name@ + ":enable"@)
            }),
    {
        let path = String::from_str("/v1/").concat(name).concat(":enable");
        let r = base_request(HttpMethod::Post, path);
        with_json_body(r, body)
    }

    /// Destroys a version: `POST /v1/{name}:destroy` with the request's
    /// JSON as the body.
    pub fn destroy_secret_version(&self, name: &str, body: Json) -> (r: HttpRequest)
        ensures
            r@ == (HttpRequestV {
                body: Some(body@),
                ..alt_json_spec(HttpMethod::Post, "/v1/"@ + name@ + ":destroy"@)
            }),
    {
        let path = String::from_str("/v1/").concat(name).concat(":destroy");
        let r = base_request(HttpMethod::Post, path);
        with_json_body(r, body)
    }

    /// Replaces the access control policy of a secret:
    /// `POST /v1/{resource}:setIamPolicy` with the request's JSON as the
    /// body.
    pub fn set_iam_policy(&self, resource: &str, body: Json) -> (r: HttpRequest)
        ensures
            r@ == (HttpRequestV {
                body: Some(body@),
                ..alt_json_spec(HttpMethod::Post, "/v1/"@ + resource@ + ":setIamPolicy"@)
            }),
    {
        let path = String::from_str("/v1/").concat(resource).concat(":setIamPolicy");
        let r = base_request(HttpMethod::Post, path);
        with_json_body(r, body)
    }

    /// Reads the access control policy of a secret:
    /// `POST /v1/{resource}:getIamPolicy`, as every resource-oriented IAM
    /// operation posts, with the optional structured `options` as a query
    /// parameter.
    pub fn get_iam_policy(&self, resource: &str, options: Option<Json>) -> (r: HttpRequest)
        ensures
            r@ == add_query_opt(
                alt_json_spec(HttpMethod::Post, "/v1/"@ + resource@ + ":getIamPolicy"@),
                "options"@,
                match options {
                    Some(o) => Some(QueryValueV::Structured(o@)),
                    None => None::<QueryValueV>,
                },
            ),
    {
        let path = String::from_str("/v1/").concat(resource).concat(":getIamPolicy");
        let r = base_request(HttpMethod::Post, path);
        let qv: Option<QueryValue> = match options {
            Some(o) => Some(QueryValue::Structured(o)),
            None => None,
        };
        let qvr: Option<&QueryValue> = match &qv {
            Some(q) => Some(q),
            None => None,
        };
        add_query_parameter(r, "options", qvr)
    }

    /// Asks which of the given permissions the caller has on a secret:
    /// `POST /v1/{resource}:testIamPermissions` with the request's JSON
    /// as the body.
    pub fn test_iam_permissions(&self, resource: &str, body: Json) -> (r: HttpRequest)
        ensures
            r@ == (HttpRequestV {
                body: Some(body@),
                ..alt_json_spec(HttpMethod::Post, "/v1/"@ + resource@ + ":testIamPermissions"@)
            }),
    {
        let path = String::from_str("/v1/").concat(resource).concat(":testIamPermissions");
        let r = base_request(HttpMethod::Post, path);
        with_json_body(r, body)
    }

}

/// The checksum that `crc32c` computes for a byte string: a function of
/// the bytes alone.
pub uninterp spec fn crc32c_of(data: Seq<u8>) -> u32;

/// Relies on crc32c::crc32c: the CRC32C checksum of the payload is a
/// function of its bytes alone.
#[verifier::external_body]
fn crc32c_checksum(data: &[u8]) -> (c: u32)
    ensures
        c == crc32c_of(data@),
{
    crc32c::crc32c(data)
}

/// A secret version's payload: the data and its checksum, which the
/// service verifies on receipt.
#[derive(Debug, PartialEq, Eq)]
pub struct SecretPayload {
    /// The secret data itself.
    pub data: Vec<u8>,
    /// The CRC32C checksum of `data`, when one was computed.
    pub data_crc_32_c: Option<i64>,
}

/// The spec-level shape of a [`SecretPayload`].
pub struct SecretPayloadV {
    pub data: Seq<u8>,
    pub data_crc_32_c: Option<int>,
}

impl View for SecretPayload {
    type V = SecretPayloadV;

    open spec fn view(&self) -> SecretPayloadV {
        SecretPayloadV {
            data: self.data@,
            data_crc_32_c: match self.data_crc_32_c {
                Some(c) => Some(c as int),
                None => None,
            },
        }
    }
}

impl SecretPayload {
    /// A payload over the given data, carrying the data's own CRC32C
    /// checksum.
    pub fn new(data: Vec<u8>) -> (p: SecretPayload)
        ensures
            p@.data == data@,
            p@.data_crc_32_c == Some(crc32c_of(data@) as int),
    {
        let checksum = crc32c_checksum(data.as_slice());
        SecretPayload { data, data_crc_32_c: Some(checksum as i64) }
    }
}

} // verus!
