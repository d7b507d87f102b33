//! The IAM policy client: request builders for the access-control
//! methods any resource-oriented service implements.

use crate::codec::{HttpMethod, HttpRequest, HttpRequestV};
use crate::json::Json;
use vstd::prelude::*;
use vstd::string::StringExecFns;

verus! {

/// Configuration for an IAM policy client: only the endpoint is
/// described here.
#[derive(Debug, PartialEq, Eq, Default)]
pub struct ConfigBuilder {
    /// An endpoint that overrides the default endpoint for the service.
    pub endpoint: Option<String>,
}

impl ConfigBuilder {
    /// A default configuration.
    pub fn new() -> (c: ConfigBuilder)
        ensures
            c.endpoint is None,
    {
        ConfigBuilder { endpoint: None }
    }

    /// Sets an endpoint that overrides the default endpoint for a
    /// service.
    pub fn set_endpoint(self, v: String) -> (c: ConfigBuilder)
        ensures
            c.endpoint matches Some(e) && e@ == v@,
    {
        ConfigBuilder { endpoint: Some(v) }
    }
}

/// Manages Identity and Access Management policies on resources exposed
/// by a service.
#[derive(Debug, PartialEq, Eq)]
pub struct Iampolicy {
    /// The service endpoint every request is sent against.
    pub endpoint: String,
}

/// The spec-level shape of an [`Iampolicy`].
pub struct IampolicyV {
    pub endpoint: Seq<char>,
}

impl View for Iampolicy {
    type V = IampolicyV;

    open spec fn view(&self) -> IampolicyV {
        IampolicyV { endpoint: self.endpoint@ }
    }
}

impl Iampolicy {
    /// A client against the service's default endpoint.
    pub fn new() -> (c: Self)
        ensures
            c@.endpoint == "https://iam-meta-api.googleapis.com/"@,
    {
        Iampolicy { endpoint: "https://iam-meta-api.googleapis.com/".to_owned() }
    }

    /// A client against the configured endpoint, or the default one when
    /// none is set.
    pub fn new_with_config(conf: ConfigBuilder) -> (c: Self)
        ensures
            c@.endpoint == match conf.endpoint {
                Some(e) => e@,
                None => "https://iam-meta-api.googleapis.com/"@,
            },
    {
        match conf.endpoint {
            Some(e) => Iampolicy { endpoint: e },
            None => Self::new(),
        }
    }

    /// Replaces the access control policy on a resource:
    /// `POST /v1/{resource}:setIamPolicy` with the request's JSON as the
    /// body.
    pub fn set_iam_policy(&self, resource: &str, body: Json) -> (r: HttpRequest)
        ensures
            r@ == (HttpRequestV {
                body: Some(body@),
                ..crate::secretmanager::alt_json_spec(
                    HttpMethod::Post,
                    "/v1/"@ + resource@ + ":setIamPolicy"@,
                )
            }),
    {
        let path = String::from_str("/v1/").concat(resource).concat(":setIamPolicy");
        let r = crate::secretmanager::base_request(HttpMethod::Post, path);
        crate::executor::attach_body(r, Some(body))
    }

    /// Reads the access control policy of a resource:
    /// `POST /v1/{resource}:getIamPolicy` with the request's JSON as the
    /// body.
    pub fn get_iam_policy(&self, resource: &str, body: Json) -> (r: HttpRequest)
        ensures
            r@ == (HttpRequestV {
                body: Some(body@),
                ..crate::secretmanager::alt_json_spec(
                    HttpMethod::Post,
                    "/v1/"@ + resource@ + ":getIamPolicy"@,
                )
            }),
    {
        let path = String::from_str("/v1/").concat(resource).concat(":getIamPolicy");
        let r = crate::secretmanager::base_request(HttpMethod::Post, path);
        crate::executor::attach_body(r, Some(body))
    }

    /// Asks which of the given permissions the caller has on a resource:
    /// `POST /v1/{resource}:testIamPermissions` with the request's JSON
    /// as the body.
    pub fn test_iam_permissions(&self, resource: &str, body: Json) -> (r: HttpRequest)
        ensures
            r@ == (HttpRequestV {
                body: Some(body@),
                ..crate::secretmanager::alt_json_spec(
                    HttpMethod::Post,
                    "/v1/"@ + resource@ + ":testIamPermissions"@,
                )
            }),
    {
        let path = String::from_str("/v1/").concat(resource).concat(":testIamPermissions");
        let r = crate::secretmanager::base_request(HttpMethod::Post, path);
        crate::executor::attach_body(r, Some(body))
    }
}

} // verus!
