//! The locations client: request builders for the location-metadata
//! methods a service exposes beside its own.

use crate::codec::{HttpMethod, HttpRequest};
use crate::secretmanager::{add_query_opt, alt_json_spec, opt_int, opt_text};
use vstd::prelude::*;
use vstd::string::StringExecFns;

verus! {

/// Configuration for a locations client: only the endpoint is described
/// here.
#[derive(Debug, PartialEq, Eq, Default)]
pub struct ConfigBuilder {
    /// An endpoint that overrides the default endpoint for the service.
    pub endpoint: Option<String>,
}

impl ConfigBuilder {
    /// A default configuration.
    pub fn new() -> (c: ConfigBuilder)
        ensures
            c.endpoint is None,
    {
        ConfigBuilder { endpoint: None }
    }

    /// Sets an endpoint that overrides the default endpoint for a
    /// service.
    pub fn set_endpoint(self, v: String) -> (c: ConfigBuilder)
        ensures
            c.endpoint matches Some(e) && e@ == v@,
    {
        ConfigBuilder { endpoint: Some(v) }
    }
}

/// Manages location-related information for an API service.
#[derive(Debug, PartialEq, Eq)]
pub struct LocationsClient {
    /// The service endpoint every request is sent against.
    pub endpoint: String,
}

/// The spec-level shape of a [`LocationsClient`].
pub struct LocationsClientV {
    pub endpoint: Seq<char>,
}

impl View for LocationsClient {
    type V = LocationsClientV;

    open spec fn view(&self) -> LocationsClientV {
        LocationsClientV { endpoint: self.endpoint@ }
    }
}

impl LocationsClient {
    /// A client against the service's default endpoint.
    pub fn new() -> (c: Self)
        ensures
            c@.endpoint == "https://secretmanager.googleapis.com/"@,
    {
        LocationsClient { endpoint: "https://secretmanager.googleapis.com/".to_owned() }
    }

    /// A client against the configured endpoint, or the default one when
    /// none is set.
    pub fn new_with_config(conf: ConfigBuilder) -> (c: Self)
        ensures
            c@.endpoint == match conf.endpoint {
                Some(e) => e@,
                None => "https://secretmanager.googleapis.com/"@,
            },
    {
        match conf.endpoint {
            Some(e) => LocationsClient { endpoint: e },
            None => Self::new(),
        }
    }

    /// Lists the locations the service supports:
    /// `GET /v1/{name}/locations` with the optional filter and page
    /// parameters.
    pub fn list_locations(
        &self,
        name: &str,
        filter: Option<&String>,
        page_size: Option<i64>,
        page_token: Option<&String>,
    ) -> (r: HttpRequest)
        ensures
            r@ == add_query_opt(
                add_query_opt(
                    add_query_opt(
                        alt_json_spec(HttpMethod::Get, "/v1/"@ + name@ + "/locations"@),
                        "filter"@,
                        opt_text(filter),
                    ),
                    "pageSize"@,
                    opt_int(page_size),
                ),
                "pageToken"@,
                opt_text(page_token),
            ),
    {
        let path = String::from_str("/v1/").concat(name).concat("/locations");
        let r = crate::secretmanager::base_request(HttpMethod::Get, path);
        let r = crate::secretmanager::add_text_parameter(r, "filter", filter);
        let r = crate::secretmanager::add_int_parameter(r, "pageSize", page_size);
        crate::secretmanager::add_text_parameter(r, "pageToken", page_token)
    }

    /// Reads one location: `GET /v1/{name}`.
    pub fn get_location(&self, name: &str) -> (r: HttpRequest)
        ensures
            r@ == alt_json_spec(HttpMethod::Get, "/v1/"@ + name@),
    {
        let path = String::from_str("/v1/").concat(name);
        crate::secretmanager::base_request(HttpMethod::Get, path)
    }
}

} // verus!
