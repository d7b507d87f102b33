//! The RPC executor's decisions.
//!
//! The executor itself performs no I/O: the caller obtains the token,
//! sends the request, and reads the response, and the functions here
//! decide what each outcome means, in the order the call proceeds. A
//! failed token acquisition aborts the call before anything is sent; a
//! transport failure is an [`Error::Io`]; a received response either
//! decodes as JSON (success status) or classifies into an
//! [`Error::Http`] that carries the exact status, headers and body. No
//! step retries, logs or caches.

use crate::classify::{classify, spec_details_of_body};
use crate::codec::{HttpRequest, HttpRequestV};
use crate::error::{Error, ErrorV};
use crate::json::{json_of, parse_json, json_text_of, Json};
use crate::views::pairs_view;
use vstd::pervasive::unreached;
use vstd::prelude::*;
use vstd::string::StringExecFns;

verus! {

broadcast use vstd::std_specs::vec::group_vec_axioms, vstd::seq::group_seq_axioms;

/// A bearer credential, as the provider hands it over.
#[derive(Clone, Debug, PartialEq, Eq)]
pub struct Token {
    /// The bearer value to attach to the request.
    pub value: String,
}

/// The spec-level shape of a [`Token`].
pub struct TokenV {
    pub value: Seq<char>,
}

impl View for Token {
    type V = TokenV;

    open spec fn view(&self) -> TokenV {
        TokenV { value: self.value@ }
    }
}

/// What the transport handed back: a response, or a transport-level
/// failure with no response at all.
#[derive(Debug, PartialEq, Eq)]
pub enum TransportOutcome {
    /// A response was received, whatever its status.
    Received { status: u16, headers: Vec<(String, String)>, body: Vec<u8> },
    /// No response was received: connection, name resolution, TLS or
    /// timeout trouble.
    Failed { message: String },
}

/// The spec-level shape of a [`TransportOutcome`].
pub enum TransportOutcomeV {
    Received { status: u16, headers: Seq<(Seq<char>, Seq<char>)>, body: Seq<u8> },
    Failed { message: Seq<char> },
}

impl View for TransportOutcome {
    type V = TransportOutcomeV;

    open spec fn view(&self) -> TransportOutcomeV {
        match self {
            TransportOutcome::Received { status, headers, body } => TransportOutcomeV::Received {
                status: *status,
                headers: pairs_view(headers@),
                body: body@,
            },
            TransportOutcome::Failed { message } => TransportOutcomeV::Failed {
                message: message@,
            },
        }
    }
}

/// The value of the authorization header for a bearer token.
pub open spec fn bearer_of(tok: Seq<char>) -> Seq<char> {
    "Bearer "@ + tok
}

/// Attaches the bearer token to the request, or aborts the call with an
/// [`Error::Authentication`] when the provider failed: in that case no
/// request is sent.
pub fn authorize(r: HttpRequest, token: Result<Token, String>) -> (res: Result<HttpRequest, Error>)
    ensures
        match res {
            Ok(r2) => (token matches Ok(t) && r2@ == (HttpRequestV {
                headers: r@.headers.push(("authorization"@, bearer_of(t@.value))),
                ..r@
            })),
            Err(e) => (token matches Err(m) && e@ == ErrorV::Authentication(m@)),
        },
{
    match token {
        Err(m) => Err(Error::Authentication(m)),
        Ok(t) => {
            let mut r2 = r;
            let name: String = "authorization".to_owned();
            let value = String::from_str("Bearer ").concat(t.value.as_str());
            proof {
                reveal_strlit("Bearer ");
                crate::views::lemma_pairs_view_push(r2.headers@, (name, value));
            }
            r2.headers.push((name, value));
            Ok(r2)
        },
    }
}

/// Attaches the optional JSON body to the request; it is serialized when
/// the call executes.
pub fn attach_body(r: HttpRequest, body: Option<Json>) -> (r2: HttpRequest)
    ensures
        r2@ == (HttpRequestV {
            body: match body {
                Some(j) => Some(j@),
                None => r@.body,
            },
            ..r@
        }),
{
    match body {
        None => r,
        Some(j) => {
            let mut r2 = r;
            r2.body = Some(j);
            r2
        },
    }
}

/// Serializes the request's body for sending: the body's compact JSON
/// text, or nothing when the request has no body. A value tree always
/// serializes, so the call always succeeds; the `Result` keeps the
/// abort-before-send step of the call sequence explicit for callers.
pub fn render_body(r: &HttpRequest) -> (res: Result<Option<String>, Error>)
    ensures
        match res {
            Ok(t) => match (r@.body, t) {
                (Some(j), Some(s)) => s@ == json_text_of(j),
                (None, None) => true,
                _ => false,
            },
            Err(_) => false,
        },
{
    match &r.body {
        None => Ok(None),
        Some(j) => match crate::json::to_json_text(j) {
            Ok(text) => Ok(Some(text)),
            Err(_) => unreached(),
        },
    }
}

/// Turns the transport's outcome into the call's result.
///
/// A transport failure is an [`Error::Io`]. A received response with a
/// success status decodes its body as JSON or fails with an
/// [`Error::Serialization`]; a success status never yields an
/// [`Error::Http`]. Any other status classifies into an [`Error::Http`]
/// carrying exactly the status, headers and body received, with the
/// decoded details.
pub fn interpret_response(outcome: TransportOutcome) -> (res: Result<Json, Error>)
    ensures
        (outcome@ matches TransportOutcomeV::Failed { message } ==> (res matches Err(e) && e@
            == ErrorV::Io(message))),
        (outcome@ matches TransportOutcomeV::Received { status, headers, body } ==> {
            &&& (200 <= status < 300) ==> match json_of(body) {
                Some(doc) => res matches Ok(j) && j@ == doc,
                None => res matches Err(e) && e@ == ErrorV::Serialization(
                    "response body is not valid JSON"@,
                ),
            }
            &&& !(200 <= status < 300) ==> (res matches Err(e) && e@ matches ErrorV::Http(h)
                && h.status == status && h.headers == headers && h.body == Some(body)
                && h.details == spec_details_of_body(body))
        }),
{
    match outcome {
        TransportOutcome::Failed { message } => Err(Error::Io(message)),
        TransportOutcome::Received { status, headers, body } => {
            if 200 <= status && status < 300 {
                match parse_json(body.as_slice()) {
                    Some(j) => Ok(j),
                    None => Err(
                        Error::Serialization("response body is not valid JSON".to_owned()),
                    ),
                }
            } else {
                Err(Error::Http(classify(status, headers, body)))
            }
        },
    }
}

} // verus!
