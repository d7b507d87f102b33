//! The error taxonomy every call resolves to.
//!
//! A call either yields the typed success value or exactly one [`Error`]:
//! transport failures, body encode/decode failures, credential failures, a
//! non-success HTTP status, or a violation of the caller's own encoding
//! rules. Nothing is retried or masked here; the most specific variant wins.

use crate::rpc;
use crate::views::pairs_view;
use vstd::prelude::*;

verus! {

broadcast use vstd::seq::group_seq_axioms;

/// One structured detail record attached to a failed call. The catalogue
/// is closed: an element of an unknown kind is dropped at the parse
/// boundary, never stored.
#[derive(Clone, Debug, PartialEq, Eq)]
pub enum ErrorDetail {
    ErrorInfo(rpc::ErrorInfo),
    RetryInfo(rpc::RetryInfo),
    DebugInfo(rpc::DebugInfo),
    QuotaFailure(rpc::QuotaFailure),
    PreconditionFailure(rpc::PreconditionFailure),
    BadRequest(rpc::BadRequest),
    RequestInfo(rpc::RequestInfo),
    ResourceInfo(rpc::ResourceInfo),
    Help(rpc::Help),
    LocalizedMessage(rpc::LocalizedMessage),
}

/// The spec-level shape of an [`ErrorDetail`].
pub enum ErrorDetailV {
    ErrorInfo(rpc::ErrorInfoV),
    RetryInfo(rpc::RetryInfoV),
    DebugInfo(rpc::DebugInfoV),
    QuotaFailure(rpc::QuotaFailureV),
    PreconditionFailure(rpc::PreconditionFailureV),
    BadRequest(rpc::BadRequestV),
    RequestInfo(rpc::RequestInfoV),
    ResourceInfo(rpc::ResourceInfoV),
    Help(rpc::HelpV),
    LocalizedMessage(rpc::LocalizedMessageV),
}

impl View for ErrorDetail {
    type V = ErrorDetailV;

    open spec fn view(&self) -> ErrorDetailV {
        match self {
            ErrorDetail::ErrorInfo(d) => ErrorDetailV::ErrorInfo(d@),
            ErrorDetail::RetryInfo(d) => ErrorDetailV::RetryInfo(d@),
            ErrorDetail::DebugInfo(d) => ErrorDetailV::DebugInfo(d@),
            ErrorDetail::QuotaFailure(d) => ErrorDetailV::QuotaFailure(d@),
            ErrorDetail::PreconditionFailure(d) => ErrorDetailV::PreconditionFailure(d@),
            ErrorDetail::BadRequest(d) => ErrorDetailV::BadRequest(d@),
            ErrorDetail::RequestInfo(d) => ErrorDetailV::RequestInfo(d@),
            ErrorDetail::ResourceInfo(d) => ErrorDetailV::ResourceInfo(d@),
            ErrorDetail::Help(d) => ErrorDetailV::Help(d@),
            ErrorDetail::LocalizedMessage(d) => ErrorDetailV::LocalizedMessage(d@),
        }
    }
}

/// A response that was received but carried a non-success status: the
/// exact status, the exact headers in wire order, the raw body bytes, and
/// the details decoded from the body.
#[derive(Clone, Debug, PartialEq, Eq)]
pub struct HttpError {
    /// The numeric status code the server returned.
    pub status: u16,
    /// The response headers, in wire order; names are looked up without
    /// regard to ASCII case.
    pub headers: Vec<(String, String)>,
    /// The raw response body, captured even when empty.
    pub body: Option<Vec<u8>>,
    /// The decoded detail records, in body order.
    pub details: Vec<ErrorDetail>,
}

/// The spec-level shape of an [`HttpError`].
pub struct HttpErrorV {
    pub status: u16,
    pub headers: Seq<(Seq<char>, Seq<char>)>,
    pub body: Option<Seq<u8>>,
    pub details: Seq<ErrorDetailV>,
}

impl View for HttpError {
    type V = HttpErrorV;

    open spec fn view(&self) -> HttpErrorV {
        HttpErrorV {
            status: self.status,
            headers: pairs_view(self.headers@),
            body: match self.body {
                Some(b) => Some(b@),
                None => None,
            },
            details: crate::views::seq_view(self.details@),
        }
    }
}

/// Every failure the executor can produce; exactly one variant per error.
#[derive(Clone, Debug, PartialEq, Eq)]
pub enum Error {
    /// A transport-level failure: no response was received.
    Io(String),
    /// A request or response body could not be encoded or decoded.
    Serialization(String),
    /// The credential provider could not supply a token; no request was
    /// sent.
    Authentication(String),
    /// The server answered with a non-success status.
    Http(HttpError),
    /// Anything not otherwise classified, such as a parameter-encoding
    /// violation.
    Other(String),
}

/// The spec-level shape of an [`Error`].
pub enum ErrorV {
    Io(Seq<char>),
    Serialization(Seq<char>),
    Authentication(Seq<char>),
    Http(HttpErrorV),
    Other(Seq<char>),
}

impl View for Error {
    type V = ErrorV;

    open spec fn view(&self) -> ErrorV {
        match self {
            Error::Io(m) => ErrorV::Io(m@),
            Error::Serialization(m) => ErrorV::Serialization(m@),
            Error::Authentication(m) => ErrorV::Authentication(m@),
            Error::Http(h) => ErrorV::Http(h@),
            Error::Other(m) => ErrorV::Other(m@),
        }
    }
}

/// The lower-case code of an ASCII letter; any other character's code is
/// left as it is.
pub open spec fn lower_code(c: char) -> int {
    if 65 <= c as u32 && c as u32 <= 90 {
        c as int + 32
    } else {
        c as int
    }
}

/// Character-wise equality up to ASCII case.
pub open spec fn ci_eq(a: Seq<char>, b: Seq<char>) -> bool {
    a.len() == b.len() && forall|i: int| 0 <= i < a.len() ==> lower_code(a[i]) == lower_code(b[i])
}

/// The value of the first header whose name matches `name` up to ASCII
/// case, if any.
pub open spec fn header_lookup(
    headers: Seq<(Seq<char>, Seq<char>)>,
    name: Seq<char>,
) -> Option<Seq<char>>
    decreases headers.len(),
{
    if headers.len() == 0 {
        None
    } else if ci_eq(headers[0].0, name) {
        Some(headers[0].1)
    } else {
        header_lookup(headers.drop_first(), name)
    }
}

/// Compares two strings for equality up to ASCII case.
fn str_eq_ignore_ascii_case(a: &str, b: &str) -> (r: bool)
    ensures
        r == ci_eq(a@, b@),
{
    let alen = a.unicode_len();
    let blen = b.unicode_len();
    if alen != blen {
        return false;
    }
    let mut i: usize = 0;
    while i < alen
        invariant
            alen == a@.len(),
            blen == b@.len(),
            alen == blen,
            i <= alen,
            forall|k: int| 0 <= k < i ==> lower_code(a@[k]) == lower_code(b@[k]),
        decreases alen - i,
    {
        let ca = a.get_char(i) as u32;
        let cb = b.get_char(i) as u32;
        let la = if 65 <= ca && ca <= 90 {
            ca + 32
        } else {
            ca
        };
        let lb = if 65 <= cb && cb <= 90 {
            cb + 32
        } else {
            cb
        };
        if la != lb {
            return false;
        }
        i += 1;
    }
    true
}

proof fn lemma_header_lookup_skip_unmatched(
    headers: Seq<(Seq<char>, Seq<char>)>,
    name: Seq<char>,
    i: int,
)
    requires
        0 <= i <= headers.len(),
        forall|k: int| 0 <= k < i ==> !ci_eq(headers[k].0, name),
    ensures
        header_lookup(headers, name) == header_lookup(headers.skip(i), name),
    decreases i,
{
    if i == 0 {
        assert(headers.skip(0) =~= headers);
    } else {
        lemma_header_lookup_skip_unmatched(headers.drop_first(), name, i - 1);
        assert(headers.drop_first().skip(i - 1) =~= headers.skip(i));
    }
}


/// True of a detail that carries retry advice.
pub open spec fn gives_retry_advice(d: ErrorDetailV) -> bool {
    d matches ErrorDetailV::RetryInfo(ri) && ri.retry_delay is Some
}

/// The advisory wait of the first detail that carries one, if any.
pub open spec fn retry_advice_of(details: Seq<ErrorDetailV>) -> Option<rpc::DurationV>
    decreases details.len(),
{
    if details.len() == 0 {
        None
    } else if gives_retry_advice(details[0]) {
        match details[0] {
            ErrorDetailV::RetryInfo(ri) => ri.retry_delay,
            _ => None,
        }
    } else {
        retry_advice_of(details.drop_first())
    }
}

proof fn lemma_retry_advice_skip_unmatched(details: Seq<ErrorDetailV>, i: int)
    requires
        0 <= i <= details.len(),
        forall|k: int| 0 <= k < i ==> !gives_retry_advice(details[k]),
    ensures
        retry_advice_of(details) == retry_advice_of(details.skip(i)),
    decreases i,
{
    if i == 0 {
        assert(details.skip(0) =~= details);
    } else {
        lemma_retry_advice_skip_unmatched(details.drop_first(), i - 1);
        assert(details.drop_first().skip(i - 1) =~= details.skip(i));
    }
}

impl HttpError {
    /// A fresh error for a received non-success response, with no details
    /// decoded yet.
    pub fn new(status: u16, headers: Vec<(String, String)>, body: Option<Vec<u8>>) -> (h: HttpError)
        ensures
            h@.status == status,
            h@.headers == pairs_view(headers@),
            h@.body == match body {
                Some(b) => Some(b@),
                None => None::<Seq<u8>>,
            },
            h@.details == Seq::<ErrorDetailV>::empty(),
    {
        let h = HttpError { status, headers, body, details: Vec::new() };
        proof {
            crate::views::lemma_seq_view(h.details@);
            assert(crate::views::seq_view(h.details@) =~= Seq::<ErrorDetailV>::empty());
        }
        h
    }


    /// The advisory least wait before retrying, when the details carry
    /// one. The advice is surfaced only: nothing here waits or retries.
    pub fn retry_advice(&self) -> (r: Option<rpc::Duration>)
        ensures
            match r {
                Some(d) => retry_advice_of(self@.details) == Some(d@),
                None => retry_advice_of(self@.details) is None,
            },
    {
        let ghost gdetails = self@.details;
        proof {
            crate::views::lemma_seq_view(self.details@);
        }
        let mut i: usize = 0;
        while i < self.details.len()
            invariant
                i <= self.details.len(),
                gdetails == crate::views::seq_view(self.details@),
                gdetails.len() == self.details.len(),
                forall|k: int| 0 <= k < self.details.len() ==> gdetails[k] == self.details[k]@,
                forall|k: int| 0 <= k < i ==> !gives_retry_advice(gdetails[k]),
            decreases self.details.len() - i,
        {
            match &self.details[i] {
                ErrorDetail::RetryInfo(ri) => match ri.retry_delay {
                    Some(d) => {
                        proof {
                            lemma_retry_advice_skip_unmatched(gdetails, i as int);
                            assert(gdetails.skip(i as int)[0] == gdetails[i as int]);
                        }
                        return Some(d);
                    },
                    None => {},
                },
                _ => {},
            }
            i += 1;
        }
        proof {
            lemma_retry_advice_skip_unmatched(gdetails, i as int);
            assert(gdetails.skip(i as int).len() == 0);
        }
        None
    }

    /// A borrow of the value of the first header named `name`, compared
    /// without regard to ASCII case.
    pub fn header_value<'a>(&'a self, name: &str) -> (r: Option<&'a String>)
        ensures
            match r {
                Some(v) => header_lookup(self@.headers, name@) == Some(v@),
                None => header_lookup(self@.headers, name@) is None,
            },
    {
        let ghost gheaders = self@.headers;
        proof {
            crate::views::lemma_pairs_view(self.headers@);
        }
        let mut i: usize = 0;
        while i < self.headers.len()
            invariant
                i <= self.headers.len(),
                gheaders == pairs_view(self.headers@),
                gheaders.len() == self.headers.len(),
                forall|k: int|
                    0 <= k < self.headers.len() ==> gheaders[k] == (
                        self.headers[k].0@,
                        self.headers[k].1@,
                    ),
                forall|k: int| 0 <= k < i ==> !ci_eq(gheaders[k].0, name@),
            decreases self.headers.len() - i,
        {
            if str_eq_ignore_ascii_case(self.headers[i].0.as_str(), name) {
                proof {
                    lemma_header_lookup_skip_unmatched(gheaders, name@, i as int);
                    assert(gheaders.skip(i as int)[0] == gheaders[i as int]);
                }
                return Some(&self.headers[i].1);
            }
            i += 1;
        }
        proof {
            lemma_header_lookup_skip_unmatched(gheaders, name@, i as int);
            assert(gheaders.skip(i as int).len() == 0);
        }
        None
    }
}

} // verus!
