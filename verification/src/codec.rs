//! The parameter codec.
//!
//! A request is an immutable description — method, path, query entries,
//! headers, optional body text — and each encoding step returns a new
//! value. Query parameters are optional: an absent value leaves the
//! request untouched. Path parameters are required: an unset source field
//! is an [`Error::Other`] naming the field. The serialized URL is a pure
//! function of the description, so encoding the same state twice yields
//! the same URL.

use crate::error::Error;
use crate::json::{json_text_of, to_json_text, Json, JsonVal};
use crate::views::pairs_view;
use vstd::pervasive::unreached;
use vstd::prelude::*;
use vstd::string::StringExecFns;
use vstd::utf8::encode_utf8;

verus! {

broadcast use vstd::std_specs::vec::group_vec_axioms, vstd::seq::group_seq_axioms;

/// The HTTP method of a request.
#[derive(Clone, Copy, Debug, PartialEq, Eq, Structural)]
pub enum HttpMethod {
    Get,
    Post,
    Patch,
    Delete,
}

/// One HTTP request, described as a plain value. The URL is derived from
/// `path` and `query` by [`url_bytes`]; the service endpoint is prepended
/// by the caller that sends it.
#[derive(Debug, PartialEq, Eq)]
pub struct HttpRequest {
    /// The method of the call.
    pub method: HttpMethod,
    /// The URL path, such as `/v1/projects/p/secrets`.
    pub path: String,
    /// The query entries, in the order they were encoded.
    pub query: Vec<(String, String)>,
    /// The request headers, in the order they were attached.
    pub headers: Vec<(String, String)>,
    /// The JSON body, when one was attached; it is serialized when the
    /// call executes.
    pub body: Option<Json>,
}

/// The spec-level shape of an [`HttpRequest`].
pub struct HttpRequestV {
    pub method: HttpMethod,
    pub path: Seq<char>,
    pub query: Seq<(Seq<char>, Seq<char>)>,
    pub headers: Seq<(Seq<char>, Seq<char>)>,
    pub body: Option<JsonVal>,
}

impl View for HttpRequest {
    type V = HttpRequestV;

    open spec fn view(&self) -> HttpRequestV {
        HttpRequestV {
            method: self.method,
            path: self.path@,
            query: pairs_view(self.query@),
            headers: pairs_view(self.headers@),
            body: match self.body {
                Some(b) => Some(b@),
                None => None,
            },
        }
    }
}

impl HttpRequest {
    /// A fresh request with the given method and path and nothing else.
    pub fn new(method: HttpMethod, path: String) -> (r: HttpRequest)
        ensures
            r@.method == method,
            r@.path == path@,
            r@.query == Seq::<(Seq<char>, Seq<char>)>::empty(),
            r@.headers == Seq::<(Seq<char>, Seq<char>)>::empty(),
            r@.body is None,
    {
        let r = HttpRequest { method, path, query: Vec::new(), headers: Vec::new(), body: None };
        proof {
            crate::views::lemma_pairs_view(r.query@);
            crate::views::lemma_pairs_view(r.headers@);
            assert(pairs_view(r.query@) =~= Seq::<(Seq<char>, Seq<char>)>::empty());
            assert(pairs_view(r.headers@) =~= Seq::<(Seq<char>, Seq<char>)>::empty());
        }
        r
    }
}

/// One typed query parameter value.
#[derive(Debug, PartialEq, Eq)]
pub enum QueryValue {
    /// A whole number, rendered in decimal.
    Int(i64),
    /// A boolean, rendered as `true` or `false`.
    Bool(bool),
    /// A plain string, passed through.
    Text(String),
    /// A structured value, first serialized to JSON and then rendered as
    /// its compact text.
    Structured(Json),
}

/// The spec-level shape of a [`QueryValue`].
pub enum QueryValueV {
    Int(int),
    Bool(bool),
    Text(Seq<char>),
    Structured(JsonVal),
}

impl View for QueryValue {
    type V = QueryValueV;

    open spec fn view(&self) -> QueryValueV {
        match self {
            QueryValue::Int(n) => QueryValueV::Int(*n as int),
            QueryValue::Bool(b) => QueryValueV::Bool(*b),
            QueryValue::Text(s) => QueryValueV::Text(s@),
            QueryValue::Structured(j) => QueryValueV::Structured(j@),
        }
    }
}

/// The character of one decimal digit.
pub open spec fn digit_char(d: int) -> char {
    if d == 0 {
        '0'
    } else if d == 1 {
        '1'
    } else if d == 2 {
        '2'
    } else if d == 3 {
        '3'
    } else if d == 4 {
        '4'
    } else if d == 5 {
        '5'
    } else if d == 6 {
        '6'
    } else if d == 7 {
        '7'
    } else if d == 8 {
        '8'
    } else {
        '9'
    }
}

/// The decimal digits of a non-negative number, most significant first.
pub open spec fn dec_chars(n: int) -> Seq<char>
    decreases n,
{
    if n < 10 {
        seq![digit_char(n)]
    } else {
        dec_chars(n / 10).push(digit_char(n % 10))
    }
}

/// The decimal rendering of a number, with a leading minus sign when it
/// is negative.
pub open spec fn dec_chars_signed(n: int) -> Seq<char> {
    if n < 0 {
        seq!['-'] + dec_chars(-n)
    } else {
        dec_chars(n)
    }
}

/// The text a query value is rendered as.
pub open spec fn query_text(v: QueryValueV) -> Seq<char> {
    match v {
        QueryValueV::Int(n) => dec_chars_signed(n),
        QueryValueV::Bool(b) => if b {
            "true"@
        } else {
            "false"@
        },
        QueryValueV::Text(s) => s,
        QueryValueV::Structured(j) => json_text_of(j),
    }
}

/// The string slice for one decimal digit.
fn digit_str(d: u64) -> (r: &'static str)
    requires
        d < 10,
    ensures
        r@ == seq![digit_char(d as int)],
{
    proof {
        reveal_strlit("0");
        reveal_strlit("1");
        reveal_strlit("2");
        reveal_strlit("3");
        reveal_strlit("4");
        reveal_strlit("5");
        reveal_strlit("6");
        reveal_strlit("7");
        reveal_strlit("8");
        reveal_strlit("9");
    }
    let r = if d == 0 {
        "0"
    } else if d == 1 {
        "1"
    } else if d == 2 {
        "2"
    } else if d == 3 {
        "3"
    } else if d == 4 {
        "4"
    } else if d == 5 {
        "5"
    } else if d == 6 {
        "6"
    } else if d == 7 {
        "7"
    } else if d == 8 {
        "8"
    } else {
        "9"
    };
    proof {
        assert(r@ =~= seq![digit_char(d as int)]);
    }
    r
}

/// Renders a non-negative number in decimal.
fn to_decimal(n: u64) -> (r: String)
    ensures
        r@ == dec_chars(n as int),
    decreases n,
{
    if n < 10 {
        digit_str(n).to_owned()
    } else {
        let s = to_decimal(n / 10);
        let r = s.concat(digit_str(n % 10));
        proof {
            assert(r@ =~= dec_chars((n / 10) as int).push(digit_char((n % 10) as int)));
        }
        r
    }
}

/// Renders a signed number in decimal.
fn to_decimal_signed(n: i64) -> (r: String)
    ensures
        r@ == dec_chars_signed(n as int),
{
    if n < 0 {
        let mag: u64 = ((-(n + 1)) as u64) + 1;
        proof {
            assert(mag as int == -(n as int));
        }
        let s = String::from_str("-");
        let r = s.concat(to_decimal(mag).as_str());
        proof {
            reveal_strlit("-");
            assert(("-")@ =~= seq!['-']);
        }
        r
    } else {
        to_decimal(n as u64)
    }
}

/// Renders one query value as text. A value tree always serializes, so
/// rendering is total.
fn render_query_value(v: &QueryValue) -> (r: String)
    ensures
        r@ == query_text(v@),
{
    match v {
        QueryValue::Int(n) => to_decimal_signed(*n),
        QueryValue::Bool(b) => {
            if *b {
                "true".to_owned()
            } else {
                "false".to_owned()
            }
        },
        QueryValue::Text(s) => s.clone(),
        QueryValue::Structured(j) => match to_json_text(j) {
            Ok(s) => s,
            Err(_) => unreached(),
        },
    }
}

/// What adding a query parameter does to a request description.
pub open spec fn add_query_spec(r: HttpRequestV, name: Seq<char>, v: QueryValueV) -> HttpRequestV {
    HttpRequestV { query: r.query.push((name, query_text(v))), ..r }
}

/// Adds one optional query parameter. An absent value leaves the request
/// unchanged; a present value appends exactly one query entry with its
/// rendered text.
pub fn add_query_parameter(r: HttpRequest, name: &str, v: Option<&QueryValue>) -> (r2: HttpRequest)
    ensures
        r2@ == match v {
            Some(q) => add_query_spec(r@, name@, q@),
            None => r@,
        },
{
    match v {
        None => r,
        Some(q) => {
            let text = render_query_value(q);
            let mut r2 = r;
            let ghost old_query = r2.query@;
            let pair = (name.to_owned(), text);
            proof {
                crate::views::lemma_pairs_view_push(old_query, pair);
            }
            r2.query.push(pair);
            r2
        },
    }
}

/// The message of the error for a missing required path parameter.
pub open spec fn missing_parameter_msg(name: Seq<char>) -> Seq<char> {
    "missing required parameter "@ + name
}

/// Requires a path parameter to be set: a borrow of the value when it is,
/// an [`Error::Other`] naming the field when it is not.
pub fn require_path_parameter<'a, T>(v: &'a Option<T>, name: &str) -> (r: Result<&'a T, Error>)
    ensures
        match r {
            Ok(t) => (v matches Some(x) && t == x),
            Err(e) => v is None && e@ == crate::error::ErrorV::Other(missing_parameter_msg(name@)),
        },
{
    match v {
        Some(t) => Ok(t),
        None => {
            let msg = String::from_str("missing required parameter ").concat(name);
            Err(Error::Other(msg))
        },
    }
}

/// True of a byte that passes through percent-encoding unchanged: the
/// unreserved characters of a URL.
pub open spec fn is_unreserved(b: u8) -> bool {
    (48 <= b && b <= 57) || (65 <= b && b <= 90) || (97 <= b && b <= 122) || b == 45 || b == 46
        || b == 95 || b == 126
}

/// The byte of one uppercase hexadecimal digit.
pub open spec fn hex_digit(d: int) -> u8 {
    if d < 10 {
        (48 + d) as u8
    } else {
        (55 + d) as u8
    }
}

/// What one byte percent-encodes to.
pub open spec fn pe_byte(b: u8) -> Seq<u8> {
    if is_unreserved(b) {
        seq![b]
    } else {
        seq![37u8, hex_digit(b as int / 16), hex_digit(b as int % 16)]
    }
}

/// What a byte string percent-encodes to.
pub open spec fn percent_encode(s: Seq<u8>) -> Seq<u8>
    decreases s.len(),
{
    if s.len() == 0 {
        Seq::empty()
    } else {
        percent_encode(s.drop_last()) + pe_byte(s.last())
    }
}

/// Appends the percent-encoding of `s` to `out`.
fn append_encoded(out: &mut Vec<u8>, s: &[u8])
    ensures
        final(out)@ == old(out)@ + percent_encode(s@),
{
    let ghost base = out@;
    let mut i: usize = 0;
    proof {
        assert(s@.take(0) =~= Seq::<u8>::empty());
        assert(base + percent_encode(s@.take(0)) =~= base);
    }
    while i < s.len()
        invariant
            i <= s.len(),
            out@ == base + percent_encode(s@.take(i as int)),
        decreases s.len() - i,
    {
        proof {
            assert(s@.take(i + 1).drop_last() =~= s@.take(i as int));
            assert(s@.take(i + 1).last() == s@[i as int]);
        }
        let b = s[i];
        if (48 <= b && b <= 57) || (65 <= b && b <= 90) || (97 <= b && b <= 122) || b == 45 || b
            == 46 || b == 95 || b == 126 {
            out.push(b);
            proof {
                assert(out@ =~= base + percent_encode(s@.take(i + 1)));
            }
        } else {
            let hi = b / 16;
            let lo = b % 16;
            out.push(37);
            out.push(
                if hi < 10 {
                    48 + hi
                } else {
                    55 + hi
                },
            );
            out.push(
                if lo < 10 {
                    48 + lo
                } else {
                    55 + lo
                },
            );
            proof {
                assert(out@ =~= base + percent_encode(s@.take(i + 1)));
            }
        }
        i += 1;
    }
    proof {
        assert(s@.take(s@.len() as int) =~= s@);
    }
}

/// What one query pair contributes to the URL, after the given separator.
pub open spec fn query_pair_bytes(sep: u8, pair: (Seq<char>, Seq<char>)) -> Seq<u8> {
    seq![sep] + percent_encode(encode_utf8(pair.0)) + seq![61u8] + percent_encode(
        encode_utf8(pair.1),
    )
}

/// What a whole query contributes to the URL: the first pair after `?`,
/// every later pair after `&`.
pub open spec fn query_bytes(q: Seq<(Seq<char>, Seq<char>)>) -> Seq<u8>
    decreases q.len(),
{
    if q.len() == 0 {
        Seq::empty()
    } else {
        let sep: u8 = if q.len() == 1 {
            63u8
        } else {
            38u8
        };
        query_bytes(q.drop_last()) + query_pair_bytes(sep, q.last())
    }
}

/// The serialized URL of a request against an endpoint: the endpoint's
/// bytes, the path's bytes, and the percent-encoded query.
pub open spec fn url_bytes(endpoint: Seq<char>, r: HttpRequestV) -> Seq<u8> {
    encode_utf8(endpoint) + encode_utf8(r.path) + query_bytes(r.query)
}

/// Serializes the URL of a request against an endpoint.
pub fn url_of(endpoint: &str, r: &HttpRequest) -> (out: Vec<u8>)
    ensures
        out@ == url_bytes(endpoint@, r@),
{
    let mut out: Vec<u8> = Vec::new();
    out.extend_from_slice(endpoint.as_bytes());
    out.extend_from_slice(r.path.as_str().as_bytes());
    let ghost base = out@;
    let ghost gq = r@.query;
    proof {
        crate::views::lemma_pairs_view(r.query@);
        assert(gq.take(0) =~= Seq::<(Seq<char>, Seq<char>)>::empty());
        assert(base + query_bytes(gq.take(0)) =~= base);
    }
    let mut i: usize = 0;
    while i < r.query.len()
        invariant
            i <= r.query.len(),
            gq == pairs_view(r.query@),
            gq.len() == r.query.len(),
            forall|k: int|
                0 <= k < r.query.len() ==> gq[k] == (r.query[k].0@, r.query[k].1@),
            out@ == base + query_bytes(gq.take(i as int)),
        decreases r.query.len() - i,
    {
        proof {
            assert(gq.take(i + 1).drop_last() =~= gq.take(i as int));
            assert(gq.take(i + 1).last() == gq[i as int]);
        }
        if i == 0 {
            out.push(63);
        } else {
            out.push(38);
        }
        append_encoded(&mut out, r.query[i].0.as_str().as_bytes());
        out.push(61);
        append_encoded(&mut out, r.query[i].1.as_str().as_bytes());
        proof {
            assert(out@ =~= base + query_bytes(gq.take(i + 1)));
        }
        i += 1;
    }
    proof {
        assert(gq.take(r.query.len() as int) =~= gq);
    }
    out
}

/// Law: parameter encoding is idempotent, and the serialized URL is a
/// function of the encoded path and query alone. Encoding the same named
/// value into two independent request descriptions that agree on path and
/// query — whatever their methods, headers or bodies — serializes to
/// byte-identical URLs, so re-encoding the same request state always
/// yields the same URL.
pub proof fn lemma_codec_idempotent(
    endpoint: Seq<char>,
    r1: HttpRequestV,
    r2: HttpRequestV,
    name: Seq<char>,
    v: QueryValueV,
)
    requires
        r1.path == r2.path,
        r1.query == r2.query,
    ensures
        url_bytes(endpoint, add_query_spec(r1, name, v)) == url_bytes(
            endpoint,
            add_query_spec(r2, name, v),
        ),
{
}

} // verus!
