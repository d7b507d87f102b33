//! The catalogue of structured error details.
//!
//! A failed call may carry zero or more of these records in its error body;
//! the classifier decodes the ones it knows and keeps them in wire order.
//! Every field of every record is optional on the wire: absence decodes to
//! the empty value, never to an error.

pub mod bad_request;
pub mod help;
pub mod precondition_failure;
pub mod quota_failure;

use crate::views::{pairs_view, seq_view};
use vstd::pervasive::unreached;
use vstd::prelude::*;

verus! {

broadcast use vstd::seq::group_seq_axioms;

/// Describes the cause of an error with a reason code, its domain, and
/// free-form metadata, all service-defined.
#[derive(Clone, Debug, PartialEq, Eq)]
pub struct ErrorInfo {
    /// A constant that identifies the proximate cause of the error,
    /// unique within its domain.
    pub reason: String,
    /// The logical grouping the reason belongs to, typically the service
    /// name that generated the error.
    pub domain: String,
    /// Additional structured facts about this error, in wire order.
    pub metadata: Vec<(String, String)>,
}

/// The spec-level shape of [`ErrorInfo`].
pub struct ErrorInfoV {
    pub reason: Seq<char>,
    pub domain: Seq<char>,
    pub metadata: Seq<(Seq<char>, Seq<char>)>,
}

impl View for ErrorInfo {
    type V = ErrorInfoV;

    open spec fn view(&self) -> ErrorInfoV {
        ErrorInfoV {
            reason: self.reason@,
            domain: self.domain@,
            metadata: pairs_view(self.metadata@),
        }
    }
}

/// A span of time as whole seconds plus a nanosecond remainder, the form
/// the wire's duration strings decode into.
#[derive(Clone, Copy, Debug, PartialEq, Eq)]
pub struct Duration {
    /// Whole seconds of the span.
    pub seconds: i64,
    /// Nanoseconds past the whole seconds, with the same sign.
    pub nanos: i32,
}

/// The spec-level shape of [`Duration`].
pub struct DurationV {
    pub seconds: int,
    pub nanos: int,
}

impl View for Duration {
    type V = DurationV;

    open spec fn view(&self) -> DurationV {
        DurationV { seconds: self.seconds as int, nanos: self.nanos as int }
    }
}

/// Advises how long a client should wait before retrying the failed
/// request. The advice is surfaced, never acted on here.
#[derive(Clone, Copy, Debug, PartialEq, Eq)]
pub struct RetryInfo {
    /// The least time a client should wait between retries of the same
    /// request.
    pub retry_delay: Option<Duration>,
}

/// The spec-level shape of [`RetryInfo`].
pub struct RetryInfoV {
    pub retry_delay: Option<DurationV>,
}

impl View for RetryInfo {
    type V = RetryInfoV;

    open spec fn view(&self) -> RetryInfoV {
        RetryInfoV {
            retry_delay: match self.retry_delay {
                Some(d) => Some(d@),
                None => None,
            },
        }
    }
}

/// Additional debugging information provided by the server. For server
/// debugging only: never an input to control logic.
#[derive(Clone, Debug, PartialEq, Eq)]
pub struct DebugInfo {
    /// The stack trace entries indicating where the error occurred.
    pub stack_entries: Vec<String>,
    /// Free-form debugging detail.
    pub detail: String,
}

/// The spec-level shape of [`DebugInfo`].
pub struct DebugInfoV {
    pub stack_entries: Seq<Seq<char>>,
    pub detail: Seq<char>,
}

impl View for DebugInfo {
    type V = DebugInfoV;

    open spec fn view(&self) -> DebugInfoV {
        DebugInfoV { stack_entries: seq_view(self.stack_entries@), detail: self.detail@ }
    }
}

/// Describes how a quota check failed, one violation per exceeded limit.
#[derive(Clone, Debug, PartialEq, Eq)]
pub struct QuotaFailure {
    /// All quota violations, in wire order.
    pub violations: Vec<quota_failure::Violation>,
}

/// The spec-level shape of [`QuotaFailure`].
pub struct QuotaFailureV {
    pub violations: Seq<quota_failure::ViolationV>,
}

impl View for QuotaFailure {
    type V = QuotaFailureV;

    open spec fn view(&self) -> QuotaFailureV {
        QuotaFailureV { violations: seq_view(self.violations@) }
    }
}

/// Describes which preconditions of the call have failed.
#[derive(Clone, Debug, PartialEq, Eq)]
pub struct PreconditionFailure {
    /// All precondition violations, in wire order.
    pub violations: Vec<precondition_failure::Violation>,
}

/// The spec-level shape of [`PreconditionFailure`].
pub struct PreconditionFailureV {
    pub violations: Seq<precondition_failure::ViolationV>,
}

impl View for PreconditionFailure {
    type V = PreconditionFailureV;

    open spec fn view(&self) -> PreconditionFailureV {
        PreconditionFailureV { violations: seq_view(self.violations@) }
    }
}

/// Describes syntactic violations in the client's request.
#[derive(Clone, Debug, PartialEq, Eq)]
pub struct BadRequest {
    /// All bad fields of the request, in wire order.
    pub field_violations: Vec<bad_request::FieldViolation>,
}

/// The spec-level shape of [`BadRequest`].
pub struct BadRequestV {
    pub field_violations: Seq<bad_request::FieldViolationV>,
}

impl View for BadRequest {
    type V = BadRequestV;

    open spec fn view(&self) -> BadRequestV {
        BadRequestV { field_violations: seq_view(self.field_violations@) }
    }
}

/// Metadata about the request, for quoting when filing a bug.
#[derive(Clone, Debug, PartialEq, Eq)]
pub struct RequestInfo {
    /// An opaque string interpreted only by the service that produced it.
    pub request_id: String,
    /// Any data used to serve this request, such as an encrypted trace.
    pub serving_data: String,
}

/// The spec-level shape of [`RequestInfo`].
pub struct RequestInfoV {
    pub request_id: Seq<char>,
    pub serving_data: Seq<char>,
}

impl View for RequestInfo {
    type V = RequestInfoV;

    open spec fn view(&self) -> RequestInfoV {
        RequestInfoV { request_id: self.request_id@, serving_data: self.serving_data@ }
    }
}

/// Describes the resource the failed call was trying to access.
#[derive(Clone, Debug, PartialEq, Eq)]
pub struct ResourceInfo {
    /// The kind of resource, as a name or a type URL.
    pub resource_type: String,
    /// The name of the resource being accessed.
    pub resource_name: String,
    /// The owner of the resource, when one applies.
    pub owner: String,
    /// What went wrong when accessing the resource.
    pub description: String,
}

/// The spec-level shape of [`ResourceInfo`].
pub struct ResourceInfoV {
    pub resource_type: Seq<char>,
    pub resource_name: Seq<char>,
    pub owner: Seq<char>,
    pub description: Seq<char>,
}

impl View for ResourceInfo {
    type V = ResourceInfoV;

    open spec fn view(&self) -> ResourceInfoV {
        ResourceInfoV {
            resource_type: self.resource_type@,
            resource_name: self.resource_name@,
            owner: self.owner@,
            description: self.description@,
        }
    }
}

/// Links to documentation or to an out-of-band action that may resolve
/// the error.
#[derive(Clone, Debug, PartialEq, Eq)]
pub struct Help {
    /// URLs with more information on handling the error, in wire order.
    pub links: Vec<help::Link>,
}

/// The spec-level shape of [`Help`].
pub struct HelpV {
    pub links: Seq<help::LinkV>,
}

impl View for Help {
    type V = HelpV;

    open spec fn view(&self) -> HelpV {
        HelpV { links: seq_view(self.links@) }
    }
}

/// An error message that is safe to show to the user, in a given locale.
#[derive(Clone, Debug, PartialEq, Eq)]
pub struct LocalizedMessage {
    /// The locale of the message, such as `en-US`.
    pub locale: String,
    /// The localized text.
    pub message: String,
}

/// The spec-level shape of [`LocalizedMessage`].
pub struct LocalizedMessageV {
    pub locale: Seq<char>,
    pub message: Seq<char>,
}

impl View for LocalizedMessage {
    type V = LocalizedMessageV;

    open spec fn view(&self) -> LocalizedMessageV {
        LocalizedMessageV { locale: self.locale@, message: self.message@ }
    }
}

/// True of a decimal digit character.
pub open spec fn is_digit(c: char) -> bool {
    48 <= c as u32 && c as u32 <= 57
}

/// The numeric value of a digit character.
pub open spec fn digit_val(c: char) -> int {
    c as u32 - 48
}

/// The value of a string of digit characters, most significant first.
pub open spec fn digits_val(s: Seq<char>) -> int
    decreases s.len(),
{
    if s.len() == 0 {
        0
    } else {
        digits_val(s.drop_last()) * 10 + digit_val(s.last())
    }
}

/// How many digit characters the string starts with.
pub open spec fn leading_digits(s: Seq<char>) -> int
    decreases s.len(),
{
    if s.len() == 0 || !is_digit(s[0]) {
        0
    } else {
        1 + leading_digits(s.drop_first())
    }
}

/// Ten to the `k`-th power, one for a non-positive `k`.
pub open spec fn pow10(k: int) -> int
    decreases k,
{
    if k <= 0 {
        1
    } else {
        10 * pow10(k - 1)
    }
}

/// The largest magnitude of whole seconds a duration may carry, about ten
/// thousand years.
pub const MAX_DURATION_SECONDS: u64 = 315576000000;

/// What a duration string of the wire format denotes: an optional minus
/// sign, whole seconds, an optional point with one to nine fraction
/// digits, and a final `s`. `None` when the text is not of that form or
/// the seconds exceed [`MAX_DURATION_SECONDS`].
pub open spec fn duration_of(s: Seq<char>) -> Option<DurationV> {
    let neg = s.len() > 0 && s[0] == '-';
    let t = if neg {
        s.drop_first()
    } else {
        s
    };
    let nd = leading_digits(t);
    if nd == 0 {
        None
    } else {
        let secs = digits_val(t.take(nd));
        let rest = t.skip(nd);
        let signed_secs = if neg {
            -secs
        } else {
            secs
        };
        if secs > MAX_DURATION_SECONDS as int {
            None
        } else if rest.len() == 1 && rest[0] == 's' {
            Some(DurationV { seconds: signed_secs, nanos: 0 })
        } else if rest.len() >= 3 && rest[0] == '.' {
            let f = rest.drop_first();
            let nf = leading_digits(f);
            if 1 <= nf <= 9 && f.len() == nf + 1 && f[nf] == 's' {
                let n = digits_val(f.take(nf)) * pow10(9 - nf);
                Some(
                    DurationV {
                        seconds: signed_secs,
                        nanos: if neg {
                            -n
                        } else {
                            n
                        },
                    },
                )
            } else {
                None
            }
        } else {
            None
        }
    }
}

proof fn lemma_digits_val_nonneg(s: Seq<char>)
    requires
        forall|k: int| 0 <= k < s.len() ==> is_digit(s[k]),
    ensures
        digits_val(s) >= 0,
    decreases s.len(),
{
    if s.len() > 0 {
        lemma_digits_val_nonneg(s.drop_last());
    }
}

proof fn lemma_digits_val_bound(s: Seq<char>)
    requires
        forall|k: int| 0 <= k < s.len() ==> is_digit(s[k]),
    ensures
        digits_val(s) < pow10(s.len() as int),
    decreases s.len(),
{
    if s.len() > 0 {
        lemma_digits_val_bound(s.drop_last());
        lemma_digits_val_nonneg(s.drop_last());
    }
}

proof fn lemma_pow10_mul(a: int, b: int)
    requires
        a >= 0,
        b >= 0,
    ensures
        pow10(a) * pow10(b) == pow10(a + b),
    decreases a,
{
    if a > 0 {
        lemma_pow10_mul(a - 1, b);
        assert(pow10(a) * pow10(b) == 10 * (pow10(a - 1) * pow10(b))) by (nonlinear_arith)
            requires
                pow10(a) == 10 * pow10(a - 1),
        ;
    }
}

proof fn lemma_digits_val_take_step(s: Seq<char>, k: int)
    requires
        0 <= k < s.len(),
    ensures
        digits_val(s.take(k + 1)) == digits_val(s.take(k)) * 10 + digit_val(s[k]),
{
    assert(s.take(k + 1).drop_last() =~= s.take(k));
    assert(s.take(k + 1).last() == s[k]);
}

proof fn lemma_leading_digits_from_pointwise(s: Seq<char>, k: int)
    requires
        0 <= k <= s.len(),
        forall|j: int| 0 <= j < k ==> is_digit(s[j]),
        k == s.len() || !is_digit(s[k]),
    ensures
        leading_digits(s) == k,
    decreases k,
{
    if k == 0 {
    } else {
        lemma_leading_digits_from_pointwise(s.drop_first(), k - 1);
    }
}

/// Parses a run of digits of `s` starting at `from`, stopping at the first
/// non-digit. Returns the position after the run and the run's value, or
/// `None` for the value when it exceeds [`MAX_DURATION_SECONDS`].
fn scan_digits(s: &str, from: usize) -> (r: (usize, Option<u64>))
    requires
        from <= s@.len(),
    ensures
        r.0 - from == leading_digits(s@.skip(from as int)),
        from <= r.0 <= s@.len(),
        forall|j: int| 0 <= j < r.0 - from ==> is_digit(s@.skip(from as int)[j]),
        match r.1 {
            Some(v) => v == digits_val(s@.skip(from as int).take(r.0 - from)) && v
                <= MAX_DURATION_SECONDS,
            None => digits_val(s@.skip(from as int).take(r.0 - from)) > MAX_DURATION_SECONDS
                as int,
        },
{
    let len = s.unicode_len();
    let ghost t = s@.skip(from as int);
    let mut i: usize = from;
    let mut acc: u64 = 0;
    let mut over: bool = false;
    loop
        invariant
            from <= i <= len,
            len == s@.len(),
            t == s@.skip(from as int),
            t.len() == len - from,
            forall|k: int| 0 <= k < t.len() ==> t[k] == s@[from + k],
            forall|j: int| 0 <= j < i - from ==> is_digit(t[j]),
            !over ==> acc == digits_val(t.take(i - from)) && acc <= MAX_DURATION_SECONDS,
            over ==> digits_val(t.take(i - from)) > MAX_DURATION_SECONDS as int,
        ensures
            from <= i <= len,
            i == len || !is_digit(t[i - from]),
            forall|j: int| 0 <= j < i - from ==> is_digit(t[j]),
            !over ==> acc == digits_val(t.take(i - from)) && acc <= MAX_DURATION_SECONDS,
            over ==> digits_val(t.take(i - from)) > MAX_DURATION_SECONDS as int,
        decreases len - i,
    {
        if i == len {
            break;
        }
        let c = s.get_char(i) as u32;
        if !(48 <= c && c <= 57) {
            break;
        }
        let d: u64 = (c - 48) as u64;
        proof {
            lemma_digits_val_take_step(t, i - from);
        }
        if over {
        } else if acc > MAX_DURATION_SECONDS / 10 || acc * 10 > MAX_DURATION_SECONDS - d {
            over = true;
        } else {
            acc = acc * 10 + d;
        }
        i += 1;
    }
    proof {
        lemma_leading_digits_from_pointwise(t, i - from);
    }
    if over {
        (i, None)
    } else {
        (i, Some(acc))
    }
}

/// One for each power of ten a nanosecond fraction may be scaled by.
fn pow10_u64(e: usize) -> (r: u64)
    requires
        e <= 8,
    ensures
        r == pow10(e as int),
        r <= 100000000,
{
    proof {
        reveal_with_fuel(pow10, 11);
    }
    if e == 0 {
        1
    } else if e == 1 {
        10
    } else if e == 2 {
        100
    } else if e == 3 {
        1000
    } else if e == 4 {
        10000
    } else if e == 5 {
        100000
    } else if e == 6 {
        1000000
    } else if e == 7 {
        10000000
    } else {
        100000000
    }
}

proof fn lemma_pow10_pos(k: int)
    ensures
        pow10(k) >= 1,
    decreases k,
{
    if k > 0 {
        lemma_pow10_pos(k - 1);
    }
}

impl Duration {
    /// Parses the wire's duration text, such as `30s` or `-1.5s`.
    pub fn parse(s: &str) -> (r: Option<Duration>)
        ensures
            match r {
                Some(d) => duration_of(s@) == Some(d@),
                None => duration_of(s@) is None,
            },
    {
        let len = s.unicode_len();
        let neg = len > 0 && s.get_char(0) == '-';
        let off: usize = if neg {
            1
        } else {
            0
        };
        let ghost t = if neg {
            s@.drop_first()
        } else {
            s@
        };
        proof {
            assert(t =~= s@.skip(off as int));
        }
        let (after_secs, secs_opt) = scan_digits(s, off);
        if after_secs == off {
            return None;
        }
        let secs: u64 = match secs_opt {
            Some(v) => v,
            None => {
                return None;
            },
        };
        let ghost nd = after_secs - off;
        let ghost rest = t.skip(nd as int);
        proof {
            assert(rest =~= s@.skip(after_secs as int));
        }
        let signed_secs: i64 = if neg {
            -(secs as i64)
        } else {
            secs as i64
        };
        if after_secs < len && s.get_char(after_secs) == 's' {
            if after_secs + 1 == len {
                return Some(Duration { seconds: signed_secs, nanos: 0 });
            } else {
                return None;
            }
        }
        if after_secs < len && s.get_char(after_secs) == '.' {
            let frac_start = after_secs + 1;
            let ghost f = rest.drop_first();
            proof {
                assert(f =~= s@.skip(frac_start as int));
            }
            let (after_frac, frac_opt) = scan_digits(s, frac_start);
            let ghost nf = after_frac - frac_start;
            let frac_len = after_frac - frac_start;
            if frac_len < 1 || frac_len > 9 {
                return None;
            }
            proof {
                lemma_digits_val_bound(f.take(nf as int));
                lemma_digits_val_nonneg(f.take(nf as int));
                lemma_pow10_mul(nf as int, 9 - nf as int);
                lemma_pow10_pos(9 - nf as int);
                reveal_with_fuel(pow10, 11);
                assert(pow10(nf as int) <= pow10(9)) by (nonlinear_arith)
                    requires
                        pow10(nf as int) * pow10(9 - nf as int) == pow10(9),
                        pow10(9 - nf as int) >= 1,
                        pow10(nf as int) >= 1,
                ;
            }
            // At most nine digits stay far below the seconds bound, so the
            // scan cannot have overflowed here.
            let frac: u64 = match frac_opt {
                Some(v) => v,
                None => unreached(),
            };
            if !(after_frac < len && s.get_char(after_frac) == 's' && after_frac + 1 == len) {
                return None;
            }
            let mult: u64 = pow10_u64(9 - frac_len);
            proof {
                assert(frac * mult < pow10(9)) by (nonlinear_arith)
                    requires
                        frac < pow10(nf as int),
                        mult == pow10(9 - nf as int),
                        mult >= 1,
                        pow10(nf as int) * pow10(9 - nf as int) == pow10(9),
                ;
                assert(frac * mult >= 0) by (nonlinear_arith)
                    requires
                        frac >= 0,
                        mult >= 1,
                ;
                reveal_with_fuel(pow10, 11);
            }
            let nanos_mag: u64 = frac * mult;
            let nanos: i32 = if neg {
                -(nanos_mag as i32)
            } else {
                nanos_mag as i32
            };
            return Some(Duration { seconds: signed_secs, nanos });
        }
        None
    }
}

} // verus!
