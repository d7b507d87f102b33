//! The error classifier.
//!
//! Given a non-success response, classification never fails: it degrades
//! to an [`HttpError`] with no details when the body is empty, not JSON,
//! or not an error envelope. When the body carries an envelope with a
//! `details` array, every element whose type tag names one of the known
//! detail kinds is decoded and kept in wire order; unknown or malformed
//! elements are skipped without failing the others.

use crate::error::{ErrorDetail, ErrorDetailV, HttpError};
use crate::json::{arr_view, field_of, json_of, lemma_arr_view, lemma_obj_view, obj_view, parse_json, Json, JsonVal};
use crate::rpc;
use crate::views::{lemma_pairs_view_push, lemma_seq_view, lemma_seq_view_push, pairs_view, seq_view};
use vstd::prelude::*;

verus! {

broadcast use vstd::std_specs::vec::group_vec_axioms, vstd::seq::group_seq_axioms;

/// The text of a string field: an absent or null field decodes to the
/// empty string; a non-string value is malformed.
pub open spec fn spec_str_field(j: JsonVal, name: Seq<char>) -> Option<Seq<char>> {
    match field_of(j, name) {
        None => Some(Seq::empty()),
        Some(JsonVal::Null) => Some(Seq::empty()),
        Some(JsonVal::Str(s)) => Some(s),
        Some(_) => None,
    }
}

/// The texts of an array of strings; `None` as soon as one element is not
/// a string.
pub open spec fn spec_strings(a: Seq<JsonVal>) -> Option<Seq<Seq<char>>>
    decreases a.len(),
{
    if a.len() == 0 {
        Some(Seq::empty())
    } else {
        match (spec_strings(a.drop_last()), a.last()) {
            (Some(init), JsonVal::Str(s)) => Some(init.push(s)),
            _ => None,
        }
    }
}

/// A field holding an array of strings: absent or null decodes to the
/// empty list.
pub open spec fn spec_strings_field(j: JsonVal, name: Seq<char>) -> Option<Seq<Seq<char>>> {
    match field_of(j, name) {
        None => Some(Seq::empty()),
        Some(JsonVal::Null) => Some(Seq::empty()),
        Some(JsonVal::Arr(a)) => spec_strings(a),
        Some(_) => None,
    }
}

/// The entries of an object whose values are all strings, in wire order;
/// `None` as soon as one value is not a string.
pub open spec fn spec_str_entries(fields: Seq<(Seq<char>, JsonVal)>) -> Option<
    Seq<(Seq<char>, Seq<char>)>,
>
    decreases fields.len(),
{
    if fields.len() == 0 {
        Some(Seq::empty())
    } else {
        match (spec_str_entries(fields.drop_last()), fields.last().1) {
            (Some(init), JsonVal::Str(s)) => Some(init.push((fields.last().0, s))),
            _ => None,
        }
    }
}

/// A field holding a string-to-string map: absent or null decodes to the
/// empty map.
pub open spec fn spec_map_field(j: JsonVal, name: Seq<char>) -> Option<
    Seq<(Seq<char>, Seq<char>)>,
> {
    match field_of(j, name) {
        None => Some(Seq::empty()),
        Some(JsonVal::Null) => Some(Seq::empty()),
        Some(JsonVal::Obj(fields)) => spec_str_entries(fields),
        Some(_) => None,
    }
}

/// A field holding a duration string: absent or null decodes to no
/// duration; a present field must parse.
pub open spec fn spec_duration_field(j: JsonVal, name: Seq<char>) -> Option<
    Option<rpc::DurationV>,
> {
    match field_of(j, name) {
        None => Some(None),
        Some(JsonVal::Null) => Some(None),
        Some(JsonVal::Str(s)) => match rpc::duration_of(s) {
            Some(d) => Some(Some(d)),
            None => None,
        },
        Some(_) => None,
    }
}

/// One quota violation element: an object with `subject` and
/// `description` string fields.
pub open spec fn spec_quota_violation(e: JsonVal) -> Option<rpc::quota_failure::ViolationV> {
    if e is Obj {
        match (spec_str_field(e, "subject"@), spec_str_field(e, "description"@)) {
            (Some(s), Some(d)) => Some(
                rpc::quota_failure::ViolationV { subject: s, description: d },
            ),
            _ => None,
        }
    } else {
        None
    }
}

/// All quota violation elements, in order; `None` as soon as one is
/// malformed.
pub open spec fn spec_quota_violations(a: Seq<JsonVal>) -> Option<
    Seq<rpc::quota_failure::ViolationV>,
>
    decreases a.len(),
{
    if a.len() == 0 {
        Some(Seq::empty())
    } else {
        match (spec_quota_violations(a.drop_last()), spec_quota_violation(a.last())) {
            (Some(init), Some(v)) => Some(init.push(v)),
            _ => None,
        }
    }
}

/// One precondition violation element: an object with `type`, `subject`
/// and `description` string fields.
pub open spec fn spec_precondition_violation(e: JsonVal) -> Option<
    rpc::precondition_failure::ViolationV,
> {
    if e is Obj {
        match (
            spec_str_field(e, "type"@),
            spec_str_field(e, "subject"@),
            spec_str_field(e, "description"@),
        ) {
            (Some(k), Some(s), Some(d)) => Some(
                rpc::precondition_failure::ViolationV { kind: k, subject: s, description: d },
            ),
            _ => None,
        }
    } else {
        None
    }
}

/// All precondition violation elements, in order.
pub open spec fn spec_precondition_violations(a: Seq<JsonVal>) -> Option<
    Seq<rpc::precondition_failure::ViolationV>,
>
    decreases a.len(),
{
    if a.len() == 0 {
        Some(Seq::empty())
    } else {
        match (
            spec_precondition_violations(a.drop_last()),
            spec_precondition_violation(a.last()),
        ) {
            (Some(init), Some(v)) => Some(init.push(v)),
            _ => None,
        }
    }
}

/// One field violation element: an object with `field` and `description`
/// string fields.
pub open spec fn spec_field_violation(e: JsonVal) -> Option<rpc::bad_request::FieldViolationV> {
    if e is Obj {
        match (spec_str_field(e, "field"@), spec_str_field(e, "description"@)) {
            (Some(f), Some(d)) => Some(rpc::bad_request::FieldViolationV { field: f, description: d }),
            _ => None,
        }
    } else {
        None
    }
}

/// All field violation elements, in order.
pub open spec fn spec_field_violations(a: Seq<JsonVal>) -> Option<
    Seq<rpc::bad_request::FieldViolationV>,
>
    decreases a.len(),
{
    if a.len() == 0 {
        Some(Seq::empty())
    } else {
        match (spec_field_violations(a.drop_last()), spec_field_violation(a.last())) {
            (Some(init), Some(v)) => Some(init.push(v)),
            _ => None,
        }
    }
}

/// One link element: an object with `description` and `url` string
/// fields.
pub open spec fn spec_link(e: JsonVal) -> Option<rpc::help::LinkV> {
    if e is Obj {
        match (spec_str_field(e, "description"@), spec_str_field(e, "url"@)) {
            (Some(d), Some(u)) => Some(rpc::help::LinkV { description: d, url: u }),
            _ => None,
        }
    } else {
        None
    }
}

/// All link elements, in order.
pub open spec fn spec_links(a: Seq<JsonVal>) -> Option<Seq<rpc::help::LinkV>>
    decreases a.len(),
{
    if a.len() == 0 {
        Some(Seq::empty())
    } else {
        match (spec_links(a.drop_last()), spec_link(a.last())) {
            (Some(init), Some(v)) => Some(init.push(v)),
            _ => None,
        }
    }
}

/// A field holding an array of quota violations: absent or null decodes
/// to the empty list. The other record kinds follow the same shape
/// below.
pub open spec fn spec_quota_violations_field(j: JsonVal, name: Seq<char>) -> Option<
    Seq<rpc::quota_failure::ViolationV>,
> {
    match field_of(j, name) {
        None => Some(Seq::empty()),
        Some(JsonVal::Null) => Some(Seq::empty()),
        Some(JsonVal::Arr(a)) => spec_quota_violations(a),
        Some(_) => None,
    }
}

/// See [`spec_quota_violations_field`].
pub open spec fn spec_precondition_violations_field(j: JsonVal, name: Seq<char>) -> Option<
    Seq<rpc::precondition_failure::ViolationV>,
> {
    match field_of(j, name) {
        None => Some(Seq::empty()),
        Some(JsonVal::Null) => Some(Seq::empty()),
        Some(JsonVal::Arr(a)) => spec_precondition_violations(a),
        Some(_) => None,
    }
}

/// See [`spec_quota_violations_field`].
pub open spec fn spec_field_violations_field(j: JsonVal, name: Seq<char>) -> Option<
    Seq<rpc::bad_request::FieldViolationV>,
> {
    match field_of(j, name) {
        None => Some(Seq::empty()),
        Some(JsonVal::Null) => Some(Seq::empty()),
        Some(JsonVal::Arr(a)) => spec_field_violations(a),
        Some(_) => None,
    }
}

/// See [`spec_quota_violations_field`].
pub open spec fn spec_links_field(j: JsonVal, name: Seq<char>) -> Option<Seq<rpc::help::LinkV>> {
    match field_of(j, name) {
        None => Some(Seq::empty()),
        Some(JsonVal::Null) => Some(Seq::empty()),
        Some(JsonVal::Arr(a)) => spec_links(a),
        Some(_) => None,
    }
}

/// What an `ErrorInfo` element decodes to.
pub open spec fn spec_error_info(e: JsonVal) -> Option<ErrorDetailV> {
    match (
        spec_str_field(e, "reason"@),
        spec_str_field(e, "domain"@),
        spec_map_field(e, "metadata"@),
    ) {
        (Some(r), Some(d), Some(m)) => Some(
            ErrorDetailV::ErrorInfo(rpc::ErrorInfoV { reason: r, domain: d, metadata: m }),
        ),
        _ => None,
    }
}

/// What a `RetryInfo` element decodes to.
pub open spec fn spec_retry_info(e: JsonVal) -> Option<ErrorDetailV> {
    match spec_duration_field(e, "retryDelay"@) {
        Some(d) => Some(ErrorDetailV::RetryInfo(rpc::RetryInfoV { retry_delay: d })),
        None => None,
    }
}

/// What a `DebugInfo` element decodes to.
pub open spec fn spec_debug_info(e: JsonVal) -> Option<ErrorDetailV> {
    match (spec_strings_field(e, "stackEntries"@), spec_str_field(e, "detail"@)) {
        (Some(se), Some(d)) => Some(
            ErrorDetailV::DebugInfo(rpc::DebugInfoV { stack_entries: se, detail: d }),
        ),
        _ => None,
    }
}

/// What a `QuotaFailure` element decodes to.
pub open spec fn spec_quota_failure(e: JsonVal) -> Option<ErrorDetailV> {
    match spec_quota_violations_field(e, "violations"@) {
        Some(v) => Some(ErrorDetailV::QuotaFailure(rpc::QuotaFailureV { violations: v })),
        None => None,
    }
}

/// What a `PreconditionFailure` element decodes to.
pub open spec fn spec_precondition_failure(e: JsonVal) -> Option<ErrorDetailV> {
    match spec_precondition_violations_field(e, "violations"@) {
        Some(v) => Some(
            ErrorDetailV::PreconditionFailure(rpc::PreconditionFailureV { violations: v }),
        ),
        None => None,
    }
}

/// What a `BadRequest` element decodes to.
pub open spec fn spec_bad_request(e: JsonVal) -> Option<ErrorDetailV> {
    match spec_field_violations_field(e, "fieldViolations"@) {
        Some(v) => Some(ErrorDetailV::BadRequest(rpc::BadRequestV { field_violations: v })),
        None => None,
    }
}

/// What a `RequestInfo` element decodes to.
pub open spec fn spec_request_info(e: JsonVal) -> Option<ErrorDetailV> {
    match (spec_str_field(e, "requestId"@), spec_str_field(e, "servingData"@)) {
        (Some(r), Some(s)) => Some(
            ErrorDetailV::RequestInfo(rpc::RequestInfoV { request_id: r, serving_data: s }),
        ),
        _ => None,
    }
}

/// What a `ResourceInfo` element decodes to.
pub open spec fn spec_resource_info(e: JsonVal) -> Option<ErrorDetailV> {
    match (
        spec_str_field(e, "resourceType"@),
        spec_str_field(e, "resourceName"@),
        spec_str_field(e, "owner"@),
        spec_str_field(e, "description"@),
    ) {
        (Some(t), Some(n), Some(o), Some(d)) => Some(
            ErrorDetailV::ResourceInfo(
                rpc::ResourceInfoV { resource_type: t, resource_name: n, owner: o, description: d },
            ),
        ),
        _ => None,
    }
}

/// What a `Help` element decodes to.
pub open spec fn spec_help(e: JsonVal) -> Option<ErrorDetailV> {
    match spec_links_field(e, "links"@) {
        Some(l) => Some(ErrorDetailV::Help(rpc::HelpV { links: l })),
        None => None,
    }
}

/// What a `LocalizedMessage` element decodes to.
pub open spec fn spec_localized_message(e: JsonVal) -> Option<ErrorDetailV> {
    match (spec_str_field(e, "locale"@), spec_str_field(e, "message"@)) {
        (Some(l), Some(m)) => Some(
            ErrorDetailV::LocalizedMessage(rpc::LocalizedMessageV { locale: l, message: m }),
        ),
        _ => None,
    }
}

/// What one element of a `details` array decodes to: `None` when the
/// element is not an object, carries no string type tag, carries an
/// unknown tag, or is malformed for its tag.
pub open spec fn spec_detail_of(e: JsonVal) -> Option<ErrorDetailV> {
    match field_of(e, "@type"@) {
        Some(JsonVal::Str(t)) => if t == "type.googleapis.com/google.rpc.ErrorInfo"@ {
            spec_error_info(e)
        } else if t == "type.googleapis.com/google.rpc.RetryInfo"@ {
            spec_retry_info(e)
        } else if t == "type.googleapis.com/google.rpc.DebugInfo"@ {
            spec_debug_info(e)
        } else if t == "type.googleapis.com/google.rpc.QuotaFailure"@ {
            spec_quota_failure(e)
        } else if t == "type.googleapis.com/google.rpc.PreconditionFailure"@ {
            spec_precondition_failure(e)
        } else if t == "type.googleapis.com/google.rpc.BadRequest"@ {
            spec_bad_request(e)
        } else if t == "type.googleapis.com/google.rpc.RequestInfo"@ {
            spec_request_info(e)
        } else if t == "type.googleapis.com/google.rpc.ResourceInfo"@ {
            spec_resource_info(e)
        } else if t == "type.googleapis.com/google.rpc.Help"@ {
            spec_help(e)
        } else if t == "type.googleapis.com/google.rpc.LocalizedMessage"@ {
            spec_localized_message(e)
        } else {
            None
        },
        _ => None,
    }
}

/// What a whole `details` array decodes to: the decodable elements, in
/// wire order; the rest are skipped.
pub open spec fn spec_details(a: Seq<JsonVal>) -> Seq<ErrorDetailV>
    decreases a.len(),
{
    if a.len() == 0 {
        Seq::empty()
    } else {
        match spec_detail_of(a.last()) {
            Some(d) => spec_details(a.drop_last()).push(d),
            None => spec_details(a.drop_last()),
        }
    }
}

/// What a parsed error body decodes to: the details of the envelope's
/// `details` array, or nothing when the document has no such array.
pub open spec fn spec_details_of_doc(doc: JsonVal) -> Seq<ErrorDetailV> {
    match field_of(doc, "error"@) {
        Some(env) => match field_of(env, "details"@) {
            Some(JsonVal::Arr(a)) => spec_details(a),
            _ => Seq::empty(),
        },
        _ => Seq::empty(),
    }
}

/// What raw body bytes decode to: nothing unless they are one JSON
/// document holding an error envelope with details.
pub open spec fn spec_details_of_body(bytes: Seq<u8>) -> Seq<ErrorDetailV> {
    match json_of(bytes) {
        Some(doc) => spec_details_of_doc(doc),
        None => Seq::empty(),
    }
}

/// Compares a string against a literal.
fn is_lit(s: &String, lit: &str) -> (r: bool)
    ensures
        r == (s@ == lit@),
{
    let o: String = lit.to_owned();
    *s == o
}

/// Reads a string field; absent or null reads as empty.
fn str_field(e: &Json, name: &str) -> (r: Option<String>)
    ensures
        match r {
            Some(s) => spec_str_field(e@, name@) == Some(s@),
            None => spec_str_field(e@, name@) is None,
        },
{
    match e.get(name) {
        None => Some(String::new()),
        Some(v) => match v {
            Json::Null => Some(String::new()),
            Json::Str(s) => Some(s.clone()),
            _ => None,
        },
    }
}

/// Reads a field holding an array of strings; absent or null reads as
/// empty.
fn strings_field(e: &Json, name: &str) -> (r: Option<Vec<String>>)
    ensures
        match r {
            Some(v) => spec_strings_field(e@, name@) == Some(seq_view(v@)),
            None => spec_strings_field(e@, name@) is None,
        },
{
    match e.get(name) {
        None => {
            let out: Vec<String> = Vec::new();
            proof {
                lemma_seq_view(out@);
                assert(seq_view(out@) =~= Seq::<Seq<char>>::empty());
            }
            return Some(out);
        },
        Some(v) => match v {
            Json::Null => {
                let out: Vec<String> = Vec::new();
                proof {
                    lemma_seq_view(out@);
                    assert(seq_view(out@) =~= Seq::<Seq<char>>::empty());
                }
                return Some(out);
            },
            Json::Arr(a) => {
                let ghost ga = arr_view(a@);
                proof {
                    lemma_arr_view(a@);
                }
                let mut out: Vec<String> = Vec::new();
                proof {
                    lemma_seq_view(out@);
                    assert(ga.take(0) =~= Seq::<JsonVal>::empty());
                    assert(seq_view(out@) =~= Seq::<Seq<char>>::empty());
                }
                let mut i: usize = 0;
                while i < a.len()
                    invariant
                        i <= a.len(),
                        ga == arr_view(a@),
                        ga.len() == a.len(),
                        forall|k: int| 0 <= k < a.len() ==> ga[k] == a[k]@,
                        field_of(e@, name@) == Some(JsonVal::Arr(ga)),
                        spec_strings(ga.take(i as int)) == Some(seq_view(out@)),
                    decreases a.len() - i,
                {
                    proof {
                        assert(ga.take(i + 1).drop_last() =~= ga.take(i as int));
                        assert(ga.take(i + 1).last() == ga[i as int]);
                    }
                    match &a[i] {
                        Json::Str(s) => {
                            let ghost old_out = out@;
                            out.push(s.clone());
                            proof {
                                lemma_seq_view_push(old_out, *s);
                                assert(out@ == old_out.push(*s));
                            }
                        },
                        _ => {
                            proof {
                                lemma_spec_strings_none(ga, i as int);
                            }
                            return None;
                        },
                    }
                    i += 1;
                }
                proof {
                    assert(ga.take(a.len() as int) =~= ga);
                }
                return Some(out);
            },
            _ => {
                return None;
            },
        },
    }
}

proof fn lemma_spec_strings_none(a: Seq<JsonVal>, i: int)
    requires
        0 <= i < a.len(),
        !(a[i] is Str),
    ensures
        spec_strings(a) is None,
    decreases a.len(),
{
    if i < a.len() - 1 {
        lemma_spec_strings_none(a.drop_last(), i);
    }
}

proof fn lemma_spec_str_entries_none(fields: Seq<(Seq<char>, JsonVal)>, i: int)
    requires
        0 <= i < fields.len(),
        !(fields[i].1 is Str),
    ensures
        spec_str_entries(fields) is None,
    decreases fields.len(),
{
    if i < fields.len() - 1 {
        lemma_spec_str_entries_none(fields.drop_last(), i);
    }
}

proof fn lemma_spec_quota_violations_none(a: Seq<JsonVal>, i: int)
    requires
        0 <= i < a.len(),
        spec_quota_violation(a[i]) is None,
    ensures
        spec_quota_violations(a) is None,
    decreases a.len(),
{
    if i < a.len() - 1 {
        lemma_spec_quota_violations_none(a.drop_last(), i);
    }
}

proof fn lemma_spec_precondition_violations_none(a: Seq<JsonVal>, i: int)
    requires
        0 <= i < a.len(),
        spec_precondition_violation(a[i]) is None,
    ensures
        spec_precondition_violations(a) is None,
    decreases a.len(),
{
    if i < a.len() - 1 {
        lemma_spec_precondition_violations_none(a.drop_last(), i);
    }
}

proof fn lemma_spec_field_violations_none(a: Seq<JsonVal>, i: int)
    requires
        0 <= i < a.len(),
        spec_field_violation(a[i]) is None,
    ensures
        spec_field_violations(a) is None,
    decreases a.len(),
{
    if i < a.len() - 1 {
        lemma_spec_field_violations_none(a.drop_last(), i);
    }
}

proof fn lemma_spec_links_none(a: Seq<JsonVal>, i: int)
    requires
        0 <= i < a.len(),
        spec_link(a[i]) is None,
    ensures
        spec_links(a) is None,
    decreases a.len(),
{
    if i < a.len() - 1 {
        lemma_spec_links_none(a.drop_last(), i);
    }
}

/// Reads a string-to-string map field; absent or null reads as empty.
fn map_field(e: &Json, name: &str) -> (r: Option<Vec<(String, String)>>)
    ensures
        match r {
            Some(v) => spec_map_field(e@, name@) == Some(pairs_view(v@)),
            None => spec_map_field(e@, name@) is None,
        },
{
    match e.get(name) {
        None => {
            let out: Vec<(String, String)> = Vec::new();
            proof {
                crate::views::lemma_pairs_view(out@);
                assert(pairs_view(out@) =~= Seq::<(Seq<char>, Seq<char>)>::empty());
            }
            Some(out)
        },
        Some(v) => match v {
            Json::Null => {
                let out: Vec<(String, String)> = Vec::new();
                proof {
                    crate::views::lemma_pairs_view(out@);
                    assert(pairs_view(out@) =~= Seq::<(Seq<char>, Seq<char>)>::empty());
                }
                Some(out)
            },
            Json::Obj(fields) => {
                let ghost gf = obj_view(fields@);
                proof {
                    lemma_obj_view(fields@);
                }
                let mut out: Vec<(String, String)> = Vec::new();
                proof {
                    crate::views::lemma_pairs_view(out@);
                    assert(gf.take(0) =~= Seq::<(Seq<char>, JsonVal)>::empty());
                    assert(pairs_view(out@) =~= Seq::<(Seq<char>, Seq<char>)>::empty());
                }
                let mut i: usize = 0;
                while i < fields.len()
                    invariant
                        i <= fields.len(),
                        gf == obj_view(fields@),
                        gf.len() == fields.len(),
                        forall|k: int|
                            0 <= k < fields.len() ==> gf[k] == (fields[k].0@, fields[k].1@),
                        field_of(e@, name@) == Some(JsonVal::Obj(gf)),
                        spec_str_entries(gf.take(i as int)) == Some(pairs_view(out@)),
                    decreases fields.len() - i,
                {
                    proof {
                        assert(gf.take(i + 1).drop_last() =~= gf.take(i as int));
                        assert(gf.take(i + 1).last() == gf[i as int]);
                    }
                    match &fields[i].1 {
                        Json::Str(s) => {
                            let ghost old_out = out@;
                            let pair = (fields[i].0.clone(), s.clone());
                            proof {
                                lemma_pairs_view_push(old_out, pair);
                            }
                            out.push(pair);
                        },
                        _ => {
                            proof {
                                lemma_spec_str_entries_none(gf, i as int);
                            }
                            return None;
                        },
                    }
                    i += 1;
                }
                proof {
                    assert(gf.take(fields.len() as int) =~= gf);
                }
                Some(out)
            },
            _ => None,
        },
    }
}

/// Reads a duration field; absent or null reads as no duration.
fn duration_field(e: &Json, name: &str) -> (r: Option<Option<rpc::Duration>>)
    ensures
        match r {
            Some(Some(d)) => spec_duration_field(e@, name@) == Some(Some(d@)),
            Some(None) => spec_duration_field(e@, name@) == Some(None::<rpc::DurationV>),
            None => spec_duration_field(e@, name@) is None,
        },
{
    match e.get(name) {
        None => Some(None),
        Some(v) => match v {
            Json::Null => Some(None),
            Json::Str(s) => match rpc::Duration::parse(s.as_str()) {
                Some(d) => Some(Some(d)),
                None => None,
            },
            _ => None,
        },
    }
}

/// Decodes one quota violation element.
fn decode_quota_violation(e: &Json) -> (r: Option<rpc::quota_failure::Violation>)
    ensures
        match r {
            Some(v) => spec_quota_violation(e@) == Some(v@),
            None => spec_quota_violation(e@) is None,
        },
{
    match e {
        Json::Obj(_) => {
            let subject = match str_field(e, "subject") {
                Some(s) => s,
                None => {
                    return None;
                },
            };
            let description = match str_field(e, "description") {
                Some(s) => s,
                None => {
                    return None;
                },
            };
            Some(rpc::quota_failure::Violation { subject, description })
        },
        _ => None,
    }
}

/// Decodes one precondition violation element.
fn decode_precondition_violation(e: &Json) -> (r: Option<rpc::precondition_failure::Violation>)
    ensures
        match r {
            Some(v) => spec_precondition_violation(e@) == Some(v@),
            None => spec_precondition_violation(e@) is None,
        },
{
    match e {
        Json::Obj(_) => {
            let kind = match str_field(e, "type") {
                Some(s) => s,
                None => {
                    return None;
                },
            };
            let subject = match str_field(e, "subject") {
                Some(s) => s,
                None => {
                    return None;
                },
            };
            let description = match str_field(e, "description") {
                Some(s) => s,
                None => {
                    return None;
                },
            };
            Some(rpc::precondition_failure::Violation { kind, subject, description })
        },
        _ => None,
    }
}

/// Decodes one field violation element.
fn decode_field_violation(e: &Json) -> (r: Option<rpc::bad_request::FieldViolation>)
    ensures
        match r {
            Some(v) => spec_field_violation(e@) == Some(v@),
            None => spec_field_violation(e@) is None,
        },
{
    match e {
        Json::Obj(_) => {
            let field = match str_field(e, "field") {
                Some(s) => s,
                None => {
                    return None;
                },
            };
            let description = match str_field(e, "description") {
                Some(s) => s,
                None => {
                    return None;
                },
            };
            Some(rpc::bad_request::FieldViolation { field, description })
        },
        _ => None,
    }
}

/// Decodes one link element.
fn decode_link(e: &Json) -> (r: Option<rpc::help::Link>)
    ensures
        match r {
            Some(v) => spec_link(e@) == Some(v@),
            None => spec_link(e@) is None,
        },
{
    match e {
        Json::Obj(_) => {
            let description = match str_field(e, "description") {
                Some(s) => s,
                None => {
                    return None;
                },
            };
            let url = match str_field(e, "url") {
                Some(s) => s,
                None => {
                    return None;
                },
            };
            Some(rpc::help::Link { description, url })
        },
        _ => None,
    }
}

/// Reads a field holding an array of quota violations; absent or null
/// reads as empty.
fn quota_violations_field(e: &Json, name: &str) -> (r: Option<Vec<rpc::quota_failure::Violation>>)
    ensures
        match r {
            Some(v) => spec_quota_violations_field(e@, name@) == Some(seq_view(v@)),
            None => spec_quota_violations_field(e@, name@) is None,
        },
{
    match e.get(name) {
        None => {
            let out: Vec<rpc::quota_failure::Violation> = Vec::new();
            proof {
                lemma_seq_view(out@);
                assert(seq_view(out@) =~= Seq::<rpc::quota_failure::ViolationV>::empty());
            }
            Some(out)
        },
        Some(v) => match v {
            Json::Null => {
                let out: Vec<rpc::quota_failure::Violation> = Vec::new();
                proof {
                    lemma_seq_view(out@);
                    assert(seq_view(out@) =~= Seq::<rpc::quota_failure::ViolationV>::empty());
                }
                Some(out)
            },
            Json::Arr(a) => {
                let ghost ga = arr_view(a@);
                proof {
                    lemma_arr_view(a@);
                }
                let mut out: Vec<rpc::quota_failure::Violation> = Vec::new();
                proof {
                    lemma_seq_view(out@);
                    assert(ga.take(0) =~= Seq::<JsonVal>::empty());
                    assert(seq_view(out@) =~= Seq::<rpc::quota_failure::ViolationV>::empty());
                }
                let mut i: usize = 0;
                while i < a.len()
                    invariant
                        i <= a.len(),
                        ga == arr_view(a@),
                        ga.len() == a.len(),
                        forall|k: int| 0 <= k < a.len() ==> ga[k] == a[k]@,
                        field_of(e@, name@) == Some(JsonVal::Arr(ga)),
                        spec_quota_violations(ga.take(i as int)) == Some(seq_view(out@)),
                    decreases a.len() - i,
                {
                    proof {
                        assert(ga.take(i + 1).drop_last() =~= ga.take(i as int));
                        assert(ga.take(i + 1).last() == ga[i as int]);
                    }
                    match decode_quota_violation(&a[i]) {
                        Some(viol) => {
                            let ghost old_out = out@;
                            proof {
                                lemma_seq_view_push(old_out, viol);
                            }
                            out.push(viol);
                        },
                        None => {
                            proof {
                                lemma_spec_quota_violations_none(ga, i as int);
                            }
                            return None;
                        },
                    }
                    i += 1;
                }
                proof {
                    assert(ga.take(a.len() as int) =~= ga);
                }
                Some(out)
            },
            _ => None,
        },
    }
}

/// Reads a field holding an array of precondition violations; absent or
/// null reads as empty.
fn precondition_violations_field(e: &Json, name: &str) -> (r: Option<
    Vec<rpc::precondition_failure::Violation>,
>)
    ensures
        match r {
            Some(v) => spec_precondition_violations_field(e@, name@) == Some(seq_view(v@)),
            None => spec_precondition_violations_field(e@, name@) is None,
        },
{
    match e.get(name) {
        None => {
            let out: Vec<rpc::precondition_failure::Violation> = Vec::new();
            proof {
                lemma_seq_view(out@);
                assert(seq_view(out@) =~= Seq::<rpc::precondition_failure::ViolationV>::empty());
            }
            Some(out)
        },
        Some(v) => match v {
            Json::Null => {
                let out: Vec<rpc::precondition_failure::Violation> = Vec::new();
                proof {
                    lemma_seq_view(out@);
                    assert(seq_view(out@)
                        =~= Seq::<rpc::precondition_failure::ViolationV>::empty());
                }
                Some(out)
            },
            Json::Arr(a) => {
                let ghost ga = arr_view(a@);
                proof {
                    lemma_arr_view(a@);
                }
                let mut out: Vec<rpc::precondition_failure::Violation> = Vec::new();
                proof {
                    lemma_seq_view(out@);
                    assert(ga.take(0) =~= Seq::<JsonVal>::empty());
                    assert(seq_view(out@)
                        =~= Seq::<rpc::precondition_failure::ViolationV>::empty());
                }
                let mut i: usize = 0;
                while i < a.len()
                    invariant
                        i <= a.len(),
                        ga == arr_view(a@),
                        ga.len() == a.len(),
                        forall|k: int| 0 <= k < a.len() ==> ga[k] == a[k]@,
                        field_of(e@, name@) == Some(JsonVal::Arr(ga)),
                        spec_precondition_violations(ga.take(i as int)) == Some(seq_view(out@)),
                    decreases a.len() - i,
                {
                    proof {
                        assert(ga.take(i + 1).drop_last() =~= ga.take(i as int));
                        assert(ga.take(i + 1).last() == ga[i as int]);
                    }
                    match decode_precondition_violation(&a[i]) {
                        Some(viol) => {
                            let ghost old_out = out@;
                            proof {
                                lemma_seq_view_push(old_out, viol);
                            }
                            out.push(viol);
                        },
                        None => {
                            proof {
                                lemma_spec_precondition_violations_none(ga, i as int);
                            }
                            return None;
                        },
                    }
                    i += 1;
                }
                proof {
                    assert(ga.take(a.len() as int) =~= ga);
                }
                Some(out)
            },
            _ => None,
        },
    }
}

/// Reads a field holding an array of field violations; absent or null
/// reads as empty.
fn field_violations_field(e: &Json, name: &str) -> (r: Option<Vec<rpc::bad_request::FieldViolation>>)
    ensures
        match r {
            Some(v) => spec_field_violations_field(e@, name@) == Some(seq_view(v@)),
            None => spec_field_violations_field(e@, name@) is None,
        },
{
    match e.get(name) {
        None => {
            let out: Vec<rpc::bad_request::FieldViolation> = Vec::new();
            proof {
                lemma_seq_view(out@);
                assert(seq_view(out@) =~= Seq::<rpc::bad_request::FieldViolationV>::empty());
            }
            Some(out)
        },
        Some(v) => match v {
            Json::Null => {
                let out: Vec<rpc::bad_request::FieldViolation> = Vec::new();
                proof {
                    lemma_seq_view(out@);
                    assert(seq_view(out@) =~= Seq::<rpc::bad_request::FieldViolationV>::empty());
                }
                Some(out)
            },
            Json::Arr(a) => {
                let ghost ga = arr_view(a@);
                proof {
                    lemma_arr_view(a@);
                }
                let mut out: Vec<rpc::bad_request::FieldViolation> = Vec::new();
                proof {
                    lemma_seq_view(out@);
                    assert(ga.take(0) =~= Seq::<JsonVal>::empty());
                    assert(seq_view(out@) =~= Seq::<rpc::bad_request::FieldViolationV>::empty());
                }
                let mut i: usize = 0;
                while i < a.len()
                    invariant
                        i <= a.len(),
                        ga == arr_view(a@),
                        ga.len() == a.len(),
                        forall|k: int| 0 <= k < a.len() ==> ga[k] == a[k]@,
                        field_of(e@, name@) == Some(JsonVal::Arr(ga)),
                        spec_field_violations(ga.take(i as int)) == Some(seq_view(out@)),
                    decreases a.len() - i,
                {
                    proof {
                        assert(ga.take(i + 1).drop_last() =~= ga.take(i as int));
                        assert(ga.take(i + 1).last() == ga[i as int]);
                    }
                    match decode_field_violation(&a[i]) {
                        Some(viol) => {
                            let ghost old_out = out@;
                            proof {
                                lemma_seq_view_push(old_out, viol);
                            }
                            out.push(viol);
                        },
                        None => {
                            proof {
                                lemma_spec_field_violations_none(ga, i as int);
                            }
                            return None;
                        },
                    }
                    i += 1;
                }
                proof {
                    assert(ga.take(a.len() as int) =~= ga);
                }
                Some(out)
            },
            _ => None,
        },
    }
}

/// Reads a field holding an array of links; absent or null reads as
/// empty.
fn links_field(e: &Json, name: &str) -> (r: Option<Vec<rpc::help::Link>>)
    ensures
        match r {
            Some(v) => spec_links_field(e@, name@) == Some(seq_view(v@)),
            None => spec_links_field(e@, name@) is None,
        },
{
    match e.get(name) {
        None => {
            let out: Vec<rpc::help::Link> = Vec::new();
            proof {
                lemma_seq_view(out@);
                assert(seq_view(out@) =~= Seq::<rpc::help::LinkV>::empty());
            }
            Some(out)
        },
        Some(v) => match v {
            Json::Null => {
                let out: Vec<rpc::help::Link> = Vec::new();
                proof {
                    lemma_seq_view(out@);
                    assert(seq_view(out@) =~= Seq::<rpc::help::LinkV>::empty());
                }
                Some(out)
            },
            Json::Arr(a) => {
                let ghost ga = arr_view(a@);
                proof {
                    lemma_arr_view(a@);
                }
                let mut out: Vec<rpc::help::Link> = Vec::new();
                proof {
                    lemma_seq_view(out@);
                    assert(ga.take(0) =~= Seq::<JsonVal>::empty());
                    assert(seq_view(out@) =~= Seq::<rpc::help::LinkV>::empty());
                }
                let mut i: usize = 0;
                while i < a.len()
                    invariant
                        i <= a.len(),
                        ga == arr_view(a@),
                        ga.len() == a.len(),
                        forall|k: int| 0 <= k < a.len() ==> ga[k] == a[k]@,
                        field_of(e@, name@) == Some(JsonVal::Arr(ga)),
                        spec_links(ga.take(i as int)) == Some(seq_view(out@)),
                    decreases a.len() - i,
                {
                    proof {
                        assert(ga.take(i + 1).drop_last() =~= ga.take(i as int));
                        assert(ga.take(i + 1).last() == ga[i as int]);
                    }
                    match decode_link(&a[i]) {
                        Some(link) => {
                            let ghost old_out = out@;
                            proof {
                                lemma_seq_view_push(old_out, link);
                            }
                            out.push(link);
                        },
                        None => {
                            proof {
                                lemma_spec_links_none(ga, i as int);
                            }
                            return None;
                        },
                    }
                    i += 1;
                }
                proof {
                    assert(ga.take(a.len() as int) =~= ga);
                }
                Some(out)
            },
            _ => None,
        },
    }
}

/// Decodes an `ErrorInfo` element.
fn decode_error_info(e: &Json) -> (r: Option<ErrorDetail>)
    ensures
        match r {
            Some(d) => spec_error_info(e@) == Some(d@),
            None => spec_error_info(e@) is None,
        },
{
    let reason = match str_field(e, "reason") {
        Some(s) => s,
        None => {
            return None;
        },
    };
    let domain = match str_field(e, "domain") {
        Some(s) => s,
        None => {
            return None;
        },
    };
    let metadata = match map_field(e, "metadata") {
        Some(m) => m,
        None => {
            return None;
        },
    };
    Some(ErrorDetail::ErrorInfo(rpc::ErrorInfo { reason, domain, metadata }))
}

/// Decodes a `RetryInfo` element.
fn decode_retry_info(e: &Json) -> (r: Option<ErrorDetail>)
    ensures
        match r {
            Some(d) => spec_retry_info(e@) == Some(d@),
            None => spec_retry_info(e@) is None,
        },
{
    let retry_delay = match duration_field(e, "retryDelay") {
        Some(d) => d,
        None => {
            return None;
        },
    };
    Some(ErrorDetail::RetryInfo(rpc::RetryInfo { retry_delay }))
}

/// Decodes a `DebugInfo` element.
fn decode_debug_info(e: &Json) -> (r: Option<ErrorDetail>)
    ensures
        match r {
            Some(d) => spec_debug_info(e@) == Some(d@),
            None => spec_debug_info(e@) is None,
        },
{
    let stack_entries = match strings_field(e, "stackEntries") {
        Some(s) => s,
        None => {
            return None;
        },
    };
    let detail = match str_field(e, "detail") {
        Some(s) => s,
        None => {
            return None;
        },
    };
    Some(ErrorDetail::DebugInfo(rpc::DebugInfo { stack_entries, detail }))
}

/// Decodes a `QuotaFailure` element.
fn decode_quota_failure(e: &Json) -> (r: Option<ErrorDetail>)
    ensures
        match r {
            Some(d) => spec_quota_failure(e@) == Some(d@),
            None => spec_quota_failure(e@) is None,
        },
{
    let violations = match quota_violations_field(e, "violations") {
        Some(v) => v,
        None => {
            return None;
        },
    };
    Some(ErrorDetail::QuotaFailure(rpc::QuotaFailure { violations }))
}

/// Decodes a `PreconditionFailure` element.
fn decode_precondition_failure(e: &Json) -> (r: Option<ErrorDetail>)
    ensures
        match r {
            Some(d) => spec_precondition_failure(e@) == Some(d@),
            None => spec_precondition_failure(e@) is None,
        },
{
    let violations = match precondition_violations_field(e, "violations") {
        Some(v) => v,
        None => {
            return None;
        },
    };
    Some(ErrorDetail::PreconditionFailure(rpc::PreconditionFailure { violations }))
}

/// Decodes a `BadRequest` element.
fn decode_bad_request(e: &Json) -> (r: Option<ErrorDetail>)
    ensures
        match r {
            Some(d) => spec_bad_request(e@) == Some(d@),
            None => spec_bad_request(e@) is None,
        },
{
    let field_violations = match field_violations_field(e, "fieldViolations") {
        Some(v) => v,
        None => {
            return None;
        },
    };
    Some(ErrorDetail::BadRequest(rpc::BadRequest { field_violations }))
}

/// Decodes a `RequestInfo` element.
fn decode_request_info(e: &Json) -> (r: Option<ErrorDetail>)
    ensures
        match r {
            Some(d) => spec_request_info(e@) == Some(d@),
            None => spec_request_info(e@) is None,
        },
{
    let request_id = match str_field(e, "requestId") {
        Some(s) => s,
        None => {
            return None;
        },
    };
    let serving_data = match str_field(e, "servingData") {
        Some(s) => s,
        None => {
            return None;
        },
    };
    Some(ErrorDetail::RequestInfo(rpc::RequestInfo { request_id, serving_data }))
}

/// Decodes a `ResourceInfo` element.
fn decode_resource_info(e: &Json) -> (r: Option<ErrorDetail>)
    ensures
        match r {
            Some(d) => spec_resource_info(e@) == Some(d@),
            None => spec_resource_info(e@) is None,
        },
{
    let resource_type = match str_field(e, "resourceType") {
        Some(s) => s,
        None => {
            return None;
        },
    };
    let resource_name = match str_field(e, "resourceName") {
        Some(s) => s,
        None => {
            return None;
        },
    };
    let owner = match str_field(e, "owner") {
        Some(s) => s,
        None => {
            return None;
        },
    };
    let description = match str_field(e, "description") {
        Some(s) => s,
        None => {
            return None;
        },
    };
    Some(ErrorDetail::ResourceInfo(rpc::ResourceInfo {
        resource_type,
        resource_name,
        owner,
        description,
    }))
}

/// Decodes a `Help` element.
fn decode_help(e: &Json) -> (r: Option<ErrorDetail>)
    ensures
        match r {
            Some(d) => spec_help(e@) == Some(d@),
            None => spec_help(e@) is None,
        },
{
    let links = match links_field(e, "links") {
        Some(l) => l,
        None => {
            return None;
        },
    };
    Some(ErrorDetail::Help(rpc::Help { links }))
}

/// Decodes a `LocalizedMessage` element.
fn decode_localized_message(e: &Json) -> (r: Option<ErrorDetail>)
    ensures
        match r {
            Some(d) => spec_localized_message(e@) == Some(d@),
            None => spec_localized_message(e@) is None,
        },
{
    let locale = match str_field(e, "locale") {
        Some(s) => s,
        None => {
            return None;
        },
    };
    let message = match str_field(e, "message") {
        Some(s) => s,
        None => {
            return None;
        },
    };
    Some(ErrorDetail::LocalizedMessage(rpc::LocalizedMessage { locale, message }))
}

/// Decodes one element of a `details` array; `None` skips it.
fn decode_detail(e: &Json) -> (r: Option<ErrorDetail>)
    ensures
        match r {
            Some(d) => spec_detail_of(e@) == Some(d@),
            None => spec_detail_of(e@) is None,
        },
{
    let tag = match e.get("@type") {
        Some(v) => match v {
            Json::Str(t) => t,
            _ => {
                return None;
            },
        },
        None => {
            return None;
        },
    };
    if is_lit(tag, "type.googleapis.com/google.rpc.ErrorInfo") {
        decode_error_info(e)
    } else if is_lit(tag, "type.googleapis.com/google.rpc.RetryInfo") {
        decode_retry_info(e)
    } else if is_lit(tag, "type.googleapis.com/google.rpc.DebugInfo") {
        decode_debug_info(e)
    } else if is_lit(tag, "type.googleapis.com/google.rpc.QuotaFailure") {
        decode_quota_failure(e)
    } else if is_lit(tag, "type.googleapis.com/google.rpc.PreconditionFailure") {
        decode_precondition_failure(e)
    } else if is_lit(tag, "type.googleapis.com/google.rpc.BadRequest") {
        decode_bad_request(e)
    } else if is_lit(tag, "type.googleapis.com/google.rpc.RequestInfo") {
        decode_request_info(e)
    } else if is_lit(tag, "type.googleapis.com/google.rpc.ResourceInfo") {
        decode_resource_info(e)
    } else if is_lit(tag, "type.googleapis.com/google.rpc.Help") {
        decode_help(e)
    } else if is_lit(tag, "type.googleapis.com/google.rpc.LocalizedMessage") {
        decode_localized_message(e)
    } else {
        None
    }
}

/// Decodes a whole `details` array, skipping unknown and malformed
/// elements and keeping wire order.
fn decode_details(a: &Vec<Json>) -> (r: Vec<ErrorDetail>)
    ensures
        seq_view(r@) == spec_details(arr_view(a@)),
{
    let ghost ga = arr_view(a@);
    proof {
        lemma_arr_view(a@);
    }
    let mut out: Vec<ErrorDetail> = Vec::new();
    proof {
        lemma_seq_view(out@);
        assert(ga.take(0) =~= Seq::<JsonVal>::empty());
        assert(seq_view(out@) =~= Seq::<ErrorDetailV>::empty());
    }
    let mut i: usize = 0;
    while i < a.len()
        invariant
            i <= a.len(),
            ga == arr_view(a@),
            ga.len() == a.len(),
            forall|k: int| 0 <= k < a.len() ==> ga[k] == a[k]@,
            seq_view(out@) == spec_details(ga.take(i as int)),
        decreases a.len() - i,
    {
        proof {
            assert(ga.take(i + 1).drop_last() =~= ga.take(i as int));
            assert(ga.take(i + 1).last() == ga[i as int]);
        }
        match decode_detail(&a[i]) {
            Some(d) => {
                let ghost old_out = out@;
                proof {
                    lemma_seq_view_push(old_out, d);
                }
                out.push(d);
            },
            None => {},
        }
        i += 1;
    }
    proof {
        assert(ga.take(a.len() as int) =~= ga);
    }
    out
}

/// Classifies a received non-success response. Never fails: status,
/// headers and body carry over exactly, and the details are whatever the
/// body's error envelope holds, or nothing when there is no such
/// envelope.
pub fn classify(status: u16, headers: Vec<(String, String)>, body: Vec<u8>) -> (h: HttpError)
    ensures
        h@.status == status,
        h@.headers == pairs_view(headers@),
        h@.body == Some(body@),
        h@.details == spec_details_of_body(body@),
{
    let details: Vec<ErrorDetail> = match parse_json(body.as_slice()) {
        None => {
            let out: Vec<ErrorDetail> = Vec::new();
            proof {
                lemma_seq_view(out@);
                assert(seq_view(out@) =~= Seq::<ErrorDetailV>::empty());
            }
            out
        },
        Some(doc) => {
            let empty_details: Vec<ErrorDetail> = Vec::new();
            proof {
                lemma_seq_view(empty_details@);
                assert(seq_view(empty_details@) =~= Seq::<ErrorDetailV>::empty());
            }
            match doc.get("error") {
                Some(env) => match env.get("details") {
                    Some(d) => match d {
                        Json::Arr(a) => {
                            proof {
                                lemma_arr_view(a@);
                            }
                            decode_details(a)
                        },
                        _ => empty_details,
                    },
                    None => empty_details,
                },
                None => empty_details,
            }
        },
    };
    HttpError { status, headers, body: Some(body), details }
}

/// Law: decoding a `details` array is order-preserving and
/// skip-on-unknown. The decoded collection is exactly the decodable
/// elements, each decoded, keeping their relative wire order; unknown and
/// malformed elements drop out without touching the others.
pub proof fn lemma_details_order_preserving(a: Seq<JsonVal>)
    ensures
        spec_details(a) == a.filter_map(|e: JsonVal| spec_detail_of(e)),
    decreases a.len(),
{
    let f = |e: JsonVal| spec_detail_of(e);
    if a.len() == 0 {
        assert(spec_details(a) =~= a.filter_map(f));
    } else {
        lemma_details_order_preserving(a.drop_last());
        match spec_detail_of(a.last()) {
            Some(d) => {
                assert(a.filter_map(f) == a.drop_last().filter_map(f) + seq![d]);
                assert(spec_details(a) =~= a.filter_map(f));
            },
            None => {
                assert(a.filter_map(f) == a.drop_last().filter_map(f));
            },
        }
    }
}

} // verus!
