//! A JSON document tree of plain values.
//!
//! Responses and error bodies arrive as raw bytes; `parse_json` turns them
//! into a `Json` tree through `serde_json`, and everything that reads the
//! tree afterwards is verified against the spec-level mirror `JsonVal`.
//! Numbers are kept as their decimal text: nothing in this crate computes
//! with them.

use vstd::prelude::*;

verus! {

broadcast use vstd::std_specs::vec::group_vec_axioms, vstd::seq::group_seq_axioms;

/// A parsed JSON value. Arrays keep document order. An object parsed
/// from bytes holds each key once, in the order the parser hands them
/// over (sorted by key); a hand-built object may hold any fields, and a
/// lookup takes the first binding of a name.
#[derive(Debug, PartialEq, Eq)]
pub enum Json {
    Null,
    Bool(bool),
    Num(String),
    Str(String),
    Arr(Vec<Json>),
    Obj(Vec<(String, Json)>),
}

/// The spec-level shape of a `Json` tree: strings become character
/// sequences, vectors become sequences.
pub enum JsonVal {
    Null,
    Bool(bool),
    Num(Seq<char>),
    Str(Seq<char>),
    Arr(Seq<JsonVal>),
    Obj(Seq<(Seq<char>, JsonVal)>),
}

impl View for Json {
    type V = JsonVal;

    open spec fn view(&self) -> JsonVal
        decreases self,
    {
        match self {
            Json::Null => JsonVal::Null,
            Json::Bool(b) => JsonVal::Bool(*b),
            Json::Num(s) => JsonVal::Num(s@),
            Json::Str(s) => JsonVal::Str(s@),
            Json::Arr(v) => JsonVal::Arr(arr_view(v@)),
            Json::Obj(v) => JsonVal::Obj(obj_view(v@)),
        }
    }
}

/// The element-wise view of a sequence of JSON values.
pub open spec fn arr_view(s: Seq<Json>) -> Seq<JsonVal>
    decreases s,
{
    if s.len() == 0 {
        Seq::empty()
    } else {
        arr_view(s.drop_last()).push(s.last()@)
    }
}

/// The field-wise view of a sequence of JSON object fields.
pub open spec fn obj_view(s: Seq<(String, Json)>) -> Seq<(Seq<char>, JsonVal)>
    decreases s,
{
    if s.len() == 0 {
        Seq::empty()
    } else {
        obj_view(s.drop_last()).push((s.last().0@, s.last().1@))
    }
}

/// `arr_view` keeps the length and views each element in place.
pub broadcast proof fn lemma_arr_view(s: Seq<Json>)
    ensures
        (#[trigger] arr_view(s)).len() == s.len(),
        forall|i: int| 0 <= i < s.len() ==> arr_view(s)[i] == s[i]@,
    decreases s.len(),
{
    if s.len() == 0 {
        assert(arr_view(s) == Seq::<JsonVal>::empty());
        assert(arr_view(s).len() == s.len());
    } else {
        lemma_arr_view(s.drop_last());
        assert(arr_view(s) == arr_view(s.drop_last()).push(s.last()@));
        assert(arr_view(s).len() == s.len());
    }
}

/// `obj_view` keeps the length and views each field in place.
pub broadcast proof fn lemma_obj_view(s: Seq<(String, Json)>)
    ensures
        (#[trigger] obj_view(s)).len() == s.len(),
        forall|i: int| 0 <= i < s.len() ==> obj_view(s)[i] == (s[i].0@, s[i].1@),
    decreases s.len(),
{
    if s.len() == 0 {
        assert(obj_view(s) == Seq::<(Seq<char>, JsonVal)>::empty());
        assert(obj_view(s).len() == s.len());
    } else {
        lemma_obj_view(s.drop_last());
        assert(obj_view(s) == obj_view(s.drop_last()).push((s.last().0@, s.last().1@)));
        assert(obj_view(s).len() == s.len());
    }
}

/// The first binding of `name` among `fields`, if any.
pub open spec fn obj_lookup(fields: Seq<(Seq<char>, JsonVal)>, name: Seq<char>) -> Option<JsonVal>
    decreases fields.len(),
{
    if fields.len() == 0 {
        None
    } else if fields[0].0 == name {
        Some(fields[0].1)
    } else {
        obj_lookup(fields.drop_first(), name)
    }
}

/// The field `name` of `j`, when `j` is an object that has it.
pub open spec fn field_of(j: JsonVal, name: Seq<char>) -> Option<JsonVal> {
    match j {
        JsonVal::Obj(fields) => obj_lookup(fields, name),
        _ => None,
    }
}

proof fn lemma_obj_lookup_skip_unmatched(
    fields: Seq<(Seq<char>, JsonVal)>,
    name: Seq<char>,
    i: int,
)
    requires
        0 <= i <= fields.len(),
        forall|k: int| 0 <= k < i ==> fields[k].0 != name,
    ensures
        obj_lookup(fields, name) == obj_lookup(fields.skip(i), name),
    decreases i,
{
    if i == 0 {
        assert(fields.skip(0) =~= fields);
    } else {
        lemma_obj_lookup_skip_unmatched(fields.drop_first(), name, i - 1);
        assert(fields.drop_first().skip(i - 1) =~= fields.skip(i));
    }
}

impl Json {
    /// A borrow of the first field named `name`, when `self` is an object
    /// that has one.
    pub fn get<'a>(&'a self, name: &str) -> (r: Option<&'a Json>)
        ensures
            match r {
                Some(v) => field_of(self@, name@) == Some(v@),
                None => field_of(self@, name@) is None,
            },
    {
        match self {
            Json::Obj(fields) => {
                let key: String = name.to_owned();
                let ghost gfields = obj_view(fields@);
                proof {
                    lemma_obj_view(fields@);
                    assert(self@ == JsonVal::Obj(gfields));
                }
                let mut i: usize = 0;
                while i < fields.len()
                    invariant
                        i <= fields.len(),
                        key@ == name@,
                        self@ == JsonVal::Obj(gfields),
                        gfields.len() == fields.len(),
                        forall|k: int|
                            0 <= k < fields.len() ==> gfields[k] == (fields[k].0@, fields[k].1@),
                        forall|k: int| 0 <= k < i ==> gfields[k].0 != name@,
                    decreases fields.len() - i,
                {
                    if fields[i].0 == key {
                        proof {
                            lemma_obj_lookup_skip_unmatched(gfields, name@, i as int);
                            assert(gfields.skip(i as int)[0] == gfields[i as int]);
                        }
                        return Some(&fields[i].1);
                    }
                    i += 1;
                }
                proof {
                    lemma_obj_lookup_skip_unmatched(gfields, name@, i as int);
                    assert(gfields.skip(i as int).len() == 0);
                }
                None
            },
            _ => None,
        }
    }
}

/// What `serde_json` parses a byte string into: `None` when the bytes are
/// not one valid JSON document, otherwise the document's tree.
pub uninterp spec fn json_of(bytes: Seq<u8>) -> Option<JsonVal>;

/// The compact text that `serde_json` prints a tree as.
pub uninterp spec fn json_text_of(j: JsonVal) -> Seq<char>;

/// Declares serde_json::Value, the parser's own tree type, which the two
/// functions below convert from and to.
#[verifier::external_type_specification]
#[verifier::external_body]
pub struct ExValue(serde_json::Value);

/// Relies on serde_json::Value: each variant moves, field for field, into the
/// like-named `Json` constructor; a number keeps its decimal text.
#[verifier::external_body]
fn json_from_value(v: serde_json::Value) -> Json {
    match v {
        serde_json::Value::Null => Json::Null,
        serde_json::Value::Bool(b) => Json::Bool(b),
        serde_json::Value::Number(n) => Json::Num(n.to_string()),
        serde_json::Value::String(s) => Json::Str(s),
        serde_json::Value::Array(a) => Json::Arr(a.into_iter().map(json_from_value).collect()),
        serde_json::Value::Object(o) => Json::Obj(
            o.into_iter().map(|(k, x)| (k, json_from_value(x))).collect(),
        ),
    }
}

/// Relies on serde_json::from_slice: parsing is a function of the bytes
/// alone, and an empty input is not a JSON document.
#[verifier::external_body]
pub(crate) fn parse_json(bytes: &[u8]) -> (r: Option<Json>)
    ensures
        match r {
            Some(j) => json_of(bytes@) == Some(j@),
            None => json_of(bytes@) is None,
        },
        bytes@.len() == 0 ==> r is None,
{
    match serde_json::from_slice::<serde_json::Value>(bytes) {
        Ok(v) => Some(json_from_value(v)),
        Err(_) => None,
    }
}

/// Relies on serde_json::Value: rebuilt from the like-named `Json`
/// constructor, field for field; a number whose text does not parse back
/// becomes null, so the value is still a function of the tree.
#[verifier::external_body]
fn value_of_json(j: &Json) -> serde_json::Value {
    match j {
        Json::Null => serde_json::Value::Null,
        Json::Bool(b) => serde_json::Value::Bool(*b),
        Json::Num(s) => match s.parse::<serde_json::Number>() {
            Ok(n) => serde_json::Value::Number(n),
            Err(_) => serde_json::Value::Null,
        },
        Json::Str(s) => serde_json::Value::String(s.clone()),
        Json::Arr(a) => serde_json::Value::Array(a.iter().map(value_of_json).collect()),
        Json::Obj(o) => serde_json::Value::Object(
            o.iter().map(|(k, x)| (k.clone(), value_of_json(x))).collect(),
        ),
    }
}

/// Relies on serde_json::to_string: the compact text of a value is a
/// function of the value alone, and serializing a value tree cannot
/// fail — the only error sources, non-string map keys and failing
/// `Serialize` impls, cannot occur in a `Value`.
#[verifier::external_body]
pub(crate) fn to_json_text(j: &Json) -> (r: Result<String, String>)
    ensures
        r is Ok,
        r matches Ok(s) ==> s@ == json_text_of(j@),
{
    match serde_json::to_string(&value_of_json(j)) {
        Ok(s) => Ok(s),
        Err(e) => Err(e.to_string()),
    }
}

} // verus!
