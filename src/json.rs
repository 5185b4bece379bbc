//! The JSON identifier: one feature per scalar member of a top-level object.
use serde_json::Value as JsonValue;
use vstd::prelude::*;

use crate::feature::{views, Feature, FeatureView};
use crate::metadata::Source;
use crate::tokenize::{is_white, is_white_char};
use crate::value::{TypedValue, TypedValueView};

verus! {

#[verifier::external_type_specification]
#[verifier::external_body]
pub struct ExJsonValue(JsonValue);

/// What the identifier reads of one member value.
#[derive(Debug, PartialEq)]
pub enum JsonScalar {
    Null,
    Bool(bool),
    /// A number: its value where it is an `i64`, whether it is a float, and
    /// its value as a 64-bit float (bit pattern) where it has one.
    Number { as_i64: Option<i64>, is_float: bool, float_bits: Option<u64> },
    Str(String),
    /// An array or an object, which is not supported and is skipped.
    Nested,
}

/// One member of a top-level JSON object.
#[derive(Debug, PartialEq)]
pub struct JsonMember {
    pub key: String,
    /// The compact serialization of the value.
    pub text: String,
    pub value: JsonScalar,
}

/// The mathematical model of a `JsonScalar`.
pub enum JsonScalarView {
    Null,
    Bool(bool),
    Number { as_i64: Option<i64>, is_float: bool, float_bits: Option<u64> },
    Str(Seq<char>),
    Nested,
}

/// The mathematical model of a `JsonMember`.
pub struct JsonMemberView {
    pub key: Seq<char>,
    pub text: Seq<char>,
    pub value: JsonScalarView,
}

impl View for JsonScalar {
    type V = JsonScalarView;

    open spec fn view(&self) -> JsonScalarView {
        match self {
            JsonScalar::Null => JsonScalarView::Null,
            JsonScalar::Bool(b) => JsonScalarView::Bool(*b),
            JsonScalar::Number { as_i64, is_float, float_bits } => JsonScalarView::Number {
                as_i64: *as_i64,
                is_float: *is_float,
                float_bits: *float_bits,
            },
            JsonScalar::Str(s) => JsonScalarView::Str(s@),
            JsonScalar::Nested => JsonScalarView::Nested,
        }
    }
}

impl View for JsonMember {
    type V = JsonMemberView;

    open spec fn view(&self) -> JsonMemberView {
        JsonMemberView { key: self.key@, text: self.text@, value: self.value@ }
    }
}

/// The views of a sequence of members.
pub open spec fn member_views(ms: Seq<JsonMember>) -> Seq<JsonMemberView> {
    ms.map_values(|m: JsonMember| m@)
}

/// The members of the top-level object of `s`, in the order in which the
/// parsed object yields them (key order), when `s` is a JSON document whose
/// top level is an object; `None` otherwise.
pub uninterp spec fn json_members(s: Seq<char>) -> Option<Seq<JsonMemberView>>;

/// Relies on `serde_json::from_str` to parse `s` as a `serde_json::Value`, on
/// `serde_json::Map` handing out its members in key order, and, per member,
/// on `Value`'s `Display` (compact text), `Number::as_i64`, `Number::is_f64`
/// and `Number::as_f64` (taken as its bit pattern).
#[verifier::external_body]
fn read_members(s: &str) -> (r: Option<Vec<JsonMember>>)
    ensures
        r is Some <==> json_members(s@) is Some,
        r matches Some(v) ==> member_views(v@) == json_members(s@)->0,
{
    match serde_json::from_str(s) {
        Ok(JsonValue::Object(map)) => Some(map.into_iter().map(|(key, v)| JsonMember {
            key,
            text: v.to_string(),
            value: match v {
                JsonValue::Null => JsonScalar::Null,
                JsonValue::Bool(b) => JsonScalar::Bool(b),
                JsonValue::Number(n) => JsonScalar::Number { as_i64: n.as_i64(), is_float:
                    n.is_f64(), float_bits: n.as_f64().map(|x| x.to_bits()) },
                JsonValue::String(t) => JsonScalar::Str(t),
                JsonValue::Array(_) | JsonValue::Object(_) => JsonScalar::Nested,
            },
        }).collect()),
        _ => None,
    }
}

/// The feature for member `m` with cache `v`.
pub open spec fn json_feature(m: JsonMemberView, v: Option<TypedValueView>) -> FeatureView {
    FeatureView { key: m.key, raw_value: m.text, typed_value: v, source: Some(Source::Json) }
}

/// The feature that member `m` gives, if any, with its typed value: an
/// integer in `i64` range, else a float; nested values and numbers that are
/// neither (integers beyond `i64`) give none.
pub open spec fn member_feature(m: JsonMemberView) -> Option<FeatureView> {
    match m.value {
        JsonScalarView::Null => Some(json_feature(m, Some(TypedValueView::Null))),
        JsonScalarView::Bool(b) => Some(json_feature(m, Some(TypedValueView::Bool(b)))),
        JsonScalarView::Number { as_i64, is_float, float_bits } => match as_i64 {
            Some(i) => Some(json_feature(m, Some(TypedValueView::I64(i)))),
            None => match float_bits {
                Some(bits) => if is_float {
                    Some(json_feature(m, Some(TypedValueView::F64(bits))))
                } else {
                    None
                },
                None => None,
            },
        },
        JsonScalarView::Str(s) => Some(json_feature(m, Some(TypedValueView::Str(s)))),
        JsonScalarView::Nested => None,
    }
}

/// The features that members `ms` give, in order.
pub open spec fn json_features_spec(ms: Seq<JsonMemberView>) -> Seq<FeatureView>
    decreases ms.len(),
{
    if ms.len() == 0 {
        seq![]
    } else {
        let before = json_features_spec(ms.drop_last());
        match member_feature(ms.last()) {
            Some(f) => before.push(f),
            None => before,
        }
    }
}

/// The first character of `s` that is not whitespace is `{`.
pub open spec fn opens_object(s: Seq<char>) -> bool {
    exists|i: int|
        0 <= i < s.len() && s[i] == '{' && forall|j: int| 0 <= j < i ==> is_white(#[trigger] s[j])
}

/// Whether `input`, past leading whitespace, starts with `{`.
pub fn looks_like_object(input: &str) -> (r: bool)
    ensures
        r == opens_object(input@),
{
    let n = input.unicode_len();
    let mut i: usize = 0;
    while i < n
        invariant
            n == input@.len(),
            i <= n,
            forall|j: int| 0 <= j < i ==> is_white(#[trigger] input@[j]),
        decreases n - i,
    {
        let c = input.get_char(i);
        if c == '{' {
            return true;
        }
        if !is_white_char(c) {
            assert(!opens_object(input@)) by {
                if opens_object(input@) {
                    let k = choose|k: int|
                        0 <= k < input@.len() && input@[k] == '{' && forall|j: int|
                            0 <= j < k ==> is_white(#[trigger] input@[j]);
                    if k > i {
                        assert(is_white(input@[i as int]));
                    }
                }
            }
            return false;
        }
        i = i + 1;
    }
    false
}

/// Every feature that members give is tagged as coming from JSON and has its
/// typed value, and there are no more of them than members.
pub proof fn json_features_are_tagged(ms: Seq<JsonMemberView>)
    ensures
        json_features_spec(ms).len() <= ms.len(),
        forall|i: int|
            0 <= i < json_features_spec(ms).len() ==> (#[trigger] json_features_spec(ms)[i]).source
                == Some(Source::Json) && json_features_spec(ms)[i].typed_value is Some,
    decreases ms.len(),
{
    if ms.len() > 0 {
        json_features_are_tagged(ms.drop_last());
    }
}

/// The features of members `ms`: one per member that `member_feature`
/// keeps, in order, tagged `Source::Json`, with the member's text as raw value
/// and its typed value given up front.
pub fn json_features(ms: &Vec<JsonMember>) -> (r: Vec<Feature>)
    ensures
        views(r@) == json_features_spec(member_views(ms@)),
{
    let ghost mv = member_views(ms@);
    let mut out: Vec<Feature> = Vec::new();
    let mut i: usize = 0;
    while i < ms.len()
        invariant
            i <= ms@.len(),
            mv == member_views(ms@),
            views(out@) == json_features_spec(mv.subrange(0, i as int)),
        decreases ms@.len() - i,
    {
        let m = &ms[i];
        let ghost before = out@;
        assert(mv.subrange(0, i + 1).drop_last() =~= mv.subrange(0, i as int));
        assert(mv.subrange(0, i + 1).last() == m@);
        let typed = match &m.value {
            JsonScalar::Null => TypedValue::Null,
            JsonScalar::Bool(b) => TypedValue::Bool(*b),
            JsonScalar::Number { as_i64: Some(v), .. } => TypedValue::I64(*v),
            JsonScalar::Number { as_i64: None, is_float: true, float_bits: Some(bits) } => {
                TypedValue::F64(*bits)
            },
            JsonScalar::Number { .. } => {
                i = i + 1;
                continue ;
            },
            JsonScalar::Str(s) => TypedValue::Str(s.clone()),
            JsonScalar::Nested => {
                i = i + 1;
                continue ;
            },
        };
        let f = Feature::new_typed(m.key.as_str(), m.text.as_str(), typed);
        out.push(f.source(Source::Json));
        assert(views(out@) =~= views(before).push(out@.last()@));
        i = i + 1;
    }
    assert(mv.subrange(0, ms@.len() as int) =~= mv);
    out
}

/// Identifies features in text that holds a JSON object.
pub struct Json {}

impl Json {
    pub fn new() -> (r: Json) {
        Json {}
    }

    /// The features of the top-level object of `input`, or `None` (declines)
    /// where `input` does not start with `{` past leading whitespace, does
    /// not parse as JSON, or is not an object. An empty object gives
    /// `Some` of no features.
    pub fn identify(&self, input: &str) -> (r: Option<Vec<Feature>>)
        ensures
            r is Some <==> opens_object(input@) && json_members(input@) is Some,
            r matches Some(v) ==> views(v@) == json_features_spec(json_members(input@)->0),
            r matches Some(v) ==> forall|i: int|
                0 <= i < v@.len() ==> (#[trigger] v@[i])@.typed_value is Some,
    {
        if !looks_like_object(input) {
            return None;
        }
        match read_members(input) {
            Some(ms) => {
                let fs = json_features(&ms);
                proof {
                    json_features_are_tagged(member_views(ms@));
                    assert forall|i: int| 0 <= i < fs@.len() implies (
                    #[trigger] fs@[i])@.typed_value is Some by {
                        assert(views(fs@)[i] == fs@[i]@);
                    }
                }
                Some(fs)
            },
            None => None,
        }
    }
}

} // verus!
