//! Features: key/value observations with a lazily inferred typed value.
use vstd::prelude::*;

use crate::metadata::{Metadata, Source};
use crate::value::{infer, inferred, kind_of, value_eq, Type, TypedValue, TypedValueView};

verus! {

/// A key/value observation found in an input record, used for comparison.
///
/// The typed value is a write-once cache: it is inferred from the raw value
/// on first use, unless the feature was made with one.
#[derive(Debug)]
pub struct Feature {
    key: String,
    raw_value: String,
    typed_value: Option<TypedValue>,
    metadata: Metadata,
}

/// The mathematical model of a `Feature`.
pub struct FeatureView {
    /// Empty when the feature has no key.
    pub key: Seq<char>,
    pub raw_value: Seq<char>,
    /// The cached typed value, if it has been resolved.
    pub typed_value: Option<TypedValueView>,
    pub source: Option<Source>,
}

impl View for Feature {
    type V = FeatureView;

    closed spec fn view(&self) -> FeatureView {
        FeatureView {
            key: self.key@,
            raw_value: self.raw_value@,
            typed_value: match self.typed_value {
                Some(v) => Some(v@),
                None => None,
            },
            source: self.metadata@,
        }
    }
}

/// The views of a sequence of features.
pub open spec fn views(fs: Seq<Feature>) -> Seq<FeatureView> {
    fs.map_values(|f: Feature| f@)
}

/// The typed value of `f`: the cached one, else the one inferred from its raw
/// value with the float reading `as_float`.
pub open spec fn resolved(f: FeatureView, as_float: Option<u64>) -> TypedValueView {
    match f.typed_value {
        Some(v) => v,
        None => inferred(f.raw_value, as_float),
    }
}

/// `f` with its cache filled.
pub open spec fn filled(f: FeatureView, as_float: Option<u64>) -> FeatureView {
    FeatureView { typed_value: Some(resolved(f, as_float)), ..f }
}

/// The tiers of similarity between two features.
#[derive(Debug, Clone, Copy, PartialEq, Eq, Structural)]
pub enum Similarity {
    /// The keys differ.
    Unrelated,
    /// Same key, values of different types.
    TypeMismatch,
    /// Same key and type, different values.
    ValueMismatch,
    /// Same key, type and value.
    Equivalent,
}

pub open spec fn similarity_of(
    a_key: Seq<char>,
    a: TypedValueView,
    b_key: Seq<char>,
    b: TypedValueView,
) -> Similarity {
    if a_key != b_key {
        Similarity::Unrelated
    } else if kind_of(a) != kind_of(b) {
        Similarity::TypeMismatch
    } else if !value_eq(a, b) {
        Similarity::ValueMismatch
    } else {
        Similarity::Equivalent
    }
}

pub open spec fn tenths_of(s: Similarity) -> u8 {
    match s {
        Similarity::Unrelated => 0,
        Similarity::TypeMismatch => 3,
        Similarity::ValueMismatch => 7,
        Similarity::Equivalent => 10,
    }
}

impl Similarity {
    /// The score in tenths: 0, 3, 7 or 10 (the last meaning "equal").
    pub fn tenths(&self) -> (r: u8)
        ensures
            r == tenths_of(*self),
    {
        match self {
            Similarity::Unrelated => 0,
            Similarity::TypeMismatch => 3,
            Similarity::ValueMismatch => 7,
            Similarity::Equivalent => 10,
        }
    }
}

impl Feature {
    /// A feature whose typed value is left to be inferred on first use.
    pub fn new(key: &str, raw_value: &str) -> (r: Feature)
        ensures
            r@ == (FeatureView {
                key: key@,
                raw_value: raw_value@,
                typed_value: None,
                source: None,
            }),
    {
        Feature {
            key: key.to_owned(),
            raw_value: raw_value.to_owned(),
            typed_value: None,
            metadata: Metadata::default(),
        }
    }

    /// A feature whose typed value is already known, so no inference is made.
    pub fn new_typed(key: &str, raw_value: &str, typed_value: TypedValue) -> (r: Feature)
        ensures
            r@ == (FeatureView {
                key: key@,
                raw_value: raw_value@,
                typed_value: Some(typed_value@),
                source: None,
            }),
    {
        Feature {
            key: key.to_owned(),
            raw_value: raw_value.to_owned(),
            typed_value: Some(typed_value),
            metadata: Metadata::default(),
        }
    }

    /// The key of the feature (empty if it has none).
    pub fn key(&self) -> (r: &str)
        ensures
            r@ == self@.key,
    {
        self.key.as_str()
    }

    /// The raw text of the value.
    pub fn raw_value(&self) -> (r: &str)
        ensures
            r@ == self@.raw_value,
    {
        self.raw_value.as_str()
    }

    /// The provenance of the feature.
    pub fn metadata(&self) -> (r: &Metadata)
        ensures
            r@ == self@.source,
    {
        &self.metadata
    }

    /// Sets the source of the feature, returning it for chaining.
    pub fn source(self, source: Source) -> (r: Feature)
        ensures
            r@ == (FeatureView { source: Some(source), ..self@ }),
    {
        let mut f = self;
        f.metadata.source(source);
        f
    }

    /// The typed value, inferred and cached on first use.
    ///
    /// `as_float` is the raw value read as a 64-bit float (its bit pattern),
    /// or `None` where it does not read as one. It is consulted only when
    /// nothing is cached yet.
    pub fn typed_value(&mut self, as_float: Option<u64>) -> (r: TypedValue)
        ensures
            r@ == resolved(old(self)@, as_float),
            final(self)@ == filled(old(self)@, as_float),
    {
        match &self.typed_value {
            Some(v) => {
                return v.duplicate();
            },
            None => {},
        }
        let v = infer(self.raw_value.as_str(), as_float);
        let r = v.duplicate();
        self.typed_value = Some(v);
        r
    }

    /// The typed value without touching the cache: the cached value if there
    /// is one, else a freshly inferred one.
    pub fn typed_value_no_cache(&self, as_float: Option<u64>) -> (r: TypedValue)
        ensures
            r@ == resolved(self@, as_float),
    {
        match &self.typed_value {
            Some(v) => v.duplicate(),
            None => infer(self.raw_value.as_str(), as_float),
        }
    }

    /// The type of the typed value, which is resolved and cached.
    pub fn value_type(&mut self, as_float: Option<u64>) -> (r: Type)
        ensures
            r == kind_of(resolved(old(self)@, as_float)),
            final(self)@ == filled(old(self)@, as_float),
    {
        self.typed_value(as_float).kind()
    }

    /// How similar `self` and `other` are.
    ///
    /// Different keys give `Unrelated`, and neither feature is touched.
    /// Otherwise both typed values are resolved and cached, and different
    /// types give `TypeMismatch`, different values `ValueMismatch`, and
    /// equal ones `Equivalent`, whatever the raw texts. `as_float` and
    /// `other_as_float` are the float readings of the two raw values.
    pub fn similarity(
        &mut self,
        other: &mut Feature,
        as_float: Option<u64>,
        other_as_float: Option<u64>,
    ) -> (r: Similarity)
        ensures
            r == similarity_of(
                old(self)@.key,
                resolved(old(self)@, as_float),
                old(other)@.key,
                resolved(old(other)@, other_as_float),
            ),
            old(self)@.key != old(other)@.key ==> final(self)@ == old(self)@ && final(other)@
                == old(other)@,
            old(self)@.key == old(other)@.key ==> final(self)@ == filled(old(self)@, as_float)
                && final(other)@ == filled(old(other)@, other_as_float),
    {
        if self.key != other.key {
            return Similarity::Unrelated;
        }
        let a = self.typed_value(as_float);
        let b = other.typed_value(other_as_float);
        if a.kind() != b.kind() {
            return Similarity::TypeMismatch;
        }
        if !a.same_value(&b) {
            return Similarity::ValueMismatch;
        }
        Similarity::Equivalent
    }
}

impl Feature {
    /// How similar `self` and `other` are, by the same tiers as `similarity`,
    /// without filling either cache.
    pub fn similarity_no_cache(
        &self,
        other: &Feature,
        as_float: Option<u64>,
        other_as_float: Option<u64>,
    ) -> (r: Similarity)
        ensures
            r == similarity_of(
                self@.key,
                resolved(self@, as_float),
                other@.key,
                resolved(other@, other_as_float),
            ),
    {
        if self.key != other.key {
            return Similarity::Unrelated;
        }
        let a = self.typed_value_no_cache(as_float);
        let b = other.typed_value_no_cache(other_as_float);
        if a.kind() != b.kind() {
            return Similarity::TypeMismatch;
        }
        if !a.same_value(&b) {
            return Similarity::ValueMismatch;
        }
        Similarity::Equivalent
    }
}

/// The cache is write-once: once a feature's typed value is resolved, every
/// later resolution gives that same value, whatever float reading it is given.
pub proof fn resolution_is_stable(f: FeatureView, first: Option<u64>, later: Option<u64>)
    ensures
        resolved(filled(f, first), later) == resolved(f, first),
        filled(filled(f, first), later) == filled(f, first),
{
}

/// Two features with equal keys and equal types but unequal values score
/// exactly `ValueMismatch`, never `Equivalent` nor `TypeMismatch`.
pub proof fn unequal_payloads_score_value_mismatch(
    a: FeatureView,
    b: FeatureView,
    a_float: Option<u64>,
    b_float: Option<u64>,
)
    requires
        a.key == b.key,
        kind_of(resolved(a, a_float)) == kind_of(resolved(b, b_float)),
        !value_eq(resolved(a, a_float), resolved(b, b_float)),
    ensures
        similarity_of(a.key, resolved(a, a_float), b.key, resolved(b, b_float))
            == Similarity::ValueMismatch,
        tenths_of(
            similarity_of(a.key, resolved(a, a_float), b.key, resolved(b, b_float)),
        ) == 7,
{
}

} // verus!
