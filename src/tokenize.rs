//! The fallback identifier: one keyless feature per whitespace-separated token.
use vstd::prelude::*;

use crate::feature::{views, Feature, FeatureView};
use crate::metadata::Source;

verus! {

/// The characters with the Unicode `White_Space` property.
pub open spec fn is_white(c: char) -> bool {
    ('\u{9}' <= c && c <= '\u{d}') || c == ' ' || c == '\u{85}' || c == '\u{a0}' || c
        == '\u{1680}' || ('\u{2000}' <= c && c <= '\u{200a}') || c == '\u{2028}' || c
        == '\u{2029}' || c == '\u{202f}' || c == '\u{205f}' || c == '\u{3000}'
}

/// Whether `c` has the Unicode `White_Space` property.
pub fn is_white_char(c: char) -> (r: bool)
    ensures
        r == is_white(c),
{
    ('\u{9}' <= c && c <= '\u{d}') || c == ' ' || c == '\u{85}' || c == '\u{a0}' || c
        == '\u{1680}' || ('\u{2000}' <= c && c <= '\u{200a}') || c == '\u{2028}' || c
        == '\u{2029}' || c == '\u{202f}' || c == '\u{205f}' || c == '\u{3000}'
}

/// The maximal runs of non-whitespace characters of `s`, in order.
pub open spec fn whitespace_tokens(s: Seq<char>) -> Seq<Seq<char>>
    decreases s.len(),
{
    if s.len() == 0 {
        seq![]
    } else {
        let before = whitespace_tokens(s.drop_last());
        let c = s.last();
        if is_white(c) {
            before
        } else if s.len() >= 2 && !is_white(s[s.len() - 2]) {
            before.update(before.len() - 1, before.last().push(c))
        } else {
            before.push(seq![c])
        }
    }
}

/// Relies on `str::split_whitespace`: the substrings separated by runs of
/// `White_Space` characters, without empty ones, in order.
#[verifier::external_body]
fn split_tokens<'a>(s: &'a str) -> (r: Vec<&'a str>)
    ensures
        r@.map_values(|t: &str| t@) == whitespace_tokens(s@),
{
    s.split_whitespace().collect()
}

/// The feature made of one token.
pub open spec fn token_feature(t: Seq<char>) -> FeatureView {
    FeatureView {
        key: seq![],
        raw_value: t,
        typed_value: None,
        source: Some(Source::Tokenize),
    }
}

/// The features that tokenizing `s` gives.
pub open spec fn tokenized(s: Seq<char>) -> Seq<FeatureView> {
    whitespace_tokens(s).map_values(|t: Seq<char>| token_feature(t))
}

/// Turns each token into a keyless feature holding the whole token.
pub struct FeatureTransform {}

/// Hands each token back unchanged.
pub struct IdentityTransform {}

impl FeatureTransform {
    pub fn transform(&self, input: &str) -> (r: Feature)
        ensures
            r@ == token_feature(input@),
    {
        proof {
            reveal_strlit("");
            assert(""@ =~= Seq::<char>::empty());
        }
        Feature::new("", input).source(Source::Tokenize)
    }
}

impl IdentityTransform {
    pub fn transform<'a>(&self, input: &'a str) -> (r: &'a str)
        ensures
            r == input,
    {
        input
    }
}

/// Splits input on whitespace and hands each token to its transform.
pub struct Tokenize<T> {
    transformer: T,
}

impl Tokenize<FeatureTransform> {
    /// A tokenizer that yields features.
    pub fn new() -> (r: Self) {
        Tokenize { transformer: FeatureTransform {} }
    }

    /// One keyless feature per token of `input`. Never declines.
    pub fn tokenize(&self, input: &str) -> (r: Option<Vec<Feature>>)
        ensures
            r matches Some(v) && views(v@) == tokenized(input@),
    {
        let tokens = split_tokens(input);
        let ghost toks = whitespace_tokens(input@);
        assert(forall|i: int| 0 <= i < tokens@.len() ==> tokens@[i]@ == #[trigger] toks[i]) by {
            assert forall|i: int| 0 <= i < tokens@.len() implies tokens@[i]@ == #[trigger] toks[i] by {
                assert(tokens@.map_values(|t: &str| t@)[i] == tokens@[i]@);
            }
        }
        let mut outputs: Vec<Feature> = Vec::new();
        let mut i: usize = 0;
        while i < tokens.len()
            invariant
                i <= tokens@.len(),
                toks.len() == tokens@.len(),
                forall|j: int| 0 <= j < tokens@.len() ==> tokens@[j]@ == #[trigger] toks[j],
                outputs@.len() == i,
                forall|j: int|
                    0 <= j < i ==> (#[trigger] outputs@[j])@ == token_feature(toks[j]),
            decreases tokens@.len() - i,
        {
            outputs.push(self.transformer.transform(tokens[i]));
            i = i + 1;
        }
        assert(views(outputs@) =~= tokenized(input@));
        Some(outputs)
    }

    /// The features of `input`; tokenizing always applies.
    pub fn identify(&self, input: &str) -> (r: Option<Vec<Feature>>)
        ensures
            r matches Some(v) && views(v@) == tokenized(input@),
    {
        self.tokenize(input)
    }
}

impl Tokenize<IdentityTransform> {
    /// A tokenizer that yields the tokens themselves.
    pub fn identity() -> (r: Self) {
        Tokenize { transformer: IdentityTransform {} }
    }

    /// The whitespace-separated tokens of `input`, in order.
    pub fn tokenize<'a>(&self, input: &'a str) -> (r: Option<Vec<&'a str>>)
        ensures
            r matches Some(v) && v@.map_values(|t: &str| t@) == whitespace_tokens(input@),
    {
        let tokens = split_tokens(input);
        let mut outputs: Vec<&'a str> = Vec::new();
        let mut i: usize = 0;
        while i < tokens.len()
            invariant
                i <= tokens@.len(),
                outputs@.len() == i,
                forall|j: int| 0 <= j < i ==> #[trigger] outputs@[j] == tokens@[j],
            decreases tokens@.len() - i,
        {
            outputs.push(self.transformer.transform(tokens[i]));
            i = i + 1;
        }
        assert(outputs@ =~= tokens@);
        Some(outputs)
    }
}

} // verus!
