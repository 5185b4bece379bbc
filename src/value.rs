//! Typed values and their inference from raw text.
use vstd::prelude::*;

verus! {

/// The inferred value of a feature.
///
/// A 64-bit float is held as its IEEE-754 bit pattern.
#[derive(Debug, Clone, PartialEq)]
pub enum TypedValue {
    Null,
    Str(String),
    Bool(bool),
    I64(i64),
    F64(u64),
}

/// The mathematical model of a `TypedValue`.
pub enum TypedValueView {
    Null,
    Str(Seq<char>),
    Bool(bool),
    I64(i64),
    F64(u64),
}

/// The tag of a `TypedValue`, without its payload.
#[derive(Debug, Clone, Copy, PartialEq, Eq, Structural)]
pub enum Type {
    Null,
    Str,
    Bool,
    I64,
    F64,
}

impl View for TypedValue {
    type V = TypedValueView;

    open spec fn view(&self) -> TypedValueView {
        match self {
            TypedValue::Null => TypedValueView::Null,
            TypedValue::Str(s) => TypedValueView::Str(s@),
            TypedValue::Bool(b) => TypedValueView::Bool(*b),
            TypedValue::I64(i) => TypedValueView::I64(*i),
            TypedValue::F64(f) => TypedValueView::F64(*f),
        }
    }
}

pub open spec fn kind_of(v: TypedValueView) -> Type {
    match v {
        TypedValueView::Null => Type::Null,
        TypedValueView::Str(_) => Type::Str,
        TypedValueView::Bool(_) => Type::Bool,
        TypedValueView::I64(_) => Type::I64,
        TypedValueView::F64(_) => Type::F64,
    }
}

/// The bit pattern is a NaN: all exponent bits set and a nonzero fraction.
pub open spec fn is_nan_bits(b: u64) -> bool {
    (b & 0x7ff0_0000_0000_0000u64) == 0x7ff0_0000_0000_0000u64 && (b & 0x000f_ffff_ffff_ffffu64)
        != 0
}

/// The bit pattern is positive or negative zero.
pub open spec fn is_zero_bits(b: u64) -> bool {
    (b & 0x7fff_ffff_ffff_ffffu64) == 0
}

/// IEEE-754 equality of two 64-bit floats given by their bit patterns:
/// NaN equals nothing, and the two zeros are equal.
pub open spec fn float_bits_eq(a: u64, b: u64) -> bool {
    (a == b && !is_nan_bits(a)) || (is_zero_bits(a) && is_zero_bits(b))
}

/// Payload equality: numeric for integers and floats, exact for text and
/// booleans, trivial for null; values of different tags are never equal.
pub open spec fn value_eq(a: TypedValueView, b: TypedValueView) -> bool {
    match (a, b) {
        (TypedValueView::Null, TypedValueView::Null) => true,
        (TypedValueView::Str(x), TypedValueView::Str(y)) => x == y,
        (TypedValueView::Bool(x), TypedValueView::Bool(y)) => x == y,
        (TypedValueView::I64(x), TypedValueView::I64(y)) => x == y,
        (TypedValueView::F64(x), TypedValueView::F64(y)) => float_bits_eq(x, y),
        _ => false,
    }
}

pub open spec fn is_digit(c: char) -> bool {
    '0' <= c && c <= '9'
}

/// The value of a run of decimal digits.
pub open spec fn digits_value(d: Seq<char>) -> int
    decreases d.len(),
{
    if d.len() == 0 {
        0
    } else {
        digits_value(d.drop_last()) * 10 + (d.last() as u32 - '0' as u32)
    }
}

/// The integer written by `s` in decimal: an optional `+` or `-` sign
/// followed by one or more ASCII digits, and nothing else.
pub open spec fn int_literal(s: Seq<char>) -> Option<int> {
    let signed = s.len() > 0 && (s[0] == '+' || s[0] == '-');
    let start: int = if signed {
        1
    } else {
        0
    };
    if start < s.len() && forall|i: int| start <= i < s.len() ==> is_digit(#[trigger] s[i]) {
        let v = digits_value(s.subrange(start, s.len() as int));
        if signed && s[0] == '-' {
            Some(-v)
        } else {
            Some(v)
        }
    } else {
        None
    }
}

/// What `s` reads as when parsed as a signed 64-bit integer.
pub open spec fn i64_literal(s: Seq<char>) -> Option<i64> {
    match int_literal(s) {
        Some(v) => if i64::MIN <= v <= i64::MAX {
            Some(v as i64)
        } else {
            None
        },
        None => None,
    }
}

/// Relies on `<i64 as FromStr>::from_str`: it accepts exactly an optional
/// sign followed by decimal digits whose value fits in an `i64`.
#[verifier::external_body]
fn parse_i64(s: &str) -> (r: Option<i64>)
    ensures
        r == i64_literal(s@),
{
    s.parse::<i64>().ok()
}

pub open spec fn is_null_word(s: Seq<char>) -> bool {
    s == seq!['n', 'u', 'l', 'l'] || s == seq!['n', 'i', 'l']
}

pub open spec fn is_false_word(s: Seq<char>) -> bool {
    s == seq!['F', 'a', 'l', 's', 'e'] || s == seq!['f', 'a', 'l', 's', 'e']
}

pub open spec fn is_true_word(s: Seq<char>) -> bool {
    s == seq!['T', 'r', 'u', 'e'] || s == seq!['t', 'r', 'u', 'e']
}

/// The value inferred from `raw`, where `as_float` is what `raw` reads as
/// when parsed as a 64-bit float (its bit pattern), if it reads as one.
///
/// Trials in order, the first that matches wins: a signed 64-bit integer,
/// a float, a null word, a boolean word, and otherwise the text itself.
pub open spec fn inferred(raw: Seq<char>, as_float: Option<u64>) -> TypedValueView {
    match i64_literal(raw) {
        Some(i) => TypedValueView::I64(i),
        None => match as_float {
            Some(bits) => TypedValueView::F64(bits),
            None => if is_null_word(raw) {
                TypedValueView::Null
            } else if is_false_word(raw) {
                TypedValueView::Bool(false)
            } else if is_true_word(raw) {
                TypedValueView::Bool(true)
            } else {
                TypedValueView::Str(raw)
            },
        },
    }
}

/// Whether two strings hold the same characters.
fn same_text(a: &str, b: &str) -> (r: bool)
    ensures
        r == (a@ == b@),
{
    let n = a.unicode_len();
    if n != b.unicode_len() {
        return false;
    }
    let mut i: usize = 0;
    while i < n
        invariant
            n == a@.len(),
            n == b@.len(),
            i <= n,
            forall|j: int| 0 <= j < i ==> a@[j] == b@[j],
        decreases n - i,
    {
        if a.get_char(i) != b.get_char(i) {
            return false;
        }
        i = i + 1;
    }
    assert(a@ =~= b@);
    true
}

/// Infers the typed value of `raw`.
///
/// `as_float` is the bit pattern of `raw` read as a 64-bit float, or `None`
/// where it does not read as one; it is consulted only when `raw` is not an
/// integer. No trimming takes place.
pub fn infer(raw: &str, as_float: Option<u64>) -> (r: TypedValue)
    ensures
        r@ == inferred(raw@, as_float),
{
    if let Some(i) = parse_i64(raw) {
        return TypedValue::I64(i);
    }
    if let Some(bits) = as_float {
        return TypedValue::F64(bits);
    }
    proof {
        reveal_strlit("null");
        reveal_strlit("nil");
        reveal_strlit("False");
        reveal_strlit("false");
        reveal_strlit("True");
        reveal_strlit("true");
        assert("null"@ =~= seq!['n', 'u', 'l', 'l']);
        assert("nil"@ =~= seq!['n', 'i', 'l']);
        assert("False"@ =~= seq!['F', 'a', 'l', 's', 'e']);
        assert("false"@ =~= seq!['f', 'a', 'l', 's', 'e']);
        assert("True"@ =~= seq!['T', 'r', 'u', 'e']);
        assert("true"@ =~= seq!['t', 'r', 'u', 'e']);
    }
    if same_text(raw, "null") || same_text(raw, "nil") {
        TypedValue::Null
    } else if same_text(raw, "False") || same_text(raw, "false") {
        TypedValue::Bool(false)
    } else if same_text(raw, "True") || same_text(raw, "true") {
        TypedValue::Bool(true)
    } else {
        TypedValue::Str(raw.to_string())
    }
}

/// Inference is a function of the text and its float reading alone: equal
/// inputs give equal values, whatever else has happened before.
pub proof fn infer_is_deterministic(a: Seq<char>, b: Seq<char>, fa: Option<u64>, fb: Option<u64>)
    requires
        a == b,
        fa == fb,
    ensures
        inferred(a, fa) == inferred(b, fb),
{
}

impl TypedValue {
    /// The tag of this value.
    pub fn kind(&self) -> (r: Type)
        ensures
            r == kind_of(self@),
    {
        match self {
            TypedValue::Null => Type::Null,
            TypedValue::Str(_) => Type::Str,
            TypedValue::Bool(_) => Type::Bool,
            TypedValue::I64(_) => Type::I64,
            TypedValue::F64(_) => Type::F64,
        }
    }

    /// A copy of this value.
    pub fn duplicate(&self) -> (r: TypedValue)
        ensures
            r@ == self@,
    {
        match self {
            TypedValue::Null => TypedValue::Null,
            TypedValue::Str(s) => TypedValue::Str(s.clone()),
            TypedValue::Bool(b) => TypedValue::Bool(*b),
            TypedValue::I64(i) => TypedValue::I64(*i),
            TypedValue::F64(f) => TypedValue::F64(*f),
        }
    }

    /// Payload equality, with floats compared as IEEE-754 numbers.
    pub fn same_value(&self, other: &TypedValue) -> (r: bool)
        ensures
            r == value_eq(self@, other@),
    {
        match (self, other) {
            (TypedValue::Null, TypedValue::Null) => true,
            (TypedValue::Str(x), TypedValue::Str(y)) => same_text(x.as_str(), y.as_str()),
            (TypedValue::Bool(x), TypedValue::Bool(y)) => *x == *y,
            (TypedValue::I64(x), TypedValue::I64(y)) => *x == *y,
            (TypedValue::F64(x), TypedValue::F64(y)) => {
                let x = *x;
                let y = *y;
                let x_nan = (x & 0x7ff0_0000_0000_0000u64) == 0x7ff0_0000_0000_0000u64 && (x
                    & 0x000f_ffff_ffff_ffffu64) != 0;
                let both_zero = (x & 0x7fff_ffff_ffff_ffffu64) == 0 && (y
                    & 0x7fff_ffff_ffff_ffffu64) == 0;
                (x == y && !x_nan) || both_zero
            },
            _ => false,
        }
    }
}

} // verus!
