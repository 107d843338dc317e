//! Tagged values exchanged with the automation object, and the coercion
//! rules that turn them back into host-native types.
//!
//! The provider's call convention is dynamically typed: every argument and
//! every result travels as a tagged union.  [`TypedValue`] is the host-side
//! form of that union.  Its mathematical model is [`ValueModel`], where text
//! is a sequence of characters and a double travels as its raw bit pattern
//! (the binding never computes on doubles, it only passes them through).
//!
//! Coercion is total over the model: each rule either produces a host value
//! or fails, and the functions here say exactly which.  Numeric coercions
//! follow the provider's conventions: booleans convert to `-1`/`0`, the
//! empty value converts to zero, and narrowing only succeeds when the value
//! is representable.

use vstd::prelude::*;

use crate::decimal::decimal_of;
use crate::decimal::i64_to_text;
use crate::error::AjError;

verus! {

/// The dynamic tags a value can carry.
#[derive(Clone, Copy, Debug, PartialEq, Eq, Structural)]
pub enum Tag {
    /// 32-bit signed integer.
    Int32,
    /// 64-bit signed integer.
    Int64,
    /// Double-precision float, carried as its raw bit pattern.
    Float64,
    /// Boolean.
    Bool,
    /// Text.
    Text,
    /// The explicit "no value" tag; also what an absent argument looks like.
    Empty,
    /// A location the callee writes an output value into.
    ByRef,
}

/// The mathematical model of a [`TypedValue`].
pub enum ValueModel {
    /// 32-bit signed integer.
    Int32(i32),
    /// 64-bit signed integer.
    Int64(i64),
    /// Raw bit pattern of a double-precision float.
    Float64Bits(u64),
    /// Boolean.
    Bool(bool),
    /// Text, as a sequence of characters.
    Text(Seq<char>),
    /// The explicit "no value" tag.
    Empty,
    /// A by-reference slot around the given value.
    ByRef(Box<ValueModel>),
}

/// A value of the provider's dynamically typed call convention.
///
/// A by-reference value is a location for the callee to write into; the
/// marshaller only ever builds one around a freshly zeroed (empty) slot, so
/// a well-formed by-reference value never itself carries data.
#[derive(Debug)]
pub enum TypedValue {
    /// 32-bit signed integer.
    Int32(i32),
    /// 64-bit signed integer.
    Int64(i64),
    /// Raw bit pattern of a double-precision float.
    Float64Bits(u64),
    /// Boolean.
    Bool(bool),
    /// Text.
    Text(String),
    /// The explicit "no value" tag.
    Empty,
    /// A by-reference slot around the given value.
    ByRef(Box<TypedValue>),
}

/// The model of a value: text by its character sequence, the rest verbatim.
pub open spec fn value_model(v: TypedValue) -> ValueModel
    decreases v,
{
    match v {
        TypedValue::Int32(n) => ValueModel::Int32(n),
        TypedValue::Int64(n) => ValueModel::Int64(n),
        TypedValue::Float64Bits(b) => ValueModel::Float64Bits(b),
        TypedValue::Bool(b) => ValueModel::Bool(b),
        TypedValue::Text(s) => ValueModel::Text(s@),
        TypedValue::Empty => ValueModel::Empty,
        TypedValue::ByRef(inner) => ValueModel::ByRef(Box::new(value_model(*inner))),
    }
}

impl View for TypedValue {
    type V = ValueModel;

    open spec fn view(&self) -> ValueModel {
        value_model(*self)
    }
}

/// The tag of a model value.
pub open spec fn tag_of(v: ValueModel) -> Tag {
    match v {
        ValueModel::Int32(_) => Tag::Int32,
        ValueModel::Int64(_) => Tag::Int64,
        ValueModel::Float64Bits(_) => Tag::Float64,
        ValueModel::Bool(_) => Tag::Bool,
        ValueModel::Text(_) => Tag::Text,
        ValueModel::Empty => Tag::Empty,
        ValueModel::ByRef(_) => Tag::ByRef,
    }
}

/// A by-reference value is well formed when it wraps no data: it is a
/// location, not a value.  Every other value is well formed as it stands.
pub open spec fn wf_value(v: ValueModel) -> bool {
    match v {
        ValueModel::ByRef(inner) => *inner == ValueModel::Empty,
        _ => true,
    }
}

/// The model of a text argument: empty text marshals to the explicit empty
/// value, so that an empty string and an absent argument are
/// indistinguishable to the remote object.
pub open spec fn text_value(t: Seq<char>) -> ValueModel {
    if t.len() == 0 {
        ValueModel::Empty
    } else {
        ValueModel::Text(t)
    }
}

/// What coercion to a 32-bit integer yields, if anything.
pub open spec fn coerce_i32_model(v: ValueModel) -> Option<i32> {
    match v {
        ValueModel::Int32(n) => Some(n),
        ValueModel::Int64(n) => if i32::MIN <= n <= i32::MAX {
            Some(n as i32)
        } else {
            None
        },
        ValueModel::Bool(b) => Some(if b { -1i32 } else { 0i32 }),
        ValueModel::Empty => Some(0),
        _ => None,
    }
}

/// What coercion to a 64-bit integer yields, if anything.
pub open spec fn coerce_i64_model(v: ValueModel) -> Option<i64> {
    match v {
        ValueModel::Int32(n) => Some(n as i64),
        ValueModel::Int64(n) => Some(n),
        ValueModel::Bool(b) => Some(if b { -1i64 } else { 0i64 }),
        ValueModel::Empty => Some(0),
        _ => None,
    }
}

/// What coercion to a boolean yields, if anything.
pub open spec fn coerce_bool_model(v: ValueModel) -> Option<bool> {
    match v {
        ValueModel::Int32(n) => Some(n != 0),
        ValueModel::Int64(n) => Some(n != 0),
        ValueModel::Bool(b) => Some(b),
        ValueModel::Empty => Some(false),
        _ => None,
    }
}

/// What coercion to text yields, if anything.  Integers render in decimal;
/// the empty value renders as empty text.
pub open spec fn coerce_text_model(v: ValueModel) -> Option<Seq<char>> {
    match v {
        ValueModel::Int32(n) => Some(decimal_of(n as int)),
        ValueModel::Int64(n) => Some(decimal_of(n as int)),
        ValueModel::Text(t) => Some(t),
        ValueModel::Empty => Some(Seq::<char>::empty()),
        _ => None,
    }
}

impl TypedValue {
    /// A 32-bit integer value.
    pub fn from_i32(n: i32) -> (v: TypedValue)
        ensures
            v@ == ValueModel::Int32(n),
    {
        TypedValue::Int32(n)
    }

    /// A 64-bit integer value.
    pub fn from_i64(n: i64) -> (v: TypedValue)
        ensures
            v@ == ValueModel::Int64(n),
    {
        TypedValue::Int64(n)
    }

    /// A boolean value.
    pub fn from_bool(b: bool) -> (v: TypedValue)
        ensures
            v@ == ValueModel::Bool(b),
    {
        TypedValue::Bool(b)
    }

    /// A double, given by its raw bit pattern.
    pub fn from_f64_bits(bits: u64) -> (v: TypedValue)
        ensures
            v@ == ValueModel::Float64Bits(bits),
    {
        TypedValue::Float64Bits(bits)
    }

    /// A text value; empty text becomes the explicit empty value.
    pub fn from_text(s: &str) -> (v: TypedValue)
        ensures
            v@ == text_value(s@),
    {
        if s.is_empty() {
            TypedValue::Empty
        } else {
            TypedValue::Text(s.to_owned())
        }
    }

    /// Coerce to a 32-bit integer, following [`coerce_i32_model`].
    pub fn to_i32(&self) -> (r: Result<i32, AjError>)
        ensures
            match coerce_i32_model(self@) {
                Some(n) => r == Ok::<i32, AjError>(n),
                None => r == Err::<i32, AjError>(AjError::CoercionError),
            },
    {
        match self {
            TypedValue::Int32(n) => Ok(*n),
            TypedValue::Int64(n) => {
                if i32::MIN as i64 <= *n && *n <= i32::MAX as i64 {
                    Ok(*n as i32)
                } else {
                    Err(AjError::CoercionError)
                }
            },
            TypedValue::Bool(b) => Ok(if *b { -1 } else { 0 }),
            TypedValue::Empty => Ok(0),
            _ => Err(AjError::CoercionError),
        }
    }

    /// Coerce to a 64-bit integer, following [`coerce_i64_model`].
    pub fn to_i64(&self) -> (r: Result<i64, AjError>)
        ensures
            match coerce_i64_model(self@) {
                Some(n) => r == Ok::<i64, AjError>(n),
                None => r == Err::<i64, AjError>(AjError::CoercionError),
            },
    {
        match self {
            TypedValue::Int32(n) => Ok(*n as i64),
            TypedValue::Int64(n) => Ok(*n),
            TypedValue::Bool(b) => Ok(if *b { -1 } else { 0 }),
            TypedValue::Empty => Ok(0),
            _ => Err(AjError::CoercionError),
        }
    }

    /// Coerce to a boolean, following [`coerce_bool_model`].
    pub fn to_bool(&self) -> (r: Result<bool, AjError>)
        ensures
            match coerce_bool_model(self@) {
                Some(b) => r == Ok::<bool, AjError>(b),
                None => r == Err::<bool, AjError>(AjError::CoercionError),
            },
    {
        match self {
            TypedValue::Int32(n) => Ok(*n != 0),
            TypedValue::Int64(n) => Ok(*n != 0),
            TypedValue::Bool(b) => Ok(*b),
            TypedValue::Empty => Ok(false),
            _ => Err(AjError::CoercionError),
        }
    }

    /// Coerce to text, following [`coerce_text_model`].
    pub fn to_text(&self) -> (r: Result<String, AjError>)
        ensures
            coerce_text_model(self@) matches Some(t) ==> r matches Ok(s) && s@ == t,
            coerce_text_model(self@) is None ==> r == Err::<String, AjError>(
                AjError::CoercionError,
            ),
    {
        match self {
            TypedValue::Int32(n) => Ok(i64_to_text(*n as i64)),
            TypedValue::Int64(n) => Ok(i64_to_text(*n)),
            TypedValue::Text(s) => Ok(s.clone()),
            TypedValue::Empty => Ok(String::new()),
            _ => Err(AjError::CoercionError),
        }
    }

    /// Whether two values have equal models: same tag, and for text the same
    /// characters.  By-reference slots compare by the value they wrap.
    pub fn equals(&self, other: &TypedValue) -> (r: bool)
        ensures
            r == (self@ == other@),
        decreases self,
    {
        match self {
            TypedValue::Int32(a) => match other {
                TypedValue::Int32(b) => *a == *b,
                _ => false,
            },
            TypedValue::Int64(a) => match other {
                TypedValue::Int64(b) => *a == *b,
                _ => false,
            },
            TypedValue::Float64Bits(a) => match other {
                TypedValue::Float64Bits(b) => *a == *b,
                _ => false,
            },
            TypedValue::Bool(a) => match other {
                TypedValue::Bool(b) => *a == *b,
                _ => false,
            },
            TypedValue::Text(a) => match other {
                TypedValue::Text(b) => *a == *b,
                _ => false,
            },
            TypedValue::Empty => match other {
                TypedValue::Empty => true,
                _ => false,
            },
            TypedValue::ByRef(a) => match other {
                TypedValue::ByRef(b) => a.equals(b),
                _ => false,
            },
        }
    }
}

/// Coercion round-trips: a value built from a representable host value and
/// coerced back to its own tag yields that host value without loss.  For
/// text the claim holds of non-empty text, since empty text deliberately
/// marshals to the empty value; the empty value still coerces back to empty
/// text, so nothing is lost there either.
pub proof fn lemma_coerce_round_trip(n32: i32, n64: i64, b: bool, t: Seq<char>)
    ensures
        coerce_i32_model(ValueModel::Int32(n32)) == Some(n32),
        coerce_i64_model(ValueModel::Int64(n64)) == Some(n64),
        coerce_bool_model(ValueModel::Bool(b)) == Some(b),
        t.len() > 0 ==> coerce_text_model(text_value(t)) == Some(t),
        coerce_text_model(text_value(Seq::<char>::empty())) == Some(Seq::<char>::empty()),
{
}

} // verus!
