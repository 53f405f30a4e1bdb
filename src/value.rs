use vstd::prelude::*;

use crate::error::BridgeError;
use crate::text::{decimal_text, format_decimal, parse_decimal, parse_i64};

verus! {

/// The tag that tells which payload a [`GenericValue`] carries.
#[derive(Clone, Copy, Debug, PartialEq, Eq, Structural)]
pub enum ValueTag {
    Empty,
    Int32,
    Int64,
    Bool,
    Text,
    ByRef,
}

/// A dynamically tagged value as exchanged with the automation object.
///
/// `ByRef` holds the handle of a caller-owned output slot (see
/// [`OutSlots`]); it owns nothing itself.
#[derive(Debug, PartialEq, Eq)]
pub enum GenericValue {
    Empty,
    Int32(i32),
    Int64(i64),
    Bool(bool),
    Text(String),
    ByRef(usize),
}

/// The mathematical model of a [`GenericValue`].
pub enum ValueModel {
    Empty,
    Int32(i32),
    Int64(i64),
    Bool(bool),
    Text(Seq<char>),
    ByRef(nat),
}

impl View for GenericValue {
    type V = ValueModel;

    open spec fn view(&self) -> ValueModel {
        match self {
            GenericValue::Empty => ValueModel::Empty,
            GenericValue::Int32(n) => ValueModel::Int32(*n),
            GenericValue::Int64(n) => ValueModel::Int64(*n),
            GenericValue::Bool(b) => ValueModel::Bool(*b),
            GenericValue::Text(s) => ValueModel::Text(s@),
            GenericValue::ByRef(i) => ValueModel::ByRef(*i as nat),
        }
    }
}

pub open spec fn tag_of(v: ValueModel) -> ValueTag {
    match v {
        ValueModel::Empty => ValueTag::Empty,
        ValueModel::Int32(_) => ValueTag::Int32,
        ValueModel::Int64(_) => ValueTag::Int64,
        ValueModel::Bool(_) => ValueTag::Bool,
        ValueModel::Text(_) => ValueTag::Text,
        ValueModel::ByRef(_) => ValueTag::ByRef,
    }
}

/// The integer a boolean stands for: `-1` for true, `0` for false.
pub open spec fn bool_number(b: bool) -> int {
    if b {
        -1
    } else {
        0
    }
}

pub open spec fn in_i64(n: int) -> bool {
    i64::MIN <= n <= i64::MAX
}

pub open spec fn in_i32(n: int) -> bool {
    i32::MIN <= n <= i32::MAX
}

/// The number a value reads as, where it reads as one: empty is zero, text is
/// read as a signed decimal that fits in 64 bits, a reference reads as none.
pub open spec fn numeric_of(v: ValueModel) -> Option<int> {
    match v {
        ValueModel::Empty => Some(0),
        ValueModel::Int32(n) => Some(n as int),
        ValueModel::Int64(n) => Some(n as int),
        ValueModel::Bool(b) => Some(bool_number(b)),
        ValueModel::Text(s) => match parse_decimal(s) {
            Some(n) => if in_i64(n) {
                Some(n)
            } else {
                None
            },
            None => None,
        },
        ValueModel::ByRef(_) => None,
    }
}

/// The result of converting `v` to tag `t`, or `None` where no conversion exists.
pub open spec fn coerce_spec(v: ValueModel, t: ValueTag) -> Option<ValueModel> {
    match t {
        ValueTag::Empty => match v {
            ValueModel::ByRef(_) => None,
            _ => Some(ValueModel::Empty),
        },
        ValueTag::Int32 => match numeric_of(v) {
            Some(n) => if in_i32(n) {
                Some(ValueModel::Int32(n as i32))
            } else {
                None
            },
            None => None,
        },
        ValueTag::Int64 => match numeric_of(v) {
            Some(n) => Some(ValueModel::Int64(n as i64)),
            None => None,
        },
        ValueTag::Bool => match numeric_of(v) {
            Some(n) => Some(ValueModel::Bool(n != 0)),
            None => None,
        },
        ValueTag::Text => match v {
            ValueModel::Empty => Some(ValueModel::Text(Seq::empty())),
            ValueModel::Text(s) => Some(ValueModel::Text(s)),
            ValueModel::ByRef(_) => None,
            _ => Some(ValueModel::Text(decimal_text(numeric_of(v).unwrap()))),
        },
        ValueTag::ByRef => match v {
            ValueModel::ByRef(i) => Some(ValueModel::ByRef(i)),
            _ => None,
        },
    }
}

impl GenericValue {
    pub fn from_i32(n: i32) -> (r: GenericValue)
        ensures
            r@ == ValueModel::Int32(n),
    {
        GenericValue::Int32(n)
    }

    pub fn from_i64(n: i64) -> (r: GenericValue)
        ensures
            r@ == ValueModel::Int64(n),
    {
        GenericValue::Int64(n)
    }

    pub fn from_bool(b: bool) -> (r: GenericValue)
        ensures
            r@ == ValueModel::Bool(b),
    {
        GenericValue::Bool(b)
    }

    /// Copies `s` into a value that owns its text.
    pub fn from_str(s: &str) -> (r: GenericValue)
        ensures
            r@ == ValueModel::Text(s@),
    {
        GenericValue::Text(String::from_str(s))
    }

    /// A value that refers to output slot `slot`.
    pub fn by_ref(slot: usize) -> (r: GenericValue)
        ensures
            r@ == ValueModel::ByRef(slot as nat),
    {
        GenericValue::ByRef(slot)
    }

    pub fn tag(&self) -> (r: ValueTag)
        ensures
            r == tag_of(self@),
    {
        match self {
            GenericValue::Empty => ValueTag::Empty,
            GenericValue::Int32(_) => ValueTag::Int32,
            GenericValue::Int64(_) => ValueTag::Int64,
            GenericValue::Bool(_) => ValueTag::Bool,
            GenericValue::Text(_) => ValueTag::Text,
            GenericValue::ByRef(_) => ValueTag::ByRef,
        }
    }

    /// The number this value reads as (see [`numeric_of`]).
    fn numeric(&self) -> (r: Option<i64>)
        ensures
            r.is_some() <==> numeric_of(self@).is_some(),
            r.is_some() ==> r.unwrap() as int == numeric_of(self@).unwrap(),
    {
        match self {
            GenericValue::Empty => Some(0),
            GenericValue::Int32(n) => Some(*n as i64),
            GenericValue::Int64(n) => Some(*n),
            GenericValue::Bool(b) => if *b {
                Some(-1)
            } else {
                Some(0)
            },
            GenericValue::Text(s) => parse_i64(s.as_str()),
            GenericValue::ByRef(_) => None,
        }
    }

    /// Converts this value to tag `target`; fails where [`coerce_spec`] has no
    /// conversion.
    pub fn coerce_to(&self, target: ValueTag) -> (r: Result<GenericValue, BridgeError>)
        ensures
            r.is_ok() <==> coerce_spec(self@, target).is_some(),
            r.is_ok() ==> r.unwrap()@ == coerce_spec(self@, target).unwrap(),
            r.is_err() ==> r == Err::<GenericValue, BridgeError>(
                BridgeError::Coercion { from: tag_of(self@), to: target },
            ),
    {
        let err = BridgeError::Coercion { from: self.tag(), to: target };
        match target {
            ValueTag::Empty => match self {
                GenericValue::ByRef(_) => Err(err),
                _ => Ok(GenericValue::Empty),
            },
            ValueTag::Int32 => match self.numeric() {
                Some(n) => if i32::MIN as i64 <= n && n <= i32::MAX as i64 {
                    Ok(GenericValue::Int32(n as i32))
                } else {
                    Err(err)
                },
                None => Err(err),
            },
            ValueTag::Int64 => match self.numeric() {
                Some(n) => Ok(GenericValue::Int64(n)),
                None => Err(err),
            },
            ValueTag::Bool => match self.numeric() {
                Some(n) => Ok(GenericValue::Bool(n != 0)),
                None => Err(err),
            },
            ValueTag::Text => match self {
                GenericValue::Empty => Ok(GenericValue::Text(String::new())),
                GenericValue::Text(s) => Ok(GenericValue::Text(s.clone())),
                GenericValue::ByRef(_) => Err(err),
                _ => match self.numeric() {
                    Some(n) => Ok(GenericValue::Text(format_decimal(n))),
                    None => Err(err),
                },
            },
            ValueTag::ByRef => match self {
                GenericValue::ByRef(i) => Ok(GenericValue::ByRef(*i)),
                _ => Err(err),
            },
        }
    }

    /// This value as a 32-bit integer.
    pub fn to_i32(&self) -> (r: Result<i32, BridgeError>)
        ensures
            r.is_ok() <==> coerce_spec(self@, ValueTag::Int32).is_some(),
            r.is_ok() ==> coerce_spec(self@, ValueTag::Int32) == Some(
                ValueModel::Int32(r.unwrap()),
            ),
            r.is_err() ==> r == Err::<i32, BridgeError>(
                BridgeError::Coercion { from: tag_of(self@), to: ValueTag::Int32 },
            ),
    {
        match self.coerce_to(ValueTag::Int32) {
            Ok(GenericValue::Int32(n)) => Ok(n),
            Ok(_) => Err(BridgeError::Coercion { from: self.tag(), to: ValueTag::Int32 }),
            Err(e) => Err(e),
        }
    }

    /// This value as a 64-bit integer.
    pub fn to_i64(&self) -> (r: Result<i64, BridgeError>)
        ensures
            r.is_ok() <==> coerce_spec(self@, ValueTag::Int64).is_some(),
            r.is_ok() ==> coerce_spec(self@, ValueTag::Int64) == Some(
                ValueModel::Int64(r.unwrap()),
            ),
            r.is_err() ==> r == Err::<i64, BridgeError>(
                BridgeError::Coercion { from: tag_of(self@), to: ValueTag::Int64 },
            ),
    {
        match self.coerce_to(ValueTag::Int64) {
            Ok(GenericValue::Int64(n)) => Ok(n),
            Ok(_) => Err(BridgeError::Coercion { from: self.tag(), to: ValueTag::Int64 }),
            Err(e) => Err(e),
        }
    }

    /// This value as a boolean.
    pub fn to_bool(&self) -> (r: Result<bool, BridgeError>)
        ensures
            r.is_ok() <==> coerce_spec(self@, ValueTag::Bool).is_some(),
            r.is_ok() ==> coerce_spec(self@, ValueTag::Bool) == Some(
                ValueModel::Bool(r.unwrap()),
            ),
            r.is_err() ==> r == Err::<bool, BridgeError>(
                BridgeError::Coercion { from: tag_of(self@), to: ValueTag::Bool },
            ),
    {
        match self.coerce_to(ValueTag::Bool) {
            Ok(GenericValue::Bool(b)) => Ok(b),
            Ok(_) => Err(BridgeError::Coercion { from: self.tag(), to: ValueTag::Bool }),
            Err(e) => Err(e),
        }
    }

    /// This value as text.
    pub fn to_string(&self) -> (r: Result<String, BridgeError>)
        ensures
            r.is_ok() <==> coerce_spec(self@, ValueTag::Text).is_some(),
            r.is_ok() ==> coerce_spec(self@, ValueTag::Text) == Some(
                ValueModel::Text(r.unwrap()@),
            ),
            r.is_err() ==> r == Err::<String, BridgeError>(
                BridgeError::Coercion { from: tag_of(self@), to: ValueTag::Text },
            ),
    {
        match self.coerce_to(ValueTag::Text) {
            Ok(GenericValue::Text(s)) => Ok(s),
            Ok(_) => Err(BridgeError::Coercion { from: self.tag(), to: ValueTag::Text }),
            Err(e) => Err(e),
        }
    }
}

/// A value already carrying the requested tag converts to itself.
pub proof fn lemma_coerce_same_tag(v: ValueModel)
    ensures
        coerce_spec(v, tag_of(v)) == Some(v),
{
}

/// An integer converts to the boolean "is not zero" and to its decimal text,
/// and widens to 64 bits unchanged.
pub proof fn lemma_coerce_integer(n: i32)
    ensures
        coerce_spec(ValueModel::Int32(n), ValueTag::Bool) == Some(ValueModel::Bool(n != 0)),
        coerce_spec(ValueModel::Int32(n), ValueTag::Text) == Some(
            ValueModel::Text(decimal_text(n as int)),
        ),
        coerce_spec(ValueModel::Int32(n), ValueTag::Int64) == Some(ValueModel::Int64(n as i64)),
{
}

} // verus!
