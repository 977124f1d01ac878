//! The closed set of engine values as the host sees them, and the
//! conversions between them and plain host types.

use vstd::prelude::*;

verus! {

use crate::context::Object;
use crate::error::DukError;
use crate::error::DukErrorCode;
use crate::number::number_text;
use crate::number::Number;
use crate::DukResult;

/// An engine value at a defined instant: every representable engine-side
/// value maps to exactly one of these variants.
///
/// `Object` carries a durable handle into engine memory; every other
/// variant is a plain host value with no engine-side lifetime.
#[derive(Debug)]
pub enum Value {
    Undefined,
    Null,
    Number(Number),
    Boolean(bool),
    String(String),
    Object(Object),
}

/// The text a value converts to host-side, without calling back into the
/// engine: `None` for an object (its text would need the engine's JSON
/// encoder) and for a fractional double (its rendering would need
/// floating-point formatting).
pub open spec fn value_text(v: Value) -> Option<Seq<char>> {
    match v {
        Value::Undefined => Some("undefined"@),
        Value::Null => Some("null"@),
        Value::Number(n) => number_text(n),
        Value::Boolean(b) => if b {
            Some("true"@)
        } else {
            Some("false"@)
        },
        Value::String(s) => Some(s@),
        Value::Object(_) => None,
    }
}

impl Value {
    /// Narrow this value to a boolean; any other variant is a conversion
    /// error.
    pub fn try_into_bool(self) -> (r: DukResult<bool>)
        ensures
            self matches Value::Boolean(b) ==> r == DukResult::<bool>::Ok(b),
            !(self is Boolean) ==> (r matches Err(e) && e.code == DukErrorCode::Error
                && (e.message matches Some(m) && m@ == "Could not convert value to boolean"@)),
    {
        if let Value::Boolean(b) = self {
            Ok(b)
        } else {
            Err(DukError::from_str("Could not convert value to boolean"))
        }
    }

    /// Render this value as text, where the host can do so by itself:
    /// `undefined`, `null`, booleans, strings, and the numbers with exact
    /// host-side text. An object would need the engine's JSON encoder and
    /// a fractional double would need floating-point formatting, so those
    /// are conversion errors here.
    pub fn try_into_string(self) -> (r: DukResult<String>)
        ensures
            value_text(self) matches Some(t) ==> (r matches Ok(s) && s@ == t),
            r is Ok <==> value_text(self) is Some,
            self is Object ==> (r matches Err(e) && e.code == DukErrorCode::Error && (e.message
                matches Some(m) && m@ == "Could not convert object to String"@)),
            (self matches Value::Number(n) && n is Float) ==> (r matches Err(e) && e.code
                == DukErrorCode::Error && (e.message matches Some(m) && m@
                == "Could not convert value to String"@)),
    {
        match self {
            Value::Undefined => Ok("undefined".to_owned()),
            Value::Null => Ok("null".to_owned()),
            Value::Number(n) => match n.to_text() {
                Some(s) => Ok(s),
                None => Err(DukError::from_str("Could not convert value to String")),
            },
            Value::Boolean(b) => {
                if b {
                    Ok("true".to_owned())
                } else {
                    Ok("false".to_owned())
                }
            },
            Value::String(s) => Ok(s),
            Value::Object(_) => Err(DukError::from_str("Could not convert object to String")),
        }
    }

    /// Narrow this value to an object handle; any other variant is a
    /// conversion error.
    pub fn try_into_object(self) -> (r: DukResult<Object>)
        ensures
            self matches Value::Object(o) ==> r == DukResult::<Object>::Ok(o),
            !(self is Object) ==> (r matches Err(e) && e.code == DukErrorCode::Error
                && (e.message matches Some(m) && m@
                == "Could not convert DukValue to DukObject"@)),
    {
        if let Value::Object(o) = self {
            Ok(o)
        } else {
            Err(DukError::from_str("Could not convert DukValue to DukObject"))
        }
    }

    /// The number this value holds, with NaN standing in for every
    /// non-numeric variant.
    pub fn to_number(self) -> (n: Number)
        ensures
            self matches Value::Number(v) ==> n == v,
            !(self is Number) ==> n == Number::NaN,
    {
        match self {
            Value::Number(v) => v,
            _ => Number::NaN,
        }
    }

    /// Narrow this value to a signed 64-bit integer the way the host's
    /// saturating double cast would: non-numeric variants go through NaN,
    /// which casts to 0.
    pub fn to_i64(self) -> (r: i64)
        ensures
            self matches Value::Number(v) ==> r == (match v {
                Number::NaN => 0int,
                Number::Infinity => i64::MAX as int,
                Number::Int(i) => i as int,
                Number::Float(bits) => crate::number::float_to_i64_bits(bits),
            }),
            !(self is Number) ==> r == 0,
    {
        match self {
            Value::Number(v) => v.to_i64(),
            _ => 0,
        }
    }
}

impl From<bool> for Value {
    /// A boolean marshals to the engine's boolean.
    fn from(value: bool) -> (r: Value) {
        Value::Boolean(value)
    }
}

impl vstd::std_specs::convert::FromSpecImpl<bool> for Value {
    open spec fn obeys_from_spec() -> bool {
        true
    }

    open spec fn from_spec(value: bool) -> Value {
        Value::Boolean(value)
    }
}

impl From<String> for Value {
    /// Owned text marshals to the engine's string.
    fn from(value: String) -> (r: Value) {
        Value::String(value)
    }
}

impl vstd::std_specs::convert::FromSpecImpl<String> for Value {
    open spec fn obeys_from_spec() -> bool {
        true
    }

    open spec fn from_spec(value: String) -> Value {
        Value::String(value)
    }
}

impl From<&str> for Value {
    /// Borrowed text marshals to the engine's string.
    fn from(value: &str) -> (r: Value) {
        Value::String(value.to_owned())
    }
}

impl vstd::std_specs::convert::FromSpecImpl<&str> for Value {
    open spec fn obeys_from_spec() -> bool {
        false
    }

    open spec fn from_spec(value: &str) -> Value {
        Value::Undefined
    }
}

impl From<i64> for Value {
    /// A host integer marshals to the engine's number.
    fn from(value: i64) -> (r: Value) {
        Value::Number(Number::Int(value))
    }
}

impl vstd::std_specs::convert::FromSpecImpl<i64> for Value {
    open spec fn obeys_from_spec() -> bool {
        true
    }

    open spec fn from_spec(value: i64) -> Value {
        Value::Number(Number::Int(value))
    }
}

} // verus!
