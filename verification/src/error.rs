//! The taxonomy of failure outcomes reported by the engine bridge.
//!
//! The engine reports failures as small integer codes read off its exception
//! objects. Those codes are turned into the closed [`DukErrorCode`] category
//! by a validated lookup: a code outside the recognized set maps to the
//! generic category instead of being reinterpreted blindly.

use vstd::prelude::*;

verus! {

/// Code of the engine's error code for a plain `Error`.
pub const RAW_CODE_ERROR: u32 = 1;

/// Code of the engine's error code for an `EvalError`.
pub const RAW_CODE_EVAL: u32 = 2;

/// Code of the engine's error code for a `RangeError`.
pub const RAW_CODE_RANGE: u32 = 3;

/// Code of the engine's error code for a `SyntaxError`.
pub const RAW_CODE_SYNTAX: u32 = 5;

/// Code of the engine's error code for a `TypeError`.
pub const RAW_CODE_TYPE: u32 = 6;

/// Code of the engine's error code for a `URIError`.
pub const RAW_CODE_URI: u32 = 7;

/// The closed set of error categories an engine operation can report.
///
/// `NoError` mirrors the engine's "no error" code; `NullPtr` is the
/// bridge's own category for an object handle that no longer resolves to a
/// live engine object.
#[derive(Clone, Copy, PartialEq, Eq, Structural, Debug)]
pub enum DukErrorCode {
    NoError,
    Error,
    Eval,
    Range,
    Syntax,
    Type,
    URI,
    NullPtr,
}

/// The category that a raw engine error code denotes; codes outside the
/// recognized set fall back to the generic category.
pub open spec fn category_of_raw(code: u32) -> DukErrorCode {
    if code == 0 {
        DukErrorCode::NoError
    } else if code == RAW_CODE_EVAL {
        DukErrorCode::Eval
    } else if code == RAW_CODE_RANGE {
        DukErrorCode::Range
    } else if code == RAW_CODE_SYNTAX {
        DukErrorCode::Syntax
    } else if code == RAW_CODE_TYPE {
        DukErrorCode::Type
    } else if code == RAW_CODE_URI {
        DukErrorCode::URI
    } else {
        DukErrorCode::Error
    }
}

impl DukErrorCode {
    /// Validated lookup from the engine's raw error code to a category.
    ///
    /// Every recognized code maps to its own category; an unrecognized code
    /// (for instance the engine's `ReferenceError`, which this closed set
    /// does not distinguish) degrades to the generic `Error` category.
    pub fn from_raw(code: u32) -> (category: DukErrorCode)
        ensures
            category == category_of_raw(code),
    {
        if code == 0 {
            DukErrorCode::NoError
        } else if code == RAW_CODE_EVAL {
            DukErrorCode::Eval
        } else if code == RAW_CODE_RANGE {
            DukErrorCode::Range
        } else if code == RAW_CODE_SYNTAX {
            DukErrorCode::Syntax
        } else if code == RAW_CODE_TYPE {
            DukErrorCode::Type
        } else if code == RAW_CODE_URI {
            DukErrorCode::URI
        } else {
            DukErrorCode::Error
        }
    }
}

/// An error reported by an engine operation: a category and, where one was
/// available, a human-readable message extracted from the engine's own
/// exception object.
#[derive(Debug)]
pub struct DukError {
    /// The error category, or `DukErrorCode::Error` if nothing more
    /// specific is known.
    pub code: DukErrorCode,
    /// The diagnostic text, where one was extracted.
    pub message: Option<String>,
}

impl DukError {
    /// Create a `DukError` from an error category alone (no message).
    pub fn from_code(code: DukErrorCode) -> (e: DukError)
        ensures
            e.code == code,
            e.message is None,
    {
        DukError { code, message: None }
    }

    /// Create a `DukError` carrying a message under the generic category.
    pub fn from_str(message: &str) -> (e: DukError)
        ensures
            e.code == DukErrorCode::Error,
            e.message matches Some(m) && m@ == message@,
    {
        DukError { code: DukErrorCode::Error, message: Some(message.to_owned()) }
    }

    /// Create a `DukError` from a category and a message.
    pub fn from(code: DukErrorCode, message: &str) -> (e: DukError)
        ensures
            e.code == code,
            e.message matches Some(m) && m@ == message@,
    {
        DukError { code, message: Some(message.to_owned()) }
    }

    /// The human-readable text of this error: its message where one was
    /// extracted, and otherwise a fixed description of the category.
    pub fn to_message(&self) -> (text: String)
        ensures
            self.message matches Some(m) ==> text@ == m@,
            self.message is None && self.code == DukErrorCode::Error ==> text@
                == "an unknown error occurred"@,
    {
        match &self.message {
            Some(m) => m.clone(),
            None => match self.code {
                DukErrorCode::Error => "an unknown error occurred".to_owned(),
                DukErrorCode::NoError => "type: NoError code: 0".to_owned(),
                DukErrorCode::Eval => "type: Eval code: 2".to_owned(),
                DukErrorCode::Range => "type: Range code: 3".to_owned(),
                DukErrorCode::Syntax => "type: Syntax code: 5".to_owned(),
                DukErrorCode::Type => "type: Type code: 6".to_owned(),
                DukErrorCode::URI => "type: URI code: 7".to_owned(),
                DukErrorCode::NullPtr => "type: NullPtr code: 8".to_owned(),
            },
        }
    }
}

} // verus!
