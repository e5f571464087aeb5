use vstd::prelude::*;

use crate::json::{Json, JsonV};
use crate::pointer::{lookup_pointer, parse_pointer, parse_tokens};

verus! {

/// A field that is either a literal, or read from the data document at a
/// JSON pointer.
#[derive(Clone, Debug, PartialEq)]
pub enum Value<T> {
    Fixed(T),
    Pointer(String),
}

/// Why a pointer could not be resolved.
#[derive(PartialEq, Eq, Structural, Clone, Copy, Debug)]
pub enum ResolutionFailure {
    /// The pointer is not well formed.
    Malformed,
    /// The document has no value at the pointer.
    Absent,
    /// The value at the pointer is not of the expected kind.
    WrongType,
}

/// A pointer that could not be resolved, and why.
#[derive(Clone, Debug, PartialEq)]
pub struct PointerResolutionError {
    pub path: String,
    pub reason: ResolutionFailure,
}

/// A type that a document value may be read as.
pub trait FromJson: Sized {
    /// Whether a value of this type can be read from `j`.
    spec fn readable(j: JsonV) -> bool;

    /// Whether `v` is what `j` reads as.
    spec fn reads_as(j: JsonV, v: Self) -> bool;

    fn from_json(j: &Json) -> (r: Option<Self>)
        ensures
            match r {
                Some(v) => Self::readable(j@) && Self::reads_as(j@, v),
                None => !Self::readable(j@),
            },
    ;
}

impl FromJson for String {
    open spec fn readable(j: JsonV) -> bool {
        j is Str
    }

    open spec fn reads_as(j: JsonV, v: String) -> bool {
        j == JsonV::Str(v@)
    }

    fn from_json(j: &Json) -> (r: Option<String>) {
        match j {
            Json::Str(s) => Some(s.clone()),
            _ => None,
        }
    }
}

impl FromJson for bool {
    open spec fn readable(j: JsonV) -> bool {
        j is Bool
    }

    open spec fn reads_as(j: JsonV, v: bool) -> bool {
        j == JsonV::Bool(v)
    }

    fn from_json(j: &Json) -> (r: Option<bool>) {
        match j {
            Json::Bool(b) => Some(*b),
            _ => None,
        }
    }
}

impl FromJson for serde_json::Number {
    open spec fn readable(j: JsonV) -> bool {
        j is Number
    }

    open spec fn reads_as(j: JsonV, v: serde_json::Number) -> bool {
        j == JsonV::Number(v)
    }

    fn from_json(j: &Json) -> (r: Option<serde_json::Number>) {
        match j {
            Json::Number(n) => Some(n.clone()),
            _ => None,
        }
    }
}

/// What resolving pointer `p` against `doc` as a `T` yields: the failure, or
/// nothing where a value is read.
pub open spec fn pointer_failure<T: FromJson>(doc: JsonV, p: Seq<char>) -> Option<ResolutionFailure> {
    match parse_pointer(p) {
        None => Some(ResolutionFailure::Malformed),
        Some(_) => match lookup_pointer(doc, p) {
            None => Some(ResolutionFailure::Absent),
            Some(j) => if T::readable(j) {
                None
            } else {
                Some(ResolutionFailure::WrongType)
            },
        },
    }
}

/// Finds the value that pointer `p` selects in `doc`.
pub fn find<'a>(p: &String, doc: &'a Json) -> (r: Result<&'a Json, PointerResolutionError>)
    ensures
        match r {
            Ok(j) => lookup_pointer(doc@, p@) == Some(j@),
            Err(e) => e.path@ == p@ && lookup_pointer(doc@, p@) is None && e.reason == (if parse_pointer(
                p@,
            ) is None {
                ResolutionFailure::Malformed
            } else {
                ResolutionFailure::Absent
            }),
        },
{
    match parse_tokens(p.as_str()) {
        None => Err(PointerResolutionError { path: p.clone(), reason: ResolutionFailure::Malformed }),
        Some(path) => match doc.lookup(&path) {
            Some(j) => Ok(j),
            None => Err(PointerResolutionError { path: p.clone(), reason: ResolutionFailure::Absent }),
        },
    }
}

/// Resolves a field against the data document: a literal is returned as it
/// is, without reading the document; a pointer is looked up and read as a `T`.
pub fn resolve<T: FromJson>(value: Value<T>, doc: &Json) -> (r: Result<T, PointerResolutionError>)
    ensures
        match value {
            Value::Fixed(v) => r == Ok::<T, PointerResolutionError>(v),
            Value::Pointer(p) => match r {
                Ok(v) => pointer_failure::<T>(doc@, p@) is None && T::reads_as(
                    lookup_pointer(doc@, p@)->0,
                    v,
                ),
                Err(e) => e.path@ == p@ && pointer_failure::<T>(doc@, p@) == Some(e.reason),
            },
        },
{
    match value {
        Value::Fixed(v) => Ok(v),
        Value::Pointer(p) => match find(&p, doc) {
            Err(e) => Err(e),
            Ok(j) => match T::from_json(j) {
                Some(v) => Ok(v),
                None => Err(PointerResolutionError { path: p, reason: ResolutionFailure::WrongType }),
            },
        },
    }
}

} // verus!
