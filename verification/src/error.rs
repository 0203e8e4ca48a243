//! The error taxonomy shared by the typechecker and the evaluator.

use vstd::prelude::*;
use vstd::string::StringExecFns;

verus! {

/// An error of the pipeline: a parse failure, a runtime violation, or a
/// type-rule violation. None of these abort the session.
#[derive(Debug, PartialEq)]
pub enum Error {
    ParsingError,
    InvalidOperation(String),
    TypeError(String),
}

/// Model of an [`Error`]: messages become character sequences.
pub ghost enum ErrorV {
    ParsingError,
    InvalidOperation(Seq<char>),
    TypeError(Seq<char>),
}

/// The view of an error.
pub open spec fn error_view(e: Error) -> ErrorV {
    match e {
        Error::ParsingError => ErrorV::ParsingError,
        Error::InvalidOperation(m) => ErrorV::InvalidOperation(m@),
        Error::TypeError(m) => ErrorV::TypeError(m@),
    }
}

impl View for Error {
    type V = ErrorV;

    open spec fn view(&self) -> ErrorV {
        error_view(*self)
    }
}

impl vstd::std_specs::convert::FromSpecImpl<String> for Error {
    open spec fn obeys_from_spec() -> bool {
        true
    }

    open spec fn from_spec(s: String) -> Error {
        Error::InvalidOperation(s)
    }
}

impl From<String> for Error {
    /// A bare message is an invalid-operation error.
    fn from(s: String) -> (e: Error) {
        Error::InvalidOperation(s)
    }
}

/// A message of the shape `before ++ name ++ after`, used to name the
/// offending binding or callee in an error.
pub fn quote_msg(before: &str, name: &str, after: &str) -> (r: String)
    ensures
        r@ == before@ + name@ + after@,
{
    let mut m = String::from_str(before);
    m.append(name);
    m.append(after);
    m
}

} // verus!
