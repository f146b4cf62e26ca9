//! The library's single error type, wrapping the engine's protocol error.
use crate::engine::{error_text, stack_error};
use openssl::error::ErrorStack;
use openssl::ssl::Error as SslError;
use vstd::prelude::*;

verus! {

/// What an error says of itself when the engine gives it no text.
pub const FALLBACK_DESCRIPTION: &'static str = "TLS engine error";

/// The text to describe an error by: the engine's own text, or
/// `FALLBACK_DESCRIPTION` where that is empty.
pub fn non_empty_description(raw: String) -> (r: String)
    ensures
        raw@.len() > 0 ==> r@ == raw@,
        raw@.len() == 0 ==> r@ == FALLBACK_DESCRIPTION@,
        r@.len() > 0,
{
    if raw.as_str().is_empty() {
        proof {
            reveal_strlit("TLS engine error");
        }
        FALLBACK_DESCRIPTION.to_owned()
    } else {
        raw
    }
}

/// An error of the TLS engine, with the text that describes it.
#[derive(Debug)]
pub struct Error {
    engine: openssl::ssl::Error,
    text: String,
}

impl Error {
    #[verifier::type_invariant]
    spec fn inv(&self) -> bool {
        self.text@.len() > 0
    }

    /// The description that `description` returns.
    pub closed spec fn text(&self) -> Seq<char> {
        self.text@
    }

    /// The engine error that this value wraps.
    pub closed spec fn engine_spec(&self) -> openssl::ssl::Error {
        self.engine
    }

    /// Wraps a protocol error of the engine.
    pub fn from_ssl(err: openssl::ssl::Error) -> (r: Error)
        ensures
            r.engine_spec() == err,
            r.text().len() > 0,
    {
        let text = non_empty_description(error_text(&err));
        Error { engine: err, text }
    }

    /// Wraps a stack of low-level engine errors, seen as a protocol error.
    pub fn from_stack(err: ErrorStack) -> (r: Error)
        ensures
            r.text().len() > 0,
    {
        Error::from_ssl(stack_error(err))
    }

    /// The human-readable description: never empty, and the same on every
    /// call for one error value.
    pub fn description(&self) -> (r: &str)
        ensures
            r@ == self.text(),
            r@.len() > 0,
    {
        proof {
            use_type_invariant(self);
        }
        self.text.as_str()
    }

    /// The engine error underneath, with its chain of causes.
    pub fn engine(&self) -> (r: &openssl::ssl::Error)
        ensures
            *r == self.engine_spec(),
    {
        &self.engine
    }
}

impl From<SslError> for Error {
    /// Same as `Error::from_ssl`.
    fn from(err: SslError) -> (r: Error)
        ensures
            r.engine_spec() == err,
            r.text().len() > 0,
    {
        Error::from_ssl(err)
    }
}

impl vstd::std_specs::convert::FromSpecImpl<SslError> for Error {
    open spec fn obeys_from_spec() -> bool {
        false
    }

    open spec fn from_spec(v: SslError) -> Error {
        arbitrary()
    }
}

impl From<ErrorStack> for Error {
    /// Same as `Error::from_stack`.
    fn from(err: ErrorStack) -> (r: Error)
        ensures
            r.text().len() > 0,
    {
        Error::from_stack(err)
    }
}

impl vstd::std_specs::convert::FromSpecImpl<ErrorStack> for Error {
    open spec fn obeys_from_spec() -> bool {
        false
    }

    open spec fn from_spec(v: ErrorStack) -> Error {
        arbitrary()
    }
}

} // verus!
