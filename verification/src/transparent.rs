//! The outcome as a wrapper round a native two-outcome value: it is written
//! and read as the codec says, and for everything else it stands for the value
//! that it wraps.

use crate::codec::{decode, decodes_to, encode, encodes_to};
use crate::diagnostic::{message_text, Diagnostic};
use serde_json::{Error, Value};
use vstd::prelude::*;

verus! {

/// A native two-outcome value whose wire form is the raw value of its payload.
#[derive(Debug)]
pub struct JsonResult<T, E>(pub Result<T, E>);

/// Why no outcome was read.
#[derive(Debug)]
pub enum DecodeError<X> {
    /// The input was no raw value at all: what the parser said of it. Neither
    /// shape was tried.
    Syntax(X),
    /// The raw value matched neither shape.
    Mismatch(Diagnostic),
}

impl<X: core::fmt::Display> DecodeError<X> {
    /// The failure in words: what the parser's error prints as, or the
    /// message of the report.
    pub fn message(&self) -> (text: String)
        ensures
            match self {
                DecodeError::Syntax(syntax) => vstd::string::to_string_from_display_ensures::<X>(
                    syntax,
                    text,
                ),
                DecodeError::Mismatch(report) => text@ == message_text(report@),
            },
    {
        match self {
            DecodeError::Syntax(syntax) => syntax.to_string(),
            DecodeError::Mismatch(report) => report.message(),
        }
    }
}

/// The outcome of `result` with its payload borrowed.
pub open spec fn borrowed<T, E>(result: &Result<T, E>) -> Result<&T, &E> {
    match result {
        Ok(v) => Ok(v),
        Err(e) => Err(e),
    }
}

impl<T, E> JsonResult<T, E> {
    /// Writes the wrapped value as the writer of its payload's shape gives it,
    /// whatever the writers write to.
    pub fn serialize_with<R, FT, FE>(&self, write_success: FT, write_failure: FE) -> (raw: R) where
        FT: FnOnce(&T) -> R,
        FE: FnOnce(&E) -> R,

        requires
            match self.0 {
                Ok(v) => write_success.requires((&v,)),
                Err(e) => write_failure.requires((&e,)),
            },
        ensures
            encodes_to(borrowed(&self.0), write_success, write_failure, raw),
    {
        match &self.0 {
            Ok(v) => encode(Ok(v), write_success, write_failure),
            Err(e) => encode(Err(e), write_success, write_failure),
        }
    }

    /// The raw value of the wrapped value's payload.
    pub fn into_value<FT, FE>(self, write_success: FT, write_failure: FE) -> (raw: Value) where
        FT: FnOnce(&T) -> Value,
        FE: FnOnce(&E) -> Value,

        requires
            match self.0 {
                Ok(v) => write_success.requires((&v,)),
                Err(e) => write_failure.requires((&e,)),
            },
        ensures
            encodes_to(borrowed(&self.0), write_success, write_failure, raw),
    {
        self.serialize_with(write_success, write_failure)
    }

    /// Reads what a parser made of the input. Where the parser failed, its
    /// error is handed on as `Syntax` and neither shape is tried; where it
    /// gave a raw value, both shapes read that one value, as in `decode`.
    pub fn deserialize_with<X, FT, FE>(
        parsed: Result<Value, X>,
        success_name: &str,
        read_success: FT,
        failure_name: &str,
        read_failure: FE,
    ) -> (out: Result<Self, DecodeError<X>>) where
        FT: FnOnce(&Value) -> Result<T, Error>,
        FE: FnOnce(&Value) -> Result<E, Error>,

        requires
            parsed matches Ok(value) ==> read_success.requires((&value,)) && read_failure.requires(
                (&value,),
            ),
        ensures
            match parsed {
                Err(syntax) => out == Err::<Self, DecodeError<X>>(DecodeError::Syntax(syntax)),
                Ok(value) => match out {
                    Ok(wrapped) => decodes_to(
                        value,
                        success_name@,
                        read_success,
                        failure_name@,
                        read_failure,
                        Ok(wrapped.0),
                    ),
                    Err(DecodeError::Mismatch(report)) => decodes_to(
                        value,
                        success_name@,
                        read_success,
                        failure_name@,
                        read_failure,
                        Err(report),
                    ),
                    Err(DecodeError::Syntax(_)) => false,
                },
            },
    {
        match parsed {
            Err(syntax) => Err(DecodeError::Syntax(syntax)),
            Ok(value) => match decode(&value, success_name, read_success, failure_name, read_failure) {
                Ok(outcome) => Ok(JsonResult(outcome)),
                Err(report) => Err(DecodeError::Mismatch(report)),
            },
        }
    }

    /// Whether the success side is held, as `Result::is_ok` says of the wrapped value.
    pub fn is_ok(&self) -> (b: bool)
        ensures
            b == self.0.is_ok(),
    {
        self.0.is_ok()
    }

    /// Whether the error side is held, as `Result::is_err` says of the wrapped value.
    pub fn is_err(&self) -> (b: bool)
        ensures
            b == self.0.is_err(),
    {
        self.0.is_err()
    }

    /// The success payload, if that side is held.
    pub fn success(&self) -> (r: Option<&T>)
        ensures
            r == match self.0 {
                Ok(v) => Some(&v),
                Err(_) => None,
            },
    {
        match &self.0 {
            Ok(v) => Some(v),
            Err(_) => None,
        }
    }

    /// The error payload, if that side is held.
    pub fn failure(&self) -> (r: Option<&E>)
        ensures
            r == match self.0 {
                Ok(_) => None,
                Err(e) => Some(&e),
            },
    {
        match &self.0 {
            Ok(_) => None,
            Err(e) => Some(e),
        }
    }

    /// Puts `value` in the place of the wrapped value and hands the old one back.
    pub fn replace(&mut self, value: Result<T, E>) -> (previous: Result<T, E>)
        ensures
            final(self).0 == value,
            previous == old(self).0,
    {
        let mut previous = value;
        core::mem::swap(&mut self.0, &mut previous);
        previous
    }
}

impl<T, E> core::ops::Deref for JsonResult<T, E> {
    type Target = Result<T, E>;

    /// The wrapped value, to read.
    fn deref(&self) -> (r: &Result<T, E>)
        ensures
            *r == self.0,
    {
        &self.0
    }
}

impl<T, E> core::ops::DerefMut for JsonResult<T, E> {
    /// The wrapped value, to change: what is written through the reference is
    /// what the wrapper holds afterwards.
    fn deref_mut(&mut self) -> (r: &mut Result<T, E>)
        ensures
            *r == old(self).0,
            final(self).0 == *final(r),
    {
        &mut self.0
    }
}

} // verus!
