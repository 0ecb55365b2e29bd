//! The outcome as a value of two named variants, for callers who match on it.

use crate::codec::{decode, decodes_to, encode, encodes_to};
use crate::diagnostic::Diagnostic;
use serde_json::{Error, Value};
use vstd::prelude::*;

verus! {

/// An outcome: a success payload or an error payload, never both and never neither.
#[derive(Debug)]
pub enum JsonResult<T, E> {
    /// The success payload.
    Success(T),
    /// The error payload.
    Failure(E),
}

impl<T, E> JsonResult<T, E> {
    /// The same outcome as a native two-outcome value.
    pub open spec fn outcome(self) -> Result<T, E> {
        match self {
            JsonResult::Success(v) => Ok(v),
            JsonResult::Failure(e) => Err(e),
        }
    }

    /// The outcome with its payload borrowed.
    pub open spec fn borrowed(&self) -> Result<&T, &E> {
        match self {
            JsonResult::Success(v) => Ok(v),
            JsonResult::Failure(e) => Err(e),
        }
    }

    /// The raw value of the payload that the outcome holds, as the writer of
    /// that payload's shape gives it: no tag and nothing around it.
    pub fn into_value<FT, FE>(self, write_success: FT, write_failure: FE) -> (raw: Value) where
        FT: FnOnce(&T) -> Value,
        FE: FnOnce(&E) -> Value,

        requires
            match self {
                JsonResult::Success(v) => write_success.requires((&v,)),
                JsonResult::Failure(e) => write_failure.requires((&e,)),
            },
        ensures
            encodes_to(self.borrowed(), write_success, write_failure, raw),
    {
        match &self {
            JsonResult::Success(v) => encode(Ok(v), write_success, write_failure),
            JsonResult::Failure(e) => encode(Err(e), write_success, write_failure),
        }
    }

    /// Reads a raw value as an outcome: `Success` if the success shape reads
    /// it, else `Failure` if the error shape reads it, else the report of both
    /// failures.
    pub fn try_from_value<FT, FE>(
        value: Value,
        success_name: &str,
        read_success: FT,
        failure_name: &str,
        read_failure: FE,
    ) -> (out: Result<Self, Diagnostic>) where
        FT: FnOnce(&Value) -> Result<T, Error>,
        FE: FnOnce(&Value) -> Result<E, Error>,

        requires
            read_success.requires((&value,)),
            read_failure.requires((&value,)),
        ensures
            decodes_to(
                value,
                success_name@,
                read_success,
                failure_name@,
                read_failure,
                match out {
                    Ok(tagged) => Ok(tagged.outcome()),
                    Err(report) => Err(report),
                },
            ),
    {
        match decode(&value, success_name, read_success, failure_name, read_failure) {
            Ok(outcome) => Ok(JsonResult::from(outcome)),
            Err(report) => Err(report),
        }
    }
}

impl<T, E> From<Result<T, E>> for JsonResult<T, E> {
    /// `Ok` becomes `Success` and `Err` becomes `Failure`, the payload unchanged.
    fn from(r: Result<T, E>) -> (tagged: Self) {
        match r {
            Ok(v) => JsonResult::Success(v),
            Err(e) => JsonResult::Failure(e),
        }
    }
}

impl<T, E> vstd::std_specs::convert::FromSpecImpl<Result<T, E>> for JsonResult<T, E> {
    open spec fn obeys_from_spec() -> bool {
        true
    }

    open spec fn from_spec(r: Result<T, E>) -> Self {
        match r {
            Ok(v) => JsonResult::Success(v),
            Err(e) => JsonResult::Failure(e),
        }
    }
}

} // verus!
