//! The codec itself: an outcome is written as the raw value of the payload it
//! holds, and a raw value is read by trying the success shape, then the error
//! shape. To the codec a shape is a name and a pair of functions, one that
//! writes a payload as a raw value and one that reads a raw value as a payload.

use crate::diagnostic::{
    detail_at, lemma_message_names_both_shapes, message_text, occurs_at, phrase, second_line_at,
    Diagnostic, DiagnosticView,
};
use serde_json::{Error, Value};
use vstd::prelude::*;

verus! {

/// What the two attempts amount to: the success payload where the first
/// attempt gave one, whatever the second gave; else the error payload where
/// the second gave one; else the report that names both shapes and holds the
/// detail of each attempt, the first attempt's first.
pub open spec fn settle<T, E>(
    first: Result<T, Seq<char>>,
    second: Result<E, Seq<char>>,
    success_name: Seq<char>,
    failure_name: Seq<char>,
) -> Result<Result<T, E>, DiagnosticView> {
    match first {
        Ok(v) => Ok(Ok(v)),
        Err(success_detail) => match second {
            Ok(e) => Ok(Err(e)),
            Err(failure_detail) => Err(
                DiagnosticView { success_name, success_detail, failure_name, failure_detail },
            ),
        },
    }
}

/// The raw value of an outcome: that of the payload it holds.
pub open spec fn encoded<T, E, R>(
    outcome: Result<T, E>,
    write_success: spec_fn(T) -> R,
    write_failure: spec_fn(E) -> R,
) -> R {
    match outcome {
        Ok(v) => write_success(v),
        Err(e) => write_failure(e),
    }
}

/// The outcome that a raw value is read as: what the two shapes' readings of
/// that one raw value amount to.
pub open spec fn decoded<T, E, R>(
    raw: R,
    success_name: Seq<char>,
    read_success: spec_fn(R) -> Result<T, Seq<char>>,
    failure_name: Seq<char>,
    read_failure: spec_fn(R) -> Result<E, Seq<char>>,
) -> Result<Result<T, E>, DiagnosticView> {
    settle(read_success(raw), read_failure(raw), success_name, failure_name)
}

/// An attempt whose failure is held as a string, with that string as characters.
pub open spec fn worded<P>(attempt: Result<P, String>) -> Result<P, Seq<char>> {
    match attempt {
        Ok(v) => Ok(v),
        Err(detail) => Err(detail@),
    }
}

/// `plain` is the attempt `attempt` with its failure in words: the same
/// payload, or a text that the failure prints as.
pub open spec fn told<P>(attempt: Result<P, Error>, plain: Result<P, Seq<char>>) -> bool {
    match attempt {
        Ok(v) => plain == Ok::<P, Seq<char>>(v),
        Err(failure) => plain is Err && crate::json::prints_as(failure, plain->Err_0),
    }
}

/// `out` is the result `want`, the report compared part by part.
pub open spec fn agrees<T, E>(
    out: Result<Result<T, E>, Diagnostic>,
    want: Result<Result<T, E>, DiagnosticView>,
) -> bool {
    match want {
        Ok(outcome) => out == Ok::<Result<T, E>, Diagnostic>(outcome),
        Err(report) => out is Err && out->Err_0@ == report,
    }
}

/// Whatever `write` returns for a payload is what `model` gives for it.
pub open spec fn writes_as<P, R, F: FnOnce(P) -> R>(write: F, model: spec_fn(P) -> R) -> bool {
    forall|payload: P, raw: R| #[trigger] write.ensures((payload,), raw) ==> raw == model(payload)
}

/// Whatever `read` returns for a raw value is what `model` gives for it: the
/// same payload, or a failure that prints as the model's detail and as nothing else.
pub open spec fn reads_as<P, F: FnOnce(&Value) -> Result<P, Error>>(
    read: F,
    model: spec_fn(Value) -> Result<P, Seq<char>>,
) -> bool {
    forall|raw: &Value, attempt: Result<P, Error>| #[trigger]
        read.ensures((raw,), attempt) ==> match attempt {
            Ok(v) => model(*raw) == Ok::<P, Seq<char>>(v),
            Err(failure) => model(*raw) is Err && forall|s: String| #[trigger]
                vstd::string::to_string_from_display_ensures::<Error>(&failure, s) ==> s@ == model(
                    *raw,
                )->Err_0,
        }
}

/// `raw` is a raw value that the two writers can give for `outcome`: one that
/// the writer of the held payload's shape returns for that payload. Where
/// each writer computes a function, `raw` is `encoded` under those functions.
pub open spec fn encodes_to<T, E, R, FT: FnOnce(T) -> R, FE: FnOnce(E) -> R>(
    outcome: Result<T, E>,
    write_success: FT,
    write_failure: FE,
    raw: R,
) -> bool {
    &&& match outcome {
        Ok(v) => write_success.ensures((v,), raw),
        Err(e) => write_failure.ensures((e,), raw),
    }
    &&& forall|ws: spec_fn(T) -> R, wf: spec_fn(E) -> R|
        writes_as(write_success, ws) && writes_as(write_failure, wf) ==> raw == #[trigger] encoded(
            outcome,
            ws,
            wf,
        )
}

/// `out` is a result that the two readers can give for `value`. The success
/// reader returns some attempt for it. Where that attempt holds a payload,
/// `out` is the success outcome with it. Where it failed, the error reader
/// returns some attempt for the same raw value, and `out` is what `settle`
/// makes of the two, each failure in words that it prints as. Where each
/// reader computes a function, `out` is `decoded` under those functions.
pub open spec fn decodes_to<T, E, FT, FE>(
    value: Value,
    success_name: Seq<char>,
    read_success: FT,
    failure_name: Seq<char>,
    read_failure: FE,
    out: Result<Result<T, E>, Diagnostic>,
) -> bool where FT: FnOnce(&Value) -> Result<T, Error>, FE: FnOnce(&Value) -> Result<E, Error> {
    &&& exists|first: Result<T, Error>| #[trigger]
        read_success.ensures((&value,), first) && match first {
            Ok(v) => out == Ok::<Result<T, E>, Diagnostic>(Ok(v)),
            Err(_) => exists|
                second: Result<E, Error>,
                first_plain: Result<T, Seq<char>>,
                second_plain: Result<E, Seq<char>>,
            |
                {
                    &&& #[trigger] read_failure.ensures((&value,), second)
                    &&& #[trigger] told(first, first_plain)
                    &&& #[trigger] told(second, second_plain)
                    &&& agrees(out, settle(first_plain, second_plain, success_name, failure_name))
                },
        }
    &&& forall|rs: spec_fn(Value) -> Result<T, Seq<char>>, rf: spec_fn(Value) -> Result<E, Seq<char>>|
        reads_as(read_success, rs) && reads_as(read_failure, rf) ==> agrees(
            out,
            #[trigger] decoded(value, success_name, rs, failure_name, rf),
        )
}

/// Settles the two attempts on one raw value: `Ok(Ok(..))` with the first
/// attempt's payload if it has one, else `Ok(Err(..))` with the second's, else
/// the report of both failures under the two names.
pub fn resolve<T, E>(
    first: Result<T, String>,
    second: Result<E, String>,
    success_name: &str,
    failure_name: &str,
) -> (out: Result<Result<T, E>, Diagnostic>)
    ensures
        agrees(out, settle(worded(first), worded(second), success_name@, failure_name@)),
{
    match first {
        Ok(v) => Ok(Ok(v)),
        Err(success_detail) => match second {
            Ok(e) => Ok(Err(e)),
            Err(failure_detail) => Err(
                Diagnostic {
                    success_name: String::from_str(success_name),
                    success_detail,
                    failure_name: String::from_str(failure_name),
                    failure_detail,
                },
            ),
        },
    }
}

/// An attempt with its failure turned into the text that it prints as.
fn in_words<P>(attempt: Result<P, Error>) -> (plain: Result<P, String>)
    ensures
        match attempt {
            Ok(v) => plain == Ok::<P, String>(v),
            Err(failure) => plain is Err && vstd::string::to_string_from_display_ensures::<Error>(
                &failure,
                plain->Err_0,
            ),
        },
{
    match attempt {
        Ok(v) => Ok(v),
        Err(failure) => Err(failure.to_string()),
    }
}

/// Writes an outcome as the raw value of the payload it holds, with the writer
/// of that payload's shape. Nothing is added: the result is what the writer gave.
pub fn encode<T, E, R, FT, FE>(outcome: Result<T, E>, write_success: FT, write_failure: FE) -> (raw:
    R) where FT: FnOnce(T) -> R, FE: FnOnce(E) -> R
    requires
        match outcome {
            Ok(v) => write_success.requires((v,)),
            Err(e) => write_failure.requires((e,)),
        },
    ensures
        encodes_to(outcome, write_success, write_failure, raw),
{
    match outcome {
        Ok(v) => write_success(v),
        Err(e) => write_failure(e),
    }
}

/// Reads a raw value as an outcome. The success shape reads it first, and
/// its payload is the answer; only where it fails does the error shape read
/// the same raw value, and where that fails too the report of both failures
/// comes back.
pub fn decode<T, E, FT, FE>(
    value: &Value,
    success_name: &str,
    read_success: FT,
    failure_name: &str,
    read_failure: FE,
) -> (out: Result<Result<T, E>, Diagnostic>) where
    FT: FnOnce(&Value) -> Result<T, Error>,
    FE: FnOnce(&Value) -> Result<E, Error>,

    requires
        read_success.requires((value,)),
        read_failure.requires((value,)),
    ensures
        decodes_to(*value, success_name@, read_success, failure_name@, read_failure, out),
{
    let first = read_success(value);
    let ghost first_seen = first;
    match first {
        Ok(v) => Ok(Ok(v)),
        Err(failure) => {
            let second = read_failure(value);
            let ghost second_seen = second;
            let first_plain: Result<T, String> = Err(failure.to_string());
            let second_plain = in_words(second);
            let out = resolve(first_plain, second_plain, success_name, failure_name);
            proof {
                assert(told(first_seen, worded(first_plain)));
                assert(told(second_seen, worded(second_plain)));
                assert forall|
                    rs: spec_fn(Value) -> Result<T, Seq<char>>,
                    rf: spec_fn(Value) -> Result<E, Seq<char>>,
                | reads_as(read_success, rs) && reads_as(read_failure, rf) implies agrees(
                    out,
                    #[trigger] decoded(*value, success_name@, rs, failure_name@, rf),
                ) by {
                    assert(rs(*value) == worded(first_plain));
                    assert(rf(*value) == worded(second_plain));
                }
            }
            out
        },
    }
}

/// A shape reads its own writing of `payload` back as `payload`.
pub open spec fn reads_back<P, R>(
    write: spec_fn(P) -> R,
    read: spec_fn(R) -> Result<P, Seq<char>>,
    payload: P,
) -> bool {
    read(write(payload)) == Ok::<P, Seq<char>>(payload)
}

/// A success payload comes back: where the success shape reads its own
/// writing of `v` back, decoding the raw value of the success outcome with
/// `v` gives that outcome, whatever the error shape is.
pub proof fn lemma_round_trip_success<T, E, R>(
    v: T,
    success_name: Seq<char>,
    write_success: spec_fn(T) -> R,
    read_success: spec_fn(R) -> Result<T, Seq<char>>,
    failure_name: Seq<char>,
    write_failure: spec_fn(E) -> R,
    read_failure: spec_fn(R) -> Result<E, Seq<char>>,
)
    requires
        reads_back(write_success, read_success, v),
    ensures
        decoded(
            encoded(Ok::<T, E>(v), write_success, write_failure),
            success_name,
            read_success,
            failure_name,
            read_failure,
        ) == Ok::<Result<T, E>, DiagnosticView>(Ok(v)),
{
}

/// An error payload comes back, unless the success shape takes its raw value
/// for its own: where the error shape reads its own writing of `e` back and
/// the success shape turns that raw value down, decoding the raw value of the
/// error outcome with `e` gives that outcome.
pub proof fn lemma_round_trip_failure<T, E, R>(
    e: E,
    success_name: Seq<char>,
    write_success: spec_fn(T) -> R,
    read_success: spec_fn(R) -> Result<T, Seq<char>>,
    failure_name: Seq<char>,
    write_failure: spec_fn(E) -> R,
    read_failure: spec_fn(R) -> Result<E, Seq<char>>,
)
    requires
        reads_back(write_failure, read_failure, e),
        read_success(write_failure(e)) is Err,
    ensures
        decoded(
            encoded(Err::<T, E>(e), write_success, write_failure),
            success_name,
            read_success,
            failure_name,
            read_failure,
        ) == Ok::<Result<T, E>, DiagnosticView>(Err(e)),
{
}

/// The first match wins: a raw value that the success shape reads is decoded
/// as the success outcome with that reading, also where the error shape reads
/// it too.
pub proof fn lemma_first_match_wins<T, E, R>(
    raw: R,
    success_name: Seq<char>,
    read_success: spec_fn(R) -> Result<T, Seq<char>>,
    failure_name: Seq<char>,
    read_failure: spec_fn(R) -> Result<E, Seq<char>>,
)
    requires
        read_success(raw) is Ok,
    ensures
        decoded(raw, success_name, read_success, failure_name, read_failure) == Ok::<
            Result<T, E>,
            DiagnosticView,
        >(Ok(read_success(raw)->Ok_0)),
{
}

/// Decoding fails on the raw values that neither shape reads, and on no
/// others; it then reports both names and both details, and its message
/// holds, for each shape in turn, the phrase, then the shape's name, then the
/// detail of that shape's attempt.
pub proof fn lemma_failure_names_both_shapes<T, E, R>(
    raw: R,
    success_name: Seq<char>,
    read_success: spec_fn(R) -> Result<T, Seq<char>>,
    failure_name: Seq<char>,
    read_failure: spec_fn(R) -> Result<E, Seq<char>>,
)
    ensures
        decoded(raw, success_name, read_success, failure_name, read_failure) is Err <==> read_success(
            raw,
        ) is Err && read_failure(raw) is Err,
        decoded(raw, success_name, read_success, failure_name, read_failure) matches Err(report)
            ==> {
            &&& report == (DiagnosticView {
                success_name,
                success_detail: read_success(raw)->Err_0,
                failure_name,
                failure_detail: read_failure(raw)->Err_0,
            })
            &&& occurs_at(message_text(report), phrase(), 0)
            &&& occurs_at(message_text(report), success_name, phrase().len() as int)
            &&& occurs_at(message_text(report), read_success(raw)->Err_0, detail_at(success_name))
            &&& occurs_at(message_text(report), phrase(), second_line_at(report))
            &&& occurs_at(message_text(report), failure_name, second_line_at(report) + phrase().len())
            &&& occurs_at(
                message_text(report),
                read_failure(raw)->Err_0,
                second_line_at(report) + detail_at(failure_name),
            )
        },
{
    match decoded(raw, success_name, read_success, failure_name, read_failure) {
        Ok(_) => {},
        Err(report) => {
            lemma_message_names_both_shapes(report);
        },
    }
}

} // verus!
