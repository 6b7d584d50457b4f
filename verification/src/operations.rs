//! The operations on a result: observe it, downgrade it to an option, or
//! unwrap it where failure is fatal.

use crate::sink::LogSink;
use core::fmt::Display;
use vstd::prelude::*;
use vstd::string::to_string_from_display_ensures;

verus! {

/// Whether `text` is a rendering of `error`, as `to_string` may return it.
pub open spec fn describes<E: Display>(error: &E, text: Seq<char>) -> bool {
    exists|rendering: String| #[trigger]
        to_string_from_display_ensures::<E>(error, rendering) && rendering@ == text
}

/// How handling `result` once changes what a sink has recorded: a success
/// changes nothing; a failure appends one record, a rendering of its error,
/// and nothing else.
pub open spec fn handled_once<T, E: Display>(
    result: Result<T, E>,
    before: Seq<Seq<char>>,
    after: Seq<Seq<char>>,
) -> bool {
    match result {
        Ok(_) => after == before,
        Err(error) => {
            &&& after.len() > 0
            &&& after == before.push(after.last())
            &&& describes(&error, after.last())
        },
    }
}

/// One call of [`observe`]: the input and the sink's records before it, the
/// output and the records after it.
pub open spec fn observation<T, E: Display>(
    input: Result<T, E>,
    before: Seq<Seq<char>>,
    output: Result<T, E>,
    after: Seq<Seq<char>>,
) -> bool {
    output == input && handled_once(input, before, after)
}

/// Renders `error` and records the rendering in `sink`.
fn record_failure<E: Display, S: LogSink>(error: &E, sink: &mut S) -> (description: String)
    ensures
        describes(error, description@),
        final(sink).records() == old(sink).records().push(description@),
{
    let description = error.to_string();
    sink.record(description.as_str());
    description
}

/// Records the error of a failure in `sink` and hands the result back as it
/// came.
pub fn observe<T, E: Display, S: LogSink>(
    result: Result<T, E>,
    sink: &mut S,
) -> (observed: Result<T, E>)
    ensures
        observed == result,
        observation(result, old(sink).records(), observed, final(sink).records()),
{
    match &result {
        Ok(_) => {},
        Err(error) => {
            let _ = record_failure(error, sink);
        },
    }
    result
}

/// Records the error of a failure in `sink` and keeps only the payload of a
/// success.
pub fn to_optional_logged<T, E: Display, S: LogSink>(
    result: Result<T, E>,
    sink: &mut S,
) -> (value: Option<T>)
    ensures
        handled_once(result, old(sink).records(), final(sink).records()),
        match result {
            Ok(payload) => value == Some(payload),
            Err(_) => value is None,
        },
{
    match observe(result, sink) {
        Ok(payload) => Some(payload),
        Err(_) => None,
    }
}

/// Unwraps a success, or records the error of a failure in `sink` and returns
/// the recorded description as the cause with which the caller is to
/// terminate.
///
/// This is [`unwrap_or_terminate`] up to the point of termination, for every
/// result.
pub fn unwrap_or_cause<T, E: Display, S: LogSink>(
    result: Result<T, E>,
    sink: &mut S,
) -> (outcome: Result<T, String>)
    ensures
        handled_once(result, old(sink).records(), final(sink).records()),
        match result {
            Ok(payload) => outcome == Ok::<T, String>(payload),
            Err(_) => outcome is Err && final(sink).records().last() == outcome->Err_0@,
        },
{
    match result {
        Ok(payload) => Ok(payload),
        Err(error) => {
            let cause = record_failure(&error, sink);
            Err(cause)
        },
    }
}

/// Unwraps a success and leaves `sink` as it is.
///
/// A failure is fatal to the caller and is not accepted here: a caller that
/// may hold one goes through [`unwrap_or_cause`], which records it, and
/// terminates with the cause it gets.
pub fn unwrap_or_terminate<T, E: Display, S: LogSink>(
    result: Result<T, E>,
    sink: &mut S,
) -> (payload: T)
    requires
        result is Ok,
    ensures
        result == Ok::<T, E>(payload),
        final(sink).records() == old(sink).records(),
{
    match unwrap_or_cause(result, sink) {
        Ok(payload) => payload,
        Err(_) => unreached(),
    }
}

/// Observing is not idempotent in what it records: two observations in a row
/// return the result that one returns, and a failure is recorded twice.
pub proof fn lemma_observe_twice<T, E: Display>(
    input: Result<T, E>,
    first: Result<T, E>,
    second: Result<T, E>,
    start: Seq<Seq<char>>,
    between: Seq<Seq<char>>,
    end: Seq<Seq<char>>,
)
    requires
        observation(input, start, first, between),
        observation(first, between, second, end),
    ensures
        second == first,
        input is Ok ==> end == start,
        input is Err ==> {
            &&& end.len() == start.len() + 2
            &&& end.subrange(0, start.len() as int) == start
            &&& describes(&input->Err_0, end[start.len() as int])
            &&& describes(&input->Err_0, end[start.len() as int + 1])
        },
{
    if input is Err {
        assert(end.subrange(0, start.len() as int) =~= start);
        assert(end[start.len() as int] == between.last());
    }
}

} // verus!
