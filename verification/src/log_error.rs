//! The operation `log_error` as a method of the value it is applied to.

use crate::operations::{handled_once, observe};
use crate::sink::LogSink;
use core::fmt::Display;
use vstd::prelude::*;

verus! {

/// A value that may stand for a failure, and that can record the failure
/// without being changed by it.
pub trait LogError: Sized {
    /// How one call of [`LogError::log_error`] on this value changes what a
    /// sink has recorded.
    spec fn logged(&self, before: Seq<Seq<char>>, after: Seq<Seq<char>>) -> bool;

    /// Records the failure, if this value is one, and returns the value as
    /// it came.
    fn log_error<S: LogSink>(self, sink: &mut S) -> (same: Self)
        ensures
            same == self,
            self.logged(old(sink).records(), final(sink).records()),
    ;
}

impl<T, E: Display> LogError for Result<T, E> {
    /// A success records nothing; a failure records one rendering of its
    /// error.
    open spec fn logged(&self, before: Seq<Seq<char>>, after: Seq<Seq<char>>) -> bool {
        handled_once(*self, before, after)
    }

    fn log_error<S: LogSink>(self, sink: &mut S) -> (same: Self) {
        observe(self, sink)
    }
}

} // verus!
