//! Where failure descriptions go.

use vstd::prelude::*;

verus! {

/// A place that records descriptions, one per call and in the order of the
/// calls.
///
/// The operations of this crate are written against this trait, so that the
/// caller chooses where descriptions end up.
pub trait LogSink {
    /// The descriptions recorded so far, oldest first.
    spec fn records(&self) -> Seq<Seq<char>>;

    /// Records one description after those already recorded.
    fn record(&mut self, description: &str)
        ensures
            final(self).records() == old(self).records().push(description@),
    ;
}

/// A sink that keeps every description in memory, for the caller to read or
/// to pass on.
pub struct MemorySink {
    lines: Vec<String>,
}

impl View for MemorySink {
    type V = Seq<Seq<char>>;

    /// The descriptions kept, oldest first.
    closed spec fn view(&self) -> Seq<Seq<char>> {
        Seq::new(self.lines@.len(), |i: int| self.lines@[i]@)
    }
}

impl MemorySink {
    /// A sink that has recorded nothing.
    pub fn new() -> (sink: Self)
        ensures
            sink@ == Seq::<Seq<char>>::empty(),
    {
        MemorySink { lines: Vec::new() }
    }

    /// The number of descriptions kept.
    pub fn len(&self) -> (n: usize)
        ensures
            n == self@.len(),
    {
        self.lines.len()
    }

    /// Whether nothing has been recorded.
    pub fn is_empty(&self) -> (empty: bool)
        ensures
            empty == (self@.len() == 0),
    {
        self.lines.len() == 0
    }

    /// The description that the call of the given position recorded, counted
    /// from zero; `None` where there were fewer calls.
    pub fn get(&self, index: usize) -> (line: Option<&str>)
        ensures
            index < self@.len() ==> line is Some && line->Some_0@ == self@[index as int],
            index >= self@.len() ==> line is None,
    {
        if index < self.lines.len() {
            Some(self.lines[index].as_str())
        } else {
            None
        }
    }

    /// Gives up the sink for the descriptions it kept, oldest first.
    pub fn into_lines(self) -> (lines: Vec<String>)
        ensures
            lines@.len() == self@.len(),
            forall|i: int| 0 <= i < lines@.len() ==> (#[trigger] lines@[i])@ == self@[i],
    {
        self.lines
    }
}

impl LogSink for MemorySink {
    open spec fn records(&self) -> Seq<Seq<char>> {
        self@
    }

    fn record(&mut self, description: &str) {
        self.lines.push(description.to_owned());
    }
}

} // verus!
