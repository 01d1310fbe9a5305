use vstd::prelude::*;

verus! {

/// Position of a top-level command within a session (1-based in practice).
#[derive(Debug, Clone, Copy, PartialEq, Eq, Structural)]
pub struct CommandSequenceNo(pub u64);

impl CommandSequenceNo {
    pub fn new(value: u64) -> (r: Self)
        ensures
            r.0 == value,
    {
        CommandSequenceNo(value)
    }
}

/// A window of sequence numbers with optional strict lower and upper bounds.
#[derive(Debug, Clone, Copy, PartialEq, Eq, Structural)]
pub struct SequenceWindow {
    after_sequence: Option<CommandSequenceNo>,
    before_sequence: Option<CommandSequenceNo>,
}

impl SequenceWindow {
    /// The strict lower bound, if any.
    pub closed spec fn after_spec(&self) -> Option<CommandSequenceNo> {
        self.after_sequence
    }

    /// The strict upper bound, if any.
    pub closed spec fn before_spec(&self) -> Option<CommandSequenceNo> {
        self.before_sequence
    }

    /// Whether `n` lies strictly inside the window.
    pub open spec fn contains_spec(&self, n: u64) -> bool {
        &&& (self.after_spec() matches Some(a) ==> n > a.0)
        &&& (self.before_spec() matches Some(b) ==> n < b.0)
    }

    /// The window with no bounds.
    pub closed spec fn new_spec() -> Self {
        SequenceWindow { after_sequence: None, before_sequence: None }
    }

    /// The window with no bounds has neither bound.
    pub proof fn lemma_new_unbounded()
        ensures
            Self::new_spec().after_spec() is None,
            Self::new_spec().before_spec() is None,
    {
    }

    /// Setting one bound sets that bound and keeps the other.
    pub proof fn lemma_set_bound(self, sequence_no: CommandSequenceNo)
        ensures
            self.after_sequence_spec(sequence_no).after_spec() == Some(sequence_no),
            self.after_sequence_spec(sequence_no).before_spec() == self.before_spec(),
            self.before_sequence_spec(sequence_no).before_spec() == Some(sequence_no),
            self.before_sequence_spec(sequence_no).after_spec() == self.after_spec(),
    {
    }

    pub closed spec fn after_sequence_spec(self, sequence_no: CommandSequenceNo) -> Self {
        SequenceWindow { after_sequence: Some(sequence_no), before_sequence: self.before_sequence }
    }

    pub closed spec fn before_sequence_spec(self, sequence_no: CommandSequenceNo) -> Self {
        SequenceWindow { after_sequence: self.after_sequence, before_sequence: Some(sequence_no) }
    }

    pub fn new() -> (w: Self)
        ensures
            w == Self::new_spec(),
            w.after_spec() is None,
            w.before_spec() is None,
    {
        SequenceWindow { after_sequence: None, before_sequence: None }
    }

    pub fn after_sequence(self, sequence_no: CommandSequenceNo) -> (w: Self)
        ensures
            w == self.after_sequence_spec(sequence_no),
            w.after_spec() == Some(sequence_no),
            w.before_spec() == self.before_spec(),
    {
        SequenceWindow { after_sequence: Some(sequence_no), before_sequence: self.before_sequence }
    }

    pub fn before_sequence(self, sequence_no: CommandSequenceNo) -> (w: Self)
        ensures
            w == self.before_sequence_spec(sequence_no),
            w.before_spec() == Some(sequence_no),
            w.after_spec() == self.after_spec(),
    {
        SequenceWindow { after_sequence: self.after_sequence, before_sequence: Some(sequence_no) }
    }

    pub fn after_bound(&self) -> (r: Option<CommandSequenceNo>)
        ensures
            r == self.after_spec(),
    {
        self.after_sequence
    }

    pub fn before_bound(&self) -> (r: Option<CommandSequenceNo>)
        ensures
            r == self.before_spec(),
    {
        self.before_sequence
    }

    pub fn contains(&self, sequence_no: CommandSequenceNo) -> (r: bool)
        ensures
            r == self.contains_spec(sequence_no.0),
    {
        let after_ok = match self.after_sequence {
            None => true,
            Some(after) => sequence_no.0 > after.0,
        };
        let before_ok = match self.before_sequence {
            None => true,
            Some(before) => sequence_no.0 < before.0,
        };
        after_ok && before_ok
    }
}

/// The window with no bounds holds every sequence number; setting a bound
/// holds exactly the numbers strictly on its side that the other bound
/// still holds.
pub proof fn law_window_bounds(w: SequenceWindow, a: CommandSequenceNo, b: CommandSequenceNo, n: u64)
    ensures
        SequenceWindow::new_spec().contains_spec(n),
        w.after_sequence_spec(a).contains_spec(n) <==> (n > a.0 && (w.before_spec() matches Some(x) ==> n < x.0)),
        w.before_sequence_spec(b).contains_spec(n) <==> (n < b.0 && (w.after_spec() matches Some(x) ==> n > x.0)),
{
    SequenceWindow::lemma_new_unbounded();
    w.lemma_set_bound(a);
    w.lemma_set_bound(b);
}

} // verus!
