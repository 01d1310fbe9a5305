//! History queries over top-level commands and derived invocations.

use vstd::prelude::*;

use crate::execution::{
    CommandInvocationRef, DerivedInvocationRef, origin_sort_key, origin_sort_numbers,
    origin_sort_text,
};
use crate::graph::{collect_commands, collect_derived, commands_of, derived_of, SessionGraph};
use crate::order::{key_view, keys_sorted, sort_by_order_key, sorted_by_key, KeyPart, KeyPartView, OrderedByKey};
use crate::sequence::{CommandSequenceNo, SequenceWindow};

verus! {

/// Commands are listed by sequence number, then node id.
impl OrderedByKey for CommandInvocationRef {
    open spec fn order_key_view(&self) -> Seq<KeyPartView> {
        seq![KeyPartView::Num(self.sequence_no.0 as nat), KeyPartView::Text(self.node_id.0@)]
    }

    fn order_key(&self) -> (k: Vec<KeyPart>) {
        let mut k: Vec<KeyPart> = Vec::new();
        k.push(KeyPart::Num(self.sequence_no.0));
        k.push(KeyPart::Text(self.node_id.0.clone()));
        assert(key_view(k@) =~= self.order_key_view());
        k
    }
}

/// Derived invocations are listed by root sequence, depth, origin, derived
/// command index, then node id.
impl OrderedByKey for DerivedInvocationRef {
    open spec fn order_key_view(&self) -> Seq<KeyPartView> {
        let o = origin_sort_numbers(self.origin);
        seq![
            KeyPartView::Num(self.root_command_sequence_no.0 as nat),
            KeyPartView::Num(self.depth as nat),
            KeyPartView::Num(o.0 as nat),
            KeyPartView::Num(o.1 as nat),
            KeyPartView::Num(o.2 as nat),
            KeyPartView::Num(o.3 as nat),
            KeyPartView::Text(origin_sort_text(self.origin)),
            KeyPartView::Num(self.derived_command_index as nat),
            KeyPartView::Text(self.node_id.0@),
        ]
    }

    fn order_key(&self) -> (k: Vec<KeyPart>) {
        let (rank, a, b, c, text) = origin_sort_key(&self.origin);
        let mut k: Vec<KeyPart> = Vec::new();
        k.push(KeyPart::Num(self.root_command_sequence_no.0));
        k.push(KeyPart::Num(self.depth as u64));
        k.push(KeyPart::Num(rank as u64));
        k.push(KeyPart::Num(a as u64));
        k.push(KeyPart::Num(b as u64));
        k.push(KeyPart::Num(c as u64));
        k.push(KeyPart::Text(text));
        k.push(KeyPart::Num(self.derived_command_index as u64));
        k.push(KeyPart::Text(self.node_id.0.clone()));
        assert(key_view(k@) =~= self.order_key_view());
        k
    }
}

/// History of top-level commands whose sequence lies in a window.
#[derive(Debug, Clone, Copy)]
pub struct SessionCommandHistoryQuery {
    window: SequenceWindow,
}

#[derive(Debug)]
pub struct SessionCommandHistoryResult {
    pub commands: Vec<CommandInvocationRef>,
}

impl SessionCommandHistoryResult {
    pub fn len(&self) -> (r: usize)
        ensures
            r == self.commands@.len(),
    {
        self.commands.len()
    }

    pub fn is_empty(&self) -> (r: bool)
        ensures
            r == (self.commands@.len() == 0),
    {
        self.commands.len() == 0
    }
}

impl SessionCommandHistoryQuery {
    pub closed spec fn window_spec(&self) -> SequenceWindow {
        self.window
    }

    pub fn new() -> (q: Self)
        ensures
            q.window_spec() == SequenceWindow::new_spec(),
    {
        SessionCommandHistoryQuery { window: SequenceWindow::new() }
    }

    pub fn after_sequence(self, sequence_no: CommandSequenceNo) -> (q: Self)
        ensures
            q.window_spec() == self.window_spec().after_sequence_spec(sequence_no),
    {
        SessionCommandHistoryQuery { window: self.window.after_sequence(sequence_no) }
    }

    pub fn before_sequence(self, sequence_no: CommandSequenceNo) -> (q: Self)
        ensures
            q.window_spec() == self.window_spec().before_sequence_spec(sequence_no),
    {
        SessionCommandHistoryQuery { window: self.window.before_sequence(sequence_no) }
    }

    pub fn window(self, window: SequenceWindow) -> (q: Self)
        ensures
            q.window_spec() == window,
    {
        SessionCommandHistoryQuery { window }
    }

    /// The top-level commands of the graph whose sequence lies in the window,
    /// ordered by sequence number and node id.
    /// Rows with equal keys keep the order of the nodes that hold them.
    pub fn execute(&self, g: &SessionGraph) -> (r: SessionCommandHistoryResult)
        ensures
            keys_sorted(r.commands@),
            r.commands@ == sorted_by_key(commands_of(*g, g.nodes@.len() as int).filter(
                |c: CommandInvocationRef| self.window_spec().contains_spec(c.sequence_no.0),
            )),
            r.commands@.to_multiset() == commands_of(*g, g.nodes@.len() as int).filter(
                |c: CommandInvocationRef| self.window_spec().contains_spec(c.sequence_no.0),
            ).to_multiset(),
    {
        self.execute_on(collect_commands(g))
    }

    /// The commands of `commands` whose sequence lies in the window, ordered by
    /// sequence number and node id.
    /// Rows with equal keys keep their order in the input.
    pub fn execute_on(&self, commands: Vec<CommandInvocationRef>) -> (r: SessionCommandHistoryResult)
        ensures
            keys_sorted(r.commands@),
            r.commands@ == sorted_by_key(commands@.filter(
                |c: CommandInvocationRef| self.window_spec().contains_spec(c.sequence_no.0),
            )),
            r.commands@.to_multiset() == commands@.filter(
                |c: CommandInvocationRef| self.window_spec().contains_spec(c.sequence_no.0),
            ).to_multiset(),
    {
        let ghost pred = |c: CommandInvocationRef| self.window.contains_spec(c.sequence_no.0);
        let ghost all = commands@;
        proof {
            reveal_with_fuel(Seq::filter, 1);
            assert(all.subrange(0, 0).filter(pred) =~= Seq::<CommandInvocationRef>::empty());
        }
        let n = commands.len();
        let mut rest = commands;
        let mut kept: Vec<CommandInvocationRef> = Vec::new();
        let mut i: usize = 0;
        while rest.len() > 0
            invariant
                all.len() == n,
                i + rest@.len() == all.len(),
                rest@ == all.subrange(i as int, all.len() as int),
                kept@ == all.subrange(0, i as int).filter(pred),
                pred == (|c: CommandInvocationRef| self.window.contains_spec(c.sequence_no.0)),
            decreases rest.len(),
        {
            let c = rest.remove(0);
            let ghost next = all.subrange(0, i + 1);
            assert(next.drop_last() =~= all.subrange(0, i as int));
            assert(next.last() == c);
            let keep = self.window.contains(c.sequence_no);
            reveal_with_fuel(Seq::filter, 1);
            assert(next.filter(pred) == (if pred(c) {
                all.subrange(0, i as int).filter(pred).push(c)
            } else {
                all.subrange(0, i as int).filter(pred)
            }));
            if keep {
                kept.push(c);
            }
            i = i + 1;
            assert(rest@ =~= all.subrange(i as int, all.len() as int));
        }
        assert(all.subrange(0, all.len() as int) =~= all);
        SessionCommandHistoryResult { commands: sort_by_order_key(kept) }
    }
}

/// History of derived invocations whose root sequence lies in a window.
#[derive(Debug, Clone, Copy)]
pub struct DerivedInvocationHistoryQuery {
    window: SequenceWindow,
}

#[derive(Debug)]
pub struct DerivedInvocationHistoryResult {
    pub derived_invocations: Vec<DerivedInvocationRef>,
}

impl DerivedInvocationHistoryResult {
    pub fn len(&self) -> (r: usize)
        ensures
            r == self.derived_invocations@.len(),
    {
        self.derived_invocations.len()
    }

    pub fn is_empty(&self) -> (r: bool)
        ensures
            r == (self.derived_invocations@.len() == 0),
    {
        self.derived_invocations.len() == 0
    }
}

impl DerivedInvocationHistoryQuery {
    pub closed spec fn window_spec(&self) -> SequenceWindow {
        self.window
    }

    pub fn new() -> (q: Self)
        ensures
            q.window_spec() == SequenceWindow::new_spec(),
    {
        DerivedInvocationHistoryQuery { window: SequenceWindow::new() }
    }

    pub fn after_sequence(self, sequence_no: CommandSequenceNo) -> (q: Self)
        ensures
            q.window_spec() == self.window_spec().after_sequence_spec(sequence_no),
    {
        DerivedInvocationHistoryQuery { window: self.window.after_sequence(sequence_no) }
    }

    pub fn before_sequence(self, sequence_no: CommandSequenceNo) -> (q: Self)
        ensures
            q.window_spec() == self.window_spec().before_sequence_spec(sequence_no),
    {
        DerivedInvocationHistoryQuery { window: self.window.before_sequence(sequence_no) }
    }

    pub fn window(self, window: SequenceWindow) -> (q: Self)
        ensures
            q.window_spec() == window,
    {
        DerivedInvocationHistoryQuery { window }
    }

    /// The derived invocations of the graph whose root sequence lies in the
    /// window, in listing order.
    /// Rows with equal keys keep the order of the nodes that hold them.
    pub fn execute(&self, g: &SessionGraph) -> (r: DerivedInvocationHistoryResult)
        ensures
            keys_sorted(r.derived_invocations@),
            r.derived_invocations@ == sorted_by_key(derived_of(*g, g.nodes@.len() as int).filter(
                |d: DerivedInvocationRef| self.window_spec().contains_spec(d.root_command_sequence_no.0),
            )),
            r.derived_invocations@.to_multiset() == derived_of(*g, g.nodes@.len() as int).filter(
                |d: DerivedInvocationRef| self.window_spec().contains_spec(d.root_command_sequence_no.0),
            ).to_multiset(),
    {
        self.execute_on(collect_derived(g))
    }

    /// The invocations of `derived` whose root sequence lies in the window, in
    /// listing order.
    /// Rows with equal keys keep their order in the input.
    pub fn execute_on(&self, derived: Vec<DerivedInvocationRef>) -> (r: DerivedInvocationHistoryResult)
        ensures
            keys_sorted(r.derived_invocations@),
            r.derived_invocations@ == sorted_by_key(derived@.filter(
                |d: DerivedInvocationRef| self.window_spec().contains_spec(d.root_command_sequence_no.0),
            )),
            r.derived_invocations@.to_multiset() == derived@.filter(
                |d: DerivedInvocationRef| self.window_spec().contains_spec(d.root_command_sequence_no.0),
            ).to_multiset(),
    {
        let ghost pred = |d: DerivedInvocationRef| self.window.contains_spec(d.root_command_sequence_no.0);
        let ghost all = derived@;
        proof {
            reveal_with_fuel(Seq::filter, 1);
            assert(all.subrange(0, 0).filter(pred) =~= Seq::<DerivedInvocationRef>::empty());
        }
        let n = derived.len();
        let mut rest = derived;
        let mut kept: Vec<DerivedInvocationRef> = Vec::new();
        let mut i: usize = 0;
        while rest.len() > 0
            invariant
                all.len() == n,
                i + rest@.len() == all.len(),
                rest@ == all.subrange(i as int, all.len() as int),
                kept@ == all.subrange(0, i as int).filter(pred),
                pred == (|d: DerivedInvocationRef| self.window.contains_spec(d.root_command_sequence_no.0)),
            decreases rest.len(),
        {
            let d = rest.remove(0);
            let ghost next = all.subrange(0, i + 1);
            assert(next.drop_last() =~= all.subrange(0, i as int));
            assert(next.last() == d);
            let keep = self.window.contains(d.root_command_sequence_no);
            reveal_with_fuel(Seq::filter, 1);
            assert(next.filter(pred) == (if pred(d) {
                all.subrange(0, i as int).filter(pred).push(d)
            } else {
                all.subrange(0, i as int).filter(pred)
            }));
            if keep {
                kept.push(d);
            }
            i = i + 1;
            assert(rest@ =~= all.subrange(i as int, all.len() as int));
        }
        assert(all.subrange(0, all.len() as int) =~= all);
        DerivedInvocationHistoryResult { derived_invocations: sort_by_order_key(kept) }
    }
}

} // verus!
