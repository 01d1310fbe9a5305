//! Execution units (top-level commands and the invocations derived from
//! them), their origins, the order in which history queries list them, and
//! the history queries themselves over the units a session graph holds.

use vstd::prelude::*;

use crate::graph::{collect_units, units_of, GraphNode, SessionGraph};
use crate::node_ids::{
    lemma_top_level_command_index_round_trip, top_level_command_index_from_node_id, top_level_command_index_spec,
    top_level_command_text, NodeId, SessionId,
};
use crate::order::{
    key_less, key_lt, key_view, keys_sorted, lemma_filter_of_filter, lemma_key_order, lemma_sorted_by_key_filter,
    sort_by_order_key, sorted_by_key, KeyPart, KeyPartView, OrderedByKey,
};
use crate::sequence::{CommandSequenceNo, SequenceWindow};
use crate::text::{chars_of, contains_char, lex_compare};

verus! {

/// How a derived invocation came about.
#[derive(Debug, Clone, PartialEq, Eq)]
pub enum DerivedInvocationOrigin {
    NestedPayload { nested_record_id: usize },
    CommandSubstitutionBody { parent_node_id: String, token_index: usize, substitution_index: usize },
    CommandSubstitutionMaterialization { parent_node_id: String, command_index: usize },
    CommandSubstitutionAssignmentValue {
        parent_node_id: String,
        assignment_command_index: usize,
        assignment_index: usize,
        substitution_index: usize,
    },
    ProcessSubstitution { process_substitution_record_id: usize },
    ProcessSubstitutionBody {
        parent_node_id: String,
        location_kind: String,
        outer_index: usize,
        location_subindex: usize,
        substitution_index: usize,
    },
    Dispatch { dispatch_index: usize, source_command_index: usize, command_slot: String },
    AliasExpansion { source_command_index: usize, alias_name: String },
    FunctionExpansion { source_command_index: usize, function_name: String },
    ShellCommandStringPayload { command_index: usize },
    StaticXargs { child_index: usize },
    RecursivePayload { parent_node_id: String, command_index: usize },
    PipelineSegment { command_index: usize },
}

impl DerivedInvocationOrigin {
    /// An equal copy of the origin.
    pub fn duplicate(&self) -> (r: Self)
        ensures
            r == *self,
    {
        match self {
            DerivedInvocationOrigin::NestedPayload { nested_record_id } => {
                DerivedInvocationOrigin::NestedPayload { nested_record_id: *nested_record_id }
            },
            DerivedInvocationOrigin::CommandSubstitutionBody { parent_node_id, token_index, substitution_index } => {
                DerivedInvocationOrigin::CommandSubstitutionBody {
                    parent_node_id: parent_node_id.clone(),
                    token_index: *token_index,
                    substitution_index: *substitution_index,
                }
            },
            DerivedInvocationOrigin::CommandSubstitutionMaterialization { parent_node_id, command_index } => {
                DerivedInvocationOrigin::CommandSubstitutionMaterialization {
                    parent_node_id: parent_node_id.clone(),
                    command_index: *command_index,
                }
            },
            DerivedInvocationOrigin::CommandSubstitutionAssignmentValue {
                parent_node_id,
                assignment_command_index,
                assignment_index,
                substitution_index,
            } => DerivedInvocationOrigin::CommandSubstitutionAssignmentValue {
                parent_node_id: parent_node_id.clone(),
                assignment_command_index: *assignment_command_index,
                assignment_index: *assignment_index,
                substitution_index: *substitution_index,
            },
            DerivedInvocationOrigin::ProcessSubstitution { process_substitution_record_id } => {
                DerivedInvocationOrigin::ProcessSubstitution {
                    process_substitution_record_id: *process_substitution_record_id,
                }
            },
            DerivedInvocationOrigin::ProcessSubstitutionBody {
                parent_node_id,
                location_kind,
                outer_index,
                location_subindex,
                substitution_index,
            } => DerivedInvocationOrigin::ProcessSubstitutionBody {
                parent_node_id: parent_node_id.clone(),
                location_kind: location_kind.clone(),
                outer_index: *outer_index,
                location_subindex: *location_subindex,
                substitution_index: *substitution_index,
            },
            DerivedInvocationOrigin::Dispatch { dispatch_index, source_command_index, command_slot } => {
                DerivedInvocationOrigin::Dispatch {
                    dispatch_index: *dispatch_index,
                    source_command_index: *source_command_index,
                    command_slot: command_slot.clone(),
                }
            },
            DerivedInvocationOrigin::AliasExpansion { source_command_index, alias_name } => {
                DerivedInvocationOrigin::AliasExpansion {
                    source_command_index: *source_command_index,
                    alias_name: alias_name.clone(),
                }
            },
            DerivedInvocationOrigin::FunctionExpansion { source_command_index, function_name } => {
                DerivedInvocationOrigin::FunctionExpansion {
                    source_command_index: *source_command_index,
                    function_name: function_name.clone(),
                }
            },
            DerivedInvocationOrigin::ShellCommandStringPayload { command_index } => {
                DerivedInvocationOrigin::ShellCommandStringPayload { command_index: *command_index }
            },
            DerivedInvocationOrigin::StaticXargs { child_index } => {
                DerivedInvocationOrigin::StaticXargs { child_index: *child_index }
            },
            DerivedInvocationOrigin::RecursivePayload { parent_node_id, command_index } => {
                DerivedInvocationOrigin::RecursivePayload {
                    parent_node_id: parent_node_id.clone(),
                    command_index: *command_index,
                }
            },
            DerivedInvocationOrigin::PipelineSegment { command_index } => {
                DerivedInvocationOrigin::PipelineSegment { command_index: *command_index }
            },
        }
    }
}

/// Rank of an origin among the invocations derived at one depth.
pub open spec fn derived_origin_rank_spec(origin: DerivedInvocationOrigin) -> u8 {
    match origin {
        DerivedInvocationOrigin::PipelineSegment { .. } => 1,
        DerivedInvocationOrigin::CommandSubstitutionMaterialization { .. } => 2,
        DerivedInvocationOrigin::CommandSubstitutionAssignmentValue { .. } => 3,
        DerivedInvocationOrigin::CommandSubstitutionBody { .. } => 4,
        DerivedInvocationOrigin::ProcessSubstitution { .. } => 5,
        DerivedInvocationOrigin::ProcessSubstitutionBody { .. } => 6,
        DerivedInvocationOrigin::AliasExpansion { .. } => 7,
        DerivedInvocationOrigin::FunctionExpansion { .. } => 8,
        DerivedInvocationOrigin::Dispatch { .. } => 9,
        DerivedInvocationOrigin::ShellCommandStringPayload { .. } => 10,
        DerivedInvocationOrigin::StaticXargs { .. } => 11,
        DerivedInvocationOrigin::RecursivePayload { .. } => 12,
        DerivedInvocationOrigin::NestedPayload { .. } => 13,
    }
}

pub fn derived_origin_rank(origin: &DerivedInvocationOrigin) -> (r: u8)
    ensures
        r == derived_origin_rank_spec(*origin),
{
    match origin {
        DerivedInvocationOrigin::PipelineSegment { .. } => 1,
        DerivedInvocationOrigin::CommandSubstitutionMaterialization { .. } => 2,
        DerivedInvocationOrigin::CommandSubstitutionAssignmentValue { .. } => 3,
        DerivedInvocationOrigin::CommandSubstitutionBody { .. } => 4,
        DerivedInvocationOrigin::ProcessSubstitution { .. } => 5,
        DerivedInvocationOrigin::ProcessSubstitutionBody { .. } => 6,
        DerivedInvocationOrigin::AliasExpansion { .. } => 7,
        DerivedInvocationOrigin::FunctionExpansion { .. } => 8,
        DerivedInvocationOrigin::Dispatch { .. } => 9,
        DerivedInvocationOrigin::ShellCommandStringPayload { .. } => 10,
        DerivedInvocationOrigin::StaticXargs { .. } => 11,
        DerivedInvocationOrigin::RecursivePayload { .. } => 12,
        DerivedInvocationOrigin::NestedPayload { .. } => 13,
    }
}

/// The top-level command an origin points back to, where it names one.
pub open spec fn derived_origin_root_command_index_spec(origin: DerivedInvocationOrigin) -> Option<usize> {
    match origin {
        DerivedInvocationOrigin::PipelineSegment { command_index } => Some(command_index),
        DerivedInvocationOrigin::ShellCommandStringPayload { command_index } => Some(command_index),
        DerivedInvocationOrigin::CommandSubstitutionMaterialization { command_index, .. } => Some(
            command_index,
        ),
        DerivedInvocationOrigin::Dispatch { source_command_index, .. } => Some(source_command_index),
        DerivedInvocationOrigin::AliasExpansion { source_command_index, .. } => Some(
            source_command_index,
        ),
        DerivedInvocationOrigin::FunctionExpansion { source_command_index, .. } => Some(
            source_command_index,
        ),
        DerivedInvocationOrigin::CommandSubstitutionAssignmentValue {
            assignment_command_index,
            ..
        } => Some(assignment_command_index),
        _ => None,
    }
}

pub fn derived_origin_root_command_index(origin: &DerivedInvocationOrigin) -> (r: Option<usize>)
    ensures
        r == derived_origin_root_command_index_spec(*origin),
{
    match origin {
        DerivedInvocationOrigin::PipelineSegment { command_index }
        | DerivedInvocationOrigin::ShellCommandStringPayload { command_index }
        | DerivedInvocationOrigin::CommandSubstitutionMaterialization { command_index, .. } => Some(
            *command_index,
        ),
        DerivedInvocationOrigin::Dispatch { source_command_index, .. }
        | DerivedInvocationOrigin::AliasExpansion { source_command_index, .. }
        | DerivedInvocationOrigin::FunctionExpansion { source_command_index, .. } => Some(
            *source_command_index,
        ),
        DerivedInvocationOrigin::CommandSubstitutionAssignmentValue {
            assignment_command_index,
            ..
        } => Some(*assignment_command_index),
        DerivedInvocationOrigin::NestedPayload { .. }
        | DerivedInvocationOrigin::CommandSubstitutionBody { .. }
        | DerivedInvocationOrigin::ProcessSubstitution { .. }
        | DerivedInvocationOrigin::ProcessSubstitutionBody { .. }
        | DerivedInvocationOrigin::RecursivePayload { .. }
        | DerivedInvocationOrigin::StaticXargs { .. } => None,
    }
}

/// Numeric part of the key that orders derived invocations by origin.
pub open spec fn origin_sort_numbers(origin: DerivedInvocationOrigin) -> (u8, usize, usize, usize) {
    match origin {
        DerivedInvocationOrigin::NestedPayload { nested_record_id } => (0, nested_record_id, 0, 0),
        DerivedInvocationOrigin::CommandSubstitutionBody { token_index, substitution_index, .. } => (
            2,
            token_index,
            substitution_index,
            0,
        ),
        DerivedInvocationOrigin::CommandSubstitutionMaterialization { command_index, .. } => (
            3,
            command_index,
            0,
            0,
        ),
        DerivedInvocationOrigin::CommandSubstitutionAssignmentValue {
            assignment_command_index,
            assignment_index,
            substitution_index,
            ..
        } => (4, assignment_command_index, assignment_index, substitution_index),
        DerivedInvocationOrigin::ProcessSubstitution { process_substitution_record_id } => (
            5,
            process_substitution_record_id,
            0,
            0,
        ),
        DerivedInvocationOrigin::ProcessSubstitutionBody {
            outer_index,
            location_subindex,
            substitution_index,
            ..
        } => (6, outer_index, location_subindex, substitution_index),
        DerivedInvocationOrigin::Dispatch { dispatch_index, source_command_index, .. } => (
            7,
            source_command_index,
            dispatch_index,
            0,
        ),
        DerivedInvocationOrigin::AliasExpansion { source_command_index, .. } => (
            8,
            source_command_index,
            0,
            0,
        ),
        DerivedInvocationOrigin::FunctionExpansion { source_command_index, .. } => (
            9,
            source_command_index,
            0,
            0,
        ),
        DerivedInvocationOrigin::ShellCommandStringPayload { command_index } => (
            10,
            command_index,
            0,
            0,
        ),
        DerivedInvocationOrigin::StaticXargs { child_index } => (11, child_index, 0, 0),
        DerivedInvocationOrigin::RecursivePayload { command_index, .. } => (12, command_index, 0, 0),
        DerivedInvocationOrigin::PipelineSegment { command_index } => (13, command_index, 0, 0),
    }
}

/// Text part of the key that orders derived invocations by origin.
pub open spec fn origin_sort_text(origin: DerivedInvocationOrigin) -> Seq<char> {
    match origin {
        DerivedInvocationOrigin::CommandSubstitutionBody { parent_node_id, .. } => parent_node_id@,
        DerivedInvocationOrigin::CommandSubstitutionMaterialization { parent_node_id, .. } => parent_node_id@,
        DerivedInvocationOrigin::CommandSubstitutionAssignmentValue { parent_node_id, .. } => parent_node_id@,
        DerivedInvocationOrigin::ProcessSubstitutionBody { parent_node_id, .. } => parent_node_id@,
        DerivedInvocationOrigin::Dispatch { command_slot, .. } => command_slot@,
        DerivedInvocationOrigin::AliasExpansion { alias_name, .. } => alias_name@,
        DerivedInvocationOrigin::FunctionExpansion { function_name, .. } => function_name@,
        DerivedInvocationOrigin::RecursivePayload { parent_node_id, .. } => parent_node_id@,
        _ => Seq::empty(),
    }
}

/// The origin's sort key: `(rank, a, b, c, text)`.
pub fn origin_sort_key(origin: &DerivedInvocationOrigin) -> (r: (u8, usize, usize, usize, String))
    ensures
        (r.0, r.1, r.2, r.3) == origin_sort_numbers(*origin),
        r.4@ == origin_sort_text(*origin),
{
    match origin {
        DerivedInvocationOrigin::NestedPayload { nested_record_id } => (
            0,
            *nested_record_id,
            0,
            0,
            String::new(),
        ),
        DerivedInvocationOrigin::CommandSubstitutionBody {
            parent_node_id,
            token_index,
            substitution_index,
        } => (2, *token_index, *substitution_index, 0, parent_node_id.clone()),
        DerivedInvocationOrigin::CommandSubstitutionMaterialization { parent_node_id, command_index } => (
            3,
            *command_index,
            0,
            0,
            parent_node_id.clone(),
        ),
        DerivedInvocationOrigin::CommandSubstitutionAssignmentValue {
            parent_node_id,
            assignment_command_index,
            assignment_index,
            substitution_index,
        } => (
            4,
            *assignment_command_index,
            *assignment_index,
            *substitution_index,
            parent_node_id.clone(),
        ),
        DerivedInvocationOrigin::ProcessSubstitution { process_substitution_record_id } => (
            5,
            *process_substitution_record_id,
            0,
            0,
            String::new(),
        ),
        DerivedInvocationOrigin::ProcessSubstitutionBody {
            parent_node_id,
            outer_index,
            location_subindex,
            substitution_index,
            ..
        } => (6, *outer_index, *location_subindex, *substitution_index, parent_node_id.clone()),
        DerivedInvocationOrigin::Dispatch { dispatch_index, source_command_index, command_slot } => (
            7,
            *source_command_index,
            *dispatch_index,
            0,
            command_slot.clone(),
        ),
        DerivedInvocationOrigin::AliasExpansion { source_command_index, alias_name } => (
            8,
            *source_command_index,
            0,
            0,
            alias_name.clone(),
        ),
        DerivedInvocationOrigin::FunctionExpansion { source_command_index, function_name } => (
            9,
            *source_command_index,
            0,
            0,
            function_name.clone(),
        ),
        DerivedInvocationOrigin::ShellCommandStringPayload { command_index } => (
            10,
            *command_index,
            0,
            0,
            String::new(),
        ),
        DerivedInvocationOrigin::StaticXargs { child_index } => (11, *child_index, 0, 0, String::new()),
        DerivedInvocationOrigin::RecursivePayload { parent_node_id, command_index } => (
            12,
            *command_index,
            0,
            0,
            parent_node_id.clone(),
        ),
        DerivedInvocationOrigin::PipelineSegment { command_index } => (
            13,
            *command_index,
            0,
            0,
            String::new(),
        ),
    }
}

/// The shell a command ran in.
#[derive(Debug, Clone, Copy, PartialEq, Eq, Structural)]
pub enum ShellKind {
    Bash,
}

/// A top-level command invocation recorded in the session graph.
#[derive(Debug)]
pub struct CommandInvocationRef {
    pub node_id: NodeId,
    pub session_id: SessionId,
    pub sequence_no: CommandSequenceNo,
    pub raw_text: String,
    pub cwd_before: String,
    pub shell_kind: ShellKind,
}

/// An invocation derived from a top-level command (pipeline segment,
/// expansion, dispatch, nested payload, ...).
#[derive(Debug)]
pub struct DerivedInvocationRef {
    pub node_id: NodeId,
    pub root_command_sequence_no: CommandSequenceNo,
    pub origin: DerivedInvocationOrigin,
    pub derived_command_index: usize,
    pub raw_text: String,
    pub command_name: Option<String>,
    pub shell_kind: ShellKind,
    pub depth: u8,
}

impl CommandInvocationRef {
    /// The command a node holds, if it is a top-level command.
    pub fn from_node(node: &GraphNode) -> (r: Option<&CommandInvocationRef>)
        ensures
            match *node {
                GraphNode::Unit(ExecutionUnitRef::TopLevel(c)) => r matches Some(v) && *v == c,
                _ => r is None,
            },
    {
        match node {
            GraphNode::Unit(ExecutionUnitRef::TopLevel(c)) => Some(c),
            _ => None,
        }
    }

    /// An equal copy of the command.
    pub fn duplicate(&self) -> (r: Self)
        ensures
            r == *self,
    {
        CommandInvocationRef {
            node_id: NodeId(self.node_id.0.clone()),
            session_id: SessionId(self.session_id.0.clone()),
            sequence_no: self.sequence_no,
            raw_text: self.raw_text.clone(),
            cwd_before: self.cwd_before.clone(),
            shell_kind: self.shell_kind,
        }
    }
}

impl DerivedInvocationRef {
    /// The invocation a node holds, if it is a derived invocation.
    pub fn from_node(node: &GraphNode) -> (r: Option<&DerivedInvocationRef>)
        ensures
            match *node {
                GraphNode::Unit(ExecutionUnitRef::Derived(d)) => r matches Some(v) && *v == d,
                _ => r is None,
            },
    {
        match node {
            GraphNode::Unit(ExecutionUnitRef::Derived(d)) => Some(d),
            _ => None,
        }
    }

    /// An equal copy of the invocation.
    pub fn duplicate(&self) -> (r: Self)
        ensures
            r == *self,
    {
        DerivedInvocationRef {
            node_id: NodeId(self.node_id.0.clone()),
            root_command_sequence_no: self.root_command_sequence_no,
            origin: self.origin.duplicate(),
            derived_command_index: self.derived_command_index,
            raw_text: self.raw_text.clone(),
            command_name: match &self.command_name {
                Some(name) => Some(name.clone()),
                None => None,
            },
            shell_kind: self.shell_kind,
            depth: self.depth,
        }
    }

    pub fn nested_record_id(&self) -> (r: Option<usize>)
        ensures
            r == (match self.origin {
                DerivedInvocationOrigin::NestedPayload { nested_record_id } => Some(nested_record_id),
                _ => None,
            }),
    {
        match &self.origin {
            DerivedInvocationOrigin::NestedPayload { nested_record_id } => Some(*nested_record_id),
            _ => None,
        }
    }

    pub fn pipeline_command_index(&self) -> (r: Option<usize>)
        ensures
            r == (match self.origin {
                DerivedInvocationOrigin::PipelineSegment { command_index } => Some(command_index),
                _ => None,
            }),
    {
        match &self.origin {
            DerivedInvocationOrigin::PipelineSegment { command_index } => Some(*command_index),
            _ => None,
        }
    }
}

/// Whether an execution unit is a top-level command or a derived invocation.
#[derive(Debug, Clone, Copy, PartialEq, Eq, Structural)]
pub enum ExecutionUnitOrigin {
    TopLevel,
    Derived,
}

/// A unit of execution: a top-level command or a derived invocation.
#[derive(Debug)]
pub enum ExecutionUnitRef {
    TopLevel(CommandInvocationRef),
    Derived(DerivedInvocationRef),
}

impl ExecutionUnitRef {
    pub open spec fn node_id_view(&self) -> Seq<char> {
        match self {
            ExecutionUnitRef::TopLevel(c) => c.node_id.0@,
            ExecutionUnitRef::Derived(d) => d.node_id.0@,
        }
    }

    pub open spec fn root_sequence_spec(&self) -> u64 {
        match self {
            ExecutionUnitRef::TopLevel(c) => c.sequence_no.0,
            ExecutionUnitRef::Derived(d) => d.root_command_sequence_no.0,
        }
    }

    pub open spec fn depth_spec(&self) -> u8 {
        match self {
            ExecutionUnitRef::TopLevel(_) => 0,
            ExecutionUnitRef::Derived(d) => d.depth,
        }
    }

    /// An equal copy of the unit.
    pub fn duplicate(&self) -> (r: Self)
        ensures
            r == *self,
    {
        match self {
            ExecutionUnitRef::TopLevel(c) => ExecutionUnitRef::TopLevel(c.duplicate()),
            ExecutionUnitRef::Derived(d) => ExecutionUnitRef::Derived(d.duplicate()),
        }
    }

    /// The unit a node holds, if it is an execution unit.
    pub fn from_node(node: &GraphNode) -> (r: Option<&ExecutionUnitRef>)
        ensures
            match *node {
                GraphNode::Unit(u) => r matches Some(v) && *v == u,
                _ => r is None,
            },
    {
        match node {
            GraphNode::Unit(u) => Some(u),
            _ => None,
        }
    }

    pub fn raw_text(&self) -> (r: &String)
        ensures
            *r == match *self {
                ExecutionUnitRef::TopLevel(c) => c.raw_text,
                ExecutionUnitRef::Derived(d) => d.raw_text,
            },
    {
        match self {
            ExecutionUnitRef::TopLevel(c) => &c.raw_text,
            ExecutionUnitRef::Derived(d) => &d.raw_text,
        }
    }

    pub fn shell_kind(&self) -> (r: ShellKind)
        ensures
            r == match *self {
                ExecutionUnitRef::TopLevel(c) => c.shell_kind,
                ExecutionUnitRef::Derived(d) => d.shell_kind,
            },
    {
        match self {
            ExecutionUnitRef::TopLevel(c) => c.shell_kind,
            ExecutionUnitRef::Derived(d) => d.shell_kind,
        }
    }

    /// The top-level command, if the unit is one.
    pub fn top_level(&self) -> (r: Option<&CommandInvocationRef>)
        ensures
            match *self {
                ExecutionUnitRef::TopLevel(c) => r matches Some(v) && *v == c,
                ExecutionUnitRef::Derived(_) => r is None,
            },
    {
        match self {
            ExecutionUnitRef::TopLevel(c) => Some(c),
            ExecutionUnitRef::Derived(_) => None,
        }
    }

    /// The derived invocation, if the unit is one.
    pub fn derived(&self) -> (r: Option<&DerivedInvocationRef>)
        ensures
            match *self {
                ExecutionUnitRef::TopLevel(_) => r is None,
                ExecutionUnitRef::Derived(d) => r matches Some(v) && *v == d,
            },
    {
        match self {
            ExecutionUnitRef::TopLevel(_) => None,
            ExecutionUnitRef::Derived(d) => Some(d),
        }
    }

    pub fn origin(&self) -> (r: ExecutionUnitOrigin)
        ensures
            r == (if self is TopLevel {
                ExecutionUnitOrigin::TopLevel
            } else {
                ExecutionUnitOrigin::Derived
            }),
    {
        match self {
            ExecutionUnitRef::TopLevel(_) => ExecutionUnitOrigin::TopLevel,
            ExecutionUnitRef::Derived(_) => ExecutionUnitOrigin::Derived,
        }
    }

    pub fn node_id(&self) -> (r: &NodeId)
        ensures
            r.0@ == self.node_id_view(),
    {
        match self {
            ExecutionUnitRef::TopLevel(c) => &c.node_id,
            ExecutionUnitRef::Derived(d) => &d.node_id,
        }
    }

    pub fn root_command_sequence_no(&self) -> (r: CommandSequenceNo)
        ensures
            r.0 == self.root_sequence_spec(),
    {
        match self {
            ExecutionUnitRef::TopLevel(c) => c.sequence_no,
            ExecutionUnitRef::Derived(d) => d.root_command_sequence_no,
        }
    }

    pub fn depth(&self) -> (r: u8)
        ensures
            r == self.depth_spec(),
    {
        match self {
            ExecutionUnitRef::TopLevel(_) => 0,
            ExecutionUnitRef::Derived(d) => d.depth,
        }
    }
}

/// The key by which execution units are listed.
#[derive(Debug, Clone, PartialEq, Eq, PartialOrd, Ord)]
pub struct ExecutionUnitOrderKey {
    pub sequence_no: u64,
    pub root_command_index: usize,
    pub depth: u8,
    pub origin_rank: u8,
    pub derived_command_index: usize,
    pub node_id: String,
}

impl ExecutionUnitOrderKey {
    /// The key as a sequence of components, compared lexicographically.
    pub open spec fn parts(&self) -> Seq<KeyPartView> {
        seq![
            KeyPartView::Num(self.sequence_no as nat),
            KeyPartView::Num(self.root_command_index as nat),
            KeyPartView::Num(self.depth as nat),
            KeyPartView::Num(self.origin_rank as nat),
            KeyPartView::Num(self.derived_command_index as nat),
            KeyPartView::Text(self.node_id@),
        ]
    }

    pub fn to_parts(&self) -> (r: Vec<KeyPart>)
        ensures
            key_view(r@) == self.parts(),
    {
        let mut r: Vec<KeyPart> = Vec::new();
        r.push(KeyPart::Num(self.sequence_no));
        r.push(KeyPart::Num(self.root_command_index as u64));
        r.push(KeyPart::Num(self.depth as u64));
        r.push(KeyPart::Num(self.origin_rank as u64));
        r.push(KeyPart::Num(self.derived_command_index as u64));
        r.push(KeyPart::Text(self.node_id.clone()));
        assert(key_view(r@) =~= self.parts());
        r
    }
}

/// The order key of an execution unit: root sequence, root command index,
/// depth, origin rank, derived command index, node id. A top-level command
/// whose id names no command index sorts after every indexed command of its
/// sequence.
pub open spec fn order_key_spec(unit: ExecutionUnitRef) -> Seq<KeyPartView> {
    match unit {
        ExecutionUnitRef::TopLevel(c) => seq![
            KeyPartView::Num(c.sequence_no.0 as nat),
            KeyPartView::Num(
                (match top_level_command_index_spec(c.node_id.0@) {
                    Some(i) => i,
                    None => usize::MAX,
                }) as nat,
            ),
            KeyPartView::Num(0),
            KeyPartView::Num(0),
            KeyPartView::Num(0),
            KeyPartView::Text(c.node_id.0@),
        ],
        ExecutionUnitRef::Derived(d) => seq![
            KeyPartView::Num(d.root_command_sequence_no.0 as nat),
            KeyPartView::Num(
                (match derived_origin_root_command_index_spec(d.origin) {
                    Some(i) => i,
                    None => d.derived_command_index,
                }) as nat,
            ),
            KeyPartView::Num(d.depth as nat),
            KeyPartView::Num(derived_origin_rank_spec(d.origin) as nat),
            KeyPartView::Num(d.derived_command_index as nat),
            KeyPartView::Text(d.node_id.0@),
        ],
    }
}

pub fn execution_unit_order_key(unit: &ExecutionUnitRef) -> (r: ExecutionUnitOrderKey)
    ensures
        r.parts() == order_key_spec(*unit),
{
    match unit {
        ExecutionUnitRef::TopLevel(command) => {
            let index = match top_level_command_index_from_node_id(&command.node_id) {
                Some(i) => i,
                None => usize::MAX,
            };
            let r = ExecutionUnitOrderKey {
                sequence_no: command.sequence_no.0,
                root_command_index: index,
                depth: 0,
                origin_rank: 0,
                derived_command_index: 0,
                node_id: command.node_id.0.clone(),
            };
            assert(r.parts() =~= order_key_spec(*unit));
            r
        },
        ExecutionUnitRef::Derived(derived) => {
            let index = match derived_origin_root_command_index(&derived.origin) {
                Some(i) => i,
                None => derived.derived_command_index,
            };
            let r = ExecutionUnitOrderKey {
                sequence_no: derived.root_command_sequence_no.0,
                root_command_index: index,
                depth: derived.depth,
                origin_rank: derived_origin_rank(&derived.origin),
                derived_command_index: derived.derived_command_index,
                node_id: derived.node_id.0.clone(),
            };
            assert(r.parts() =~= order_key_spec(*unit));
            r
        },
    }
}

/// Whether `left` is listed strictly before `right`.
pub fn execution_unit_precedes(left: &ExecutionUnitRef, right: &ExecutionUnitRef) -> (r: bool)
    ensures
        r == key_lt(order_key_spec(*left), order_key_spec(*right)),
{
    let lk = execution_unit_order_key(left).to_parts();
    let rk = execution_unit_order_key(right).to_parts();
    key_less(&lk, &rk)
}

impl OrderedByKey for ExecutionUnitRef {
    open spec fn order_key_view(&self) -> Seq<KeyPartView> {
        order_key_spec(*self)
    }

    fn order_key(&self) -> (k: Vec<KeyPart>) {
        execution_unit_order_key(self).to_parts()
    }
}


/// The position of the first unit whose node id is `id`.
pub open spec fn first_unit_with_id(units: Seq<ExecutionUnitRef>, id: Seq<char>) -> Option<int>
    decreases units.len(),
{
    if units.len() == 0 {
        None
    } else {
        match first_unit_with_id(units.drop_last(), id) {
            Some(i) => Some(i),
            None => if units.last().node_id_view() == id {
                Some(units.len() - 1)
            } else {
                None
            },
        }
    }
}

/// The key of the unit a history query is bounded by, if its node id names
/// one of the units.
pub open spec fn bound_key(units: Seq<ExecutionUnitRef>, id: Option<NodeId>) -> Option<Seq<KeyPartView>> {
    match id {
        None => None,
        Some(n) => match first_unit_with_id(units, n.0@) {
            Some(i) => Some(order_key_spec(units[i])),
            None => None,
        },
    }
}

/// Whether a unit belongs in an execution-unit history: its root sequence
/// lies in the window, and it precedes the bounding unit, if any.
pub open spec fn in_unit_history(
    u: ExecutionUnitRef,
    window: SequenceWindow,
    bound: Option<Seq<KeyPartView>>,
) -> bool {
    &&& window.contains_spec(u.root_sequence_spec())
    &&& (bound matches Some(k) ==> key_lt(order_key_spec(u), k))
}

/// History of execution units (top-level and derived) in listing order.
#[derive(Debug)]
pub struct ExecutionUnitHistoryQuery {
    window: SequenceWindow,
    before_execution_unit_node_id: Option<NodeId>,
}

/// The execution units a history query selected, in listing order.
#[derive(Debug)]
pub struct ExecutionUnitHistoryResult {
    pub execution_units: Vec<ExecutionUnitRef>,
}

impl ExecutionUnitHistoryResult {
    pub fn len(&self) -> (r: usize)
        ensures
            r == self.execution_units@.len(),
    {
        self.execution_units.len()
    }

    pub fn is_empty(&self) -> (r: bool)
        ensures
            r == (self.execution_units@.len() == 0),
    {
        self.execution_units.len() == 0
    }
}

fn find_unit_key(units: &Vec<ExecutionUnitRef>, id: &NodeId) -> (r: Option<Vec<KeyPart>>)
    ensures
        match r {
            Some(k) => bound_key(units@, Some(*id)) == Some(key_view(k@)),
            None => bound_key(units@, Some(*id)) is None,
        },
{
    let target = chars_of(id.0.as_str());
    let mut i: usize = 0;
    while i < units.len()
        invariant
            0 <= i <= units.len(),
            target@ == id.0@,
            first_unit_with_id(units@.subrange(0, i as int), id.0@) is None,
        decreases units.len() - i,
    {
        let ghost pre = units@.subrange(0, i as int);
        let ghost next = units@.subrange(0, i + 1);
        assert(next.drop_last() =~= pre);
        let candidate = chars_of(units[i].node_id().0.as_str());
        if lex_compare(&candidate, &target) == 0 {
            proof {
                assert(next.last() == units@[i as int]);
                assert(first_unit_with_id(next, id.0@) == Some(i as int));
                lemma_first_unit_prefix(units@, id.0@, (i + 1) as int);
            }
            let k = units[i].order_key();
            return Some(k);
        }
        i = i + 1;
    }
    assert(units@.subrange(0, units@.len() as int) =~= units@);
    None
}

/// The first match, if any, is a unit of the sequence with that node id.
proof fn lemma_first_unit_in_range(units: Seq<ExecutionUnitRef>, id: Seq<char>)
    ensures
        first_unit_with_id(units, id) matches Some(i) ==> 0 <= i < units.len()
            && units[i].node_id_view() == id,
    decreases units.len(),
{
    if units.len() > 0 {
        lemma_first_unit_in_range(units.drop_last(), id);
    }
}

/// The first match in a prefix is the first match overall.
proof fn lemma_first_unit_prefix(units: Seq<ExecutionUnitRef>, id: Seq<char>, k: int)
    requires
        0 <= k <= units.len(),
        first_unit_with_id(units.subrange(0, k), id) is Some,
    ensures
        first_unit_with_id(units, id) == first_unit_with_id(units.subrange(0, k), id),
    decreases units.len() - k,
{
    if k < units.len() {
        assert(units.drop_last().subrange(0, k) =~= units.subrange(0, k));
        lemma_first_unit_prefix(units.drop_last(), id, k);
    } else {
        assert(units.subrange(0, k) =~= units);
    }
}

/// Whether `listed` is an execution-unit history of the graph: the units
/// whose root sequence lies in the window and that come strictly before the
/// bounding unit, when the bounding node id names a unit, sorted stably by
/// key from node order.
pub open spec fn listed_unit_history(
    g: SessionGraph,
    window: SequenceWindow,
    before: Option<NodeId>,
    listed: Seq<ExecutionUnitRef>,
) -> bool {
    let units = units_of(g, g.nodes@.len() as int);
    &&& listed == sorted_by_key(
        units.filter(|u: ExecutionUnitRef| in_unit_history(u, window, bound_key(units, before))),
    )
    &&& keys_sorted(listed)
    &&& listed.to_multiset() == units.filter(
        |u: ExecutionUnitRef| in_unit_history(u, window, bound_key(units, before)),
    ).to_multiset()
}

impl ExecutionUnitHistoryQuery {
    pub closed spec fn window_spec(&self) -> SequenceWindow {
        self.window
    }

    pub closed spec fn before_spec(&self) -> Option<NodeId> {
        self.before_execution_unit_node_id
    }

    pub fn new() -> (q: Self)
        ensures
            q.window_spec() == SequenceWindow::new_spec(),
            q.before_spec() is None,
    {
        ExecutionUnitHistoryQuery { window: SequenceWindow::new(), before_execution_unit_node_id: None }
    }

    pub fn after_sequence(self, sequence_no: CommandSequenceNo) -> (q: Self)
        ensures
            q.window_spec() == self.window_spec().after_sequence_spec(sequence_no),
            q.before_spec() == self.before_spec(),
    {
        let window = self.window.after_sequence(sequence_no);
        ExecutionUnitHistoryQuery { window, before_execution_unit_node_id: self.before_execution_unit_node_id }
    }

    pub fn before_sequence(self, sequence_no: CommandSequenceNo) -> (q: Self)
        ensures
            q.window_spec() == self.window_spec().before_sequence_spec(sequence_no),
            q.before_spec() == self.before_spec(),
    {
        let window = self.window.before_sequence(sequence_no);
        ExecutionUnitHistoryQuery { window, before_execution_unit_node_id: self.before_execution_unit_node_id }
    }

    pub fn before_execution_unit_node_id(self, node_id: NodeId) -> (q: Self)
        ensures
            q.window_spec() == self.window_spec(),
            q.before_spec() == Some(node_id),
    {
        ExecutionUnitHistoryQuery { window: self.window, before_execution_unit_node_id: Some(node_id) }
    }

    pub fn window(self, window: SequenceWindow) -> (q: Self)
        ensures
            q.window_spec() == window,
            q.before_spec() == self.before_spec(),
    {
        ExecutionUnitHistoryQuery { window, before_execution_unit_node_id: self.before_execution_unit_node_id }
    }

    /// Lists, in order, the execution units of the graph whose root sequence
    /// lies in the window and that come strictly before the bounding unit,
    /// when the bounding node id names a unit.
    pub fn execute(&self, g: &SessionGraph) -> (r: ExecutionUnitHistoryResult)
        ensures
            listed_unit_history(*g, self.window_spec(), self.before_spec(), r.execution_units@),
    {
        self.execute_on(collect_units(g))
    }

    /// Lists, in order, the units of `units` (all execution units of the
    /// session) whose root sequence lies in the window and that come strictly
    /// before the bounding unit, when the bounding node id names a unit.
    /// Rows with equal keys keep their order in the input.
    pub fn execute_on(&self, units: Vec<ExecutionUnitRef>) -> (r: ExecutionUnitHistoryResult)
        ensures
            keys_sorted(r.execution_units@),
            r.execution_units@ == sorted_by_key(units@.filter(
                |u: ExecutionUnitRef| in_unit_history(u, self.window_spec(), bound_key(units@, self.before_spec())),
            )),
            r.execution_units@.to_multiset() == units@.filter(
                |u: ExecutionUnitRef| in_unit_history(u, self.window_spec(), bound_key(units@, self.before_spec())),
            ).to_multiset(),
    {
        let bound: Option<Vec<KeyPart>> = match &self.before_execution_unit_node_id {
            Some(id) => find_unit_key(&units, id),
            None => None,
        };
        let ghost bk = bound_key(units@, self.before_execution_unit_node_id);
        let ghost pred = |u: ExecutionUnitRef| in_unit_history(u, self.window, bk);
        let ghost all = units@;
        proof {
            reveal_with_fuel(Seq::filter, 1);
            assert(all.subrange(0, 0).filter(pred) =~= Seq::<ExecutionUnitRef>::empty());
        }
        let n = units.len();
        let mut rest = units;
        let mut kept: Vec<ExecutionUnitRef> = Vec::new();
        let mut i: usize = 0;
        while rest.len() > 0
            invariant
                all.len() == n,
                i + rest@.len() == all.len(),
                rest@ == all.subrange(i as int, all.len() as int),
                kept@ == all.subrange(0, i as int).filter(pred),
                match bound {
                    Some(k) => bk == Some(key_view(k@)),
                    None => bk is None,
                },
                pred == (|u: ExecutionUnitRef| in_unit_history(u, self.window, bk)),
            decreases rest.len(),
        {
            let u = rest.remove(0);
            let ghost next = all.subrange(0, i + 1);
            assert(next.drop_last() =~= all.subrange(0, i as int));
            assert(next.last() == u);
            let in_window = self.window.contains(u.root_command_sequence_no());
            let keep = in_window && match &bound {
                None => true,
                Some(k) => {
                    let uk = u.order_key();
                    key_less(&uk, k)
                },
            };
            assert(keep == pred(u));
            reveal_with_fuel(Seq::filter, 1);
            assert(next.filter(pred) == (if pred(u) {
                all.subrange(0, i as int).filter(pred).push(u)
            } else {
                all.subrange(0, i as int).filter(pred)
            }));
            if keep {
                kept.push(u);
            }
            i = i + 1;
            assert(rest@ =~= all.subrange(i as int, all.len() as int));
        }
        assert(all.subrange(0, all.len() as int) =~= all);
        let sorted = sort_by_order_key(kept);
        ExecutionUnitHistoryResult { execution_units: sorted }
    }
}

/// Bounding an execution-unit history by a unit keeps exactly the units of
/// the unbounded history that come before that unit, in the same order;
/// where the node id names no execution unit, the bound changes nothing.
pub proof fn law_bounded_unit_history_filters_unbounded(
    g: SessionGraph,
    window: SequenceWindow,
    b: NodeId,
    unbounded: Seq<ExecutionUnitRef>,
    bounded: Seq<ExecutionUnitRef>,
)
    requires
        listed_unit_history(g, window, None, unbounded),
        listed_unit_history(g, window, Some(b), bounded),
    ensures
        match bound_key(units_of(g, g.nodes@.len() as int), Some(b)) {
            Some(k) => bounded == unbounded.filter(|u: ExecutionUnitRef| key_lt(order_key_spec(u), k)),
            None => bounded == unbounded,
        },
{
    let units = units_of(g, g.nodes@.len() as int);
    let p1 = |u: ExecutionUnitRef| in_unit_history(u, window, bound_key(units, None));
    let p2 = |u: ExecutionUnitRef| in_unit_history(u, window, bound_key(units, Some(b)));
    match bound_key(units, Some(b)) {
        Some(k) => {
            let q = |u: ExecutionUnitRef| key_lt(order_key_spec(u), k);
            lemma_filter_of_filter(units, p1, q, p2);
            lemma_sorted_by_key_filter(units.filter(p1), q);
        },
        None => {
            assert(p1 =~= p2);
        },
    }
}

/// Listing order of execution units is a strict total order on their keys:
/// no unit precedes itself, precedence is transitive and never holds both
/// ways, and of two units with different keys one precedes the other.
pub proof fn law_unit_order_is_strict_total(a: ExecutionUnitRef, b: ExecutionUnitRef, c: ExecutionUnitRef)
    ensures
        !key_lt(order_key_spec(a), order_key_spec(a)),
        key_lt(order_key_spec(a), order_key_spec(b)) && key_lt(order_key_spec(b), order_key_spec(c)) ==> key_lt(
            order_key_spec(a),
            order_key_spec(c),
        ),
        key_lt(order_key_spec(a), order_key_spec(b)) ==> !key_lt(order_key_spec(b), order_key_spec(a)),
        order_key_spec(a) != order_key_spec(b) ==> key_lt(order_key_spec(a), order_key_spec(b)) || key_lt(
            order_key_spec(b),
            order_key_spec(a),
        ),
{
    lemma_key_order(order_key_spec(a), order_key_spec(b), order_key_spec(c));
}

/// Top-level commands of one session and sequence, named by the runner's
/// `command:<session>:<sequence>:<index>` scheme, are listed by command
/// index.
pub proof fn law_commands_listed_by_index(
    c1: CommandInvocationRef,
    c2: CommandInvocationRef,
    session: Seq<char>,
    i: usize,
    j: usize,
)
    requires
        !contains_char(session, ':'),
        c1.sequence_no == c2.sequence_no,
        c1.node_id.0@ == top_level_command_text(session, c1.sequence_no.0, i),
        c2.node_id.0@ == top_level_command_text(session, c2.sequence_no.0, j),
        i < j,
    ensures
        key_lt(order_key_spec(ExecutionUnitRef::TopLevel(c1)), order_key_spec(ExecutionUnitRef::TopLevel(c2))),
{
    lemma_top_level_command_index_round_trip(session, c1.sequence_no.0, i);
    lemma_top_level_command_index_round_trip(session, c2.sequence_no.0, j);
    let k1 = order_key_spec(ExecutionUnitRef::TopLevel(c1));
    let k2 = order_key_spec(ExecutionUnitRef::TopLevel(c2));
    assert(k1[0] == k2[0]);
    assert(k1[1] == KeyPartView::Num(i as nat));
    assert(k2[1] == KeyPartView::Num(j as nat));
    assert(crate::order::key_lt_from(k1, k2, 1));
}

} // verus!
