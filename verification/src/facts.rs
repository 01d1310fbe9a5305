//! Owned contract values: what the query rows report, as plain data that
//! outlives the graph they were read from.

use vstd::prelude::*;

use crate::execution::{DerivedInvocationOrigin, DerivedInvocationRef, ExecutionUnitRef, ShellKind};
use crate::flow::ExecutionUnitFlowRef;
use crate::graph::{duplicate_artifact, duplicate_text, ProvenanceArtifactView, ProvenanceConsumeKind, ProvenanceProduceKind, RuntimeInputCapture};
use crate::path_facts::{mutation_view, PathFactRef, PathMetadataMutation, PathResolution, ResolvedPathPurpose, ResolvedPathRole};
use crate::path_usage::{is_path_usage_edge, path_usage_relation, PathUsageRefIdentity, PathUsageRelation};
use crate::projection::EdgeKind;
use crate::semantics::{labels_view, text_option_view, ExecutionPayloadMode, ExecutionSemanticsRef};
use crate::profile::RuntimeInputSource;
use crate::provenance::{PathContentConsumeRef, PathContentProduceRef, PayloadSinkStatusRef, RuntimeInputConsumeRef, StartupConfigSinkStatusRef};
use crate::graph::SessionGraph;
use crate::sequence::CommandSequenceNo;
use crate::taint::{
    endpoint_at, endpoint_ref, TaintTraceDirection, TaintTraceEndpointRef, TaintTraceHopKind, TaintTraceRef, TaintTraceStatsRef, TraceHop,
    TraceMatch,
};
use crate::sink_trace::{ArtifactConsumeRef, ArtifactProducerRef, PayloadProvenanceTraceRef, StartupConfigProvenanceTraceRef};
use crate::variable::VariableBindingIntentRef;

verus! {

/// Whether an execution unit is a top-level command or a derived invocation.
#[derive(Debug, Clone, Copy, PartialEq, Eq, Structural)]
pub enum ExecutionUnitKind {
    TopLevel,
    Derived,
}

/// An execution unit as a contract value.
#[derive(Debug, Clone, PartialEq, Eq)]
pub struct ExecutionUnit {
    pub node_id: String,
    pub execution_kind: ExecutionUnitKind,
    pub root_sequence_no: CommandSequenceNo,
    pub depth: u8,
    pub raw_text: String,
    pub shell_kind: ShellKind,
}

/// The contract value of an execution unit.
pub open spec fn unit_fact(u: ExecutionUnitRef) -> ExecutionUnit {
    match u {
        ExecutionUnitRef::TopLevel(c) => ExecutionUnit {
            node_id: c.node_id.0,
            execution_kind: ExecutionUnitKind::TopLevel,
            root_sequence_no: c.sequence_no,
            depth: 0,
            raw_text: c.raw_text,
            shell_kind: c.shell_kind,
        },
        ExecutionUnitRef::Derived(d) => ExecutionUnit {
            node_id: d.node_id.0,
            execution_kind: ExecutionUnitKind::Derived,
            root_sequence_no: d.root_command_sequence_no,
            depth: d.depth,
            raw_text: d.raw_text,
            shell_kind: d.shell_kind,
        },
    }
}

impl ExecutionUnitRef {
    pub fn to_execution_unit(&self) -> (r: ExecutionUnit)
        ensures
            r == unit_fact(*self),
    {
        match self {
            ExecutionUnitRef::TopLevel(c) => ExecutionUnit {
                node_id: c.node_id.0.clone(),
                execution_kind: ExecutionUnitKind::TopLevel,
                root_sequence_no: c.sequence_no,
                depth: 0,
                raw_text: c.raw_text.clone(),
                shell_kind: c.shell_kind,
            },
            ExecutionUnitRef::Derived(d) => ExecutionUnit {
                node_id: d.node_id.0.clone(),
                execution_kind: ExecutionUnitKind::Derived,
                root_sequence_no: d.root_command_sequence_no,
                depth: d.depth,
                raw_text: d.raw_text.clone(),
                shell_kind: d.shell_kind,
            },
        }
    }
}

/// A flow between execution units as a contract value.
#[derive(Debug, Clone, PartialEq, Eq)]
pub struct ExecutionUnitFlow {
    pub from: ExecutionUnit,
    pub to: ExecutionUnit,
}

impl ExecutionUnitFlowRef {
    pub fn to_execution_unit_flow(&self) -> (r: ExecutionUnitFlow)
        ensures
            r == (ExecutionUnitFlow { from: unit_fact(self.from), to: unit_fact(self.to) }),
    {
        ExecutionUnitFlow { from: self.from.to_execution_unit(), to: self.to.to_execution_unit() }
    }
}

/// A derived invocation as a contract value.
#[derive(Debug, Clone, PartialEq, Eq)]
pub struct DerivedInvocation {
    pub node_id: String,
    pub root_sequence_no: CommandSequenceNo,
    pub origin: DerivedInvocationOrigin,
    pub derived_command_index: usize,
    pub raw_text: String,
    pub command_name: Option<String>,
    pub shell_kind: ShellKind,
    pub depth: u8,
}

impl DerivedInvocationRef {
    pub fn to_derived_invocation(&self) -> (r: DerivedInvocation)
        ensures
            r == (DerivedInvocation {
                node_id: self.node_id.0,
                root_sequence_no: self.root_command_sequence_no,
                origin: self.origin,
                derived_command_index: self.derived_command_index,
                raw_text: self.raw_text,
                command_name: self.command_name,
                shell_kind: self.shell_kind,
                depth: self.depth,
            }),
    {
        DerivedInvocation {
            node_id: self.node_id.0.clone(),
            root_sequence_no: self.root_command_sequence_no,
            origin: self.origin.duplicate(),
            derived_command_index: self.derived_command_index,
            raw_text: self.raw_text.clone(),
            command_name: duplicate_text(&self.command_name),
            shell_kind: self.shell_kind,
            depth: self.depth,
        }
    }
}

/// An intended variable binding as a contract value.
#[derive(Debug, Clone, PartialEq, Eq)]
pub struct VariableBindingIntentFact {
    pub node_id: String,
    pub source: ExecutionUnit,
    pub variable_name: String,
    pub runtime_input_source: Option<RuntimeInputSource>,
}

impl VariableBindingIntentRef {
    pub fn to_variable_binding_intent_fact(&self) -> (r: VariableBindingIntentFact)
        ensures
            r == (VariableBindingIntentFact {
                node_id: self.node_id.0,
                source: unit_fact(self.source),
                variable_name: self.variable_name,
                runtime_input_source: self.runtime_input_source,
            }),
    {
        VariableBindingIntentFact {
            node_id: self.node_id.0.clone(),
            source: self.source.to_execution_unit(),
            variable_name: self.variable_name.clone(),
            runtime_input_source: self.runtime_input_source,
        }
    }
}

/// A read of a path's content as a contract value.
#[derive(Debug, Clone, PartialEq, Eq)]
pub struct PathContentConsumeFact {
    pub artifact_node_id: String,
    pub source: ExecutionUnit,
    pub path: String,
    pub version: Option<u64>,
    pub consume_kind: ProvenanceConsumeKind,
    pub slot_name: Option<String>,
    pub normalized_command_name: Option<String>,
}

impl PathContentConsumeRef {
    pub fn to_path_content_consume_fact(&self) -> (r: PathContentConsumeFact)
        ensures
            r == (PathContentConsumeFact {
                artifact_node_id: self.artifact_node_id.0,
                source: unit_fact(self.execution_unit),
                path: self.path,
                version: self.version,
                consume_kind: self.consume_kind,
                slot_name: self.slot_name,
                normalized_command_name: self.normalized_command_name,
            }),
    {
        PathContentConsumeFact {
            artifact_node_id: self.artifact_node_id.0.clone(),
            source: self.execution_unit.to_execution_unit(),
            path: self.path.clone(),
            version: self.version,
            consume_kind: self.consume_kind,
            slot_name: duplicate_text(&self.slot_name),
            normalized_command_name: duplicate_text(&self.normalized_command_name),
        }
    }
}

/// A consumption of a runtime input as a contract value.
#[derive(Debug, Clone, PartialEq, Eq)]
pub struct RuntimeInputConsumeFact {
    pub artifact_node_id: String,
    pub source: ExecutionUnit,
    pub runtime_input_source: RuntimeInputSource,
    pub capture: RuntimeInputCapture,
    pub version: u64,
    pub consume_kind: ProvenanceConsumeKind,
    pub slot_name: Option<String>,
    pub normalized_command_name: Option<String>,
}

impl RuntimeInputConsumeRef {
    pub fn to_runtime_input_consume_fact(&self) -> (r: RuntimeInputConsumeFact)
        ensures
            r == (RuntimeInputConsumeFact {
                artifact_node_id: self.artifact_node_id.0,
                source: unit_fact(self.execution_unit),
                runtime_input_source: self.runtime_input_source,
                capture: self.capture,
                version: self.version,
                consume_kind: self.consume_kind,
                slot_name: self.slot_name,
                normalized_command_name: self.normalized_command_name,
            }),
    {
        RuntimeInputConsumeFact {
            artifact_node_id: self.artifact_node_id.0.clone(),
            source: self.execution_unit.to_execution_unit(),
            runtime_input_source: self.runtime_input_source,
            capture: self.capture.duplicate(),
            version: self.version,
            consume_kind: self.consume_kind,
            slot_name: duplicate_text(&self.slot_name),
            normalized_command_name: duplicate_text(&self.normalized_command_name),
        }
    }
}

/// A write of a path's content as a contract value.
#[derive(Debug, Clone, PartialEq, Eq)]
pub struct PathContentProduceFact {
    pub artifact_node_id: String,
    pub source: ExecutionUnit,
    pub path: String,
    pub version: Option<u64>,
    pub produce_kind: ProvenanceProduceKind,
    pub slot_name: Option<String>,
    pub normalized_command_name: Option<String>,
}

impl PathContentProduceRef {
    pub fn to_path_content_produce_fact(&self) -> (r: PathContentProduceFact)
        ensures
            r == (PathContentProduceFact {
                artifact_node_id: self.artifact_node_id.0,
                source: unit_fact(self.execution_unit),
                path: self.path,
                version: self.version,
                produce_kind: self.produce_kind,
                slot_name: self.slot_name,
                normalized_command_name: self.normalized_command_name,
            }),
    {
        PathContentProduceFact {
            artifact_node_id: self.artifact_node_id.0.clone(),
            source: self.execution_unit.to_execution_unit(),
            path: self.path.clone(),
            version: self.version,
            produce_kind: self.produce_kind,
            slot_name: duplicate_text(&self.slot_name),
            normalized_command_name: duplicate_text(&self.normalized_command_name),
        }
    }
}


/// Execution semantics with the unit that defines them, as a contract value.
#[derive(Debug, Clone, PartialEq, Eq)]
pub struct ExecutionSemanticsFact {
    pub node_id: String,
    pub source: ExecutionUnit,
    pub normalized_command_name: String,
    pub form_id: String,
    pub payload_mode: Option<ExecutionPayloadMode>,
    pub executes_payload: bool,
    pub opens_interactive_escape_surface: bool,
    pub interactive_escape_surface_kind: Option<String>,
    pub interactive_escape_capabilities: Vec<String>,
    pub interactive_escape_requires_tty: bool,
    pub controls_process: bool,
    pub process_control_action: Option<String>,
    pub process_control_target_kind: Option<String>,
    pub process_control_broad_target: bool,
    pub mutates_current_shell: bool,
    pub executes_remote_command: bool,
    pub executes_hook: bool,
    pub executes_imported_package_logic: bool,
    pub loads_in_process_code: bool,
    pub in_process_code_load_kinds: Vec<String>,
    pub loads_startup_config: bool,
    pub loads_project_config: bool,
    pub loads_tool_config: bool,
    pub executes_config_defined_task: bool,
    pub dispatches_child_command: bool,
}

/// Whether `f` reports the semantics row `r`: every field copied, the
/// semantics' own fields by value.
pub open spec fn reports_semantics(f: ExecutionSemanticsFact, r: ExecutionSemanticsRef) -> bool {
    let s = r.semantics@;
    &&& f.node_id@ == r.node_id.0@
    &&& f.source == unit_fact(r.source)
    &&& f.normalized_command_name@ == s.normalized_command_name
    &&& f.form_id@ == s.form_id
    &&& f.payload_mode == s.payload_mode
    &&& f.executes_payload == s.executes_payload
    &&& text_option_view(f.interactive_escape_surface_kind) == s.interactive_escape_surface_kind
    &&& labels_view(f.interactive_escape_capabilities@) == s.interactive_escape_capabilities
    &&& text_option_view(f.process_control_action) == s.process_control_action
    &&& text_option_view(f.process_control_target_kind) == s.process_control_target_kind
    &&& labels_view(f.in_process_code_load_kinds@) == s.in_process_code_load_kinds
    &&& f.opens_interactive_escape_surface == s.opens_interactive_escape_surface
    &&& f.interactive_escape_requires_tty == s.interactive_escape_requires_tty
    &&& f.controls_process == s.controls_process
    &&& f.process_control_broad_target == s.process_control_broad_target
    &&& f.mutates_current_shell == s.mutates_current_shell
    &&& f.executes_remote_command == s.executes_remote_command
    &&& f.executes_hook == s.executes_hook
    &&& f.executes_imported_package_logic == s.executes_imported_package_logic
    &&& f.loads_in_process_code == s.loads_in_process_code
    &&& f.loads_startup_config == s.loads_startup_config
    &&& f.loads_project_config == s.loads_project_config
    &&& f.loads_tool_config == s.loads_tool_config
    &&& f.executes_config_defined_task == s.executes_config_defined_task
    &&& f.dispatches_child_command == s.dispatches_child_command
}

impl ExecutionSemanticsRef {
    pub fn to_execution_semantics_fact(&self) -> (r: ExecutionSemanticsFact)
        ensures
            reports_semantics(r, *self),
    {
        let s = self.semantics.duplicate();
        ExecutionSemanticsFact {
            node_id: self.node_id.0.clone(),
            source: self.source.to_execution_unit(),
            normalized_command_name: s.normalized_command_name,
            form_id: s.form_id,
            payload_mode: s.payload_mode,
            executes_payload: s.executes_payload,
            opens_interactive_escape_surface: s.opens_interactive_escape_surface,
            interactive_escape_surface_kind: s.interactive_escape_surface_kind,
            interactive_escape_capabilities: s.interactive_escape_capabilities,
            interactive_escape_requires_tty: s.interactive_escape_requires_tty,
            controls_process: s.controls_process,
            process_control_action: s.process_control_action,
            process_control_target_kind: s.process_control_target_kind,
            process_control_broad_target: s.process_control_broad_target,
            mutates_current_shell: s.mutates_current_shell,
            executes_remote_command: s.executes_remote_command,
            executes_hook: s.executes_hook,
            executes_imported_package_logic: s.executes_imported_package_logic,
            loads_in_process_code: s.loads_in_process_code,
            in_process_code_load_kinds: s.in_process_code_load_kinds,
            loads_startup_config: s.loads_startup_config,
            loads_project_config: s.loads_project_config,
            loads_tool_config: s.loads_tool_config,
            executes_config_defined_task: s.executes_config_defined_task,
            dispatches_child_command: s.dispatches_child_command,
        }
    }
}

/// A unit's use of a path fact as a contract value.
#[derive(Debug, Clone, PartialEq, Eq)]
pub struct PathUsage {
    pub source_node_id: String,
    pub execution_kind: ExecutionUnitKind,
    pub root_sequence_no: CommandSequenceNo,
    pub depth: u8,
    pub raw_text: String,
    pub relation: PathUsageRelation,
}

/// The relation a path-use edge kind records.
pub open spec fn usage_relation_of(kind: EdgeKind) -> PathUsageRelation {
    match kind {
        EdgeKind::Reads => PathUsageRelation::Reads,
        EdgeKind::Writes => PathUsageRelation::Writes,
        EdgeKind::MutatesMetadata => PathUsageRelation::MutatesMetadata,
        _ => PathUsageRelation::Targets,
    }
}

/// The contract value of a use of a path fact.
pub open spec fn usage_fact(u: PathUsageRefIdentity) -> PathUsage {
    let unit = unit_fact(u.execution_unit);
    PathUsage {
        source_node_id: unit.node_id,
        execution_kind: unit.execution_kind,
        root_sequence_no: unit.root_sequence_no,
        depth: unit.depth,
        raw_text: unit.raw_text,
        relation: usage_relation_of(u.relation),
    }
}

impl PathUsageRefIdentity {
    /// The use as a contract value; only the relations that record a use of
    /// a path have one.
    pub fn to_path_usage(&self) -> (r: PathUsage)
        requires
            is_path_usage_edge(self.relation),
        ensures
            r == usage_fact(*self),
    {
        let unit = self.execution_unit.to_execution_unit();
        PathUsage {
            source_node_id: unit.node_id,
            execution_kind: unit.execution_kind,
            root_sequence_no: unit.root_sequence_no,
            depth: unit.depth,
            raw_text: unit.raw_text,
            relation: path_usage_relation(self.relation),
        }
    }
}

/// A path fact with its uses as a contract value.
#[derive(Debug, Clone, PartialEq, Eq)]
pub struct PathFact {
    pub node_id: String,
    pub resolution: PathResolution,
    pub role: ResolvedPathRole,
    pub purpose: Option<ResolvedPathPurpose>,
    pub slot_name: String,
    pub normalized_command_name: Option<String>,
    pub metadata_mutation: Option<PathMetadataMutation>,
    pub used_by: Vec<PathUsage>,
}

impl PathFactRef {
    /// The fact as a contract value; every use it lists must record a use
    /// of a path.
    pub fn to_path_fact(&self) -> (r: PathFact)
        requires
            forall|i: int| 0 <= i < self.used_by@.len() ==> is_path_usage_edge(#[trigger] self.used_by@[i].relation),
        ensures
            r.node_id@ == self.node_id.0@,
            r.resolution == self.resolution,
            r.role == self.role,
            r.purpose == self.purpose,
            r.slot_name == self.slot_name,
            r.normalized_command_name == self.normalized_command_name,
            mutation_view(r.metadata_mutation) == mutation_view(self.metadata_mutation),
            r.used_by@ == self.used_by@.map_values(|u: PathUsageRefIdentity| usage_fact(u)),
    {
        let mut used_by: Vec<PathUsage> = Vec::new();
        let n = self.used_by.len();
        let mut i: usize = 0;
        while i < n
            invariant
                n == self.used_by@.len(),
                0 <= i <= n,
                forall|j: int| 0 <= j < self.used_by@.len() ==> is_path_usage_edge(#[trigger] self.used_by@[j].relation),
                used_by@ == self.used_by@.subrange(0, i as int).map_values(|u: PathUsageRefIdentity| usage_fact(u)),
            decreases n - i,
        {
            let usage = self.used_by[i].to_path_usage();
            used_by.push(usage);
            assert(self.used_by@.subrange(0, i + 1) =~= self.used_by@.subrange(0, i as int).push(self.used_by@[i as int]));
            assert(used_by@ =~= self.used_by@.subrange(0, i + 1).map_values(|u: PathUsageRefIdentity| usage_fact(u)));
            i = i + 1;
        }
        assert(self.used_by@.subrange(0, n as int) =~= self.used_by@);
        let metadata_mutation = match &self.metadata_mutation {
            Some(m) => Some(m.duplicate()),
            None => None,
        };
        PathFact {
            node_id: self.node_id.0.clone(),
            resolution: self.resolution.duplicate(),
            role: self.role,
            purpose: self.purpose,
            slot_name: self.slot_name.clone(),
            normalized_command_name: duplicate_text(&self.normalized_command_name),
            metadata_mutation,
            used_by,
        }
    }
}


/// A unit that produced a sink input, as a contract value.
#[derive(Debug, Clone, PartialEq, Eq)]
pub struct ArtifactProducer {
    pub source: ExecutionUnit,
    pub produce_kind: ProvenanceProduceKind,
    pub slot_name: Option<String>,
    pub normalized_command_name: Option<String>,
}

/// A producer of a payload input, as a contract value.
pub type PayloadArtifactProducer = ArtifactProducer;

/// A producer of a startup-config input, as a contract value.
pub type StartupConfigArtifactProducer = ArtifactProducer;

/// The contract value of a producer.
pub open spec fn producer_fact(p: ArtifactProducerRef) -> ArtifactProducer {
    ArtifactProducer {
        source: unit_fact(p.execution_unit),
        produce_kind: p.produce_kind,
        slot_name: p.slot_name,
        normalized_command_name: p.normalized_command_name,
    }
}

impl ArtifactProducerRef {
    pub fn to_payload_artifact_producer(&self) -> (r: ArtifactProducer)
        ensures
            r == producer_fact(*self),
    {
        ArtifactProducer {
            source: self.execution_unit.to_execution_unit(),
            produce_kind: self.produce_kind,
            slot_name: duplicate_text(&self.slot_name),
            normalized_command_name: duplicate_text(&self.normalized_command_name),
        }
    }

    pub fn to_startup_config_artifact_producer(&self) -> (r: ArtifactProducer)
        ensures
            r == producer_fact(*self),
    {
        self.to_payload_artifact_producer()
    }
}

/// A sink input with its producers, as a contract value.
#[derive(Debug, Clone, PartialEq, Eq)]
pub struct ArtifactConsume {
    pub artifact_node_id: String,
    pub artifact: ProvenanceArtifactView,
    pub consume_kind: ProvenanceConsumeKind,
    pub slot_name: Option<String>,
    pub normalized_command_name: Option<String>,
    pub producers: Vec<ArtifactProducer>,
}

/// A payload input, as a contract value.
pub type PayloadArtifactConsume = ArtifactConsume;

/// A startup-config input, as a contract value.
pub type StartupConfigArtifactConsume = ArtifactConsume;

/// Whether `f` reports the sink input `c`, its producers in the same order.
pub open spec fn reports_consume(f: ArtifactConsume, c: ArtifactConsumeRef) -> bool {
    &&& f.artifact_node_id@ == c.artifact_node_id.0@
    &&& f.artifact == c.artifact
    &&& f.consume_kind == c.consume_kind
    &&& f.slot_name == c.slot_name
    &&& f.normalized_command_name == c.normalized_command_name
    &&& f.producers@ == c.producers@.map_values(|p: ArtifactProducerRef| producer_fact(p))
}

impl ArtifactConsumeRef {
    pub fn to_payload_artifact_consume(&self) -> (r: ArtifactConsume)
        ensures
            reports_consume(r, *self),
    {
        let mut producers: Vec<ArtifactProducer> = Vec::new();
        let n = self.producers.len();
        let mut i: usize = 0;
        while i < n
            invariant
                n == self.producers@.len(),
                0 <= i <= n,
                producers@ == self.producers@.subrange(0, i as int).map_values(
                    |p: ArtifactProducerRef| producer_fact(p),
                ),
            decreases n - i,
        {
            producers.push(self.producers[i].to_payload_artifact_producer());
            assert(self.producers@.subrange(0, i + 1) =~= self.producers@.subrange(0, i as int).push(
                self.producers@[i as int],
            ));
            assert(producers@ =~= self.producers@.subrange(0, i + 1).map_values(
                |p: ArtifactProducerRef| producer_fact(p),
            ));
            i = i + 1;
        }
        assert(self.producers@.subrange(0, n as int) =~= self.producers@);
        ArtifactConsume {
            artifact_node_id: self.artifact_node_id.0.clone(),
            artifact: duplicate_artifact(&self.artifact),
            consume_kind: self.consume_kind,
            slot_name: duplicate_text(&self.slot_name),
            normalized_command_name: duplicate_text(&self.normalized_command_name),
            producers,
        }
    }

    pub fn to_startup_config_artifact_consume(&self) -> (r: ArtifactConsume)
        ensures
            reports_consume(r, *self),
    {
        self.to_payload_artifact_consume()
    }
}

/// Whether `f` reports each sink input of `c`, in the same order.
pub open spec fn reports_inputs(f: Seq<ArtifactConsume>, c: Seq<ArtifactConsumeRef>) -> bool {
    &&& f.len() == c.len()
    &&& forall|i: int| 0 <= i < c.len() ==> reports_consume(#[trigger] f[i], c[i])
}

fn inputs_to_facts(c: &Vec<ArtifactConsumeRef>) -> (r: Vec<ArtifactConsume>)
    ensures
        reports_inputs(r@, c@),
{
    let mut r: Vec<ArtifactConsume> = Vec::new();
    let n = c.len();
    let mut i: usize = 0;
    while i < n
        invariant
            n == c@.len(),
            0 <= i <= n,
            r@.len() == i,
            forall|j: int| 0 <= j < i ==> reports_consume(#[trigger] r@[j], c@[j]),
        decreases n - i,
    {
        r.push(c[i].to_payload_artifact_consume());
        i = i + 1;
    }
    r
}

/// Whether `f` reports the semantics `s`, if any.
pub open spec fn reports_semantics_option(f: Option<ExecutionSemanticsFact>, s: Option<ExecutionSemanticsRef>) -> bool {
    match (f, s) {
        (None, None) => true,
        (Some(x), Some(y)) => reports_semantics(x, y),
        _ => false,
    }
}

fn semantics_to_fact(s: &Option<ExecutionSemanticsRef>) -> (r: Option<ExecutionSemanticsFact>)
    ensures
        reports_semantics_option(r, *s),
{
    match s {
        Some(x) => Some(x.to_execution_semantics_fact()),
        None => None,
    }
}

/// Whether a unit is a payload sink, as a contract value.
#[derive(Debug, Clone, Copy, PartialEq, Eq, Structural)]
pub enum PayloadSinkStatus {
    MissingSemantics,
    NotPayloadSink,
    PayloadSink,
}

/// Whether a unit is a startup-config sink, as a contract value.
#[derive(Debug, Clone, Copy, PartialEq, Eq, Structural)]
pub enum StartupConfigSinkStatus {
    MissingSemantics,
    NotStartupConfigSink,
    StartupConfigSink,
}

/// The contract value of a payload sink status.
pub open spec fn payload_status_fact(s: PayloadSinkStatusRef) -> PayloadSinkStatus {
    match s {
        PayloadSinkStatusRef::MissingSemantics => PayloadSinkStatus::MissingSemantics,
        PayloadSinkStatusRef::NotPayloadSink => PayloadSinkStatus::NotPayloadSink,
        PayloadSinkStatusRef::PayloadSink => PayloadSinkStatus::PayloadSink,
    }
}

/// The contract value of a startup-config sink status.
pub open spec fn startup_status_fact(s: StartupConfigSinkStatusRef) -> StartupConfigSinkStatus {
    match s {
        StartupConfigSinkStatusRef::MissingSemantics => StartupConfigSinkStatus::MissingSemantics,
        StartupConfigSinkStatusRef::NotStartupConfigSink => StartupConfigSinkStatus::NotStartupConfigSink,
        StartupConfigSinkStatusRef::StartupConfigSink => StartupConfigSinkStatus::StartupConfigSink,
    }
}

impl PayloadSinkStatusRef {
    pub fn to_payload_sink_status(self) -> (r: PayloadSinkStatus)
        ensures
            r == payload_status_fact(self),
    {
        match self {
            PayloadSinkStatusRef::MissingSemantics => PayloadSinkStatus::MissingSemantics,
            PayloadSinkStatusRef::NotPayloadSink => PayloadSinkStatus::NotPayloadSink,
            PayloadSinkStatusRef::PayloadSink => PayloadSinkStatus::PayloadSink,
        }
    }
}

impl StartupConfigSinkStatusRef {
    pub fn to_startup_config_sink_status(self) -> (r: StartupConfigSinkStatus)
        ensures
            r == startup_status_fact(self),
    {
        match self {
            StartupConfigSinkStatusRef::MissingSemantics => StartupConfigSinkStatus::MissingSemantics,
            StartupConfigSinkStatusRef::NotStartupConfigSink => StartupConfigSinkStatus::NotStartupConfigSink,
            StartupConfigSinkStatusRef::StartupConfigSink => StartupConfigSinkStatus::StartupConfigSink,
        }
    }
}

/// A payload trace as a contract value.
#[derive(Debug, Clone, PartialEq, Eq)]
pub struct PayloadProvenanceTrace {
    pub source: ExecutionUnit,
    pub semantics: Option<ExecutionSemanticsFact>,
    pub sink_status: PayloadSinkStatus,
    pub payload_inputs: Vec<ArtifactConsume>,
}

impl PayloadProvenanceTraceRef {
    pub fn to_payload_provenance_trace(&self) -> (r: PayloadProvenanceTrace)
        ensures
            r.source == unit_fact(self.source),
            reports_semantics_option(r.semantics, self.semantics),
            r.sink_status == payload_status_fact(self.sink_status),
            reports_inputs(r.payload_inputs@, self.payload_inputs@),
    {
        PayloadProvenanceTrace {
            source: self.source.to_execution_unit(),
            semantics: semantics_to_fact(&self.semantics),
            sink_status: self.sink_status.to_payload_sink_status(),
            payload_inputs: inputs_to_facts(&self.payload_inputs),
        }
    }
}

/// A startup-config trace as a contract value.
#[derive(Debug, Clone, PartialEq, Eq)]
pub struct StartupConfigProvenanceTrace {
    pub source: ExecutionUnit,
    pub semantics: Option<ExecutionSemanticsFact>,
    pub sink_status: StartupConfigSinkStatus,
    pub startup_config_inputs: Vec<ArtifactConsume>,
}

impl StartupConfigProvenanceTraceRef {
    pub fn to_startup_config_provenance_trace(&self) -> (r: StartupConfigProvenanceTrace)
        ensures
            r.source == unit_fact(self.source),
            reports_semantics_option(r.semantics, self.semantics),
            r.sink_status == startup_status_fact(self.sink_status),
            reports_inputs(r.startup_config_inputs@, self.startup_config_inputs@),
    {
        StartupConfigProvenanceTrace {
            source: self.source.to_execution_unit(),
            semantics: semantics_to_fact(&self.semantics),
            sink_status: self.sink_status.to_startup_config_sink_status(),
            startup_config_inputs: inputs_to_facts(&self.startup_config_inputs),
        }
    }
}


/// An endpoint of a taint trace, as a contract value.
#[derive(Debug, Clone, PartialEq, Eq)]
pub enum TaintTraceEndpoint {
    ExecutionUnit { unit: ExecutionUnit },
    Artifact { node_id: String, artifact: ProvenanceArtifactView },
}

/// The contract value of an endpoint.
pub open spec fn endpoint_fact(e: TaintTraceEndpointRef) -> TaintTraceEndpoint {
    match e {
        TaintTraceEndpointRef::ExecutionUnit(u) => TaintTraceEndpoint::ExecutionUnit { unit: unit_fact(u) },
        TaintTraceEndpointRef::Artifact { node_id, artifact } => TaintTraceEndpoint::Artifact {
            node_id: node_id.0,
            artifact,
        },
    }
}

impl TaintTraceEndpointRef {
    pub fn to_taint_trace_endpoint(&self) -> (r: TaintTraceEndpoint)
        ensures
            r == endpoint_fact(*self),
    {
        match self {
            TaintTraceEndpointRef::ExecutionUnit(u) => TaintTraceEndpoint::ExecutionUnit { unit: u.to_execution_unit() },
            TaintTraceEndpointRef::Artifact { node_id, artifact } => TaintTraceEndpoint::Artifact {
                node_id: node_id.0.clone(),
                artifact: duplicate_artifact(artifact),
            },
        }
    }
}

/// Search counters, as a contract value.
#[derive(Debug, Clone, Copy, PartialEq, Eq, Structural)]
pub struct TaintTraceStats {
    pub truncated: bool,
    pub over_max_depth: bool,
    pub over_max_paths: bool,
}

impl TaintTraceStatsRef {
    pub fn to_taint_trace_stats(self) -> (r: TaintTraceStats)
        ensures
            r.truncated == self.truncated_spec(),
            r.over_max_depth == self.over_max_depth_spec(),
            r.over_max_paths == self.over_max_paths_spec(),
    {
        TaintTraceStats {
            truncated: self.truncated(),
            over_max_depth: self.over_max_depth(),
            over_max_paths: self.over_max_paths(),
        }
    }
}

/// One hop of a taint trace, as a contract value.
#[derive(Debug, Clone, PartialEq, Eq)]
pub struct TaintTraceHop {
    pub kind: TaintTraceHopKind,
    pub from: TaintTraceEndpoint,
    pub to: TaintTraceEndpoint,
}

/// The endpoint fact of node `i`, when node `i` is an endpoint.
pub open spec fn endpoint_fact_at(g: SessionGraph, i: usize) -> Option<TaintTraceEndpoint> {
    match endpoint_at(g, i) {
        Some(e) => Some(endpoint_fact(e)),
        None => None,
    }
}

/// The contract value of a hop, when both its ends are endpoints.
pub open spec fn hop_fact(g: SessionGraph, h: TraceHop) -> Option<TaintTraceHop> {
    match (endpoint_fact_at(g, h.from), endpoint_fact_at(g, h.to)) {
        (Some(from), Some(to)) => Some(TaintTraceHop { kind: h.kind, from, to }),
        _ => None,
    }
}

fn endpoint_fact_exec(g: &SessionGraph, i: usize) -> (r: Option<TaintTraceEndpoint>)
    ensures
        r == endpoint_fact_at(*g, i),
{
    match endpoint_ref(g, i) {
        Some(e) => Some(e.to_taint_trace_endpoint()),
        None => None,
    }
}

fn hop_fact_exec(g: &SessionGraph, h: &TraceHop) -> (r: Option<TaintTraceHop>)
    ensures
        r == hop_fact(*g, *h),
{
    match (endpoint_fact_exec(g, h.from), endpoint_fact_exec(g, h.to)) {
        (Some(from), Some(to)) => Some(TaintTraceHop { kind: h.kind, from, to }),
        _ => None,
    }
}

/// A match of a taint trace, as a contract value.
#[derive(Debug, Clone, PartialEq, Eq)]
pub struct TaintTraceMatch {
    pub source: TaintTraceEndpoint,
    pub sink: TaintTraceEndpoint,
    pub hops: Vec<TaintTraceHop>,
}

/// Whether every node a match names is an endpoint of the graph.
pub open spec fn match_endpoints_exist(g: SessionGraph, m: TraceMatch) -> bool {
    &&& endpoint_at(g, m.source) is Some
    &&& endpoint_at(g, m.sink) is Some
    &&& forall|i: int| 0 <= i < m.hops@.len() ==> hop_fact(g, #[trigger] m.hops@[i]) is Some
}

/// Whether `f` reports the match `m` of graph `g`.
pub open spec fn reports_match(g: SessionGraph, f: TaintTraceMatch, m: TraceMatch) -> bool {
    &&& endpoint_fact_at(g, m.source) == Some(f.source)
    &&& endpoint_fact_at(g, m.sink) == Some(f.sink)
    &&& f.hops@.len() == m.hops@.len()
    &&& forall|i: int| 0 <= i < m.hops@.len() ==> hop_fact(g, #[trigger] m.hops@[i]) == Some(f.hops@[i])
}

impl TraceMatch {
    /// The match as a contract value, with its endpoints read from `g`;
    /// none when a node it names is not an endpoint of `g`.
    pub fn to_taint_trace_match(&self, g: &SessionGraph) -> (r: Option<TaintTraceMatch>)
        ensures
            match r {
                Some(f) => reports_match(*g, f, *self),
                None => !match_endpoints_exist(*g, *self),
            },
    {
        let source = match endpoint_fact_exec(g, self.source) {
            Some(e) => e,
            None => {
                return None;
            },
        };
        let sink = match endpoint_fact_exec(g, self.sink) {
            Some(e) => e,
            None => {
                return None;
            },
        };
        let mut hops: Vec<TaintTraceHop> = Vec::new();
        let n = self.hops.len();
        let mut i: usize = 0;
        while i < n
            invariant
                n == self.hops@.len(),
                0 <= i <= n,
                hops@.len() == i,
                forall|j: int| 0 <= j < i ==> hop_fact(*g, #[trigger] self.hops@[j]) == Some(hops@[j]),
            decreases n - i,
        {
            match hop_fact_exec(g, &self.hops[i]) {
                Some(h) => hops.push(h),
                None => {
                    return None;
                },
            }
            i = i + 1;
        }
        Some(TaintTraceMatch { source, sink, hops })
    }
}

/// A taint trace, as a contract value.
#[derive(Debug, Clone, PartialEq, Eq)]
pub struct TaintTrace {
    pub direction: TaintTraceDirection,
    pub matches: Vec<TaintTraceMatch>,
    pub stats: TaintTraceStats,
}

impl TaintTraceRef {
    /// The trace as a contract value, with its endpoints read from `g`;
    /// none when a node one of its matches names is not an endpoint of `g`.
    pub fn to_taint_trace(&self, g: &SessionGraph) -> (r: Option<TaintTrace>)
        ensures
            match r {
                Some(f) => {
                    &&& f.direction == self.direction
                    &&& f.stats.truncated == self.stats.truncated_spec()
                    &&& f.stats.over_max_depth == self.stats.over_max_depth_spec()
                    &&& f.stats.over_max_paths == self.stats.over_max_paths_spec()
                    &&& f.matches@.len() == self.matches@.len()
                    &&& forall|i: int| 0 <= i < self.matches@.len() ==> reports_match(*g, #[trigger] f.matches@[i], self.matches@[i])
                },
                None => exists|i: int| 0 <= i < self.matches@.len() && !match_endpoints_exist(*g, #[trigger] self.matches@[i]),
            },
    {
        let mut matches: Vec<TaintTraceMatch> = Vec::new();
        let n = self.matches.len();
        let mut i: usize = 0;
        while i < n
            invariant
                n == self.matches@.len(),
                0 <= i <= n,
                matches@.len() == i,
                forall|j: int| 0 <= j < i ==> reports_match(*g, #[trigger] matches@[j], self.matches@[j]),
            decreases n - i,
        {
            match self.matches[i].to_taint_trace_match(g) {
                Some(m) => matches.push(m),
                None => {
                    return None;
                },
            }
            i = i + 1;
        }
        Some(TaintTrace { direction: self.direction, matches, stats: self.stats.to_taint_trace_stats() })
    }
}

} // verus!
