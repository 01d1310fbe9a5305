//! The summary a session keeps of shell state: the variables, aliases and
//! functions bound by name, the working directory, the positional
//! parameters, and the latest command sequence any change was observed at.
//! Committed mutations change it; the variable-binding query reads it.

use vstd::prelude::*;

use crate::mutation::{PendingMutation, SessionAliasBinding, SessionFunctionBinding, SessionVariableBinding, SessionVariableValue};
use crate::session_mutation::{copy_value, copy_values};
use crate::sequence::CommandSequenceNo;
use crate::text::str_compare;

verus! {

/// A binding the summary keeps by name.
pub trait NamedBinding: Sized {
    spec fn name_view(&self) -> Seq<char>;

    fn binding_name(&self) -> (r: &str)
        ensures
            r@ == self.name_view(),
    ;
}

impl NamedBinding for SessionVariableBinding {
    open spec fn name_view(&self) -> Seq<char> {
        self.name@
    }

    fn binding_name(&self) -> (r: &str) {
        self.name.as_str()
    }
}

impl NamedBinding for SessionAliasBinding {
    open spec fn name_view(&self) -> Seq<char> {
        self.name@
    }

    fn binding_name(&self) -> (r: &str) {
        self.name.as_str()
    }
}

impl NamedBinding for SessionFunctionBinding {
    open spec fn name_view(&self) -> Seq<char> {
        self.name@
    }

    fn binding_name(&self) -> (r: &str) {
        self.name.as_str()
    }
}

/// The binding of `name` made last in `bindings`, if any.
pub open spec fn latest_binding<T: NamedBinding>(bindings: Seq<T>, name: Seq<char>) -> Option<T>
    decreases bindings.len(),
{
    if bindings.len() == 0 {
        None
    } else if bindings.last().name_view() == name {
        Some(bindings.last())
    } else {
        latest_binding(bindings.drop_last(), name)
    }
}

/// Each bound name with the binding made last for it.
pub open spec fn bindings_by_name<T: NamedBinding>(bindings: Seq<T>) -> Map<Seq<char>, T> {
    Map::new(|n: Seq<char>| latest_binding(bindings, n) is Some, |n: Seq<char>| latest_binding(bindings, n)->0)
}

/// The later of a recorded sequence and a newly observed one.
pub open spec fn later_sequence(last: Option<CommandSequenceNo>, seen: CommandSequenceNo) -> Option<CommandSequenceNo> {
    match last {
        Some(l) => if l.0 >= seen.0 {
            Some(l)
        } else {
            Some(seen)
        },
        None => Some(seen),
    }
}

/// Drops every binding of `name`, keeping the others in order.
fn without_name<T: NamedBinding>(bindings: Vec<T>, name: &str) -> (r: Vec<T>)
    ensures
        forall|n: Seq<char>|
            #[trigger] latest_binding(r@, n) == if n == name@ {
                None
            } else {
                latest_binding(bindings@, n)
            },
{
    let ghost all = bindings@;
    let n = bindings.len();
    let mut rest = bindings;
    let mut kept: Vec<T> = Vec::new();
    let mut i: usize = 0;
    while rest.len() > 0
        invariant
            all.len() == n,
            i + rest@.len() == n,
            rest@ == all.subrange(i as int, n as int),
            forall|m: Seq<char>|
                #[trigger] latest_binding(kept@, m) == if m == name@ {
                    None
                } else {
                    latest_binding(all.subrange(0, i as int), m)
                },
        decreases rest.len(),
    {
        let x = rest.remove(0);
        let ghost pre = all.subrange(0, i as int);
        let ghost next = all.subrange(0, i + 1);
        assert(next.drop_last() =~= pre);
        assert(next.last() == x);
        let ghost old_kept = kept@;
        let keep = str_compare(x.binding_name(), name) != 0;
        if keep {
            kept.push(x);
            assert(kept@.drop_last() =~= old_kept);
        }
        assert forall|m: Seq<char>|
            #[trigger] latest_binding(kept@, m) == if m == name@ {
                None
            } else {
                latest_binding(next, m)
            } by {
            assert(latest_binding(old_kept, m) == if m == name@ {
                None
            } else {
                latest_binding(pre, m)
            });
        }
        i = i + 1;
        assert(rest@ =~= all.subrange(i as int, n as int));
    }
    assert(all.subrange(0, n as int) =~= all);
    kept
}

/// The binding of `name` made last, found from the end.
fn find_latest<'a, T: NamedBinding>(bindings: &'a Vec<T>, name: &str) -> (r: Option<&'a T>)
    ensures
        match r {
            Some(b) => latest_binding(bindings@, name@) == Some(*b),
            None => latest_binding(bindings@, name@) is None,
        },
{
    let mut i: usize = bindings.len();
    assert(bindings@.subrange(0, i as int) =~= bindings@);
    while i > 0
        invariant
            i <= bindings@.len(),
            latest_binding(bindings@, name@) == latest_binding(bindings@.subrange(0, i as int), name@),
        decreases i,
    {
        let ghost cur = bindings@.subrange(0, i as int);
        assert(cur.drop_last() =~= bindings@.subrange(0, i - 1));
        assert(cur.last() == bindings@[i - 1]);
        let b = &bindings[i - 1];
        if str_compare(b.binding_name(), name) == 0 {
            return Some(b);
        }
        i = i - 1;
    }
    None
}

/// The working directory the summary records, with what reported it.
#[derive(Debug)]
pub struct WorkingDirectorySummary {
    pub path: String,
    pub observed_at: CommandSequenceNo,
    pub source: String,
}

/// The positional parameters the summary records.
#[derive(Debug)]
pub struct PositionalParameters {
    pub values: Vec<SessionVariableValue>,
    pub observed_at: CommandSequenceNo,
}

/// The shell state a session has observed so far.
#[derive(Debug)]
pub struct SessionSummary {
    variables: Vec<SessionVariableBinding>,
    aliases: Vec<SessionAliasBinding>,
    functions: Vec<SessionFunctionBinding>,
    current_working_directory: Option<WorkingDirectorySummary>,
    positional_parameters: Option<PositionalParameters>,
    positional_parameters_observed_at: Option<CommandSequenceNo>,
    last_sequence_no: Option<CommandSequenceNo>,
}

/// The summary as values: bindings by name, the working directory as
/// (path, observed at, source), the positional parameters as (values,
/// observed at), when they were last set or forgotten, and the latest
/// sequence observed.
#[verifier::ext_equal]
pub struct SummaryView {
    pub variables: Map<Seq<char>, SessionVariableBinding>,
    pub aliases: Map<Seq<char>, SessionAliasBinding>,
    pub functions: Map<Seq<char>, SessionFunctionBinding>,
    pub current_working_directory: Option<(Seq<char>, CommandSequenceNo, Seq<char>)>,
    pub positional_parameters: Option<(Seq<SessionVariableValue>, CommandSequenceNo)>,
    pub positional_parameters_observed_at: Option<CommandSequenceNo>,
    pub last_sequence_no: Option<CommandSequenceNo>,
}

impl SummaryView {
    /// The summary of a session that has observed nothing.
    pub open spec fn empty() -> SummaryView {
        SummaryView {
            variables: Map::empty(),
            aliases: Map::empty(),
            functions: Map::empty(),
            current_working_directory: None,
            positional_parameters: None,
            positional_parameters_observed_at: None,
            last_sequence_no: None,
        }
    }

    /// The summary having observed a change at `seen`.
    pub open spec fn observe(self, seen: CommandSequenceNo) -> SummaryView {
        SummaryView { last_sequence_no: later_sequence(self.last_sequence_no, seen), ..self }
    }

    /// The summary with `b` as the binding of its name.
    pub open spec fn with_variable(self, b: SessionVariableBinding) -> SummaryView {
        SummaryView { variables: self.variables.insert(b.name@, b), ..self }.observe(b.observed_at)
    }

    /// The summary with `b` as the alias of its name.
    pub open spec fn with_alias(self, b: SessionAliasBinding) -> SummaryView {
        SummaryView { aliases: self.aliases.insert(b.name@, b), ..self }.observe(b.observed_at)
    }

    /// The summary with `b` as the function of its name.
    pub open spec fn with_function(self, b: SessionFunctionBinding) -> SummaryView {
        SummaryView { functions: self.functions.insert(b.name@, b), ..self }.observe(b.observed_at)
    }

    /// The summary with the variable `name` unset at `at`.
    pub open spec fn without_variable(self, name: Seq<char>, at: CommandSequenceNo) -> SummaryView {
        SummaryView { variables: self.variables.remove(name), ..self }.observe(at)
    }

    /// The summary with the alias `name` unset at `at`.
    pub open spec fn without_alias(self, name: Seq<char>, at: CommandSequenceNo) -> SummaryView {
        SummaryView { aliases: self.aliases.remove(name), ..self }.observe(at)
    }

    /// The summary with the function `name` unset at `at`.
    pub open spec fn without_function(self, name: Seq<char>, at: CommandSequenceNo) -> SummaryView {
        SummaryView { functions: self.functions.remove(name), ..self }.observe(at)
    }

    /// The summary with the working directory set at `at`.
    pub open spec fn with_working_directory(self, path: Seq<char>, at: CommandSequenceNo, source: Seq<char>) -> SummaryView {
        SummaryView { current_working_directory: Some((path, at, source)), ..self }.observe(at)
    }

    /// The summary with the positional parameters set at `at`.
    pub open spec fn with_positional_parameters(self, values: Seq<SessionVariableValue>, at: CommandSequenceNo) -> SummaryView {
        SummaryView {
            positional_parameters: Some((values, at)),
            positional_parameters_observed_at: Some(at),
            ..self
        }.observe(at)
    }

    /// The summary with the positional parameters forgotten at `at`.
    pub open spec fn without_positional_parameters(self, at: CommandSequenceNo) -> SummaryView {
        SummaryView { positional_parameters: None, positional_parameters_observed_at: Some(at), ..self }.observe(at)
    }
}

impl View for SessionSummary {
    type V = SummaryView;

    closed spec fn view(&self) -> SummaryView {
        SummaryView {
            variables: bindings_by_name(self.variables@),
            aliases: bindings_by_name(self.aliases@),
            functions: bindings_by_name(self.functions@),
            current_working_directory: match self.current_working_directory {
                Some(c) => Some((c.path@, c.observed_at, c.source@)),
                None => None,
            },
            positional_parameters: match self.positional_parameters {
                Some(p) => Some((p.values@, p.observed_at)),
                None => None,
            },
            positional_parameters_observed_at: self.positional_parameters_observed_at,
            last_sequence_no: self.last_sequence_no,
        }
    }
}

/// The new binding list after `b` replaces every earlier binding of its name.
proof fn lemma_replaced<T: NamedBinding>(kept: Seq<T>, old_bindings: Seq<T>, b: T)
    requires
        forall|n: Seq<char>|
            #[trigger] latest_binding(kept, n) == if n == b.name_view() {
                None
            } else {
                latest_binding(old_bindings, n)
            },
    ensures
        bindings_by_name(kept.push(b)) == bindings_by_name(old_bindings).insert(b.name_view(), b),
{
    assert forall|n: Seq<char>| #[trigger] latest_binding(kept.push(b), n) == if n == b.name_view() {
        Some(b)
    } else {
        latest_binding(old_bindings, n)
    } by {
        assert(kept.push(b).drop_last() =~= kept);
        assert(latest_binding(kept, n) == latest_binding(kept, n));
    }
    assert(bindings_by_name(kept.push(b)) =~= bindings_by_name(old_bindings).insert(b.name_view(), b));
}

/// The new binding list after every binding of `name` is dropped.
proof fn lemma_dropped<T: NamedBinding>(kept: Seq<T>, old_bindings: Seq<T>, name: Seq<char>)
    requires
        forall|n: Seq<char>|
            #[trigger] latest_binding(kept, n) == if n == name {
                None
            } else {
                latest_binding(old_bindings, n)
            },
    ensures
        bindings_by_name(kept) == bindings_by_name(old_bindings).remove(name),
{
    assert(bindings_by_name(kept) =~= bindings_by_name(old_bindings).remove(name));
}

fn later_of(last: Option<CommandSequenceNo>, seen: CommandSequenceNo) -> (r: Option<CommandSequenceNo>)
    ensures
        r == later_sequence(last, seen),
{
    match last {
        Some(l) => if l.0 >= seen.0 {
            Some(l)
        } else {
            Some(seen)
        },
        None => Some(seen),
    }
}

impl SessionSummary {
    /// A summary of a session that has observed nothing.
    pub fn new() -> (s: Self)
        ensures
            s@ == SummaryView::empty(),
    {
        let s = SessionSummary {
            variables: Vec::new(),
            aliases: Vec::new(),
            functions: Vec::new(),
            current_working_directory: None,
            positional_parameters: None,
            positional_parameters_observed_at: None,
            last_sequence_no: None,
        };
        assert(bindings_by_name(s.variables@) =~= Map::<Seq<char>, SessionVariableBinding>::empty());
        assert(bindings_by_name(s.aliases@) =~= Map::<Seq<char>, SessionAliasBinding>::empty());
        assert(bindings_by_name(s.functions@) =~= Map::<Seq<char>, SessionFunctionBinding>::empty());
        s
    }

    /// The binding of the variable `name`, if it is bound.
    pub fn variable_binding(&self, name: &str) -> (r: Option<&SessionVariableBinding>)
        ensures
            match r {
                Some(b) => self@.variables.contains_key(name@) && self@.variables[name@] == *b,
                None => !self@.variables.contains_key(name@),
            },
    {
        find_latest(&self.variables, name)
    }

    /// The binding of the alias `name`, if it is bound.
    pub fn alias_binding(&self, name: &str) -> (r: Option<&SessionAliasBinding>)
        ensures
            match r {
                Some(b) => self@.aliases.contains_key(name@) && self@.aliases[name@] == *b,
                None => !self@.aliases.contains_key(name@),
            },
    {
        find_latest(&self.aliases, name)
    }

    /// The binding of the function `name`, if it is bound.
    pub fn function_binding(&self, name: &str) -> (r: Option<&SessionFunctionBinding>)
        ensures
            match r {
                Some(b) => self@.functions.contains_key(name@) && self@.functions[name@] == *b,
                None => !self@.functions.contains_key(name@),
            },
    {
        find_latest(&self.functions, name)
    }

    /// The working directory last set, if any.
    pub fn current_working_directory(&self) -> (r: Option<&WorkingDirectorySummary>)
        ensures
            match r {
                Some(c) => self@.current_working_directory == Some((c.path@, c.observed_at, c.source@)),
                None => self@.current_working_directory is None,
            },
    {
        match &self.current_working_directory {
            Some(c) => Some(c),
            None => None,
        }
    }

    /// The positional parameters last set, unless forgotten since.
    pub fn positional_parameters(&self) -> (r: Option<&PositionalParameters>)
        ensures
            match r {
                Some(p) => self@.positional_parameters == Some((p.values@, p.observed_at)),
                None => self@.positional_parameters is None,
            },
    {
        match &self.positional_parameters {
            Some(p) => Some(p),
            None => None,
        }
    }

    /// When the positional parameters were last set or forgotten.
    pub fn positional_parameters_observed_at(&self) -> (r: Option<CommandSequenceNo>)
        ensures
            r == self@.positional_parameters_observed_at,
    {
        self.positional_parameters_observed_at
    }

    /// The latest command sequence any change was observed at.
    pub fn last_sequence_no(&self) -> (r: Option<CommandSequenceNo>)
        ensures
            r == self@.last_sequence_no,
    {
        self.last_sequence_no
    }

    /// Binds the variable, replacing any earlier binding of its name.
    pub fn upsert_variable_binding(&mut self, binding: SessionVariableBinding)
        ensures
            final(self)@ == old(self)@.with_variable(binding),
    {
        let mut taken: Vec<SessionVariableBinding> = Vec::new();
        std::mem::swap(&mut taken, &mut self.variables);
        let mut kept = without_name(taken, binding.binding_name());
        let at = binding.observed_at;
        proof {
            lemma_replaced(kept@, old(self).variables@, binding);
        }
        kept.push(binding);
        self.variables = kept;
        self.last_sequence_no = later_of(self.last_sequence_no, at);
    }

    /// Binds the alias, replacing any earlier binding of its name.
    pub fn upsert_alias_binding(&mut self, binding: SessionAliasBinding)
        ensures
            final(self)@ == old(self)@.with_alias(binding),
    {
        let mut taken: Vec<SessionAliasBinding> = Vec::new();
        std::mem::swap(&mut taken, &mut self.aliases);
        let mut kept = without_name(taken, binding.binding_name());
        let at = binding.observed_at;
        proof {
            lemma_replaced(kept@, old(self).aliases@, binding);
        }
        kept.push(binding);
        self.aliases = kept;
        self.last_sequence_no = later_of(self.last_sequence_no, at);
    }

    /// Binds the function, replacing any earlier binding of its name.
    pub fn upsert_function_binding(&mut self, binding: SessionFunctionBinding)
        ensures
            final(self)@ == old(self)@.with_function(binding),
    {
        let mut taken: Vec<SessionFunctionBinding> = Vec::new();
        std::mem::swap(&mut taken, &mut self.functions);
        let mut kept = without_name(taken, binding.binding_name());
        let at = binding.observed_at;
        proof {
            lemma_replaced(kept@, old(self).functions@, binding);
        }
        kept.push(binding);
        self.functions = kept;
        self.last_sequence_no = later_of(self.last_sequence_no, at);
    }

    /// Binds the variable to an exact scalar value.
    pub fn set_exact_scalar_variable(&mut self, name: &str, value: &str, exported: bool, observed_at: CommandSequenceNo)
        ensures
            final(self)@ == old(self)@.with_variable(final(self)@.variables[name@]),
            final(self)@.variables[name@].name@ == name@,
            final(self)@.variables[name@].value matches SessionVariableValue::ExactScalar(v) && v@ == value@,
            final(self)@.variables[name@].exported == exported,
            final(self)@.variables[name@].observed_at == observed_at,
    {
        let value = SessionVariableValue::exact_scalar(value);
        self.upsert_variable_binding(SessionVariableBinding::new(name, value, exported, observed_at));
    }

    /// Binds the variable to a value only known by its text.
    pub fn set_opaque_dynamic_variable(&mut self, name: &str, repr: &str, exported: bool, observed_at: CommandSequenceNo)
        ensures
            final(self)@ == old(self)@.with_variable(final(self)@.variables[name@]),
            final(self)@.variables[name@].name@ == name@,
            final(self)@.variables[name@].value matches SessionVariableValue::OpaqueDynamic { repr: v } && v@ == repr@,
            final(self)@.variables[name@].exported == exported,
            final(self)@.variables[name@].observed_at == observed_at,
    {
        let value = SessionVariableValue::OpaqueDynamic { repr: repr.to_string() };
        self.upsert_variable_binding(SessionVariableBinding::new(name, value, exported, observed_at));
    }

    /// Forgets the variable `name`.
    pub fn unset_variable(&mut self, name: &str, observed_at: CommandSequenceNo)
        ensures
            final(self)@ == old(self)@.without_variable(name@, observed_at),
    {
        let mut taken: Vec<SessionVariableBinding> = Vec::new();
        std::mem::swap(&mut taken, &mut self.variables);
        let kept = without_name(taken, name);
        proof {
            lemma_dropped(kept@, old(self).variables@, name@);
        }
        self.variables = kept;
        self.last_sequence_no = later_of(self.last_sequence_no, observed_at);
    }

    /// Forgets the alias `name`.
    pub fn unset_alias(&mut self, name: &str, observed_at: CommandSequenceNo)
        ensures
            final(self)@ == old(self)@.without_alias(name@, observed_at),
    {
        let mut taken: Vec<SessionAliasBinding> = Vec::new();
        std::mem::swap(&mut taken, &mut self.aliases);
        let kept = without_name(taken, name);
        proof {
            lemma_dropped(kept@, old(self).aliases@, name@);
        }
        self.aliases = kept;
        self.last_sequence_no = later_of(self.last_sequence_no, observed_at);
    }

    /// Forgets the function `name`.
    pub fn unset_function(&mut self, name: &str, observed_at: CommandSequenceNo)
        ensures
            final(self)@ == old(self)@.without_function(name@, observed_at),
    {
        let mut taken: Vec<SessionFunctionBinding> = Vec::new();
        std::mem::swap(&mut taken, &mut self.functions);
        let kept = without_name(taken, name);
        proof {
            lemma_dropped(kept@, old(self).functions@, name@);
        }
        self.functions = kept;
        self.last_sequence_no = later_of(self.last_sequence_no, observed_at);
    }

    /// Records the working directory and what reported it.
    pub fn set_current_working_directory_with_source(&mut self, path: &str, observed_at: CommandSequenceNo, source: &str)
        ensures
            final(self)@ == old(self)@.with_working_directory(path@, observed_at, source@),
    {
        self.current_working_directory = Some(
            WorkingDirectorySummary { path: path.to_string(), observed_at, source: source.to_string() },
        );
        self.last_sequence_no = later_of(self.last_sequence_no, observed_at);
    }

    /// Records the positional parameters.
    pub fn set_positional_parameters(&mut self, values: Vec<SessionVariableValue>, observed_at: CommandSequenceNo)
        ensures
            final(self)@ == old(self)@.with_positional_parameters(values@, observed_at),
    {
        self.positional_parameters = Some(PositionalParameters { values, observed_at });
        self.positional_parameters_observed_at = Some(observed_at);
        self.last_sequence_no = later_of(self.last_sequence_no, observed_at);
    }

    /// Forgets the positional parameters, remembering when.
    pub fn forget_positional_parameters(&mut self, observed_at: CommandSequenceNo)
        ensures
            final(self)@ == old(self)@.without_positional_parameters(observed_at),
    {
        self.positional_parameters = None;
        self.positional_parameters_observed_at = Some(observed_at);
        self.last_sequence_no = later_of(self.last_sequence_no, observed_at);
    }
}

/// What committing a mutation does to the summary: a change of shell state
/// is recorded at its sequence; a mutation of the graph alone leaves the
/// summary as it was.
pub open spec fn summary_effect(m: PendingMutation, s: SummaryView) -> SummaryView {
    match m {
        PendingMutation::SetCurrentWorkingDirectory { path, observed_at, source } => s.with_working_directory(
            path@,
            observed_at,
            source@,
        ),
        PendingMutation::SetPositionalParameters { values, observed_at } => s.with_positional_parameters(
            values@,
            observed_at,
        ),
        PendingMutation::ForgetPositionalParameters { observed_at } => s.without_positional_parameters(observed_at),
        PendingMutation::UpsertVariableBinding { binding } => s.with_variable(binding),
        PendingMutation::UpsertAliasBinding { binding } => s.with_alias(binding),
        PendingMutation::UpsertFunctionBinding { binding } => s.with_function(binding),
        PendingMutation::UnsetVariable { name, observed_at } => s.without_variable(name@, observed_at),
        PendingMutation::UnsetAlias { name, observed_at } => s.without_alias(name@, observed_at),
        PendingMutation::UnsetFunction { name, observed_at } => s.without_function(name@, observed_at),
        _ => s,
    }
}

fn copy_variable_binding(b: &SessionVariableBinding) -> (r: SessionVariableBinding)
    ensures
        r == *b,
{
    SessionVariableBinding { name: b.name.clone(), value: copy_value(&b.value), exported: b.exported, observed_at: b.observed_at }
}

fn copy_alias_binding(b: &SessionAliasBinding) -> (r: SessionAliasBinding)
    ensures
        r == *b,
{
    SessionAliasBinding { name: b.name.clone(), body: b.body.clone(), observed_at: b.observed_at }
}

fn copy_function_binding(b: &SessionFunctionBinding) -> (r: SessionFunctionBinding)
    ensures
        r == *b,
{
    SessionFunctionBinding { name: b.name.clone(), body: b.body.clone(), observed_at: b.observed_at }
}

impl PendingMutation {
    /// Records in the summary the change of shell state this mutation makes.
    pub fn apply_summary(&self, summary: &mut SessionSummary)
        ensures
            final(summary)@ == summary_effect(*self, old(summary)@),
    {
        match self {
            PendingMutation::SetCurrentWorkingDirectory { path, observed_at, source } => {
                summary.set_current_working_directory_with_source(path.as_str(), *observed_at, source.as_str());
            },
            PendingMutation::SetPositionalParameters { values, observed_at } => {
                summary.set_positional_parameters(copy_values(values), *observed_at);
            },
            PendingMutation::ForgetPositionalParameters { observed_at } => {
                summary.forget_positional_parameters(*observed_at);
            },
            PendingMutation::UpsertVariableBinding { binding } => {
                summary.upsert_variable_binding(copy_variable_binding(binding));
            },
            PendingMutation::UpsertAliasBinding { binding } => {
                summary.upsert_alias_binding(copy_alias_binding(binding));
            },
            PendingMutation::UpsertFunctionBinding { binding } => {
                summary.upsert_function_binding(copy_function_binding(binding));
            },
            PendingMutation::UnsetVariable { name, observed_at } => {
                summary.unset_variable(name.as_str(), *observed_at);
            },
            PendingMutation::UnsetAlias { name, observed_at } => {
                summary.unset_alias(name.as_str(), *observed_at);
            },
            PendingMutation::UnsetFunction { name, observed_at } => {
                summary.unset_function(name.as_str(), *observed_at);
            },
            _ => {},
        }
    }
}

/// Which kinds of shell state a shell keeps from one command to the next.
#[derive(Debug, Clone, Copy, PartialEq, Eq, Structural)]
pub struct ShellRuntimeCapabilities {
    pub persists_cwd: bool,
    pub persists_positionals: bool,
    pub persists_variables: bool,
    pub persists_exported_environment: bool,
    pub persists_aliases: bool,
    pub persists_functions: bool,
}

impl ShellRuntimeCapabilities {
    /// A shell that keeps all of its state between commands.
    pub fn persistent_shell() -> (c: Self)
        ensures
            c.persists_cwd && c.persists_positionals && c.persists_variables,
            c.persists_exported_environment && c.persists_aliases && c.persists_functions,
    {
        ShellRuntimeCapabilities {
            persists_cwd: true,
            persists_positionals: true,
            persists_variables: true,
            persists_exported_environment: true,
            persists_aliases: true,
            persists_functions: true,
        }
    }

    /// A variable survives when the shell keeps its variables, or when it
    /// is exported and the shell keeps its exported environment.
    pub open spec fn keeps_variable(self, exported: bool) -> bool {
        self.persists_variables || (exported && self.persists_exported_environment)
    }

    pub fn persists_variable(&self, exported: bool) -> (r: bool)
        ensures
            r == self.keeps_variable(exported),
    {
        self.persists_variables || (exported && self.persists_exported_environment)
    }
}

/// Whether a shell with these capabilities keeps the change of state a
/// mutation makes; a mutation that changes no shell state is always kept.
pub open spec fn kept_by(m: PendingMutation, c: ShellRuntimeCapabilities) -> bool {
    match m {
        PendingMutation::SetCurrentWorkingDirectory { .. } => c.persists_cwd,
        PendingMutation::SetPositionalParameters { .. } => c.persists_positionals,
        PendingMutation::ForgetPositionalParameters { .. } => c.persists_positionals,
        PendingMutation::UpsertVariableBinding { binding } => c.keeps_variable(binding.exported),
        PendingMutation::UpsertAliasBinding { .. } => c.persists_aliases,
        PendingMutation::UpsertFunctionBinding { .. } => c.persists_functions,
        PendingMutation::UnsetVariable { .. } => c.persists_variables || c.persists_exported_environment,
        PendingMutation::UnsetAlias { .. } => c.persists_aliases,
        PendingMutation::UnsetFunction { .. } => c.persists_functions,
        _ => true,
    }
}

impl PendingMutation {
    /// Records in the summary of a live shell the change of state this
    /// mutation makes, where the shell keeps that kind of state.
    pub fn apply_live_summary(&self, summary: &mut SessionSummary, capabilities: ShellRuntimeCapabilities)
        ensures
            final(summary)@ == if kept_by(*self, capabilities) {
                summary_effect(*self, old(summary)@)
            } else {
                old(summary)@
            },
    {
        let kept = match self {
            PendingMutation::SetCurrentWorkingDirectory { .. } => capabilities.persists_cwd,
            PendingMutation::SetPositionalParameters { .. } => capabilities.persists_positionals,
            PendingMutation::ForgetPositionalParameters { .. } => capabilities.persists_positionals,
            PendingMutation::UpsertVariableBinding { binding } => capabilities.persists_variable(binding.exported),
            PendingMutation::UpsertAliasBinding { .. } => capabilities.persists_aliases,
            PendingMutation::UpsertFunctionBinding { .. } => capabilities.persists_functions,
            PendingMutation::UnsetVariable { .. } => capabilities.persists_variables
                || capabilities.persists_exported_environment,
            PendingMutation::UnsetAlias { .. } => capabilities.persists_aliases,
            PendingMutation::UnsetFunction { .. } => capabilities.persists_functions,
            _ => true,
        };
        if kept {
            self.apply_summary(summary);
        }
    }
}

/// In a shell that keeps all of its state, committing to the live summary
/// does what committing to the summary does.
pub proof fn law_persistent_shell_keeps_every_change(m: PendingMutation, c: ShellRuntimeCapabilities)
    requires
        c.persists_cwd && c.persists_positionals && c.persists_variables,
        c.persists_exported_environment && c.persists_aliases && c.persists_functions,
    ensures
        kept_by(m, c),
{
}

/// Reading a name back after committing a binding or an unset of it gives
/// what was committed, and every other name keeps its binding; the latest
/// sequence observed never moves back.
pub proof fn law_summary_reads_back_the_last_change(
    s: SummaryView,
    b: SessionVariableBinding,
    name: Seq<char>,
    at: CommandSequenceNo,
    other: Seq<char>,
)
    ensures
        s.with_variable(b).variables.contains_key(b.name@),
        s.with_variable(b).variables[b.name@] == b,
        !s.without_variable(name, at).variables.contains_key(name),
        other != b.name@ ==> s.with_variable(b).variables.contains_key(other) == s.variables.contains_key(other)
            && s.with_variable(b).variables[other] == s.variables[other],
        other != name ==> s.without_variable(name, at).variables.contains_key(other) == s.variables.contains_key(other)
            && s.without_variable(name, at).variables[other] == s.variables[other],
        s.observe(at).last_sequence_no matches Some(l) && l.0 >= at.0 && (s.last_sequence_no matches Some(p)
            ==> l.0 >= p.0),
{
}

} // verus!
