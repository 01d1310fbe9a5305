//! Command profiles: the forms a command can be invoked in, their
//! parameters and effects, the modifiers that adjust them, and what binding
//! an invocation against a profile produces. Kinds this library only carries
//! (in-process code loads, escape surfaces and capabilities, derived-path
//! rules, repository path sets and operations) are held as their labels.

use vstd::prelude::*;

use crate::profile::{
    BindingSpec, BoundValue, Cardinality, CatastrophicEffectMetadata, CommandIdentity, CommandName,
    CommandRefSemantic, DefaultSubcommandBehavior, DerivedPathSource, DispatchTarget, EffectKind, EndpointSemantic,
    FormId, HostRiskEffectMetadata, ImplicitInputSource, ModifierConstraint, ModifierId, ModifierMatcher,
    PackageLocatorSemantic, PathPurpose, PathSemantic, PayloadSemantic, PlatformConstraints, ProcessTargetSemantic,
    ProfileSourceKind, ProfileTrustMetadata, ProfileTrustTier, Residual, SelectorExpr, SelectorPredicate, SlotName, StreamContract,
    StructuredValueSemantic, ToolConventionPathTarget, ValueConstraint,
};
use crate::text::str_compare;

verus! {

/// Code a command loads into its own process, by the label of its kind.
#[derive(Debug, Clone, PartialEq, Eq)]
pub struct InProcessCodeLoadSemantic {
    pub load_kind: String,
}

/// What a parameter's values mean.
#[derive(Debug, Clone, PartialEq, Eq)]
pub enum SemanticType {
    PlainValue,
    Path(PathSemantic),
    Payload(PayloadSemantic),
    CommandRef(CommandRefSemantic),
    StructuredValue(StructuredValueSemantic),
    Endpoint(EndpointSemantic),
    PackageLocator(PackageLocatorSemantic),
    InProcessCodeLoad(InProcessCodeLoadSemantic),
    ProcessTarget(ProcessTargetSemantic),
}

/// A named parameter of a form or modifier.
#[derive(Debug, Clone, PartialEq, Eq)]
pub struct Parameter {
    pub name: SlotName,
    pub semantic: SemanticType,
    pub binding: BindingSpec,
    pub cardinality: Cardinality,
    pub value_constraints: Vec<ValueConstraint>,
}

impl Parameter {
    /// A required parameter taking one value, with no value constraints.
    pub fn new(name: &str, semantic: SemanticType, binding: BindingSpec) -> (r: Self)
        ensures
            r.name@ == name@,
            r.semantic == semantic,
            r.binding == binding,
            r.cardinality == Cardinality::RequiredOne,
            r.value_constraints@.len() == 0,
    {
        Parameter {
            name: SlotName::new(name),
            semantic,
            binding,
            cardinality: Cardinality::RequiredOne,
            value_constraints: Vec::new(),
        }
    }

    /// The same parameter, optional; whether it takes many values is kept.
    pub fn optional(self) -> (r: Self)
        ensures
            r.cardinality.is_optional_spec(),
            r.cardinality.is_variadic_spec() == self.cardinality.is_variadic_spec(),
            r == (Parameter { cardinality: r.cardinality, ..self }),
    {
        let cardinality = self.cardinality.made_optional();
        Parameter { cardinality, ..self }
    }

    /// The same parameter, taking many values; whether it is optional is
    /// kept.
    pub fn variadic(self) -> (r: Self)
        ensures
            r.cardinality.is_variadic_spec(),
            r.cardinality.is_optional_spec() == self.cardinality.is_optional_spec(),
            r == (Parameter { cardinality: r.cardinality, ..self }),
    {
        let cardinality = self.cardinality.made_variadic();
        Parameter { cardinality, ..self }
    }

    /// The same parameter with one more value constraint, added last.
    pub fn with_value_constraint(self, constraint: ValueConstraint) -> (r: Self)
        ensures
            r.value_constraints@ == self.value_constraints@.push(constraint),
            r == (Parameter { value_constraints: r.value_constraints, ..self }),
    {
        let mut value_constraints = self.value_constraints;
        value_constraints.push(constraint);
        Parameter { value_constraints, ..self }
    }
}

/// Input a form reads without naming it in its arguments.
#[derive(Debug, Clone, PartialEq, Eq)]
pub struct ImplicitInput {
    pub source: ImplicitInputSource,
    pub semantic: SemanticType,
}

impl ImplicitInput {
    pub fn new(source: ImplicitInputSource, semantic: SemanticType) -> (r: Self)
        ensures
            r == (ImplicitInput { source, semantic }),
    {
        ImplicitInput { source, semantic }
    }
}

/// An interactive surface a command opens from which other commands can be
/// run, by the labels of its kind and capabilities.
#[derive(Debug, Clone, PartialEq, Eq)]
pub struct InteractiveEscapeSurface {
    pub kind: String,
    pub requires_tty: bool,
    pub capabilities: Vec<String>,
}

/// A path derived from another by a rule, named by its label.
#[derive(Debug, Clone, PartialEq, Eq)]
pub struct DerivedPathTarget {
    pub source: DerivedPathSource,
    pub root: Option<DerivedPathSource>,
    pub rule: String,
    pub purpose: Option<PathPurpose>,
}

/// The part of a repository an effect changes; the path set by its label.
#[derive(Debug, Clone, PartialEq, Eq)]
pub enum MutationScopeTarget {
    RepositoryWorktree { root: Option<SlotName>, path_set: String, subtree: Option<SlotName> },
}

/// What an effect acts on.
#[derive(Debug, Clone, PartialEq, Eq)]
pub enum EffectTarget {
    Slot(SlotName),
    ToolConventionPath(ToolConventionPathTarget),
    DerivedPath(DerivedPathTarget),
    MutationScope(MutationScopeTarget),
    ImplicitInput(ImplicitInputSource),
    Dispatch(DispatchTarget),
    NoTarget,
}

/// Something running a form or modifier does; the repository operation by
/// its label.
#[derive(Debug, Clone, PartialEq, Eq)]
pub struct Effect {
    pub kind: EffectKind,
    pub target: EffectTarget,
    pub interactive_escape_surface: Option<InteractiveEscapeSurface>,
    pub catastrophic: CatastrophicEffectMetadata,
    pub host_risk: HostRiskEffectMetadata,
    pub repository_operation: Option<String>,
}

impl Effect {
    /// An effect of the given kind with no target and no metadata.
    pub fn new(kind: EffectKind) -> (r: Self)
        ensures
            r.kind == kind,
            r.target == EffectTarget::NoTarget,
            r.interactive_escape_surface is None,
            r.catastrophic.semantic_class is None,
            r.catastrophic.required_modifiers@.len() == 0,
            r.host_risk.semantic_class is None,
            r.host_risk.required_modifiers@.len() == 0,
            r.repository_operation is None,
    {
        Effect {
            kind,
            target: EffectTarget::NoTarget,
            interactive_escape_surface: None,
            catastrophic: CatastrophicEffectMetadata::default(),
            host_risk: HostRiskEffectMetadata::default(),
            repository_operation: None,
        }
    }

    /// The same effect, targeting the named slot.
    pub fn for_slot(self, slot: &str) -> (r: Self)
        ensures
            r.target matches EffectTarget::Slot(s) && s@ == slot@,
            r == (Effect { target: r.target, ..self }),
    {
        Effect { target: EffectTarget::Slot(SlotName::new(slot)), ..self }
    }

    /// The same effect, opening the given interactive surface.
    pub fn with_interactive_escape_surface(self, surface: InteractiveEscapeSurface) -> (r: Self)
        ensures
            r == (Effect { interactive_escape_surface: Some(surface), ..self }),
    {
        Effect { interactive_escape_surface: Some(surface), ..self }
    }
}

/// One way of invoking a command, selected by its selectors.
#[derive(Debug)]
pub struct Form {
    pub id: FormId,
    pub selector: SelectorExpr,
    pub remaining_selector: SelectorExpr,
    pub parameters: Vec<Parameter>,
    pub implicit_inputs: Vec<ImplicitInput>,
    pub effects: Vec<Effect>,
    pub stream_contract: Option<StreamContract>,
}

impl Form {
    /// A form selecting everything, with no parameters, inputs or effects.
    pub fn new(id: &str) -> (r: Self)
        ensures
            r.id@ == id@,
            r.selector matches SelectorExpr::All(items) && items@.len() == 0,
            r.remaining_selector matches SelectorExpr::All(items) && items@.len() == 0,
            r.parameters@.len() == 0,
            r.implicit_inputs@.len() == 0,
            r.effects@.len() == 0,
            r.stream_contract is None,
    {
        Form {
            id: FormId::new(id),
            selector: SelectorExpr::new(),
            remaining_selector: SelectorExpr::new(),
            parameters: Vec::new(),
            implicit_inputs: Vec::new(),
            effects: Vec::new(),
            stream_contract: None,
        }
    }

    pub fn with_selector(self, selector: SelectorExpr) -> (r: Self)
        ensures
            r == (Form { selector, ..self }),
    {
        Form { selector, ..self }
    }

    pub fn with_remaining_selector(self, selector: SelectorExpr) -> (r: Self)
        ensures
            r == (Form { remaining_selector: selector, ..self }),
    {
        Form { remaining_selector: selector, ..self }
    }

    /// The same form with one more predicate in its selector, which must be
    /// a conjunction.
    pub fn with_selector_predicate(self, predicate: SelectorPredicate) -> (r: Self)
        requires
            self.selector is All,
        ensures
            r.selector matches SelectorExpr::All(items) && items@ == self.selector->All_0@.push(
                SelectorExpr::Predicate(predicate),
            ),
            r == (Form { selector: r.selector, ..self }),
    {
        let selector = self.selector.with_predicate(predicate);
        Form { selector, ..self }
    }

    /// The same form with one more predicate in its remaining selector,
    /// which must be a conjunction.
    pub fn with_remaining_selector_predicate(self, predicate: SelectorPredicate) -> (r: Self)
        requires
            self.remaining_selector is All,
        ensures
            r.remaining_selector matches SelectorExpr::All(items) && items@
                == self.remaining_selector->All_0@.push(SelectorExpr::Predicate(predicate)),
            r == (Form { remaining_selector: r.remaining_selector, ..self }),
    {
        let remaining_selector = self.remaining_selector.with_predicate(predicate);
        Form { remaining_selector, ..self }
    }

    pub fn with_parameter(self, parameter: Parameter) -> (r: Self)
        ensures
            r.parameters@ == self.parameters@.push(parameter),
            r == (Form { parameters: r.parameters, ..self }),
    {
        let mut parameters = self.parameters;
        parameters.push(parameter);
        Form { parameters, ..self }
    }

    pub fn with_implicit_input(self, input: ImplicitInput) -> (r: Self)
        ensures
            r.implicit_inputs@ == self.implicit_inputs@.push(input),
            r == (Form { implicit_inputs: r.implicit_inputs, ..self }),
    {
        let mut implicit_inputs = self.implicit_inputs;
        implicit_inputs.push(input);
        Form { implicit_inputs, ..self }
    }

    pub fn with_effect(self, effect: Effect) -> (r: Self)
        ensures
            r.effects@ == self.effects@.push(effect),
            r == (Form { effects: r.effects, ..self }),
    {
        let mut effects = self.effects;
        effects.push(effect);
        Form { effects, ..self }
    }
}

/// A flag-triggered adjustment to an invocation.
#[derive(Debug, Clone, PartialEq, Eq)]
pub struct Modifier {
    pub id: ModifierId,
    pub matcher: ModifierMatcher,
    pub parameters: Vec<Parameter>,
    pub effects: Vec<Effect>,
    pub constraints: Vec<ModifierConstraint>,
}

impl Modifier {
    /// A modifier matching no flag yet, with no parameters, effects or
    /// constraints.
    pub fn new(id: &str) -> (r: Self)
        ensures
            r.id@ == id@,
            r.matcher is AnyFlag,
            r.matcher.flags_spec().len() == 0,
            r.parameters@.len() == 0,
            r.effects@.len() == 0,
            r.constraints@.len() == 0,
    {
        Modifier {
            id: ModifierId::new(id),
            matcher: ModifierMatcher::new(),
            parameters: Vec::new(),
            effects: Vec::new(),
            constraints: Vec::new(),
        }
    }

    pub fn with_matcher(self, matcher: ModifierMatcher) -> (r: Self)
        ensures
            r == (Modifier { matcher, ..self }),
    {
        Modifier { matcher, ..self }
    }

    /// The same modifier, also matched by the given flag.
    pub fn with_flag_name(self, flag_name: &str) -> (r: Self)
        ensures
            (r.matcher is AnyFlag) == (self.matcher is AnyFlag),
            r.matcher.flags_spec().len() == self.matcher.flags_spec().len() + 1,
            r.matcher.flags_spec().subrange(0, self.matcher.flags_spec().len() as int) == self.matcher.flags_spec(),
            r.matcher.flags_spec().last()@ == flag_name@,
            r == (Modifier { matcher: r.matcher, ..self }),
    {
        let matcher = self.matcher.with_flag_name(flag_name);
        Modifier { matcher, ..self }
    }

    pub fn with_parameter(self, parameter: Parameter) -> (r: Self)
        ensures
            r.parameters@ == self.parameters@.push(parameter),
            r == (Modifier { parameters: r.parameters, ..self }),
    {
        let mut parameters = self.parameters;
        parameters.push(parameter);
        Modifier { parameters, ..self }
    }

    pub fn with_effect(self, effect: Effect) -> (r: Self)
        ensures
            r.effects@ == self.effects@.push(effect),
            r == (Modifier { effects: r.effects, ..self }),
    {
        let mut effects = self.effects;
        effects.push(effect);
        Modifier { effects, ..self }
    }

    pub fn with_constraint(self, constraint: ModifierConstraint) -> (r: Self)
        ensures
            r.constraints@ == self.constraints@.push(constraint),
            r == (Modifier { constraints: r.constraints, ..self }),
    {
        let mut constraints = self.constraints;
        constraints.push(constraint);
        Modifier { constraints, ..self }
    }
}

/// A subcommand with its own forms, modifiers and children.
#[derive(Debug)]
pub struct SubcommandNode {
    pub name: String,
    pub aliases: Vec<String>,
    pub forms: Vec<Form>,
    pub modifiers: Vec<Modifier>,
    pub children: Vec<SubcommandNode>,
    pub default_behavior: Option<DefaultSubcommandBehavior>,
}

/// The subcommands of a command.
#[derive(Debug)]
pub struct SubcommandTree {
    pub roots: Vec<SubcommandNode>,
}

/// The values bound to one parameter.
#[derive(Debug, Clone, PartialEq, Eq)]
pub struct BoundParameter {
    pub name: SlotName,
    pub semantic: SemanticType,
    pub values: Vec<BoundValue>,
}

impl BoundParameter {
    pub fn new(name: SlotName, semantic: SemanticType) -> (r: Self)
        ensures
            r.name == name,
            r.semantic == semantic,
            r.values@.len() == 0,
    {
        BoundParameter { name, semantic, values: Vec::new() }
    }

    pub fn with_value(self, value: BoundValue) -> (r: Self)
        ensures
            r.values@ == self.values@.push(value),
            r == (BoundParameter { values: r.values, ..self }),
    {
        let mut values = self.values;
        values.push(value);
        BoundParameter { values, ..self }
    }
}

/// An implicit input an invocation was found to read.
#[derive(Debug, Clone, PartialEq, Eq)]
pub struct BoundImplicitInput {
    pub source: ImplicitInputSource,
    pub semantic: SemanticType,
}

impl BoundImplicitInput {
    pub fn new(source: ImplicitInputSource, semantic: SemanticType) -> (r: Self)
        ensures
            r == (BoundImplicitInput { source, semantic }),
    {
        BoundImplicitInput { source, semantic }
    }
}

/// An invocation bound to a form of a profile: its parameters, inputs,
/// modifiers, effects and what could not be modelled.
#[derive(Debug, Clone, PartialEq, Eq)]
pub struct BoundInvocation {
    pub command_name: CommandName,
    pub subcommand_path: Vec<String>,
    pub form_id: FormId,
    pub bound_parameters: Vec<BoundParameter>,
    pub bound_implicit_inputs: Vec<BoundImplicitInput>,
    pub applied_modifiers: Vec<ModifierId>,
    pub effects: Vec<Effect>,
    pub residuals: Vec<Residual>,
}

impl BoundInvocation {
    /// An invocation of the form with nothing bound yet.
    pub fn new(command_name: CommandName, form_id: FormId) -> (r: Self)
        ensures
            r.command_name == command_name,
            r.form_id == form_id,
            r.subcommand_path@.len() == 0,
            r.bound_parameters@.len() == 0,
            r.bound_implicit_inputs@.len() == 0,
            r.applied_modifiers@.len() == 0,
            r.effects@.len() == 0,
            r.residuals@.len() == 0,
    {
        BoundInvocation {
            command_name,
            subcommand_path: Vec::new(),
            form_id,
            bound_parameters: Vec::new(),
            bound_implicit_inputs: Vec::new(),
            applied_modifiers: Vec::new(),
            effects: Vec::new(),
            residuals: Vec::new(),
        }
    }

    pub fn with_bound_parameter(self, bound_parameter: BoundParameter) -> (r: Self)
        ensures
            r.bound_parameters@ == self.bound_parameters@.push(bound_parameter),
            r == (BoundInvocation { bound_parameters: r.bound_parameters, ..self }),
    {
        let mut bound_parameters = self.bound_parameters;
        bound_parameters.push(bound_parameter);
        BoundInvocation { bound_parameters, ..self }
    }

    pub fn with_subcommand_path(self, path: Vec<String>) -> (r: Self)
        ensures
            r == (BoundInvocation { subcommand_path: path, ..self }),
    {
        BoundInvocation { subcommand_path: path, ..self }
    }

    pub fn with_bound_implicit_input(self, bound_implicit_input: BoundImplicitInput) -> (r: Self)
        ensures
            r.bound_implicit_inputs@ == self.bound_implicit_inputs@.push(bound_implicit_input),
            r == (BoundInvocation { bound_implicit_inputs: r.bound_implicit_inputs, ..self }),
    {
        let mut bound_implicit_inputs = self.bound_implicit_inputs;
        bound_implicit_inputs.push(bound_implicit_input);
        BoundInvocation { bound_implicit_inputs, ..self }
    }

    pub fn with_modifier(self, modifier_id: ModifierId) -> (r: Self)
        ensures
            r.applied_modifiers@ == self.applied_modifiers@.push(modifier_id),
            r == (BoundInvocation { applied_modifiers: r.applied_modifiers, ..self }),
    {
        let mut applied_modifiers = self.applied_modifiers;
        applied_modifiers.push(modifier_id);
        BoundInvocation { applied_modifiers, ..self }
    }

    pub fn with_effect(self, effect: Effect) -> (r: Self)
        ensures
            r.effects@ == self.effects@.push(effect),
            r == (BoundInvocation { effects: r.effects, ..self }),
    {
        let mut effects = self.effects;
        effects.push(effect);
        BoundInvocation { effects, ..self }
    }

    pub fn with_residual(self, residual: Residual) -> (r: Self)
        ensures
            r.residuals@ == self.residuals@.push(residual),
            r == (BoundInvocation { residuals: r.residuals, ..self }),
    {
        let mut residuals = self.residuals;
        residuals.push(residual);
        BoundInvocation { residuals, ..self }
    }
}

/// Everything known about how a command can be invoked.
#[derive(Debug)]
pub struct CommandProfile {
    pub identity: CommandIdentity,
    pub trust: ProfileTrustMetadata,
    pub platform: PlatformConstraints,
    pub forms: Vec<Form>,
    pub modifiers: Vec<Modifier>,
    pub subcommands: Option<SubcommandTree>,
}

/// Whether `name` is a profile's canonical name or one of its aliases.
pub open spec fn names_profile(identity: CommandIdentity, name: Seq<char>) -> bool {
    identity.canonical_name@ == name || exists|i: int|
        0 <= i < identity.aliases@.len() && #[trigger] identity.aliases@[i]@ == name
}

impl CommandProfile {
    /// The profile of the named command, with no aliases, forms, modifiers
    /// or subcommands and default trust and platform metadata.
    pub fn new(name: &str) -> (r: Self)
        ensures
            r.identity.canonical_name@ == name@,
            r.identity.aliases@.len() == 0,
            r.trust.tier == ProfileTrustTier::TierC,
            r.trust.source == ProfileSourceKind::Generated,
            r.trust.reviewed_by is None,
            r.trust.review_notes is None,
            r.platform.os_families@.len() == 0,
            r.platform.shell_families@.len() == 0,
            r.platform.requires_features@.len() == 0,
            r.forms@.len() == 0,
            r.modifiers@.len() == 0,
            r.subcommands is None,
    {
        CommandProfile {
            identity: CommandIdentity::new(name),
            trust: ProfileTrustMetadata::default(),
            platform: PlatformConstraints::default(),
            forms: Vec::new(),
            modifiers: Vec::new(),
            subcommands: None,
        }
    }

    /// The same profile with one more alias, added last.
    pub fn alias(self, name: &str) -> (r: Self)
        ensures
            r.identity.canonical_name == self.identity.canonical_name,
            r.identity.aliases@.len() == self.identity.aliases@.len() + 1,
            r.identity.aliases@.drop_last() == self.identity.aliases@,
            r.identity.aliases@.last()@ == name@,
            r == (CommandProfile { identity: r.identity, ..self }),
    {
        let mut identity = self.identity;
        let ghost before = identity.aliases@;
        identity.aliases.push(CommandName::new(name));
        assert(identity.aliases@.drop_last() =~= before);
        CommandProfile { identity, ..self }
    }

    pub fn with_form(self, form: Form) -> (r: Self)
        ensures
            r.forms@ == self.forms@.push(form),
            r == (CommandProfile { forms: r.forms, ..self }),
    {
        let mut forms = self.forms;
        forms.push(form);
        CommandProfile { forms, ..self }
    }

    pub fn with_modifier(self, modifier: Modifier) -> (r: Self)
        ensures
            r.modifiers@ == self.modifiers@.push(modifier),
            r == (CommandProfile { modifiers: r.modifiers, ..self }),
    {
        let mut modifiers = self.modifiers;
        modifiers.push(modifier);
        CommandProfile { modifiers, ..self }
    }

    pub fn primary_name(&self) -> (r: &str)
        ensures
            r@ == self.identity.canonical_name@,
    {
        self.identity.canonical_name.as_str()
    }

    /// Whether `name` is the profile's canonical name or one of its aliases.
    pub fn matches_name(&self, name: &str) -> (r: bool)
        ensures
            r == names_profile(self.identity, name@),
    {
        if str_compare(self.identity.canonical_name.as_str(), name) == 0 {
            return true;
        }
        let aliases = &self.identity.aliases;
        let n = aliases.len();
        let mut i: usize = 0;
        while i < n
            invariant
                n == aliases@.len(),
                0 <= i <= n,
                aliases@ == self.identity.aliases@,
                self.identity.canonical_name@ != name@,
                forall|j: int| 0 <= j < i ==> #[trigger] aliases@[j]@ != name@,
            decreases n - i,
        {
            if str_compare(aliases[i].as_str(), name) == 0 {
                assert(self.identity.aliases@[i as int]@ == name@);
                return true;
            }
            i = i + 1;
        }
        false
    }
}

} // verus!
