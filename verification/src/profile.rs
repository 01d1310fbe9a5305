//! Vocabulary of command profiles: names, selectors, semantic types of
//! parameters, effects, residuals and bound values.

use vstd::prelude::*;
use vstd::string::*;

use crate::text::{after_last, chars_of, count_char, separator_layout};

verus! {

/// How the text bound to an argument was obtained.
#[derive(Debug, Clone, PartialEq, Eq)]
pub enum BoundArgumentMaterialization {
    Literal,
    ResolvedExactScalar { variable_name: String },
    ResolvedRuntimeProduced { variable_name: String },
}

/// Canonical or alias name of a command. Two names are equal when their
/// texts are.
#[derive(Debug, Clone, Eq, PartialOrd, Ord, Hash)]
pub struct CommandName(String);

impl PartialEq for CommandName {
    fn eq(&self, other: &Self) -> (r: bool) {
        self.0 == other.0
    }
}

impl vstd::std_specs::cmp::PartialEqSpecImpl for CommandName {
    open spec fn obeys_eq_spec() -> bool {
        true
    }

    open spec fn eq_spec(&self, other: &Self) -> bool {
        self@ == other@
    }
}

/// Identifier of a form of a command profile.
#[derive(Debug, Clone, PartialEq, Eq, PartialOrd, Ord, Hash)]
pub struct FormId(String);

/// Name of a parameter slot.
#[derive(Debug, Clone, PartialEq, Eq, PartialOrd, Ord, Hash)]
pub struct SlotName(String);

/// Identifier of a modifier of a command profile.
#[derive(Debug, Clone, PartialEq, Eq, PartialOrd, Ord, Hash)]
pub struct ModifierId(String);

/// Name of a command-line flag.
#[derive(Debug, Clone, PartialEq, Eq, PartialOrd, Ord, Hash)]
pub struct FlagName(String);

impl View for CommandName {
    type V = Seq<char>;

    closed spec fn view(&self) -> Seq<char> {
        self.0@
    }
}

impl View for FormId {
    type V = Seq<char>;

    closed spec fn view(&self) -> Seq<char> {
        self.0@
    }
}

impl View for SlotName {
    type V = Seq<char>;

    closed spec fn view(&self) -> Seq<char> {
        self.0@
    }
}

impl View for ModifierId {
    type V = Seq<char>;

    closed spec fn view(&self) -> Seq<char> {
        self.0@
    }
}

impl View for FlagName {
    type V = Seq<char>;

    closed spec fn view(&self) -> Seq<char> {
        self.0@
    }
}

impl CommandName {
    pub fn new(value: &str) -> (r: Self)
        ensures
            r@ == value@,
    {
        CommandName(value.to_owned())
    }

    pub fn as_str(&self) -> (r: &str)
        ensures
            r@ == self@,
    {
        self.0.as_str()
    }
}

/// Names made from texts compare as their texts do, and give their texts
/// back.
pub proof fn law_command_names_are_their_texts(a: CommandName, b: CommandName)
    ensures
        vstd::std_specs::cmp::PartialEqSpec::eq_spec(&a, &b) <==> a@ == b@,
{
}

impl FormId {
    pub fn new(value: &str) -> (r: Self)
        ensures
            r@ == value@,
    {
        FormId(value.to_owned())
    }

    pub fn as_str(&self) -> (r: &str)
        ensures
            r@ == self@,
    {
        self.0.as_str()
    }
}

impl SlotName {
    pub fn new(value: &str) -> (r: Self)
        ensures
            r@ == value@,
    {
        SlotName(value.to_owned())
    }

    pub fn as_str(&self) -> (r: &str)
        ensures
            r@ == self@,
    {
        self.0.as_str()
    }
}

impl ModifierId {
    pub fn new(value: &str) -> (r: Self)
        ensures
            r@ == value@,
    {
        ModifierId(value.to_owned())
    }

    pub fn as_str(&self) -> (r: &str)
        ensures
            r@ == self@,
    {
        self.0.as_str()
    }
}

impl FlagName {
    pub fn new(value: &str) -> (r: Self)
        ensures
            r@ == value@,
    {
        FlagName(value.to_owned())
    }

    pub fn as_str(&self) -> (r: &str)
        ensures
            r@ == self@,
    {
        self.0.as_str()
    }
}

/// A command's canonical name and its aliases.
#[derive(Debug, Clone, PartialEq, Eq)]
pub struct CommandIdentity {
    pub canonical_name: CommandName,
    pub aliases: Vec<CommandName>,
}

impl CommandIdentity {
    pub fn new(canonical_name: &str) -> (r: Self)
        ensures
            r.canonical_name@ == canonical_name@,
            r.aliases@.len() == 0,
    {
        CommandIdentity { canonical_name: CommandName::new(canonical_name), aliases: Vec::new() }
    }
}

#[derive(Debug, Clone, Copy, PartialEq, Eq, Structural)]
pub enum ProfileTrustTier {
    TierA,
    TierB,
    TierC,
}

impl Default for ProfileTrustTier {
    fn default() -> (r: Self)
        ensures
            r == ProfileTrustTier::TierC,
    {
        ProfileTrustTier::TierC
    }
}

#[derive(Debug, Clone, Copy, PartialEq, Eq, Structural)]
pub enum ProfileSourceKind {
    BuiltIn,
    User,
    ImportedLegacy,
    Generated,
}

impl Default for ProfileSourceKind {
    fn default() -> (r: Self)
        ensures
            r == ProfileSourceKind::Generated,
    {
        ProfileSourceKind::Generated
    }
}

/// How far a profile is trusted and where it came from.
#[derive(Debug, Clone, PartialEq, Eq)]
pub struct ProfileTrustMetadata {
    pub tier: ProfileTrustTier,
    pub source: ProfileSourceKind,
    pub reviewed_by: Option<String>,
    pub review_notes: Option<String>,
}

impl Default for ProfileTrustMetadata {
    fn default() -> (r: Self)
        ensures
            r.tier == ProfileTrustTier::TierC,
            r.source == ProfileSourceKind::Generated,
            r.reviewed_by is None,
            r.review_notes is None,
    {
        ProfileTrustMetadata {
            tier: ProfileTrustTier::TierC,
            source: ProfileSourceKind::Generated,
            reviewed_by: None,
            review_notes: None,
        }
    }
}

#[derive(Debug, Clone, Copy, PartialEq, Eq, Structural)]
pub enum OsFamily {
    Posix,
    Linux,
    MacOs,
    Windows,
}

#[derive(Debug, Clone, Copy, PartialEq, Eq, Structural)]
pub enum ShellFamily {
    Bourne,
    Bash,
    Sh,
    Dash,
    PowerShell,
    Cmd,
}

#[derive(Debug, Clone, Copy, PartialEq, Eq, Structural)]
pub enum RuntimeFeature {
    InteractiveSession,
    StdinPayloadAvailable,
    PipelineInputAvailable,
}

/// Platforms a profile applies to (empty lists mean no restriction).
#[derive(Debug, Clone, PartialEq, Eq)]
pub struct PlatformConstraints {
    pub os_families: Vec<OsFamily>,
    pub shell_families: Vec<ShellFamily>,
    pub requires_features: Vec<RuntimeFeature>,
}

impl Default for PlatformConstraints {
    fn default() -> (r: Self)
        ensures
            r.os_families@.len() == 0,
            r.shell_families@.len() == 0,
            r.requires_features@.len() == 0,
    {
        PlatformConstraints {
            os_families: Vec::new(),
            shell_families: Vec::new(),
            requires_features: Vec::new(),
        }
    }
}

/// A test on an invocation's arguments that selects a form.
#[derive(Debug, Clone, PartialEq, Eq)]
pub enum SelectorPredicate {
    HasFlag(FlagName),
    HasFlagAtLeast(FlagName, usize),
    LacksFlag(FlagName),
    HasModifier(ModifierId),
    HasModifierParameterMatching(ModifierId, SlotName, ValueMatcher),
    HasPositionalAt(usize),
    HasPositionalBeforeDashDashAt(usize),
    HasPositionalAtMatching(usize, ValueMatcher),
    HasPositionalAtOrAfterMatching(usize, ValueMatcher),
    HasPositionalAfterLeadingMatcher(ValueMatcher),
    NoPositionalAfterLeadingMatcher(ValueMatcher),
    LastPositionalMatches(ValueMatcher),
    NoPositionalArgs,
    HasDashDash,
    NoDashDash,
    StdinPayloadAvailable,
    InteractiveSession,
    HasSubcommandPath(Vec<String>),
    HasRuntimeFeature(RuntimeFeature),
}

/// A boolean combination of selector predicates.
#[derive(Debug)]
pub enum SelectorExpr {
    All(Vec<SelectorExpr>),
    Any(Vec<SelectorExpr>),
    Not(Box<SelectorExpr>),
    Predicate(SelectorPredicate),
}

impl Default for SelectorExpr {
    fn default() -> (r: Self)
        ensures
            r matches SelectorExpr::All(items) && items@.len() == 0,
    {
        SelectorExpr::All(Vec::new())
    }
}

impl SelectorExpr {
    /// The selector that matches everything: an empty conjunction.
    pub fn new() -> (r: Self)
        ensures
            r matches SelectorExpr::All(items) && items@.len() == 0,
    {
        SelectorExpr::All(Vec::new())
    }

    /// Adds a predicate to a conjunction.
    pub fn with_predicate(self, predicate: SelectorPredicate) -> (r: Self)
        requires
            self is All,
        ensures
            r matches SelectorExpr::All(items) && items@ == self->All_0@.push(
                SelectorExpr::Predicate(predicate),
            ),
    {
        match self {
            SelectorExpr::All(items) => {
                let mut items = items;
                items.push(SelectorExpr::Predicate(predicate));
                SelectorExpr::All(items)
            },
            other => other,
        }
    }
}

#[derive(Debug, Clone, Copy, PartialEq, Eq, Structural)]
pub enum StreamInputMode {
    Ignored,
    DataOptional,
    DataRequired,
    PayloadOptional,
    PayloadRequired,
}

#[derive(Debug, Clone, Copy, PartialEq, Eq, Structural)]
pub enum StreamOutputMode {
    Opaque,
    Data,
    CommandText,
    PathList,
}

#[derive(Debug, Clone, Copy, PartialEq, Eq, Structural)]
pub struct StreamContract {
    pub stdin_mode: StreamInputMode,
    pub stdout_mode: StreamOutputMode,
    pub stderr_mode: StreamOutputMode,
}

#[derive(Debug, Clone, Copy, PartialEq, Eq, Structural)]
pub enum PathRole {
    Read,
    Write,
    MetadataMutation,
    Target,
    Config,
    CwdAnchor,
}

#[derive(Debug, Clone, Copy, PartialEq, Eq, Structural)]
pub enum PathPurpose {
    GenericOperand,
    ScriptSource,
    InProcessCode,
    StartupConfig,
    ProjectConfig,
    ToolConfig,
    TaskConfig,
    WorkingDirectory,
}

#[derive(Debug, Clone, Copy, PartialEq, Eq, Structural)]
pub struct PathSemantic {
    pub role: PathRole,
    pub purpose: Option<PathPurpose>,
}

#[derive(Debug, Clone, Copy, PartialEq, Eq, Structural)]
pub enum PayloadLanguage {
    Bash,
    Sh,
    Dash,
    Python,
    Perl,
    Javascript,
}

#[derive(Debug, Clone, Copy, PartialEq, Eq, Structural)]
pub enum PayloadSource {
    InlineString,
    ScriptFileRef,
    Stdin,
    Interactive,
    DynamicReference,
}

#[derive(Debug, Clone, Copy, PartialEq, Eq, Structural)]
pub struct PayloadSemantic {
    pub language: PayloadLanguage,
    pub source: PayloadSource,
    pub recursive: bool,
}

#[derive(Debug, Clone, Copy, PartialEq, Eq, Structural)]
pub enum DispatchKind {
    CommandName,
    WrapperCommand,
    ShellPayload,
    InterpreterModule,
}

#[derive(Debug, Clone, Copy, PartialEq, Eq, Structural)]
pub struct CommandRefSemantic {
    pub dispatch: DispatchKind,
}

#[derive(Debug, Clone, Copy, PartialEq, Eq, Structural)]
pub enum StructuredValueContext {
    Regex,
    SedScript,
    AwkProgram,
    FormatString,
    DateExpression,
    NumericQuantity,
    PathExpression,
    EnvAssignment,
    RemoteSpec,
    OwnerGroupSpec,
}

#[derive(Debug, Clone, Copy, PartialEq, Eq, Structural)]
pub struct StructuredValueSemantic {
    pub context: StructuredValueContext,
}

#[derive(Debug, Clone, Copy, PartialEq, Eq, Structural)]
pub enum EndpointKind {
    Url,
    HostPort,
    SocketPath,
    RemoteSpec,
}

#[derive(Debug, Clone, Copy, PartialEq, Eq, Structural)]
pub enum EndpointUsage {
    FetchSource,
    UploadTarget,
    ControlPlane,
    GenericEndpoint,
}

#[derive(Debug, Clone, Copy, PartialEq, Eq, Structural)]
pub struct EndpointSemantic {
    pub kind: EndpointKind,
    pub usage: EndpointUsage,
}

#[derive(Debug, Clone, Copy, PartialEq, Eq, Structural)]
pub enum PackageManagerKind {
    Pip,
    Apt,
    Conan,
    Npm,
}

#[derive(Debug, Clone, Copy, PartialEq, Eq, Structural)]
pub enum PackageLocatorKind {
    RegistryRef,
    LocalPath,
    DirectUrl,
    VcsUrl,
    RequirementFile,
    UnknownDynamic,
}

#[derive(Debug, Clone, PartialEq, Eq)]
pub struct PackageLocatorSemantic {
    pub manager: PackageManagerKind,
    pub locator_kinds: Vec<PackageLocatorKind>,
}

#[derive(Debug, Clone, Copy, PartialEq, Eq, Structural)]
pub enum ProcessTargetKind {
    Pid,
    ProcessName,
    ProcessPattern,
    JobSpec,
    Unknown,
}

#[derive(Debug, Clone, PartialEq, Eq, Structural)]
pub struct ProcessTargetSemantic {
    pub kind: ProcessTargetKind,
    pub broad_match: bool,
}

/// How many values a parameter takes.
#[derive(Debug, Clone, Copy, PartialEq, Eq, Structural)]
pub enum Cardinality {
    RequiredOne,
    OptionalOne,
    RequiredMany,
    OptionalMany,
}

impl Cardinality {
    pub open spec fn is_optional_spec(self) -> bool {
        self is OptionalOne || self is OptionalMany
    }

    pub open spec fn is_variadic_spec(self) -> bool {
        self is RequiredMany || self is OptionalMany
    }

    pub fn is_optional(self) -> (r: bool)
        ensures
            r == self.is_optional_spec(),
    {
        match self {
            Cardinality::OptionalOne | Cardinality::OptionalMany => true,
            _ => false,
        }
    }

    pub fn is_variadic(self) -> (r: bool)
        ensures
            r == self.is_variadic_spec(),
    {
        match self {
            Cardinality::RequiredMany | Cardinality::OptionalMany => true,
            _ => false,
        }
    }

    /// The same arity, no longer required (what marking a parameter optional
    /// does to its cardinality).
    pub fn made_optional(self) -> (r: Self)
        ensures
            r.is_optional_spec(),
            r.is_variadic_spec() == self.is_variadic_spec(),
    {
        match self {
            Cardinality::RequiredOne => Cardinality::OptionalOne,
            Cardinality::RequiredMany => Cardinality::OptionalMany,
            other => other,
        }
    }

    /// The same requiredness, taking many values (what marking a parameter
    /// variadic does to its cardinality).
    pub fn made_variadic(self) -> (r: Self)
        ensures
            r.is_variadic_spec(),
            r.is_optional_spec() == self.is_optional_spec(),
    {
        match self {
            Cardinality::RequiredOne => Cardinality::RequiredMany,
            Cardinality::OptionalOne => Cardinality::OptionalMany,
            other => other,
        }
    }
}

/// A cardinality is fixed by whether it is optional and whether it is
/// variadic.
pub proof fn lemma_cardinality_is_its_two_flags(a: Cardinality, b: Cardinality)
    ensures
        a.is_optional_spec() == b.is_optional_spec() && a.is_variadic_spec() == b.is_variadic_spec()
            ==> a == b,
{
}

/// How a parameter's value is matched against text.
#[derive(Debug, Clone, PartialEq, Eq)]
pub enum ValueMatcher {
    StructuredValueContext(StructuredValueContext),
    Literal(String),
    RegexPattern(String),
}

/// Where in the argument list a parameter takes its values from.
#[derive(Debug, Clone, PartialEq, Eq)]
pub enum BindingSpec {
    NextPositional,
    NextPositionalAfterDashDash,
    PositionalAt(usize),
    RemainingPositionals,
    RemainingPositionalsAfterDashDash,
    RemainingPositionalsBeforeLast,
    RemainingArgs,
    ArgsUntilLiteral { terminator: String, include_terminator: bool },
    LastPositional,
    LastPositionalBeforeLast,
    FollowingFlag { flag_name: FlagName, operand_mode: FlagOperandMode },
    FollowingMatchedFlag { operand_mode: FlagOperandMode },
    ArgsWithPrefix(String),
    LeadingPositionalsWhile(ValueMatcher),
}

/// How a flag takes its operand.
#[derive(Debug, Clone, Copy, PartialEq, Eq, Structural)]
pub enum FlagOperandMode {
    NextPositional,
    NextArg,
    SecondArg,
    InlineOnly,
    InlineOrShortAttached,
    NextPositionalAfterDashDash,
}

#[derive(Debug, Clone, PartialEq, Eq)]
pub enum ValueConstraint {
    ExcludeLiteral(String),
}

/// Input a command reads without naming it in its arguments.
#[derive(Debug, Clone, Copy, PartialEq, Eq, PartialOrd, Ord, Hash, Structural)]
pub enum ImplicitInputSource {
    StdinPayload,
    StdinData,
    InteractiveSession,
    InheritedEnvironment,
}

/// A runtime input stream a command may consume.
#[derive(Debug, Clone, Copy, PartialEq, Eq, PartialOrd, Ord, Structural)]
pub enum RuntimeInputSource {
    StdinPayload,
    StdinData,
    InteractiveSession,
}

/// Position of a runtime input source in listings.
pub fn runtime_input_source_sort_key(source: RuntimeInputSource) -> (r: u8)
    ensures
        r == match source {
            RuntimeInputSource::StdinPayload => 0u8,
            RuntimeInputSource::StdinData => 1u8,
            RuntimeInputSource::InteractiveSession => 2u8,
        },
{
    match source {
        RuntimeInputSource::StdinPayload => 0,
        RuntimeInputSource::StdinData => 1,
        RuntimeInputSource::InteractiveSession => 2,
    }
}

impl ImplicitInputSource {
    pub open spec fn as_str_spec(self) -> Seq<char> {
        match self {
            ImplicitInputSource::StdinPayload => "stdin_payload"@,
            ImplicitInputSource::StdinData => "stdin_data"@,
            ImplicitInputSource::InteractiveSession => "interactive_session"@,
            ImplicitInputSource::InheritedEnvironment => "inherited_environment"@,
        }
    }

    pub fn as_str(self) -> (r: &'static str)
        ensures
            r@ == self.as_str_spec(),
    {
        match self {
            ImplicitInputSource::StdinPayload => "stdin_payload",
            ImplicitInputSource::StdinData => "stdin_data",
            ImplicitInputSource::InteractiveSession => "interactive_session",
            ImplicitInputSource::InheritedEnvironment => "inherited_environment",
        }
    }

    /// The runtime input stream this source reads, if it reads one.
    pub fn to_runtime_input_source(self) -> (r: Option<RuntimeInputSource>)
        ensures
            r == match self {
                ImplicitInputSource::StdinPayload => Some(RuntimeInputSource::StdinPayload),
                ImplicitInputSource::StdinData => Some(RuntimeInputSource::StdinData),
                ImplicitInputSource::InteractiveSession => Some(RuntimeInputSource::InteractiveSession),
                ImplicitInputSource::InheritedEnvironment => None,
            },
    {
        match self {
            ImplicitInputSource::StdinPayload => Some(RuntimeInputSource::StdinPayload),
            ImplicitInputSource::StdinData => Some(RuntimeInputSource::StdinData),
            ImplicitInputSource::InteractiveSession => Some(RuntimeInputSource::InteractiveSession),
            ImplicitInputSource::InheritedEnvironment => None,
        }
    }
}

/// The names of implicit input sources are pairwise distinct.
pub proof fn lemma_implicit_input_names_distinct(a: ImplicitInputSource, b: ImplicitInputSource)
    ensures
        a != b ==> a.as_str_spec() != b.as_str_spec(),
{
    reveal_strlit("stdin_payload");
    reveal_strlit("stdin_data");
    reveal_strlit("interactive_session");
    reveal_strlit("inherited_environment");
    if a != b && a.as_str_spec() == b.as_str_spec() {
        let sa = a.as_str_spec();
        let sb = b.as_str_spec();
        assert(sa.len() == sb.len());
        assert(sa[6] == sb[6]);
        assert(sa[7] == sb[7]);
    }
}

/// The flags that switch a modifier on.
#[derive(Debug, Clone, PartialEq, Eq)]
pub enum ModifierMatcher {
    /// Any one of the flags.
    AnyFlag(Vec<FlagName>),
    /// All of the flags.
    AllFlags(Vec<FlagName>),
}

impl Default for ModifierMatcher {
    fn default() -> (r: Self)
        ensures
            r matches ModifierMatcher::AnyFlag(flags) && flags@.len() == 0,
    {
        ModifierMatcher::AnyFlag(Vec::new())
    }
}

impl ModifierMatcher {
    pub open spec fn flags_spec(&self) -> Seq<FlagName> {
        match self {
            ModifierMatcher::AnyFlag(flags) => flags@,
            ModifierMatcher::AllFlags(flags) => flags@,
        }
    }

    pub fn new() -> (r: Self)
        ensures
            r is AnyFlag,
            r.flags_spec().len() == 0,
    {
        ModifierMatcher::AnyFlag(Vec::new())
    }

    /// Adds a flag, keeping the any/all mode.
    pub fn with_flag_name(self, flag_name: &str) -> (r: Self)
        ensures
            (r is AnyFlag) == (self is AnyFlag),
            r.flags_spec().len() == self.flags_spec().len() + 1,
            r.flags_spec().subrange(0, self.flags_spec().len() as int) == self.flags_spec(),
            r.flags_spec().last()@ == flag_name@,
    {
        match self {
            ModifierMatcher::AnyFlag(flags) => {
                let mut flags = flags;
                flags.push(FlagName::new(flag_name));
                ModifierMatcher::AnyFlag(flags)
            },
            ModifierMatcher::AllFlags(flags) => {
                let mut flags = flags;
                flags.push(FlagName::new(flag_name));
                ModifierMatcher::AllFlags(flags)
            },
        }
    }

    pub fn flag_names(&self) -> (r: &[FlagName])
        ensures
            r@ == self.flags_spec(),
    {
        match self {
            ModifierMatcher::AnyFlag(flags) => flags.as_slice(),
            ModifierMatcher::AllFlags(flags) => flags.as_slice(),
        }
    }
}

#[derive(Debug, Clone, PartialEq, Eq)]
pub enum ModifierConstraint {
    MutuallyExclusiveWith(ModifierId),
    RequiresModifier(ModifierId),
    RequiresFlag(FlagName),
}

/// What running a command may do.
#[derive(Debug, Clone, Copy, PartialEq, Eq, Structural)]
pub enum EffectKind {
    ReadPath,
    WritePath,
    DeletePath,
    MovePath,
    ChangeMode,
    ChangeOwner,
    ChangeGroup,
    MetadataMutation,
    TargetPath,
    LoadConfig,
    ExecutePayload,
    SourceScriptIntoCurrentShell,
    SetCurrentWorkingDirectory,
    ExecuteRemoteCommand,
    ExecuteHook,
    ExecuteConfigDefinedTask,
    DispatchCommand,
    ConsumeStdin,
    BindVariableFromRuntimeInput,
    PrivilegeModifier,
    NetworkEndpoint,
    TransformData,
    ImportPackage,
    ExecuteImportedPackageLogic,
    LoadInProcessCode,
    OpenInteractiveEscapeSurface,
    ControlProcess,
    RepositoryOperation,
}

/// The slots that name the command, arguments and environment a dispatch runs.
#[derive(Debug, Clone, PartialEq, Eq)]
pub struct DispatchTarget {
    pub command: SlotName,
    pub argv: Vec<SlotName>,
    pub environment: Vec<SlotName>,
}

/// A path fixed by a tool's convention rather than by an argument.
#[derive(Debug, Clone, PartialEq, Eq)]
pub struct ToolConventionPathTarget {
    pub path: String,
    pub convention: String,
    pub purpose: Option<PathPurpose>,
}

#[derive(Debug, Clone, PartialEq, Eq)]
pub enum DerivedPathSource {
    Slot(SlotName),
    ToolConventionRoot { convention: String },
}

#[derive(Debug, Clone, Copy, PartialEq, Eq, Structural)]
pub enum CatastrophicSemanticClass {
    DeletePath,
    RawWriteTarget,
    FormatTarget,
    FilesystemSignatureWipeTarget,
    PartitionTableMutationTarget,
}

#[derive(Debug, Clone, Copy, PartialEq, Eq, Structural)]
pub enum HostRiskSemanticClass {
    MoveSourcePath,
    PartitionLayoutMutationTarget,
    PartitionTableStateMutationTarget,
    PartitionTableSessionTarget,
}

#[derive(Debug, Clone, PartialEq, Eq)]
pub struct CatastrophicEffectMetadata {
    pub semantic_class: Option<CatastrophicSemanticClass>,
    pub required_modifiers: Vec<ModifierId>,
}

impl Default for CatastrophicEffectMetadata {
    fn default() -> (r: Self)
        ensures
            r.semantic_class is None,
            r.required_modifiers@.len() == 0,
    {
        CatastrophicEffectMetadata { semantic_class: None, required_modifiers: Vec::new() }
    }
}

#[derive(Debug, Clone, PartialEq, Eq)]
pub struct HostRiskEffectMetadata {
    pub semantic_class: Option<HostRiskSemanticClass>,
    pub required_modifiers: Vec<ModifierId>,
}

impl Default for HostRiskEffectMetadata {
    fn default() -> (r: Self)
        ensures
            r.semantic_class is None,
            r.required_modifiers@.len() == 0,
    {
        HostRiskEffectMetadata { semantic_class: None, required_modifiers: Vec::new() }
    }
}

#[derive(Debug, Clone, Copy, PartialEq, Eq, Structural)]
pub enum DefaultSubcommandBehavior {
    RejectUnknown,
    ResidualUnknownSubcommand,
}

/// Why part of an invocation could not be modelled.
#[derive(Debug, Clone, Copy, PartialEq, Eq, Structural)]
pub enum ResidualKind {
    ParseGap,
    DynamicExpansion,
    AmbiguousBinding,
    UnknownSubcommand,
    UnmodeledModifier,
    UnboundControlSurface,
    UnboundPayload,
    UnboundPath,
    UnboundData,
}

/// Which surface of the invocation a residual concerns.
#[derive(Debug, Clone, Copy, PartialEq, Eq, Structural)]
pub enum ResidualSurface {
    Control,
    Payload,
    Path,
    Data,
}

/// A part of an invocation left unmodelled, with the reason.
#[derive(Debug, Clone, PartialEq, Eq)]
pub struct Residual {
    pub kind: ResidualKind,
    pub surface: ResidualSurface,
    pub reason: String,
    pub slot: Option<SlotName>,
}

impl Residual {
    pub fn new(kind: ResidualKind, surface: ResidualSurface, reason: &str) -> (r: Self)
        ensures
            r.kind == kind,
            r.surface == surface,
            r.reason@ == reason@,
            r.slot is None,
    {
        Residual { kind, surface, reason: reason.to_owned(), slot: None }
    }

    /// The same residual, attached to a slot.
    pub fn for_slot(self, slot: &str) -> (r: Self)
        ensures
            r.kind == self.kind,
            r.surface == self.surface,
            r.reason == self.reason,
            r.slot matches Some(s) && s@ == slot@,
    {
        Residual { slot: Some(SlotName::new(slot)), ..self }
    }
}

/// Which positional argument a value was bound from.
#[derive(Debug, Clone, Copy, PartialEq, Eq, Structural)]
pub enum PositionalBindingSource {
    NextPositional,
    NextPositionalAfterDashDash,
    PositionalAt(usize),
    RemainingPositionals,
    RemainingPositionalsBeforeLast,
    LeadingPositionals,
    LastPositional,
    LastPositionalBeforeLast,
}

/// Byte and row/column extent of a piece of command text.
#[derive(Debug, Clone, Copy, PartialEq, Eq, Structural)]
pub struct SourceSpan {
    pub start_byte: usize,
    pub end_byte: usize,
    pub start_row: usize,
    pub start_column: usize,
    pub end_row: usize,
    pub end_column: usize,
}

/// How an argument came to be bound to a parameter.
#[derive(Debug, Clone, PartialEq, Eq)]
pub enum ArgumentBindingSource {
    FollowingFlag { flag_name: FlagName, flag_span: SourceSpan },
    MatchedModifierFlag { modifier_id: ModifierId, flag_name: FlagName, flag_span: SourceSpan },
    ArgumentPrefix { prefix: String },
    Positional { kind: PositionalBindingSource },
    RemainingArg,
}

/// A value bound to a parameter: an argument of the command line, or an
/// implicit input.
#[derive(Debug, Clone, PartialEq, Eq)]
pub enum BoundValue {
    Argument {
        text: String,
        quoted: bool,
        node_kind: String,
        span: SourceSpan,
        binding_source: ArgumentBindingSource,
        materialization: BoundArgumentMaterialization,
    },
    ImplicitInput { source: ImplicitInputSource },
}

impl BoundValue {
    /// A literal argument; its syntax node is a `string` when quoted and a
    /// `word` otherwise.
    pub fn argument(
        text: &str,
        quoted: bool,
        span: SourceSpan,
        binding_source: ArgumentBindingSource,
    ) -> (r: Self)
        ensures
            r matches BoundValue::Argument {
                text: t,
                quoted: q,
                node_kind: k,
                span: s,
                binding_source: b,
                materialization: m,
            } && t@ == text@ && q == quoted && k@ == (if quoted {
                "string"@
            } else {
                "word"@
            }) && s == span && b == binding_source && m is Literal,
    {
        let node_kind = if quoted {
            "string"
        } else {
            "word"
        };
        Self::argument_with_node_kind(text, quoted, node_kind, span, binding_source)
    }

    /// A literal argument with the given syntax node kind.
    pub fn argument_with_node_kind(
        text: &str,
        quoted: bool,
        node_kind: &str,
        span: SourceSpan,
        binding_source: ArgumentBindingSource,
    ) -> (r: Self)
        ensures
            r matches BoundValue::Argument {
                text: t,
                quoted: q,
                node_kind: k,
                span: s,
                binding_source: b,
                materialization: m,
            } && t@ == text@ && q == quoted && k@ == node_kind@ && s == span && b == binding_source
                && m is Literal,
    {
        BoundValue::Argument {
            text: text.to_owned(),
            quoted,
            node_kind: node_kind.to_owned(),
            span,
            binding_source,
            materialization: BoundArgumentMaterialization::Literal,
        }
    }

    /// The same value with its materialization replaced; implicit inputs are
    /// returned unchanged.
    pub fn with_materialization(self, materialization: BoundArgumentMaterialization) -> (r: Self)
        ensures
            match self {
                BoundValue::Argument { text, quoted, node_kind, span, binding_source, .. } => r
                    == (BoundValue::Argument {
                    text,
                    quoted,
                    node_kind,
                    span,
                    binding_source,
                    materialization,
                }),
                BoundValue::ImplicitInput { .. } => r == self,
            },
    {
        match self {
            BoundValue::Argument { text, quoted, node_kind, span, binding_source, .. } => {
                BoundValue::Argument { text, quoted, node_kind, span, binding_source, materialization }
            },
            other => other,
        }
    }

    pub fn implicit_input(source: ImplicitInputSource) -> (r: Self)
        ensures
            r == (BoundValue::ImplicitInput { source }),
    {
        BoundValue::ImplicitInput { source }
    }
}

/// An owner and/or group as written in `chown`-style `owner:group` text.
#[derive(Debug, Clone, PartialEq, Eq)]
pub struct OwnerGroupSpec {
    pub owner: Option<String>,
    pub group: Option<String>,
    pub trailing_colon: bool,
}

/// The owner, group and trailing-colon flag of an `OwnerGroupSpec`, as texts.
pub open spec fn owner_group_view(spec: OwnerGroupSpec) -> (Option<Seq<char>>, Option<Seq<char>>, bool) {
    (
        match spec.owner {
            Some(o) => Some(o@),
            None => None,
        },
        match spec.group {
            Some(g) => Some(g@),
            None => None,
        },
        spec.trailing_colon,
    )
}

/// `owner`, `owner:group`, `:group` and `owner:` are accepted; empty text, a
/// lone `:` and more than one `:` are not.
pub open spec fn owner_group_of(t: Seq<char>) -> Option<(Option<Seq<char>>, Option<Seq<char>>, bool)> {
    if t.len() == 0 || count_char(t, ':') > 1 {
        None
    } else if count_char(t, ':') == 0 {
        Some((Some(t), None, false))
    } else {
        let group = after_last(t, ':');
        let owner = t.subrange(0, t.len() - group.len() - 1);
        if owner.len() == 0 && group.len() == 0 {
            None
        } else {
            Some(
                (
                    if owner.len() > 0 {
                        Some(owner)
                    } else {
                        None
                    },
                    if group.len() > 0 {
                        Some(group)
                    } else {
                        None
                    },
                    group.len() == 0,
                ),
            )
        }
    }
}

/// Reads `chown`-style `owner:group` text.
pub fn parse_owner_group_spec(text: &str) -> (r: Option<OwnerGroupSpec>)
    ensures
        match r {
            Some(spec) => owner_group_of(text@) == Some(owner_group_view(spec)),
            None => owner_group_of(text@) is None,
        },
{
    let chars = chars_of(text);
    if chars.len() == 0 {
        return None;
    }
    let (count, start) = separator_layout(&chars, ':');
    if count > 1 {
        return None;
    }
    if count == 0 {
        return Some(OwnerGroupSpec { owner: Some(text.to_owned()), group: None, trailing_colon: false });
    }
    proof {
        lemma_after_last_position(chars@, ':');
    }
    let n = chars.len();
    let owner = text.substring_char(0, start - 1);
    let group = text.substring_char(start, n);
    proof {
        assert(group@ == after_last(text@, ':'));
        assert(owner@ == text@.subrange(0, text@.len() - group@.len() - 1));
    }
    if owner.unicode_len() == 0 && group.unicode_len() == 0 {
        return None;
    }
    let owner_part = if owner.unicode_len() > 0 {
        Some(owner.to_owned())
    } else {
        None
    };
    let group_empty = group.unicode_len() == 0;
    let group_part = if !group_empty {
        Some(group.to_owned())
    } else {
        None
    };
    Some(OwnerGroupSpec { owner: owner_part, group: group_part, trailing_colon: group_empty })
}

/// The text an owner, a group and the trailing-colon flag are written as.
pub open spec fn owner_group_text(owner: Option<Seq<char>>, group: Option<Seq<char>>, trailing_colon: bool) -> Seq<char> {
    let o = match owner {
        Some(x) => x,
        None => Seq::<char>::empty(),
    };
    let g = match group {
        Some(x) => x,
        None => Seq::<char>::empty(),
    };
    if group is Some || trailing_colon {
        o + seq![':'] + g
    } else {
        o
    }
}

/// Owner-group text is refused exactly when it is empty, a lone `:` or has
/// more than one `:`; otherwise what is read writes back to the same text,
/// no part is read as empty, and a trailing colon comes without a group.
pub proof fn law_owner_group_text_round_trip(t: Seq<char>)
    ensures
        owner_group_of(t) is None <==> (t.len() == 0 || t =~= seq![':'] || count_char(t, ':') > 1),
        owner_group_of(t) matches Some((o, g, tc)) ==> {
            &&& owner_group_text(o, g, tc) =~= t
            &&& o != Some(Seq::<char>::empty())
            &&& g != Some(Seq::<char>::empty())
            &&& (tc ==> g is None)
        },
{
    if t.len() > 0 && count_char(t, ':') == 1 {
        lemma_after_last_position(t, ':');
        let group = after_last(t, ':');
        let owner = t.subrange(0, t.len() - group.len() - 1);
        assert(t =~= owner + seq![':'] + group);
        if t =~= seq![':'] {
            assert(group.len() == 0);
        }
        if owner.len() == 0 && group.len() == 0 {
            assert(t =~= seq![':']);
        }
    }
    if t =~= seq![':'] {
        assert(t.drop_last() =~= Seq::<char>::empty());
        assert(count_char(t.drop_last(), ':') == 0);
        assert(t.last() == ':');
        assert(count_char(t, ':') == 1);
    }
}

/// When a separator occurs, the part after the last one is preceded by it.
proof fn lemma_after_last_position(s: Seq<char>, c: char)
    requires
        count_char(s, c) > 0,
    ensures
        after_last(s, c).len() < s.len(),
        s[s.len() - after_last(s, c).len() - 1] == c,
        s.subrange(s.len() - after_last(s, c).len(), s.len() as int) == after_last(s, c),
    decreases s.len(),
{
    if s.last() == c {
    } else {
        assert(count_char(s.drop_last(), c) > 0);
        lemma_after_last_position(s.drop_last(), c);
        let a = after_last(s.drop_last(), c);
        assert(s.subrange(s.len() - a.len() - 1, s.len() as int) =~= s.drop_last().subrange(
            s.drop_last().len() - a.len(),
            s.drop_last().len() as int,
        ).push(s.last()));
    }
}

} // verus!
