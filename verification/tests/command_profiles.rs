use caushell::command_profile::{
    BoundImplicitInput, BoundInvocation, BoundParameter, CommandProfile, Effect, EffectTarget, Form, Modifier,
    Parameter, SemanticType,
};
use caushell::profile::{
    ArgumentBindingSource, BindingSpec, BoundValue, CommandName, CommandRefSemantic, DispatchKind, EffectKind,
    FlagName, FlagOperandMode, FormId, ImplicitInputSource, ModifierId, PathPurpose, PathRole, PathSemantic,
    PayloadLanguage, PayloadSemantic, PayloadSource, PositionalBindingSource, Residual, ResidualKind,
    ResidualSurface, SelectorExpr, SelectorPredicate, SlotName, SourceSpan, StructuredValueContext,
    StructuredValueSemantic,
};

fn empty_span() -> SourceSpan {
    SourceSpan { start_byte: 0, end_byte: 0, start_row: 0, start_column: 0, end_row: 0, end_column: 0 }
}

#[test]
fn command_profile_matches_primary_name_and_alias() {
    let profile = CommandProfile::new("bash").alias("sh-compatible");

    assert!(profile.matches_name("bash"));
    assert!(profile.matches_name("sh-compatible"));
    assert!(!profile.matches_name("dash"));
}

#[test]
fn form_can_hold_selector_and_typed_parameters() {
    let form = Form::new("script_file")
        .with_selector_predicate(SelectorPredicate::LacksFlag(FlagName::new("-c")))
        .with_selector_predicate(SelectorPredicate::LacksFlag(FlagName::new("-s")))
        .with_selector_predicate(SelectorPredicate::HasPositionalAt(0))
        .with_remaining_selector_predicate(SelectorPredicate::NoPositionalArgs)
        .with_parameter(Parameter::new(
            "script_path",
            SemanticType::Path(PathSemantic { role: PathRole::Read, purpose: Some(PathPurpose::ScriptSource) }),
            BindingSpec::NextPositional,
        ));

    assert_eq!(form.id.as_str(), "script_file");
    match &form.selector {
        SelectorExpr::All(items) => assert_eq!(items.len(), 3),
        other => panic!("unexpected selector shape: {other:?}"),
    }
    match &form.remaining_selector {
        SelectorExpr::All(items) => assert_eq!(items.len(), 1),
        other => panic!("unexpected remaining selector shape: {other:?}"),
    }
    assert_eq!(form.parameters.len(), 1);
}

#[test]
fn bound_invocation_collects_effects_and_residuals() {
    let invocation = BoundInvocation::new(CommandName::new("bash"), FormId::new("command_string"))
        .with_bound_parameter(
            BoundParameter::new(
                SlotName::new("payload"),
                SemanticType::Payload(PayloadSemantic {
                    language: PayloadLanguage::Bash,
                    source: PayloadSource::InlineString,
                    recursive: true,
                }),
            )
            .with_value(BoundValue::argument(
                "echo ok",
                true,
                empty_span(),
                ArgumentBindingSource::FollowingFlag { flag_name: FlagName::new("-c"), flag_span: empty_span() },
            )),
        )
        .with_modifier(ModifierId::new("rcfile"))
        .with_effect(Effect::new(EffectKind::ExecutePayload).for_slot("payload"))
        .with_residual(
            Residual::new(
                ResidualKind::DynamicExpansion,
                ResidualSurface::Payload,
                "payload comes from session dynamic reference",
            )
            .for_slot("payload"),
        );

    assert_eq!(invocation.command_name.as_str(), "bash");
    assert_eq!(invocation.form_id.as_str(), "command_string");
    assert_eq!(invocation.bound_parameters.len(), 1);
    assert_eq!(invocation.applied_modifiers.len(), 1);
    assert_eq!(invocation.effects.len(), 1);
    assert_eq!(invocation.residuals.len(), 1);
}

#[test]
fn bound_invocation_can_hold_bound_implicit_input() {
    let invocation = BoundInvocation::new(CommandName::new("bash"), FormId::new("interactive"))
        .with_bound_implicit_input(BoundImplicitInput::new(
            ImplicitInputSource::InteractiveSession,
            SemanticType::Payload(PayloadSemantic {
                language: PayloadLanguage::Bash,
                source: PayloadSource::Interactive,
                recursive: true,
            }),
        ));

    assert_eq!(invocation.command_name.as_str(), "bash");
    assert_eq!(invocation.form_id.as_str(), "interactive");
    assert_eq!(invocation.bound_implicit_inputs.len(), 1);
}

#[test]
fn bound_parameter_can_hold_implicit_input() {
    let parameter = BoundParameter::new(
        SlotName::new("payload"),
        SemanticType::Payload(PayloadSemantic {
            language: PayloadLanguage::Bash,
            source: PayloadSource::Interactive,
            recursive: true,
        }),
    )
    .with_value(BoundValue::implicit_input(ImplicitInputSource::InteractiveSession));

    assert_eq!(parameter.name.as_str(), "payload");
    assert_eq!(parameter.values.len(), 1);
}

#[test]
fn bound_parameter_can_hold_argument_binding_source() {
    let parameter = BoundParameter::new(
        SlotName::new("script_path"),
        SemanticType::Path(PathSemantic { role: PathRole::Read, purpose: Some(PathPurpose::ScriptSource) }),
    )
    .with_value(BoundValue::argument(
        "./scripts/build.sh",
        false,
        empty_span(),
        ArgumentBindingSource::Positional { kind: PositionalBindingSource::NextPositional },
    ));

    match &parameter.values[0] {
        BoundValue::Argument { binding_source, .. } => {
            assert_eq!(
                binding_source,
                &ArgumentBindingSource::Positional { kind: PositionalBindingSource::NextPositional }
            );
        }
        other => panic!("expected argument bound value, got {other:?}"),
    }
}

#[test]
fn modifier_can_hold_matcher_parameters_and_effects() {
    let modifier = Modifier::new("rcfile")
        .with_flag_name("--rcfile")
        .with_parameter(Parameter::new(
            "startup_config",
            SemanticType::Path(PathSemantic { role: PathRole::Config, purpose: Some(PathPurpose::StartupConfig) }),
            BindingSpec::FollowingMatchedFlag { operand_mode: FlagOperandMode::NextArg },
        ))
        .with_effect(Effect::new(EffectKind::LoadConfig).for_slot("startup_config"));

    assert_eq!(modifier.id.as_str(), "rcfile");
    assert_eq!(modifier.matcher.flag_names().len(), 1);
    assert_eq!(modifier.matcher.flag_names()[0].as_str(), "--rcfile");
    assert_eq!(modifier.parameters.len(), 1);
    assert_eq!(modifier.effects.len(), 1);
}

#[test]
fn semantic_type_covers_command_ref_and_structured_value() {
    let command_ref = SemanticType::CommandRef(CommandRefSemantic { dispatch: DispatchKind::WrapperCommand });
    let structured = SemanticType::StructuredValue(StructuredValueSemantic {
        context: StructuredValueContext::EnvAssignment,
    });

    match command_ref {
        SemanticType::CommandRef(semantic) => {
            assert_eq!(semantic.dispatch, DispatchKind::WrapperCommand);
        }
        other => panic!("unexpected semantic type: {other:?}"),
    }

    match structured {
        SemanticType::StructuredValue(semantic) => {
            assert_eq!(semantic.context, StructuredValueContext::EnvAssignment);
        }
        other => panic!("unexpected semantic type: {other:?}"),
    }
}

#[test]
fn parameter_builders_keep_name_and_adjust_cardinality() {
    let parameter = Parameter::new(
        "args",
        SemanticType::PlainValue,
        BindingSpec::NextPositional,
    )
    .optional()
    .variadic();
    assert_eq!(parameter.name.as_str(), "args");
    assert!(parameter.cardinality.is_optional());
    assert!(parameter.cardinality.is_variadic());
    assert!(parameter.value_constraints.is_empty());
}

#[test]
fn effect_defaults_to_no_target_until_a_slot_is_named() {
    let effect = Effect::new(EffectKind::ExecutePayload);
    assert_eq!(effect.target, EffectTarget::NoTarget);
    let effect = effect.for_slot("payload");
    assert_eq!(effect.target, EffectTarget::Slot(SlotName::new("payload")));
    assert!(effect.interactive_escape_surface.is_none());
}

#[test]
fn command_profile_aliases_are_matched_in_order_and_primary_name_is_kept() {
    let profile = CommandProfile::new("python3").alias("python").alias("py");
    assert_eq!(profile.primary_name(), "python3");
    assert_eq!(profile.identity.aliases.len(), 2);
    assert!(profile.matches_name("py"));
    assert!(!profile.matches_name("python2"));
    assert!(!profile.matches_name(""));
}

#[test]
fn command_names_are_equal_exactly_when_their_texts_are() {
    assert_eq!(CommandName::new("bash"), CommandName::new("bash"));
    assert_ne!(CommandName::new("bash"), CommandName::new("sh"));
    assert_eq!(CommandName::new("bash").as_str(), "bash");
}
