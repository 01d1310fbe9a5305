use caushell::context::EffectiveCwd;
use caushell::profile::{
    BoundArgumentMaterialization, BoundValue, Cardinality, ImplicitInputSource, PositionalBindingSource, Residual,
    ResidualKind, ResidualSurface, RuntimeInputSource, SourceSpan, ArgumentBindingSource,
};

fn span() -> SourceSpan {
    SourceSpan { start_byte: 0, end_byte: 4, start_row: 0, start_column: 0, end_row: 0, end_column: 4 }
}

#[test]
fn effective_cwd_of_one_directory_is_known() {
    let cwd = EffectiveCwd::known_one_of(vec!["/tmp/a".to_string(), "/tmp/a".to_string()]);
    assert_eq!(cwd, EffectiveCwd::Known("/tmp/a".to_string()));
    assert_eq!(cwd.as_known(), Some("/tmp/a"));
    assert!(!cwd.has_unknown());
}

#[test]
fn effective_cwd_of_several_directories_is_sorted_and_distinct() {
    let cwd = EffectiveCwd::known_one_of(vec!["/tmp/b".to_string(), "/tmp/a".to_string(), "/tmp/b".to_string()]);
    assert_eq!(cwd, EffectiveCwd::KnownOneOf(vec!["/tmp/a".to_string(), "/tmp/b".to_string()]));
    assert_eq!(cwd.known_cwds(), vec!["/tmp/a", "/tmp/b"]);
    assert_eq!(cwd.as_known(), None);
}

#[test]
fn effective_cwd_of_no_directory_is_unknown() {
    assert_eq!(EffectiveCwd::known_one_of(Vec::new()), EffectiveCwd::Unknown);
    assert_eq!(EffectiveCwd::known_or_unknown(Vec::new()), EffectiveCwd::Unknown);
    assert!(EffectiveCwd::Unknown.has_unknown());
    assert!(EffectiveCwd::Unreachable.is_unreachable());
}

#[test]
fn effective_cwd_known_or_unknown_keeps_one_directory_as_a_list() {
    let cwd = EffectiveCwd::known_or_unknown(vec!["/srv".to_string(), "/home".to_string()]);
    assert_eq!(cwd, EffectiveCwd::KnownOrUnknown(vec!["/home".to_string(), "/srv".to_string()]));
    assert!(cwd.has_unknown());
    let one = EffectiveCwd::known_or_unknown(vec!["/srv".to_string()]);
    assert_eq!(one, EffectiveCwd::KnownOrUnknown(vec!["/srv".to_string()]));
}

#[test]
fn cardinality_flags_and_changes() {
    assert!(!Cardinality::RequiredOne.is_optional());
    assert!(!Cardinality::RequiredOne.is_variadic());
    assert_eq!(Cardinality::RequiredOne.made_optional(), Cardinality::OptionalOne);
    assert_eq!(Cardinality::RequiredOne.made_variadic(), Cardinality::RequiredMany);
    assert_eq!(Cardinality::OptionalOne.made_variadic(), Cardinality::OptionalMany);
    assert_eq!(Cardinality::RequiredMany.made_optional(), Cardinality::OptionalMany);
    assert_eq!(Cardinality::OptionalMany.made_optional(), Cardinality::OptionalMany);
    assert_eq!(
        Cardinality::RequiredOne.made_optional().made_variadic(),
        Cardinality::RequiredOne.made_variadic().made_optional()
    );
}

#[test]
fn implicit_input_names_and_runtime_sources() {
    assert_eq!(ImplicitInputSource::StdinPayload.as_str(), "stdin_payload");
    assert_eq!(ImplicitInputSource::StdinData.as_str(), "stdin_data");
    assert_eq!(ImplicitInputSource::InteractiveSession.as_str(), "interactive_session");
    assert_eq!(ImplicitInputSource::InheritedEnvironment.as_str(), "inherited_environment");
    assert_eq!(ImplicitInputSource::StdinPayload.to_runtime_input_source(), Some(RuntimeInputSource::StdinPayload));
    assert_eq!(ImplicitInputSource::InheritedEnvironment.to_runtime_input_source(), None);
}

#[test]
fn residual_can_be_attached_to_a_slot() {
    let residual = Residual::new(ResidualKind::DynamicExpansion, ResidualSurface::Data, "dynamic value").for_slot("target");
    assert_eq!(residual.reason, "dynamic value");
    assert_eq!(residual.slot.as_ref().map(|s| s.as_str()), Some("target"));
}

#[test]
fn bound_argument_node_kind_follows_quoting_and_materialization_is_replaceable() {
    let source = ArgumentBindingSource::Positional { kind: PositionalBindingSource::NextPositional };
    let quoted = BoundValue::argument("a b", true, span(), source.clone());
    let bare = BoundValue::argument("ab", false, span(), source.clone());
    match (&quoted, &bare) {
        (BoundValue::Argument { node_kind: q, .. }, BoundValue::Argument { node_kind: b, .. }) => {
            assert_eq!(q, "string");
            assert_eq!(b, "word");
        },
        _ => panic!("expected arguments"),
    }
    let resolved = BoundArgumentMaterialization::ResolvedExactScalar { variable_name: "TARGET".to_string() };
    let changed = bare.with_materialization(resolved.clone());
    match changed {
        BoundValue::Argument { text, materialization, .. } => {
            assert_eq!(text, "ab");
            assert_eq!(materialization, resolved);
        },
        _ => panic!("expected an argument"),
    }
    let implicit = BoundValue::implicit_input(ImplicitInputSource::StdinData);
    assert_eq!(implicit.clone().with_materialization(resolved), implicit);
}
