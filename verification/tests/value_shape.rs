use caushell::profile::{parse_owner_group_spec, OwnerGroupSpec};

#[test]
fn parse_owner_group_spec_accepts_supported_shapes() {
    assert_eq!(
        parse_owner_group_spec("root"),
        Some(OwnerGroupSpec { owner: Some("root".to_string()), group: None, trailing_colon: false })
    );
    assert_eq!(
        parse_owner_group_spec("root:staff"),
        Some(OwnerGroupSpec { owner: Some("root".to_string()), group: Some("staff".to_string()), trailing_colon: false })
    );
    assert_eq!(
        parse_owner_group_spec(":staff"),
        Some(OwnerGroupSpec { owner: None, group: Some("staff".to_string()), trailing_colon: false })
    );
    assert_eq!(
        parse_owner_group_spec("root:"),
        Some(OwnerGroupSpec { owner: Some("root".to_string()), group: None, trailing_colon: true })
    );
}

#[test]
fn parse_owner_group_spec_rejects_empty_and_unsupported_shapes() {
    assert_eq!(parse_owner_group_spec(""), None);
    assert_eq!(parse_owner_group_spec(":"), None);
    assert_eq!(parse_owner_group_spec("root:staff:wheel"), None);
}

#[test]
fn parse_owner_group_spec_keeps_non_ascii_names() {
    assert_eq!(
        parse_owner_group_spec("jürgen:wheel"),
        Some(OwnerGroupSpec { owner: Some("jürgen".to_string()), group: Some("wheel".to_string()), trailing_colon: false })
    );
}

fn written(spec: &OwnerGroupSpec) -> String {
    let mut text = spec.owner.clone().unwrap_or_default();
    if spec.group.is_some() || spec.trailing_colon {
        text.push(':');
    }
    text.push_str(&spec.group.clone().unwrap_or_default());
    text
}

#[test]
fn owner_group_text_writes_back_to_itself() {
    for text in ["root", "root:wheel", ":wheel", "root:"] {
        let spec = parse_owner_group_spec(text).expect("expected an owner-group spec");
        assert_eq!(written(&spec), text);
        assert_ne!(spec.owner.as_deref(), Some(""));
        assert_ne!(spec.group.as_deref(), Some(""));
        assert!(!spec.trailing_colon || spec.group.is_none());
    }
    for text in ["", ":", "a:b:c"] {
        assert!(parse_owner_group_spec(text).is_none());
    }
}
