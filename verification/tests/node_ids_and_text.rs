use caushell::node_ids::{
    alias_binding_node_id, alias_unset_node_id, directory_state_node_id, function_binding_node_id,
    request_anchor_node_id_for, shell_state_reconciliation_anchor_node_id_for, stable_str_fingerprint,
    top_level_command_index_from_node_id, top_level_command_node_id_for, variable_value_artifact_node_id, NodeId,
    SessionId,
};
use caushell::sequence::CommandSequenceNo;
use caushell::text::{chars_of, decimal_string, parse_usize, str_compare};

fn session() -> SessionId {
    SessionId::new("sess-1".to_string())
}

fn fnv1a(bytes: &[u8]) -> u64 {
    let mut hash: u64 = 0xcbf29ce484222325;
    for byte in bytes {
        hash ^= *byte as u64;
        hash = hash.wrapping_mul(0x100000001b3);
    }
    hash
}

#[test]
fn request_anchor_node_id_names_session_and_sequence() {
    let id = request_anchor_node_id_for(&session(), CommandSequenceNo::new(7));
    assert_eq!(id.0, "command-request:sess-1:7");
}

#[test]
fn top_level_command_node_id_names_session_sequence_and_index() {
    let id = top_level_command_node_id_for(&session(), CommandSequenceNo::new(3), 2);
    assert_eq!(id.0, "command:sess-1:3:2");
}

#[test]
fn reconciliation_anchor_and_variable_artifact_ids() {
    let anchor = shell_state_reconciliation_anchor_node_id_for(&session(), CommandSequenceNo::new(4));
    assert_eq!(anchor.0, "shell-state-reconciliation:sess-1:4");
    let artifact = variable_value_artifact_node_id("PATH", CommandSequenceNo::new(9));
    assert_eq!(artifact.0, "artifact:variable-value:PATH:9");
}

#[test]
fn command_index_round_trips_through_node_id() {
    for index in [0usize, 1, 7, 42, 18446744073709551615] {
        let id = top_level_command_node_id_for(&session(), CommandSequenceNo::new(12), index);
        assert_eq!(top_level_command_index_from_node_id(&id), Some(index));
    }
}

#[test]
fn command_index_parsing_accepts_three_part_ids_and_rejects_others() {
    let parse = |text: &str| top_level_command_index_from_node_id(&NodeId::new(text.to_string()));
    assert_eq!(parse("command:sess-1:3"), Some(0));
    assert_eq!(parse("command:sess-1:3:+5"), Some(5));
    assert_eq!(parse("command-request:sess-1:7"), None);
    assert_eq!(parse("command:sess-1:3:x"), None);
    assert_eq!(parse("command:a:b:c:d"), None);
    assert_eq!(parse("command:sess-1:3:"), None);
    assert_eq!(parse("derived:sess-1:3:0"), None);
}

#[test]
fn stable_fingerprint_is_fnv1a_over_both_texts_and_a_separator() {
    assert_eq!(stable_str_fingerprint("", ""), fnv1a(&[0]));
    assert_eq!(stable_str_fingerprint("ll", "ls -l"), fnv1a(b"ll\0ls -l"));
    assert_ne!(stable_str_fingerprint("a", "bc"), stable_str_fingerprint("ab", "c"));
    assert_eq!(stable_str_fingerprint("", ""), 0xaf63bd4c8601b7df);
}

#[test]
fn binding_and_state_node_ids() {
    assert_eq!(function_binding_node_id("deploy", CommandSequenceNo::new(4)).0, "function-binding:deploy:4");
    assert_eq!(alias_unset_node_id("runbuild", CommandSequenceNo::new(5)).0, "alias-mutation:runbuild:unset:5");
    assert_eq!(directory_state_node_id(CommandSequenceNo::new(7)).0, "cwd-state:7");
    let expected = format!("alias-binding:ll:3:{:016x}", fnv1a(b"ll\0ls -l"));
    assert_eq!(alias_binding_node_id("ll", CommandSequenceNo::new(3), "ls -l").0, expected);
}

#[test]
fn alias_binding_fingerprint_is_zero_padded() {
    let id = alias_binding_node_id("x", CommandSequenceNo::new(0), "y").0;
    let hex = id.rsplit(':').next().expect("expected fingerprint");
    assert_eq!(hex.len(), 16);
    assert!(hex.chars().all(|c| c.is_ascii_hexdigit() && !c.is_ascii_uppercase()));
}

#[test]
fn decimal_rendering_and_parsing_agree_with_std() {
    for n in [0u64, 9, 10, 1234567890, u64::MAX] {
        assert_eq!(decimal_string(n), n.to_string());
    }
    let parse = |text: &str| parse_usize(&chars_of(text));
    assert_eq!(parse("0"), Some(0));
    assert_eq!(parse("+17"), Some(17));
    assert_eq!(parse("18446744073709551615"), "18446744073709551615".parse::<usize>().ok());
    assert_eq!(parse("18446744073709551616"), None);
    assert_eq!(parse(""), None);
    assert_eq!(parse("+"), None);
    assert_eq!(parse("-1"), None);
    assert_eq!(parse("1_0"), None);
}

#[test]
fn text_comparison_orders_by_characters() {
    assert_eq!(str_compare("a", "b"), -1);
    assert_eq!(str_compare("b", "a"), 1);
    assert_eq!(str_compare("ab", "ab"), 0);
    assert_eq!(str_compare("ab", "abc"), -1);
    assert_eq!(str_compare("", "a"), -1);
    assert_eq!(str_compare("é", "z"), 1);
}
