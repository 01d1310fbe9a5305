//! Node identifiers of the session graph and the textual scheme the runner
//! uses to name request, command and artifact nodes.

use vstd::prelude::*;
use vstd::string::*;
use vstd::utf8::encode_utf8;

use crate::sequence::CommandSequenceNo;
use crate::text::{
    after_last, chars_of, contains_char, count_char, decimal_digits, decimal_string,
    has_prefix, lemma_after_last_concat, lemma_count_absent, lemma_count_concat,
    lemma_decimal_digits, parse_usize, push_decimal, push_hex16, hex16_digits, parse_usize_spec, separator_layout, tail_from,
    vec_has_prefix,
};

verus! {

/// Identifier of a node of the session graph.
#[derive(Debug, Clone, PartialEq, Eq)]
pub struct NodeId(pub String);

/// Identifier of a shell session.
#[derive(Debug, Clone, PartialEq, Eq)]
pub struct SessionId(pub String);

impl NodeId {
    pub fn new(value: String) -> (r: Self)
        ensures
            r.0@ == value@,
    {
        NodeId(value)
    }
}

impl SessionId {
    pub fn new(value: String) -> (r: Self)
        ensures
            r.0@ == value@,
    {
        SessionId(value)
    }
}

/// `command-request:<session>:<sequence>`
pub open spec fn request_anchor_text(session: Seq<char>, sequence_no: u64) -> Seq<char> {
    "command-request:"@ + session + ":"@ + decimal_digits(sequence_no as nat)
}

/// `command:<session>:<sequence>:<index>`
pub open spec fn top_level_command_text(session: Seq<char>, sequence_no: u64, index: usize) -> Seq<
    char,
> {
    "command:"@ + session + ":"@ + decimal_digits(sequence_no as nat) + ":"@ + decimal_digits(
        index as nat,
    )
}

/// `shell-state-reconciliation:<session>:<sequence>`
pub open spec fn reconciliation_anchor_text(session: Seq<char>, sequence_no: u64) -> Seq<char> {
    "shell-state-reconciliation:"@ + session + ":"@ + decimal_digits(sequence_no as nat)
}

/// `artifact:variable-value:<name>:<sequence>`
pub open spec fn variable_value_artifact_text(name: Seq<char>, observed_at: u64) -> Seq<char> {
    "artifact:variable-value:"@ + name + ":"@ + decimal_digits(observed_at as nat)
}

/// The command index a top-level command node id carries: the id must start
/// with `command:` and split on `:` into three parts (index 0) or four parts
/// whose last one is an unsigned decimal numeral.
pub open spec fn top_level_command_index_spec(id: Seq<char>) -> Option<usize> {
    if !has_prefix(id, "command:"@) {
        None
    } else if count_char(id, ':') == 2 {
        Some(0)
    } else if count_char(id, ':') == 3 {
        parse_usize_spec(after_last(id, ':'))
    } else {
        None
    }
}

pub fn request_anchor_node_id_for(session_id: &SessionId, sequence_no: CommandSequenceNo) -> (r:
    NodeId)
    ensures
        r.0@ == request_anchor_text(session_id.0@, sequence_no.0),
{
    let mut s: String = "command-request:".to_owned();
    s.append(session_id.0.as_str());
    s.append(":");
    let seq = decimal_string(sequence_no.0);
    s.append(seq.as_str());
    NodeId(s)
}

pub fn top_level_command_node_id_for(
    session_id: &SessionId,
    sequence_no: CommandSequenceNo,
    command_index: usize,
) -> (r: NodeId)
    ensures
        r.0@ == top_level_command_text(session_id.0@, sequence_no.0, command_index),
{
    let mut s: String = "command:".to_owned();
    s.append(session_id.0.as_str());
    s.append(":");
    let seq = decimal_string(sequence_no.0);
    s.append(seq.as_str());
    s.append(":");
    let idx = decimal_string(command_index as u64);
    s.append(idx.as_str());
    NodeId(s)
}

pub fn shell_state_reconciliation_anchor_node_id_for(
    session_id: &SessionId,
    sequence_no: CommandSequenceNo,
) -> (r: NodeId)
    ensures
        r.0@ == reconciliation_anchor_text(session_id.0@, sequence_no.0),
{
    let mut s: String = "shell-state-reconciliation:".to_owned();
    s.append(session_id.0.as_str());
    s.append(":");
    let seq = decimal_string(sequence_no.0);
    s.append(seq.as_str());
    NodeId(s)
}

pub fn variable_value_artifact_node_id(name: &str, observed_at: CommandSequenceNo) -> (r: NodeId)
    ensures
        r.0@ == variable_value_artifact_text(name@, observed_at.0),
{
    let mut s: String = "artifact:variable-value:".to_owned();
    s.append(name);
    s.append(":");
    let seq = decimal_string(observed_at.0);
    s.append(seq.as_str());
    NodeId(s)
}

/// The command index of a top-level command node id, if `node_id` is one.
pub fn top_level_command_index_from_node_id(node_id: &NodeId) -> (r: Option<usize>)
    ensures
        r == top_level_command_index_spec(node_id.0@),
{
    let chars = chars_of(node_id.0.as_str());
    let prefix = chars_of("command:");
    if !vec_has_prefix(&chars, &prefix) {
        return None;
    }
    let (count, start) = separator_layout(&chars, ':');
    if count == 2 {
        Some(0)
    } else if count == 3 {
        let last = tail_from(&chars, start);
        parse_usize(&last)
    } else {
        None
    }
}

/// A top-level command node id names its command index back, whenever the
/// session id contains no `:`.
pub proof fn lemma_top_level_command_index_round_trip(
    session: Seq<char>,
    sequence_no: u64,
    index: usize,
)
    requires
        !contains_char(session, ':'),
    ensures
        top_level_command_index_spec(top_level_command_text(session, sequence_no, index)) == Some(
            index,
        ),
{
    reveal_strlit("command:");
    reveal_strlit(":");
    let head = "command:"@;
    let colon = ":"@;
    let seq_digits = decimal_digits(sequence_no as nat);
    let idx_digits = decimal_digits(index as nat);
    let id = top_level_command_text(session, sequence_no, index);
    lemma_decimal_digits(sequence_no as nat);
    lemma_decimal_digits(index as nat);
    // prefix
    assert(id.subrange(0, 8) =~= head);
    // colon count
    assert(count_char(head, ':') == 1) by {
        assert(head.drop_last() =~= "command"@) by {
            reveal_strlit("command");
        }
        reveal_strlit("command");
        assert(!contains_char("command"@, ':'));
        lemma_count_absent("command"@, ':');
    }
    assert(count_char(colon, ':') == 1) by {
        reveal_strlit(":");
        assert(colon.len() == 1 && colon[0] == ':');
        assert(colon.drop_last() =~= Seq::<char>::empty());
        assert(count_char(colon.drop_last(), ':') == 0);
        assert(colon.last() == ':');
    }
    lemma_count_absent(session, ':');
    lemma_count_absent(seq_digits, ':');
    lemma_count_absent(idx_digits, ':');
    lemma_count_concat(head, session, ':');
    lemma_count_concat(head + session, colon, ':');
    lemma_count_concat(head + session + colon, seq_digits, ':');
    lemma_count_concat(head + session + colon + seq_digits, colon, ':');
    lemma_count_concat(head + session + colon + seq_digits + colon, idx_digits, ':');
    // last part
    let front = head + session + colon + seq_digits + colon;
    assert(front.last() == ':');
    lemma_after_last_concat(front, idx_digits, ':');
}

/// A request anchor id is never taken for a top-level command id.
pub proof fn lemma_request_anchor_is_not_command(session: Seq<char>, sequence_no: u64)
    ensures
        top_level_command_index_spec(request_anchor_text(session, sequence_no)) is None,
{
    reveal_strlit("command:");
    reveal_strlit("command-request:");
    let id = request_anchor_text(session, sequence_no);
    assert(id[7] == '-');
    assert("command:"@[7] == ':');
    if has_prefix(id, "command:"@) {
        assert(id.subrange(0, 8)[7] == id[7]);
    }
}

pub const FNV_OFFSET_BASIS: u64 = 0xcbf29ce484222325;

pub const FNV_PRIME: u64 = 0x100000001b3;

/// One FNV-1a step: mix in a byte, then multiply by the FNV prime modulo 2^64.
pub open spec fn fnv1a_step(hash: u64, byte: u8) -> u64 {
    vstd::wrapping::u64_specs::wrapping_mul(hash ^ (byte as u64), FNV_PRIME)
}

/// 64-bit FNV-1a of `bytes`, starting from `hash`.
pub open spec fn fnv1a(hash: u64, bytes: Seq<u8>) -> u64
    decreases bytes.len(),
{
    if bytes.len() == 0 {
        hash
    } else {
        fnv1a_step(fnv1a(hash, bytes.drop_last()), bytes.last())
    }
}

/// The bytes a pair of texts is fingerprinted over: the UTF-8 of `left`, a
/// zero byte, the UTF-8 of `right`.
pub open spec fn fingerprint_input(left: &str, right: &str) -> Seq<u8> {
    left.spec_bytes() + seq![0u8] + right.spec_bytes()
}

/// A fingerprint of two texts that is the same in every process: 64-bit
/// FNV-1a over `left`, a zero byte, and `right`.
pub fn stable_str_fingerprint(left: &str, right: &str) -> (r: u64)
    ensures
        r == fnv1a(FNV_OFFSET_BASIS, fingerprint_input(left, right)),
{
    let lb = left.as_bytes();
    let rb = right.as_bytes();
    let ghost input = fingerprint_input(left, right);
    let ghost lsep = lb@.push(0u8);
    assert(input =~= lsep + rb@);
    let mut hash: u64 = FNV_OFFSET_BASIS;
    let mut i: usize = 0;
    while i < lb.len()
        invariant
            0 <= i <= lb@.len(),
            hash == fnv1a(FNV_OFFSET_BASIS, lb@.subrange(0, i as int)),
        decreases lb.len() - i,
    {
        assert(lb@.subrange(0, i + 1).drop_last() =~= lb@.subrange(0, i as int));
        hash = (hash ^ (lb[i] as u64)).wrapping_mul(FNV_PRIME);
        i = i + 1;
    }
    assert(lb@.subrange(0, lb@.len() as int) =~= lb@);
    assert(lsep.drop_last() =~= lb@);
    hash = (hash ^ 0u64).wrapping_mul(FNV_PRIME);
    assert(hash == fnv1a(FNV_OFFSET_BASIS, lsep));
    let mut j: usize = 0;
    while j < rb.len()
        invariant
            0 <= j <= rb@.len(),
            hash == fnv1a(FNV_OFFSET_BASIS, lsep + rb@.subrange(0, j as int)),
        decreases rb.len() - j,
    {
        assert((lsep + rb@.subrange(0, j + 1)).drop_last() =~= lsep + rb@.subrange(0, j as int));
        assert((lsep + rb@.subrange(0, j + 1)).last() == rb@[j as int]);
        hash = (hash ^ (rb[j] as u64)).wrapping_mul(FNV_PRIME);
        j = j + 1;
    }
    assert(lsep + rb@.subrange(0, rb@.len() as int) =~= input);
    hash
}

/// `function-binding:<name>:<sequence>`
pub open spec fn function_binding_text(name: Seq<char>, observed_at: u64) -> Seq<char> {
    "function-binding:"@ + name + ":"@ + decimal_digits(observed_at as nat)
}

/// `alias-binding:<name>:<sequence>:<fingerprint of name and body, 16 hex digits>`
pub open spec fn alias_binding_text(name: Seq<char>, observed_at: u64, body: Seq<char>) -> Seq<char> {
    "alias-binding:"@ + name + ":"@ + decimal_digits(observed_at as nat) + ":"@ + hex16_digits(
        fnv1a(FNV_OFFSET_BASIS, encode_utf8(name) + seq![0u8] + encode_utf8(body)),
    )
}

/// `alias-mutation:<name>:unset:<sequence>`
pub open spec fn alias_unset_text(name: Seq<char>, observed_at: u64) -> Seq<char> {
    "alias-mutation:"@ + name + ":unset:"@ + decimal_digits(observed_at as nat)
}

/// `cwd-state:<sequence>`
pub open spec fn directory_state_text(observed_at: u64) -> Seq<char> {
    "cwd-state:"@ + decimal_digits(observed_at as nat)
}

pub fn function_binding_node_id(name: &str, observed_at: CommandSequenceNo) -> (r: NodeId)
    ensures
        r.0@ == function_binding_text(name@, observed_at.0),
{
    let mut s: String = "function-binding:".to_owned();
    s.append(name);
    s.append(":");
    push_decimal(&mut s, observed_at.0);
    NodeId(s)
}

/// The node id of an alias binding: its name, when it was observed, and a
/// fingerprint of its name and body.
pub fn alias_binding_node_id(name: &str, observed_at: CommandSequenceNo, body: &str) -> (r: NodeId)
    ensures
        r.0@ == alias_binding_text(name@, observed_at.0, body@),
{
    let mut s: String = "alias-binding:".to_owned();
    s.append(name);
    s.append(":");
    push_decimal(&mut s, observed_at.0);
    s.append(":");
    push_hex16(&mut s, stable_str_fingerprint(name, body));
    NodeId(s)
}

/// The node id recording that an alias was unset.
pub fn alias_unset_node_id(name: &str, observed_at: CommandSequenceNo) -> (r: NodeId)
    ensures
        r.0@ == alias_unset_text(name@, observed_at.0),
{
    let mut s: String = "alias-mutation:".to_owned();
    s.append(name);
    s.append(":unset:");
    push_decimal(&mut s, observed_at.0);
    NodeId(s)
}

pub fn directory_state_node_id(observed_at: CommandSequenceNo) -> (r: NodeId)
    ensures
        r.0@ == directory_state_text(observed_at.0),
{
    let mut s: String = "cwd-state:".to_owned();
    push_decimal(&mut s, observed_at.0);
    NodeId(s)
}

} // verus!
