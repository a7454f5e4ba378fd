use sentinel_renderer::ipc::{
    decode_record, drain_messages, drain_records, message_from_fields, on_read,
    socket_candidates, IpcMessage, ReadEvent, ReadStep, SocketLocation, MAX_BUFFER_BYTES,
};
use sentinel_renderer::state::EntityState;

fn intensity_of(m: &IpcMessage) -> f64 {
    match m {
        IpcMessage::State { intensity, .. } => intensity.as_f64().unwrap(),
    }
}

fn state_of(m: &IpcMessage) -> EntityState {
    match m {
        IpcMessage::State { state, .. } => *state,
    }
}

#[test]
fn single_state_message_decodes() {
    let mut buffer = b"{\"type\":\"state\",\"state\":\"alert\",\"intensity\":0.8}\n".to_vec();
    let messages = drain_messages(&mut buffer);
    assert_eq!(messages.len(), 1);
    assert_eq!(state_of(&messages[0]), EntityState::Alert);
    assert_eq!(intensity_of(&messages[0]) as f32, 0.8f32);
    assert!(buffer.is_empty());
}

#[test]
fn malformed_line_is_dropped_alone() {
    let mut buffer =
        b"not json at all\n{\"type\":\"state\",\"state\":\"sleepy\",\"intensity\":0.25}\n".to_vec();
    let messages = drain_messages(&mut buffer);
    assert_eq!(messages.len(), 1);
    assert_eq!(state_of(&messages[0]), EntityState::Sleepy);
    assert_eq!(intensity_of(&messages[0]), 0.25);
}

#[test]
fn oversized_buffer_is_cleared() {
    let mut buffer = vec![b'a'; MAX_BUFFER_BYTES + 1];
    let messages = drain_messages(&mut buffer);
    assert!(messages.is_empty());
    assert!(buffer.is_empty());
}

#[test]
fn buffer_at_cap_is_kept() {
    let mut buffer = vec![b'a'; MAX_BUFFER_BYTES];
    let messages = drain_messages(&mut buffer);
    assert!(messages.is_empty());
    assert_eq!(buffer.len(), MAX_BUFFER_BYTES);
}

#[test]
fn partial_record_waits_for_its_newline() {
    let mut buffer = b"{\"type\":\"state\",\"state\":\"idle\",".to_vec();
    assert!(drain_messages(&mut buffer).is_empty());
    assert_eq!(buffer, b"{\"type\":\"state\",\"state\":\"idle\",".to_vec());
    buffer.extend_from_slice(b"\"intensity\":1}\nrest");
    let messages = drain_messages(&mut buffer);
    assert_eq!(messages.len(), 1);
    assert_eq!(state_of(&messages[0]), EntityState::Idle);
    assert_eq!(intensity_of(&messages[0]), 1.0);
    assert_eq!(buffer, b"rest".to_vec());
}

#[test]
fn records_skip_blank_and_invalid_lines() {
    let mut buffer = b"\n   \n  first \r\n\xff\xfe\nsecond\ntail".to_vec();
    let records = drain_records(&mut buffer);
    assert_eq!(records, vec!["first".to_string(), "second".to_string()]);
    assert_eq!(buffer, b"tail".to_vec());
}

#[test]
fn records_keep_unicode_text() {
    let mut buffer = "  h\u{e9}llo\n".as_bytes().to_vec();
    let records = drain_records(&mut buffer);
    assert_eq!(records, vec!["h\u{e9}llo".to_string()]);
    assert!(buffer.is_empty());
}

#[test]
fn unknown_type_is_rejected() {
    assert!(decode_record("{\"type\":\"color\",\"state\":\"idle\",\"intensity\":0.5}").is_none());
}

#[test]
fn unknown_state_is_rejected() {
    assert!(decode_record("{\"type\":\"state\",\"state\":\"angry\",\"intensity\":0.5}").is_none());
}

#[test]
fn non_numeric_intensity_is_rejected() {
    assert!(decode_record("{\"type\":\"state\",\"state\":\"idle\",\"intensity\":\"high\"}").is_none());
    assert!(decode_record("{\"type\":\"state\",\"state\":\"idle\"}").is_none());
}

#[test]
fn non_json_record_is_rejected() {
    assert!(decode_record("state idle 0.5").is_none());
}

#[test]
fn record_fields_in_any_order_decode() {
    let m = decode_record("{\"intensity\":0,\"state\":\"amused\",\"type\":\"state\"}").unwrap();
    assert_eq!(state_of(&m), EntityState::Amused);
    assert_eq!(intensity_of(&m), 0.0);
}

#[test]
fn fields_make_a_message() {
    let n = serde_json::Number::from(1u64);
    let m = message_from_fields(Some("state"), Some("curious"), Some(n)).unwrap();
    assert_eq!(state_of(&m), EntityState::Curious);
    assert!(message_from_fields(Some("State"), Some("curious"), Some(serde_json::Number::from(1u64))).is_none());
    assert!(message_from_fields(Some("state"), None, Some(serde_json::Number::from(1u64))).is_none());
    assert!(message_from_fields(None, Some("idle"), Some(serde_json::Number::from(1u64))).is_none());
    assert!(message_from_fields(Some("state"), Some("idle"), None).is_none());
}

#[test]
fn explicit_socket_wins() {
    let c = socket_candidates(Some("/run/x.sock".to_string()), Some("/run/user/1".to_string()));
    assert_eq!(c.len(), 1);
    assert!(matches!(&c[0], SocketLocation::Explicit(p) if p == "/run/x.sock"));
}

#[test]
fn blank_explicit_socket_is_ignored() {
    let c = socket_candidates(Some("   ".to_string()), Some("/run/user/1".to_string()));
    assert_eq!(c.len(), 2);
    assert!(matches!(&c[0], SocketLocation::RuntimeDir(d) if d == "/run/user/1"));
    assert!(matches!(&c[1], SocketLocation::Fallback));
}

#[test]
fn fallback_socket_alone() {
    let c = socket_candidates(None, Some(" ".to_string()));
    assert_eq!(c.len(), 1);
    assert!(matches!(&c[0], SocketLocation::Fallback));
    let c = socket_candidates(None, None);
    assert_eq!(c.len(), 1);
}

#[test]
fn read_events_map_to_steps() {
    assert_eq!(on_read(ReadEvent::Data(12)), ReadStep::Append);
    assert_eq!(on_read(ReadEvent::Interrupted), ReadStep::Retry);
    assert_eq!(on_read(ReadEvent::WouldBlock), ReadStep::Wait);
    assert_eq!(on_read(ReadEvent::Closed), ReadStep::Disconnect);
    assert_eq!(on_read(ReadEvent::Failed), ReadStep::Disconnect);
}

#[test]
fn mixed_buffer_yields_only_the_valid_record() {
    let mut buffer = vec![0xFF, 0xFE, b'\n', b'\n'];
    buffer.extend_from_slice(b"   \n{\"type\":\"ping\"}\n");
    buffer.extend_from_slice(b"{\"type\":\"state\",\"state\":\"idle\",\"intensity\":0.25}\npart");
    let messages = drain_messages(&mut buffer);
    assert_eq!(messages.len(), 1);
    assert_eq!(state_of(&messages[0]), EntityState::Idle);
    assert_eq!(intensity_of(&messages[0]), 0.25);
    assert_eq!(buffer, b"part".to_vec());
}

#[test]
fn messages_keep_line_order() {
    let mut buffer = b"{\"type\":\"state\",\"state\":\"curious\",\"intensity\":0.1}\n{\"type\":\"state\",\"state\":\"focused\",\"intensity\":0.9}\n".to_vec();
    let messages = drain_messages(&mut buffer);
    assert_eq!(messages.len(), 2);
    assert_eq!(state_of(&messages[0]), EntityState::Curious);
    assert_eq!(state_of(&messages[1]), EntityState::Focused);
}

#[test]
fn string_intensity_and_numeric_state_are_rejected() {
    assert!(decode_record("{\"type\":\"state\",\"state\":2,\"intensity\":0.5}").is_none());
    assert!(decode_record("[\"state\",\"idle\",0.5]").is_none());
}
