use chatflow::flow::{
    create_new_conversation, new_conversation, timestamp_from_clock, ConversationSettings,
    FlowError, FlowErrorKind, FlowFile, FlowMessage, NEW_CONVERSATION_TITLE,
};

#[test]
fn new_conversation_is_empty_with_equal_timestamps() {
    let c = new_conversation("abc".to_string(), 1_700_000_000);
    assert_eq!(c.id, "abc");
    assert_eq!(c.title, "New Conversation");
    assert_eq!(c.created, 1_700_000_000);
    assert_eq!(c.updated, 1_700_000_000);
    assert!(c.messages.is_empty());
    assert!(c.settings.is_none());
}

#[test]
fn created_conversations_have_distinct_fresh_ids() {
    let a = create_new_conversation();
    let b = create_new_conversation();
    assert_eq!(a.id.len(), 36);
    assert_ne!(a.id, b.id);
    assert_eq!(a.created, a.updated);
    assert!(a.created > 1_600_000_000);
    assert!(a.messages.is_empty());
    assert!(a.settings.is_none());
    assert_eq!(a.title, NEW_CONVERSATION_TITLE);
    let parsed = uuid::Uuid::parse_str(&a.id).unwrap();
    assert_eq!(parsed.get_version_num(), 4);
}

#[test]
fn clock_readings_become_timestamps() {
    assert_eq!(timestamp_from_clock(Some(42)), 42);
    assert_eq!(timestamp_from_clock(None), 0);
    assert_eq!(timestamp_from_clock(Some(u64::MAX)), i64::MAX);
    assert_eq!(timestamp_from_clock(Some(i64::MAX as u64)), i64::MAX);
}

#[test]
fn flow_errors_carry_kind_and_prefixed_message() {
    let io = FlowError::from_detail(FlowErrorKind::Io, "No such file or directory");
    assert_eq!(io.kind(), FlowErrorKind::Io);
    assert_eq!(io.message(), "Failed to access file: No such file or directory");
    let parse = FlowError::from_detail(FlowErrorKind::Parse, "EOF while parsing");
    assert_eq!(parse.kind, FlowErrorKind::Parse);
    assert_eq!(parse.message, "Failed to parse flow file: EOF while parsing");
    let ser = FlowError::from_detail(FlowErrorKind::Serialize, "x");
    assert_eq!(ser.kind, FlowErrorKind::Serialize);
    assert_eq!(ser.message, "Failed to serialize flow file: x");
}

#[test]
fn flow_file_holds_a_conversation() {
    let mut c = new_conversation("id-1".to_string(), 5);
    c.messages.push(FlowMessage {
        id: "m1".to_string(),
        timestamp: 6,
        sender: "user".to_string(),
        content: "hello".to_string(),
        metadata: Some(serde_json::Value::Bool(true)),
    });
    c.settings = Some(ConversationSettings {
        model: "m".to_string(),
        temperature_bits: 0.5f32.to_bits(),
        max_tokens: 100,
        system_prompt: None,
    });
    let f = FlowFile { version: "1.0".to_string(), conversation: c.clone(), checksum: None };
    assert_eq!(f.conversation.messages.len(), 1);
    assert_eq!(f.conversation.messages[0].metadata, Some(serde_json::Value::Bool(true)));
    assert_eq!(f32::from_bits(f.conversation.settings.as_ref().unwrap().temperature_bits), 0.5);
}
