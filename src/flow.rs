use vstd::prelude::*;
use vstd::string::*;

verus! {

/// serde_json's `Value`, carried opaquely as message metadata.
#[verifier::external_type_specification]
#[verifier::external_body]
pub struct ExJsonValue(serde_json::Value);

/// Title given to a freshly created conversation.
pub const NEW_CONVERSATION_TITLE: &'static str = "New Conversation";

/// One message of a conversation.
#[derive(Debug, Clone)]
pub struct FlowMessage {
    pub id: String,
    /// Unix time in seconds.
    pub timestamp: i64,
    pub sender: String,
    pub content: String,
    /// Free-form JSON attached by the editor; carried through unchanged.
    pub metadata: Option<serde_json::Value>,
}

/// Model settings of a conversation.
#[derive(Debug, Clone)]
pub struct ConversationSettings {
    pub model: String,
    /// The sampling temperature, an `f32` held as its IEEE-754 bit pattern; the library only
    /// carries it.
    pub temperature_bits: u32,
    pub max_tokens: i32,
    pub system_prompt: Option<String>,
}

/// A conversation: its identity, timestamps, messages in order, and optional settings.
#[derive(Debug, Clone)]
pub struct FlowConversation {
    pub id: String,
    pub title: String,
    /// Unix time in seconds.
    pub created: i64,
    /// Unix time in seconds.
    pub updated: i64,
    pub messages: Vec<FlowMessage>,
    pub settings: Option<ConversationSettings>,
}

/// The on-disk unit: one conversation with a format version and an optional checksum that
/// callers may fill in.
#[derive(Debug)]
pub struct FlowFile {
    pub version: String,
    pub conversation: FlowConversation,
    pub checksum: Option<String>,
}

/// Builds an empty conversation with the given identifier, created and updated at `now`.
pub fn new_conversation(id: String, now: i64) -> (r: FlowConversation)
    ensures
        r.id@ == id@,
        r.title@ == NEW_CONVERSATION_TITLE@,
        r.created == now,
        r.updated == now,
        r.messages@.len() == 0,
        r.settings is None,
{
    FlowConversation {
        id,
        title: String::from_str(NEW_CONVERSATION_TITLE),
        created: now,
        updated: now,
        messages: Vec::new(),
        settings: None,
    }
}


/// Relies on `uuid::Uuid::new_v4` for a random identifier, and on its `Display`, which writes
/// the hyphenated form of 36 characters.
#[verifier::external_body]
fn random_uuid_text() -> (r: String)
    ensures
        r@.len() == 36,
{
    uuid::Uuid::new_v4().to_string()
}

/// Relies on `SystemTime::duration_since` from `UNIX_EPOCH` on the current time: whole seconds
/// since the epoch, or `None` when the clock reads earlier than the epoch.
#[verifier::external_body]
fn seconds_since_epoch() -> (r: Option<u64>) {
    std::time::SystemTime::now().duration_since(std::time::UNIX_EPOCH).ok().map(|d| d.as_secs())
}

/// A clock reading as a timestamp: a clock before the epoch reads as 0, and a reading past
/// the range of `i64` as `i64::MAX`.
pub fn timestamp_from_clock(seconds: Option<u64>) -> (r: i64)
    ensures
        r == match seconds {
            Some(s) => if s <= i64::MAX as u64 {
                s as int
            } else {
                i64::MAX as int
            },
            None => 0,
        },
{
    match seconds {
        Some(s) => if s <= i64::MAX as u64 {
            s as i64
        } else {
            i64::MAX
        },
        None => 0,
    }
}

/// Creates an empty conversation with a fresh random identifier, created and updated now.
/// Nothing is stored.
pub fn create_new_conversation() -> (r: FlowConversation)
    ensures
        r.id@.len() == 36,
        r.title@ == NEW_CONVERSATION_TITLE@,
        r.created == r.updated,
        r.created >= 0,
        r.messages@.len() == 0,
        r.settings is None,
{
    let now = timestamp_from_clock(seconds_since_epoch());
    new_conversation(random_uuid_text(), now)
}


/// Kind of failure of a flow-file operation.
#[derive(Clone, Copy, Debug, PartialEq, Eq, Structural)]
pub enum FlowErrorKind {
    /// The file could not be opened, read or written.
    Io,
    /// The content is not JSON of the flow-file schema.
    Parse,
    /// The value could not be encoded.
    Serialize,
}

/// Error of a flow-file operation: a kind the caller can branch on, and a readable message.
#[derive(Clone, Debug)]
pub struct FlowError {
    pub kind: FlowErrorKind,
    pub message: String,
}

/// The message prefix for each kind of failure.
pub open spec fn flow_error_prefix(kind: FlowErrorKind) -> Seq<char> {
    match kind {
        FlowErrorKind::Io => "Failed to access file: "@,
        FlowErrorKind::Parse => "Failed to parse flow file: "@,
        FlowErrorKind::Serialize => "Failed to serialize flow file: "@,
    }
}

impl FlowError {
    /// An error of `kind` whose message is the kind's prefix followed by `detail`.
    pub fn from_detail(kind: FlowErrorKind, detail: &str) -> (r: FlowError)
        ensures
            r.kind == kind,
            r.message@ == flow_error_prefix(kind) + detail@,
    {
        let prefix = match kind {
            FlowErrorKind::Io => "Failed to access file: ",
            FlowErrorKind::Parse => "Failed to parse flow file: ",
            FlowErrorKind::Serialize => "Failed to serialize flow file: ",
        };
        FlowError { kind, message: String::from_str(prefix).concat(detail) }
    }

    pub fn kind(&self) -> (r: FlowErrorKind)
        ensures
            r == self.kind,
    {
        self.kind
    }

    pub fn message(&self) -> (r: String)
        ensures
            r@ == self.message@,
    {
        self.message.clone()
    }
}

} // verus!
