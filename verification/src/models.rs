//! Data models for the API: agents, sessions, messages, and streamed events.

use vstd::prelude::*;

verus! {

/// An opaque JSON value, used to carry server-supplied payloads through the
/// library without inspecting them.
#[verifier::external_type_specification]
#[verifier::external_body]
pub struct ExValue(serde_json::Value);

/// Agent configuration.
#[derive(Debug)]
pub struct Agent {
    pub id: String,
    pub name: String,
    pub description: Option<String>,
    pub system_prompt: String,
    pub default_model_id: Option<String>,
    pub tags: Vec<String>,
    pub status: AgentStatus,
    pub created_at: String,
    pub updated_at: String,
}

#[derive(Debug, Clone, Copy, PartialEq, Eq, Structural)]
pub enum AgentStatus {
    Active,
    Archived,
}

/// Request to create an agent.
#[derive(Debug, Clone)]
#[non_exhaustive]
pub struct CreateAgentRequest {
    pub name: String,
    pub system_prompt: String,
    pub description: Option<String>,
    pub default_model_id: Option<String>,
    pub tags: Vec<String>,
}

impl CreateAgentRequest {
    /// Create a new request with the required fields.
    pub fn new(name: &str, system_prompt: &str) -> (r: Self)
        ensures
            r.name@ == name@,
            r.system_prompt@ == system_prompt@,
            r.description is None,
            r.default_model_id is None,
            r.tags@.len() == 0,
    {
        CreateAgentRequest {
            name: name.to_owned(),
            system_prompt: system_prompt.to_owned(),
            description: None,
            default_model_id: None,
            tags: Vec::new(),
        }
    }

    /// Set the description.
    pub fn description(self, description: &str) -> (r: Self)
        ensures
            r.description matches Some(d) && d@ == description@,
            r.name == self.name,
            r.system_prompt == self.system_prompt,
            r.default_model_id == self.default_model_id,
            r.tags == self.tags,
    {
        CreateAgentRequest { description: Some(description.to_owned()), ..self }
    }

    /// Set the default model id.
    pub fn default_model_id(self, model_id: &str) -> (r: Self)
        ensures
            r.default_model_id matches Some(m) && m@ == model_id@,
            r.name == self.name,
            r.system_prompt == self.system_prompt,
            r.description == self.description,
            r.tags == self.tags,
    {
        CreateAgentRequest { default_model_id: Some(model_id.to_owned()), ..self }
    }

    /// Set the tags.
    pub fn tags(self, tags: Vec<String>) -> (r: Self)
        ensures
            r.tags == tags,
            r.name == self.name,
            r.system_prompt == self.system_prompt,
            r.description == self.description,
            r.default_model_id == self.default_model_id,
    {
        CreateAgentRequest { tags, ..self }
    }
}

/// Session representing an active conversation.
#[derive(Debug)]
pub struct Session {
    pub id: String,
    pub organization_id: String,
    pub agent_id: String,
    pub title: Option<String>,
    pub tags: Vec<String>,
    pub model_id: Option<String>,
    pub status: SessionStatus,
    pub created_at: String,
    pub updated_at: String,
    pub usage: Option<TokenUsage>,
}

#[derive(Debug, Clone, Copy, PartialEq, Eq, Structural)]
pub enum SessionStatus {
    Started,
    Active,
    Idle,
}

/// Token usage statistics.
#[derive(Debug, Clone, Copy, PartialEq, Eq, Structural)]
pub struct TokenUsage {
    pub input_tokens: u64,
    pub output_tokens: u64,
    pub cache_read_tokens: u64,
}

/// Request to create a session.
#[derive(Debug, Clone)]
#[non_exhaustive]
pub struct CreateSessionRequest {
    pub agent_id: String,
    pub title: Option<String>,
    pub model_id: Option<String>,
}

impl CreateSessionRequest {
    /// Create a new request with the agent id.
    pub fn new(agent_id: &str) -> (r: Self)
        ensures
            r.agent_id@ == agent_id@,
            r.title is None,
            r.model_id is None,
    {
        CreateSessionRequest { agent_id: agent_id.to_owned(), title: None, model_id: None }
    }

    /// Set the session title.
    pub fn title(self, title: &str) -> (r: Self)
        ensures
            r.title matches Some(t) && t@ == title@,
            r.agent_id == self.agent_id,
            r.model_id == self.model_id,
    {
        CreateSessionRequest { title: Some(title.to_owned()), ..self }
    }

    /// Set the model id.
    pub fn model_id(self, model_id: &str) -> (r: Self)
        ensures
            r.model_id matches Some(m) && m@ == model_id@,
            r.agent_id == self.agent_id,
            r.title == self.title,
    {
        CreateSessionRequest { model_id: Some(model_id.to_owned()), ..self }
    }
}

/// Message in a session.
#[derive(Debug)]
pub struct Message {
    pub id: String,
    pub session_id: String,
    pub sequence: u64,
    pub role: MessageRole,
    pub content: Vec<ContentPart>,
    pub thinking: Option<String>,
    pub tags: Vec<String>,
    pub created_at: String,
}

#[derive(Debug, Clone, Copy, PartialEq, Eq, Structural)]
pub enum MessageRole {
    User,
    Agent,
    ToolResult,
}

/// Content part within a message.
#[derive(Debug)]
pub enum ContentPart {
    Text { text: String },
    Image { url: Option<String>, base64: Option<String> },
    ImageFile { image_id: String },
    ToolCall { id: String, name: String, arguments: serde_json::Value },
    ToolResult {
        tool_call_id: String,
        result: Option<serde_json::Value>,
        error: Option<String>,
    },
}

/// Input for creating a message.
#[derive(Debug)]
#[non_exhaustive]
pub struct MessageInput {
    pub role: MessageRole,
    pub content: Vec<ContentPart>,
}

impl MessageInput {
    /// Create a new message input.
    pub fn new(role: MessageRole, content: Vec<ContentPart>) -> (r: Self)
        ensures
            r.role == role,
            r.content == content,
    {
        MessageInput { role, content }
    }

    /// Create a user text message.
    pub fn user_text(text: &str) -> (r: Self)
        ensures
            r.role == MessageRole::User,
            r.content@.len() == 1,
            r.content@[0] matches ContentPart::Text { text: t } && t@ == text@,
    {
        let mut content: Vec<ContentPart> = Vec::new();
        content.push(ContentPart::Text { text: text.to_owned() });
        MessageInput { role: MessageRole::User, content }
    }
}

/// Paginated list response.
#[derive(Debug)]
pub struct ListResponse<T> {
    pub data: Vec<T>,
    pub total: u64,
    pub offset: u64,
    pub limit: u64,
}

/// The plain fields of a decoded event: everything the envelope carries
/// except the opaque payload.
pub ghost struct EventFields {
    pub id: Seq<char>,
    pub event_type: Seq<char>,
    pub ts: Seq<char>,
    pub session_id: Seq<char>,
    pub turn_id: Option<Seq<char>>,
    pub input_message_id: Option<Seq<char>>,
}

/// An event pushed by the server over the stream.
///
/// Immutable once decoded; `data` is the opaque JSON payload.
#[derive(Debug)]
pub struct Event {
    pub id: String,
    pub event_type: String,
    pub ts: String,
    pub session_id: String,
    pub data: serde_json::Value,
    pub context: EventContext,
}

impl Event {
    /// The plain fields of this event, as the decoding contracts speak of them.
    pub open spec fn fields(self) -> EventFields {
        EventFields {
            id: self.id@,
            event_type: self.event_type@,
            ts: self.ts@,
            session_id: self.session_id@,
            turn_id: match self.context.turn_id {
                Some(t) => Some(t@),
                None => None,
            },
            input_message_id: match self.context.input_message_id {
                Some(m) => Some(m@),
                None => None,
            },
        }
    }
}

/// Context linking an event to a turn or input message.
#[derive(Debug, Clone)]
pub struct EventContext {
    pub turn_id: Option<String>,
    pub input_message_id: Option<String>,
}

impl Default for EventContext {
    /// Empty context: no turn and no input message.
    fn default() -> (r: Self)
        ensures
            r.turn_id is None,
            r.input_message_id is None,
    {
        EventContext { turn_id: None, input_message_id: None }
    }
}

} // verus!
