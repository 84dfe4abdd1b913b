//! Messages exchanged with the generation service and with clients.

use vstd::prelude::*;

use crate::fixed::Fixed;
use crate::prompts::{default_model, DEFAULT_MODEL};

verus! {

/// Who wrote a message of a conversation.
#[derive(Clone, Copy, Debug, PartialEq, Eq, Structural)]
pub enum MessageRole {
    /// Instructions that set the service's behavior.
    System,
    /// The request itself.
    User,
    /// The service's answer.
    Assistant,
}

/// One message of a conversation.
#[derive(Clone, Debug, PartialEq)]
pub struct Message {
    pub role: MessageRole,
    pub content: String,
}

impl Message {
    /// A message with `role` and `content`.
    pub fn new(role: MessageRole, content: String) -> (r: Message)
        ensures
            r.role == role,
            r.content == content,
    {
        Message { role, content }
    }
}

/// The text that one streamed answer adds.
#[derive(Clone, Debug, PartialEq)]
pub struct Delta {
    pub content: String,
}

/// One choice of a streamed answer.
#[derive(Clone, Debug, PartialEq)]
pub struct StreamChoice {
    pub delta: Delta,
}

/// Token counts reported by the service.
#[derive(Clone, Copy, Debug, PartialEq, Eq, Structural)]
pub struct Usage {
    pub prompt_tokens: Option<u32>,
    pub completion_tokens: Option<u32>,
    pub total_tokens: Option<u32>,
}

/// One event of a streamed answer.
#[derive(Clone, Debug, PartialEq)]
pub struct StreamResponse {
    pub choices: Vec<StreamChoice>,
    pub usage: Option<Usage>,
}

impl StreamResponse {
    /// The text that the first choice adds, unless there is none or it is
    /// empty.
    pub fn delta_content(&self) -> (r: Option<String>)
        ensures
            match r {
                Some(t) => self.choices@.len() > 0 && t@ == self.choices@[0].delta.content@
                    && t@.len() > 0,
                None => self.choices@.len() == 0 || self.choices@[0].delta.content@.len() == 0,
            },
    {
        if self.choices.len() == 0 {
            return None;
        }
        let content = &self.choices[0].delta.content;
        if content.as_str().is_empty() {
            None
        } else {
            Some(content.clone())
        }
    }
}

/// The output format asked of the service.
#[derive(Clone, Debug, PartialEq)]
pub struct ResponseFormat {
    pub format_type: String,
}

/// The answer of the identification phase.
#[derive(Clone, Debug, PartialEq)]
pub struct Phase1Response {
    pub neighborhoods: Vec<String>,
}

/// A constituent's reply to an event.
#[derive(Clone, Debug, PartialEq)]
pub struct PersonaResponse {
    pub name: String,
    pub message: String,
}

/// Sampling temperature used unless a phase sets its own: 0.8.
pub fn default_temperature() -> (r: Fixed)
    ensures
        r.micros == 800000,
{
    Fixed::from_micros(800000)
}

/// Nucleus sampling bound: 0.1.
pub fn default_top_p() -> (r: Fixed)
    ensures
        r.micros == 100000,
{
    Fixed::from_micros(100000)
}

/// Presence penalty: none.
pub fn default_presence_penalty() -> (r: Fixed)
    ensures
        r.micros == 0,
{
    Fixed::zero()
}

/// Frequency penalty: none.
pub fn default_frequency_penalty() -> (r: Fixed)
    ensures
        r.micros == 0,
{
    Fixed::zero()
}

/// Most tokens that one answer may hold.
pub const MAX_TOKENS: u32 = 2048;

/// A request to the chat completion service.
#[derive(Clone, Debug, PartialEq)]
pub struct ChatCompletionRequest {
    /// The instructions, then the request.
    pub messages: Vec<Message>,
    /// Whether the answer is streamed; left out of the request when off.
    pub stream: bool,
    pub max_tokens: Option<u32>,
    pub temperature: Fixed,
    pub top_p: Fixed,
    pub presence_penalty: Fixed,
    pub frequency_penalty: Fixed,
    pub model: String,
    /// Asks for a JSON object as the answer.
    pub response_format: Option<ResponseFormat>,
}

impl ChatCompletionRequest {
    /// The parameters shared by both phases.
    pub open spec fn common(self, system: Seq<char>, user: Seq<char>) -> bool {
        &&& self.messages@.len() == 2
        &&& self.messages@[0].role == MessageRole::System
        &&& self.messages@[0].content@ == system
        &&& self.messages@[1].role == MessageRole::User
        &&& self.messages@[1].content@ == user
        &&& self.max_tokens == Some(MAX_TOKENS)
        &&& self.top_p.micros == 100000
        &&& self.presence_penalty.micros == 0
        &&& self.frequency_penalty.micros == 0
        &&& self.model@ == DEFAULT_MODEL@
    }

    /// The request of the identification phase: answered at once, as a
    /// JSON object, at temperature 0.7.
    pub fn identification(system: String, user: String) -> (r: ChatCompletionRequest)
        ensures
            r.common(system@, user@),
            !r.stream,
            r.temperature.micros == 700000,
            r.response_format matches Some(f) && f.format_type@ == "json_object"@,
    {
        ChatCompletionRequest {
            messages: vec![Message::new(MessageRole::System, system), Message::new(MessageRole::User, user)],
            stream: false,
            max_tokens: Some(MAX_TOKENS),
            temperature: Fixed::from_micros(700000),
            top_p: default_top_p(),
            presence_penalty: default_presence_penalty(),
            frequency_penalty: default_frequency_penalty(),
            model: default_model(),
            response_format: Some(ResponseFormat { format_type: String::from_str("json_object") }),
        }
    }

    /// The request of the detail phase: streamed, free text, at the default
    /// temperature.
    pub fn generation(system: String, user: String) -> (r: ChatCompletionRequest)
        ensures
            r.common(system@, user@),
            r.stream,
            r.temperature.micros == 800000,
            r.response_format is None,
    {
        ChatCompletionRequest {
            messages: vec![Message::new(MessageRole::System, system), Message::new(MessageRole::User, user)],
            stream: true,
            max_tokens: Some(MAX_TOKENS),
            temperature: default_temperature(),
            top_p: default_top_p(),
            presence_penalty: default_presence_penalty(),
            frequency_penalty: default_frequency_penalty(),
            model: default_model(),
            response_format: None,
        }
    }
}

} // verus!
