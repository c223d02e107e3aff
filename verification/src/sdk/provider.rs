//! AI provider settings, chat requests and responses.

use vstd::prelude::*;

verus! {

/// The name of an AI provider.
#[derive(Debug, Clone, PartialEq, Eq, Hash)]
pub struct ProviderId(pub String);

/// The family of an AI provider.
#[derive(Debug, Clone, PartialEq, Eq)]
pub enum ProviderKind {
    OpenAi,
    OpenRouter,
    Anthropic,
    Grok,
    DeepSeek,
    Qwen,
    Glm,
    Kimi,
    MiniMax,
    Ollama,
    OpenAiCompatible,
    Custom(String),
}

/// What a provider can do.
#[derive(Debug, Clone, Copy, PartialEq, Eq, Structural)]
pub struct ProviderCapabilities {
    pub chat: bool,
    pub tools: bool,
    pub streaming: bool,
    pub local: bool,
}

/// One key/value setting of a provider.
#[derive(Debug, Clone, PartialEq, Eq)]
pub struct ProviderSetting {
    pub key: String,
    pub value: String,
    pub secret: bool,
}

/// All settings handed to a provider when it is initialized.
#[derive(Debug, Clone, PartialEq, Eq)]
pub struct ProviderSettings {
    pub endpoint: Option<String>,
    pub model: Option<String>,
    pub values: Vec<ProviderSetting>,
}

/// One message of a chat.
#[derive(Debug, Clone, PartialEq, Eq)]
pub struct ChatMessage {
    pub role: String,
    pub content: String,
}

/// A chat request to a provider.
#[derive(Debug, Clone, PartialEq, Eq)]
pub struct ChatRequest {
    pub model: String,
    pub messages: Vec<ChatMessage>,
    pub tools_enabled: bool,
}

/// A provider's answer to a chat request.
#[derive(Debug, Clone, PartialEq, Eq)]
pub struct ChatResponse {
    pub message: ChatMessage,
    pub usage: Option<TokenUsage>,
}

/// Tokens spent by one request.
#[derive(Debug, Clone, Copy, PartialEq, Eq, Structural)]
pub struct TokenUsage {
    pub input_tokens: u64,
    pub output_tokens: u64,
}

/// An error raised by a provider.
#[derive(Debug, Clone, PartialEq, Eq)]
pub struct ProviderError {
    pub provider_id: ProviderId,
    pub message: String,
}

/// An AI provider the editor can talk to.
pub trait AiProvider {
    /// The provider's name as characters.
    spec fn provider_id_spec(&self) -> Seq<char>;

    /// The provider's family.
    spec fn kind_spec(&self) -> ProviderKind;

    /// What the provider can do.
    spec fn capabilities_spec(&self) -> ProviderCapabilities;

    /// Does the provider take these settings?
    spec fn accepts_settings(&self, settings: ProviderSettings) -> bool;

    /// The provider id and message of the error for settings it does not
    /// take.
    spec fn rejection(&self, settings: ProviderSettings) -> (Seq<char>, Seq<char>);

    /// The provider's name.
    fn id(&self) -> (r: ProviderId)
        ensures
            r.0@ == self.provider_id_spec(),
    ;

    /// The provider's family.
    fn kind(&self) -> (r: ProviderKind)
        ensures
            r == self.kind_spec(),
    ;

    /// What the provider can do.
    fn capabilities(&self) -> (r: ProviderCapabilities)
        ensures
            r == self.capabilities_spec(),
    ;

    /// Checks and takes the provider's settings.
    fn initialize(&self, settings: ProviderSettings) -> (r: Result<(), ProviderError>)
        ensures
            r is Ok <==> self.accepts_settings(settings),
            r matches Err(e) ==> (e.provider_id.0@, e.message@) == self.rejection(settings),
    ;
}

} // verus!
