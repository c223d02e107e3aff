//! The built-in AI providers: a local Ollama server and Qwen (DashScope).
//! The HTTP exchange itself is done by the caller; this module decides
//! where it goes and what its outcome means.

use vstd::prelude::*;
use crate::sdk::provider::{
    AiProvider, ChatMessage, ChatResponse, ProviderCapabilities, ProviderError, ProviderId,
    ProviderKind, ProviderSettings, TokenUsage,
};
use crate::text::{push_str, str_eq, to_owned_string};

verus! {

/// The Ollama server on this machine.
#[derive(Debug)]
pub struct OllamaProvider {
    id: ProviderId,
    endpoint: String,
}

/// Qwen through DashScope's OpenAI-compatible API.
#[derive(Debug)]
pub struct QwenProvider {
    id: ProviderId,
    api_key: String,
    endpoint: String,
}

/// The value of the first setting named `key`, if any.
pub open spec fn setting_value(values: Seq<(Seq<char>, Seq<char>)>, key: Seq<char>) -> Option<Seq<char>>
    decreases values.len(),
{
    if values.len() == 0 {
        None
    } else if values[0].0 == key {
        Some(values[0].1)
    } else {
        setting_value(values.drop_first(), key)
    }
}

/// The settings as (key, value) pairs.
pub open spec fn settings_pairs(settings: ProviderSettings) -> Seq<(Seq<char>, Seq<char>)> {
    settings.values@.map_values(|s: crate::sdk::provider::ProviderSetting| (s.key@, s.value@))
}

/// The API key among the settings; empty when there is none.
pub open spec fn api_key_of(settings: ProviderSettings) -> Seq<char> {
    match setting_value(settings_pairs(settings), "api_key"@) {
        Some(v) => v,
        None => Seq::empty(),
    }
}

/// The value of the first setting named `key`.
fn find_setting(settings: &ProviderSettings, key: &str) -> (r: Option<String>)
    ensures
        match r {
            Some(v) => setting_value(settings_pairs(*settings), key@) == Some(v@),
            None => setting_value(settings_pairs(*settings), key@) is None,
        },
{
    let ghost all = settings_pairs(*settings);
    assert(all.skip(0) =~= all);
    let mut i: usize = 0;
    while i < settings.values.len()
        invariant
            i <= settings.values@.len(),
            all == settings_pairs(*settings),
            setting_value(all, key@) == setting_value(all.skip(i as int), key@),
        decreases settings.values.len() - i,
    {
        assert(all.skip(i as int).drop_first() =~= all.skip(i + 1));
        if str_eq(settings.values[i].key.as_str(), key) {
            return Some(settings.values[i].value.clone());
        }
        i = i + 1;
    }
    None
}

/// A provider id from its name.
fn provider_id(name: &str) -> (r: ProviderId)
    ensures
        r.0@ == name@,
{
    ProviderId(to_owned_string(name))
}

/// A copy of a provider id.
fn copy_id(id: &ProviderId) -> (r: ProviderId)
    ensures
        r.0@ == id.0@,
{
    ProviderId(id.0.clone())
}

/// An assistant reply with its content and the tokens it cost.
pub fn assistant_reply(content: String, usage: Option<TokenUsage>) -> (r: ChatResponse)
    ensures
        r.message.role@ == "assistant"@,
        r.message.content@ == content@,
        r.usage == usage,
{
    ChatResponse { message: ChatMessage { role: to_owned_string("assistant"), content }, usage }
}

impl OllamaProvider {
    /// The provider for `http://localhost:11434`.
    pub fn new() -> (r: Self)
        ensures
            r.provider_id_spec() == "ollama"@,
            r.endpoint_view() == "http://localhost:11434"@,
    {
        OllamaProvider { id: provider_id("ollama"), endpoint: to_owned_string("http://localhost:11434") }
    }

    /// The server's base URL.
    pub closed spec fn endpoint_view(&self) -> Seq<char> {
        self.endpoint@
    }

    /// Where chat requests are posted.
    pub fn chat_url(&self) -> (r: String)
        ensures
            r@ == self.endpoint_view() + "/api/chat"@,
    {
        let mut url = self.endpoint.clone();
        push_str(&mut url, "/api/chat");
        url
    }

    /// The error for a reply with a failure status (`status` as the HTTP
    /// client prints it) and body `text`.
    pub fn status_error(&self, status: &str, text: &str) -> (r: ProviderError)
        ensures
            r.provider_id.0@ == self.provider_id_spec(),
            r.message@ == "Ollama error ("@ + status@ + "): "@ + text@,
    {
        let mut message = to_owned_string("Ollama error (");
        push_str(&mut message, status);
        push_str(&mut message, "): ");
        push_str(&mut message, text);
        ProviderError { provider_id: copy_id(&self.id), message }
    }
}

impl AiProvider for OllamaProvider {
    closed spec fn provider_id_spec(&self) -> Seq<char> {
        self.id.0@
    }

    open spec fn kind_spec(&self) -> ProviderKind {
        ProviderKind::Ollama
    }

    open spec fn capabilities_spec(&self) -> ProviderCapabilities {
        ProviderCapabilities { chat: true, tools: false, streaming: true, local: true }
    }

    /// A local server needs no settings.
    open spec fn accepts_settings(&self, settings: ProviderSettings) -> bool {
        true
    }

    open spec fn rejection(&self, settings: ProviderSettings) -> (Seq<char>, Seq<char>) {
        (self.provider_id_spec(), Seq::empty())
    }

    fn id(&self) -> (r: ProviderId) {
        copy_id(&self.id)
    }

    fn kind(&self) -> (r: ProviderKind) {
        ProviderKind::Ollama
    }

    fn capabilities(&self) -> (r: ProviderCapabilities) {
        ProviderCapabilities { chat: true, tools: false, streaming: true, local: true }
    }

    fn initialize(&self, settings: ProviderSettings) -> (r: Result<(), ProviderError>) {
        Ok(())
    }
}

impl QwenProvider {
    /// The provider for DashScope's compatible-mode endpoint, with no key yet.
    pub fn new() -> (r: Self)
        ensures
            r.provider_id_spec() == "qwen"@,
            r.endpoint_view() == "https://dashscope.aliyuncs.com/compatible-mode/v1"@,
            r.api_key_view() == Seq::<char>::empty(),
    {
        QwenProvider {
            id: provider_id("qwen"),
            api_key: String::new(),
            endpoint: to_owned_string("https://dashscope.aliyuncs.com/compatible-mode/v1"),
        }
    }

    /// The API's base URL.
    pub closed spec fn endpoint_view(&self) -> Seq<char> {
        self.endpoint@
    }

    /// The key sent with requests.
    pub closed spec fn api_key_view(&self) -> Seq<char> {
        self.api_key@
    }

    /// Where chat requests are posted.
    pub fn chat_url(&self) -> (r: String)
        ensures
            r@ == self.endpoint_view() + "/chat/completions"@,
    {
        let mut url = self.endpoint.clone();
        push_str(&mut url, "/chat/completions");
        url
    }

    /// The `Authorization` header sent with requests.
    pub fn authorization(&self) -> (r: String)
        ensures
            r@ == "Bearer "@ + self.api_key_view(),
    {
        let mut h = to_owned_string("Bearer ");
        push_str(&mut h, self.api_key.as_str());
        h
    }

    /// The error for a reply with a failure status (`status` as the HTTP
    /// client prints it) and body `text`.
    pub fn status_error(&self, status: &str, text: &str) -> (r: ProviderError)
        ensures
            r.provider_id.0@ == self.provider_id_spec(),
            r.message@ == "API error ("@ + status@ + "): "@ + text@,
    {
        let mut message = to_owned_string("API error (");
        push_str(&mut message, status);
        push_str(&mut message, "): ");
        push_str(&mut message, text);
        ProviderError { provider_id: copy_id(&self.id), message }
    }
}

impl AiProvider for QwenProvider {
    closed spec fn provider_id_spec(&self) -> Seq<char> {
        self.id.0@
    }

    open spec fn kind_spec(&self) -> ProviderKind {
        ProviderKind::Qwen
    }

    open spec fn capabilities_spec(&self) -> ProviderCapabilities {
        ProviderCapabilities { chat: true, tools: true, streaming: true, local: false }
    }

    /// The settings must hold a non-empty `api_key`.
    open spec fn accepts_settings(&self, settings: ProviderSettings) -> bool {
        api_key_of(settings).len() > 0
    }

    open spec fn rejection(&self, settings: ProviderSettings) -> (Seq<char>, Seq<char>) {
        (self.provider_id_spec(), "Qwen (DashScope) API key is required"@)
    }

    fn id(&self) -> (r: ProviderId) {
        copy_id(&self.id)
    }

    fn kind(&self) -> (r: ProviderKind) {
        ProviderKind::Qwen
    }

    fn capabilities(&self) -> (r: ProviderCapabilities) {
        ProviderCapabilities { chat: true, tools: true, streaming: true, local: false }
    }

    fn initialize(&self, settings: ProviderSettings) -> (r: Result<(), ProviderError>)
        ensures
            r matches Err(e) ==> e.provider_id.0@ == self.provider_id_spec() && e.message@
                == "Qwen (DashScope) API key is required"@,
    {
        let key = match find_setting(&settings, "api_key") {
            Some(v) => v,
            None => String::new(),
        };
        if key.as_str().is_empty() {
            return Err(
                ProviderError {
                    provider_id: copy_id(&self.id),
                    message: to_owned_string("Qwen (DashScope) API key is required"),
                },
            );
        }
        Ok(())
    }
}

/// One of the built-in providers.
#[derive(Debug)]
pub enum BuiltinProvider {
    Ollama(OllamaProvider),
    Qwen(QwenProvider),
}

impl AiProvider for BuiltinProvider {
    open spec fn provider_id_spec(&self) -> Seq<char> {
        match self {
            BuiltinProvider::Ollama(p) => p.provider_id_spec(),
            BuiltinProvider::Qwen(p) => p.provider_id_spec(),
        }
    }

    open spec fn kind_spec(&self) -> ProviderKind {
        match self {
            BuiltinProvider::Ollama(p) => p.kind_spec(),
            BuiltinProvider::Qwen(p) => p.kind_spec(),
        }
    }

    open spec fn capabilities_spec(&self) -> ProviderCapabilities {
        match self {
            BuiltinProvider::Ollama(p) => p.capabilities_spec(),
            BuiltinProvider::Qwen(p) => p.capabilities_spec(),
        }
    }

    open spec fn accepts_settings(&self, settings: ProviderSettings) -> bool {
        match self {
            BuiltinProvider::Ollama(p) => p.accepts_settings(settings),
            BuiltinProvider::Qwen(p) => p.accepts_settings(settings),
        }
    }

    open spec fn rejection(&self, settings: ProviderSettings) -> (Seq<char>, Seq<char>) {
        match self {
            BuiltinProvider::Ollama(p) => p.rejection(settings),
            BuiltinProvider::Qwen(p) => p.rejection(settings),
        }
    }

    fn id(&self) -> (r: ProviderId) {
        match self {
            BuiltinProvider::Ollama(p) => p.id(),
            BuiltinProvider::Qwen(p) => p.id(),
        }
    }

    fn kind(&self) -> (r: ProviderKind) {
        match self {
            BuiltinProvider::Ollama(p) => p.kind(),
            BuiltinProvider::Qwen(p) => p.kind(),
        }
    }

    fn capabilities(&self) -> (r: ProviderCapabilities) {
        match self {
            BuiltinProvider::Ollama(p) => p.capabilities(),
            BuiltinProvider::Qwen(p) => p.capabilities(),
        }
    }

    fn initialize(&self, settings: ProviderSettings) -> (r: Result<(), ProviderError>) {
        match self {
            BuiltinProvider::Ollama(p) => p.initialize(settings),
            BuiltinProvider::Qwen(p) => p.initialize(settings),
        }
    }
}

} // verus!
