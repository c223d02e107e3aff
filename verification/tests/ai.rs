use superide::ai::provider_service::ProviderService;
use superide::ai::providers::{assistant_reply, BuiltinProvider, OllamaProvider, QwenProvider};
use superide::ai::token_usage::{TokenUsageTracker, UsageRecord};
use superide::sdk::provider::{
    AiProvider, ProviderCapabilities, ProviderKind, ProviderSetting, ProviderSettings, TokenUsage,
    ProviderError, ProviderId,
};

fn settings(pairs: &[(&str, &str)]) -> ProviderSettings {
    ProviderSettings {
        endpoint: None,
        model: None,
        values: pairs
            .iter()
            .map(|(k, v)| ProviderSetting { key: k.to_string(), value: v.to_string(), secret: false })
            .collect(),
    }
}

#[test]
fn totals_add_up() {
    let mut t = TokenUsageTracker::new();
    t.record(UsageRecord { provider_id: "a".to_string(), model: "m".to_string(), input_tokens: 10, output_tokens: 5 });
    t.record(UsageRecord { provider_id: "b".to_string(), model: "m".to_string(), input_tokens: 1, output_tokens: 2 });
    assert_eq!(t.totals(), (11, 7));
    assert_eq!(t.history().len(), 2);
    assert_eq!(t.history()[1].provider_id, "b");
    t.reset();
    assert_eq!(t.totals(), (0, 0));
    assert!(t.history().is_empty());
}

#[test]
fn ollama_basics() {
    let p = OllamaProvider::new();
    assert_eq!(p.id().0, "ollama");
    assert_eq!(p.kind(), ProviderKind::Ollama);
    assert_eq!(p.capabilities(), ProviderCapabilities { chat: true, tools: false, streaming: true, local: true });
    assert!(p.initialize(settings(&[])).is_ok());
    assert_eq!(p.chat_url(), "http://localhost:11434/api/chat");
    assert_eq!(p.status_error("500 Internal Server Error", "oops").message, "Ollama error (500 Internal Server Error): oops");
}

#[test]
fn qwen_needs_a_key() {
    let p = QwenProvider::new();
    assert_eq!(p.id().0, "qwen");
    assert_eq!(p.kind(), ProviderKind::Qwen);
    let e = p.initialize(settings(&[])).unwrap_err();
    assert_eq!(e.message, "Qwen (DashScope) API key is required");
    assert!(p.initialize(settings(&[("api_key", "")])).is_err());
    assert!(p.initialize(settings(&[("other", "x"), ("api_key", "k")])).is_ok());
    assert_eq!(p.chat_url(), "https://dashscope.aliyuncs.com/compatible-mode/v1/chat/completions");
    assert_eq!(p.authorization(), "Bearer ");
}

#[test]
fn service_registers_and_initializes() {
    let mut svc: ProviderService<BuiltinProvider> = ProviderService::new();
    svc.register("ollama", BuiltinProvider::Ollama(OllamaProvider::new()));
    svc.register("qwen", BuiltinProvider::Qwen(QwenProvider::new()));
    assert_eq!(svc.list_providers(), vec!["ollama".to_string(), "qwen".to_string()]);
    assert!(!svc.is_initialized("ollama"));
    assert!(svc.initialize("ollama", settings(&[])).is_ok());
    assert!(svc.is_initialized("ollama"));
    assert!(svc.initialize("qwen", settings(&[])).is_err());
    assert!(!svc.is_initialized("qwen"));
    let e = svc.initialize("nope", settings(&[])).unwrap_err();
    assert_eq!(e.message, "Provider 'nope' is not registered");
    svc.register("ollama", BuiltinProvider::Ollama(OllamaProvider::new()));
    assert!(!svc.is_initialized("ollama"));
    assert_eq!(svc.capabilities_of("qwen").unwrap().tools, true);
    assert!(svc.capabilities_of("nope").is_none());
}

#[test]
fn service_tracks_active_and_usage() {
    let mut svc: ProviderService<BuiltinProvider> = ProviderService::new();
    assert!(svc.active_provider().is_none());
    svc.set_active("qwen");
    assert_eq!(svc.active_provider(), Some("qwen".to_string()));
    assert!(svc.chat_target("qwen").is_err());
    let reply = assistant_reply("hi".to_string(), Some(TokenUsage { input_tokens: 3, output_tokens: 4 }));
    let r = svc.finish_chat("qwen", Ok(reply));
    assert_eq!(r.unwrap().message.role, "assistant");
    assert_eq!(svc.usage_tracker().totals(), (3, 4));
    assert_eq!(svc.usage_tracker().history()[0].model, "");
    let r = svc.finish_chat("qwen", Ok(assistant_reply("x".to_string(), None)));
    assert!(r.is_ok());
    assert_eq!(svc.usage_tracker().history().len(), 1);
    assert_eq!(svc.usage_tracker().history()[0].provider_id, "qwen");
    let failed = svc.finish_chat("qwen", Err(ProviderError {
        provider_id: ProviderId("qwen".to_string()),
        message: "down".to_string(),
    }));
    assert_eq!(failed.unwrap_err().message, "down");
    assert_eq!(svc.usage_tracker().totals(), (3, 4));
    assert_eq!(svc.usage_tracker().history().len(), 1);
}

#[test]
fn initialize_marks_only_that_provider() {
    let mut svc: ProviderService<BuiltinProvider> = ProviderService::new();
    svc.register("ollama", BuiltinProvider::Ollama(OllamaProvider::new()));
    svc.register("qwen", BuiltinProvider::Qwen(QwenProvider::new()));
    assert!(svc.initialize("ollama", settings(&[])).is_ok());
    assert!(svc.is_initialized("ollama"));
    assert!(!svc.is_initialized("qwen"));
    let err = svc.initialize("nope", settings(&[])).unwrap_err();
    assert_eq!(err.message, "Provider 'nope' is not registered");
}
