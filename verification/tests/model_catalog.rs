use superide::ai::model_catalog::{known_models, ModelInfo};

#[test]
fn test_known_models_not_empty() {
    assert!(!known_models().is_empty());
}

#[test]
fn test_models_have_unique_ids() {
    let models = known_models();
    let mut ids: Vec<&str> = models.iter().map(|m| m.id).collect();
    ids.sort();
    ids.dedup();
    assert_eq!(ids.len(), models.len());
}

#[test]
fn test_find_model_by_id() {
    let models = known_models();
    let model = models.iter().find(|m| m.id == "gpt-4o");
    assert!(model.is_some());
    assert_eq!(model.unwrap().provider, "openai");
}

#[test]
fn test_models_by_provider() {
    let models = known_models();
    let openai: Vec<&ModelInfo> = models.iter().filter(|m| m.provider == "openai").collect();
    assert!(openai.len() >= 3);
}

#[test]
fn local_models_have_no_tools() {
    let models = known_models();
    assert_eq!(models.len(), 15);
    for m in models.iter().filter(|m| m.provider == "ollama") {
        assert!(!m.supports_tools);
        assert!(m.supports_streaming);
    }
}
