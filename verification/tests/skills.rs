use superide::agent::skills::{matches_lowered, Skill, SkillCategory, SkillRegistry};

#[test]
fn test_builtin_skills_registered() {
    let registry = SkillRegistry::new();
    assert!(registry.all().len() >= 7);
}

#[test]
fn test_get_skill_by_id() {
    let registry = SkillRegistry::new();
    let skill = registry.get("rust-dev");
    assert!(skill.is_some());
    assert_eq!(skill.unwrap().name, "Rust Development");
}

#[test]
fn test_search_skills() {
    let registry = SkillRegistry::new();
    let results = registry.search("rust");
    assert!(!results.is_empty());
    assert!(results.iter().any(|s| s.id == "rust-dev"));
}

#[test]
fn test_by_category() {
    let registry = SkillRegistry::new();
    let dev_skills = registry.by_category(&SkillCategory::Development);
    assert!(!dev_skills.is_empty());
}

#[test]
fn test_skill_has_tools() {
    let registry = SkillRegistry::new();
    let skill = registry.get("debug-rust").unwrap();
    assert!(!skill.tools_required.is_empty());
}

#[test]
fn search_ignores_case() {
    let registry = SkillRegistry::new();
    let lower = registry.search("rust");
    let upper = registry.search("RUST");
    assert_eq!(lower.len(), upper.len());
}

#[test]
fn unknown_skill_is_absent() {
    let registry = SkillRegistry::new();
    assert!(registry.get("no-such-skill").is_none());
}

#[test]
fn category_names() {
    assert_eq!(SkillCategory::Development.to_string(), "Development");
}

#[test]
fn lowered_fields_match_query() {
    let q: Vec<char> = "dev".chars().collect();
    assert!(matches_lowered("rust development", "", "rust-dev", &q));
    assert!(!matches_lowered("research", "web", "research", &q));
}

fn custom_skill(id: &str, name: &str) -> Skill {
    Skill {
        id: id.to_string(),
        name: name.to_string(),
        description: "custom".to_string(),
        category: SkillCategory::Custom("mine".to_string()),
        instructions: vec![],
        tools_required: vec![],
    }
}

#[test]
fn earlier_skill_shadows_a_later_one_with_its_id() {
    let mut registry = SkillRegistry::new();
    let n = registry.all().len();
    registry.register(custom_skill("rust-dev", "Another Rust"));
    assert_eq!(registry.all().len(), n + 1);
    assert_eq!(registry.all()[n].name, "Another Rust");
    assert_eq!(registry.get("rust-dev").unwrap().name, "Rust Development");

    registry.register(custom_skill("brand-new", "New"));
    registry.register(custom_skill("brand-new", "Newer"));
    assert_eq!(registry.get("brand-new").unwrap().name, "New");
}
