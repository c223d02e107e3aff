//! The models offered for each provider, for completion and display.

use vstd::prelude::*;

verus! {

/// A known model and what it supports.
#[derive(Debug, Clone, Copy)]
pub struct ModelInfo {
    pub id: &'static str,
    pub display_name: &'static str,
    pub provider: &'static str,
    pub supports_tools: bool,
    pub supports_streaming: bool,
}

/// A model as characters.
pub ghost struct ModelView {
    pub id: Seq<char>,
    pub display_name: Seq<char>,
    pub provider: Seq<char>,
    pub supports_tools: bool,
    pub supports_streaming: bool,
}

impl View for ModelInfo {
    type V = ModelView;

    open spec fn view(&self) -> ModelView {
        ModelView {
            id: self.id@,
            display_name: self.display_name@,
            provider: self.provider@,
            supports_tools: self.supports_tools,
            supports_streaming: self.supports_streaming,
        }
    }
}

/// A model entry.
pub open spec fn model(id: Seq<char>, display_name: Seq<char>, provider: Seq<char>, tools: bool) -> ModelView {
    ModelView { id, display_name, provider, supports_tools: tools, supports_streaming: true }
}

/// The known models, grouped by provider.
pub open spec fn known_models_spec() -> Seq<ModelView> {
    seq![
        model("gpt-4o"@, "GPT-4o"@, "openai"@, true),
        model("gpt-4o-mini"@, "GPT-4o Mini"@, "openai"@, true),
        model("gpt-4-turbo"@, "GPT-4 Turbo"@, "openai"@, true),
        model("openai/gpt-4o"@, "OpenRouter GPT-4o"@, "openrouter"@, true),
        model("google/gemini-2.0-flash-001"@, "Gemini 2.0 Flash"@, "openrouter"@, true),
        model("meta-llama/llama-3.3-70b-instruct"@, "Llama 3.3 70B"@, "openrouter"@, true),
        model("llama3.2"@, "Llama 3.2 (local)"@, "ollama"@, false),
        model("qwen2.5"@, "Qwen 2.5 (local)"@, "ollama"@, false),
        model("deepseek-r1"@, "DeepSeek R1 (local)"@, "ollama"@, false),
        model("mistral"@, "Mistral (local)"@, "ollama"@, false),
        model("deepseek-chat"@, "DeepSeek Chat"@, "deepseek"@, true),
        model("deepseek-reasoner"@, "DeepSeek Reasoner"@, "deepseek"@, false),
        model("qwen-max"@, "Qwen Max"@, "qwen"@, true),
        model("qwen-plus"@, "Qwen Plus"@, "qwen"@, true),
        model("grok-3"@, "Grok 3"@, "grok"@, true),
    ]
}

/// A model entry that streams.
fn entry(id: &'static str, display_name: &'static str, provider: &'static str, tools: bool) -> (r: ModelInfo)
    ensures
        r@ == model(id@, display_name@, provider@, tools),
{
    ModelInfo { id, display_name, provider, supports_tools: tools, supports_streaming: true }
}

/// The known models (see `known_models_spec`).
pub fn known_models() -> (r: Vec<ModelInfo>)
    ensures
        r@.map_values(|m: ModelInfo| m@) == known_models_spec(),
{
    let v: Vec<ModelInfo> = vec![
        entry("gpt-4o", "GPT-4o", "openai", true),
        entry("gpt-4o-mini", "GPT-4o Mini", "openai", true),
        entry("gpt-4-turbo", "GPT-4 Turbo", "openai", true),
        entry("openai/gpt-4o", "OpenRouter GPT-4o", "openrouter", true),
        entry("google/gemini-2.0-flash-001", "Gemini 2.0 Flash", "openrouter", true),
        entry("meta-llama/llama-3.3-70b-instruct", "Llama 3.3 70B", "openrouter", true),
        entry("llama3.2", "Llama 3.2 (local)", "ollama", false),
        entry("qwen2.5", "Qwen 2.5 (local)", "ollama", false),
        entry("deepseek-r1", "DeepSeek R1 (local)", "ollama", false),
        entry("mistral", "Mistral (local)", "ollama", false),
        entry("deepseek-chat", "DeepSeek Chat", "deepseek", true),
        entry("deepseek-reasoner", "DeepSeek Reasoner", "deepseek", false),
        entry("qwen-max", "Qwen Max", "qwen", true),
        entry("qwen-plus", "Qwen Plus", "qwen", true),
        entry("grok-3", "Grok 3", "grok", true),
    ];
    assert(v@.map_values(|m: ModelInfo| m@) =~= known_models_spec());
    v
}

/// Do the ids of `ms[i]` for `i < n` differ from one another?
pub open spec fn ids_distinct_upto(ms: Seq<ModelView>, n: nat) -> bool
    decreases n,
{
    n == 0 || (ids_distinct_upto(ms, (n - 1) as nat) && forall|j: int| 0 <= j < n - 1 ==> #[trigger] ms[j].id != ms[n - 1].id)
}

/// Distinct ids up to `n` means that any two of the first `n` differ.
proof fn lemma_distinct_upto_pairwise(ms: Seq<ModelView>, n: nat)
    requires
        ids_distinct_upto(ms, n),
    ensures
        forall|i: int, j: int| 0 <= i < j < n ==> #[trigger] ms[i].id != #[trigger] ms[j].id,
    decreases n,
{
    if n > 0 {
        lemma_distinct_upto_pairwise(ms, (n - 1) as nat);
        assert forall|i: int, j: int| 0 <= i < j < n implies #[trigger] ms[i].id != #[trigger] ms[j].id by {
            if j == n - 1 {
                assert(ms[i].id != ms[n - 1].id);
            }
        }
    }
}

/// No two known models share an id.
pub proof fn lemma_model_ids_unique()
    ensures
        forall|i: int, j: int|
            0 <= i < j < known_models_spec().len() ==> #[trigger] known_models_spec()[i].id
                != #[trigger] known_models_spec()[j].id,
{
    let ms = known_models_spec();
    assert(ids_distinct_upto(ms, 0));
    reveal_strlit("gpt-4o");
    assert(ms[0].id == "gpt-4o"@);
    assert(ids_distinct_upto(ms, 1));
    reveal_strlit("gpt-4o-mini");
    assert(ms[1].id == "gpt-4o-mini"@);
    assert(ids_distinct_upto(ms, 2));
    reveal_strlit("gpt-4-turbo");
    assert(ms[2].id == "gpt-4-turbo"@);
    assert(ms[1].id[5] != ms[2].id[5]);
    assert(ids_distinct_upto(ms, 3));
    reveal_strlit("openai/gpt-4o");
    assert(ms[3].id == "openai/gpt-4o"@);
    assert(ids_distinct_upto(ms, 4));
    reveal_strlit("google/gemini-2.0-flash-001");
    assert(ms[4].id == "google/gemini-2.0-flash-001"@);
    assert(ids_distinct_upto(ms, 5));
    reveal_strlit("meta-llama/llama-3.3-70b-instruct");
    assert(ms[5].id == "meta-llama/llama-3.3-70b-instruct"@);
    assert(ids_distinct_upto(ms, 6));
    reveal_strlit("llama3.2");
    assert(ms[6].id == "llama3.2"@);
    assert(ids_distinct_upto(ms, 7));
    reveal_strlit("qwen2.5");
    assert(ms[7].id == "qwen2.5"@);
    assert(ids_distinct_upto(ms, 8));
    reveal_strlit("deepseek-r1");
    assert(ms[8].id == "deepseek-r1"@);
    assert(ms[1].id[0] != ms[8].id[0]);
    assert(ms[2].id[0] != ms[8].id[0]);
    assert(ids_distinct_upto(ms, 9));
    reveal_strlit("mistral");
    assert(ms[9].id == "mistral"@);
    assert(ms[7].id[0] != ms[9].id[0]);
    assert(ids_distinct_upto(ms, 10));
    reveal_strlit("deepseek-chat");
    assert(ms[10].id == "deepseek-chat"@);
    assert(ms[3].id[0] != ms[10].id[0]);
    assert(ids_distinct_upto(ms, 11));
    reveal_strlit("deepseek-reasoner");
    assert(ms[11].id == "deepseek-reasoner"@);
    assert(ids_distinct_upto(ms, 12));
    reveal_strlit("qwen-max");
    assert(ms[12].id == "qwen-max"@);
    assert(ms[6].id[0] != ms[12].id[0]);
    assert(ids_distinct_upto(ms, 13));
    reveal_strlit("qwen-plus");
    assert(ms[13].id == "qwen-plus"@);
    assert(ids_distinct_upto(ms, 14));
    reveal_strlit("grok-3");
    assert(ms[14].id == "grok-3"@);
    assert(ms[0].id[1] != ms[14].id[1]);
    assert(ids_distinct_upto(ms, 15));
    lemma_distinct_upto_pairwise(ms, 15);
}

} // verus!
