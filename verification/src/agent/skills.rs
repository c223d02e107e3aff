//! Skills: reusable capability templates for the agent. A skill bundles
//! instructions and the tools it needs so that the agent performs a complex
//! task consistently.

use vstd::prelude::*;
use crate::text::{chars_of, contains_exec, contains_seq, push_str, to_owned_string};

verus! {

/// The area a skill belongs to.
#[derive(Debug, Clone, PartialEq, Eq)]
pub enum SkillCategory {
    Development,
    Research,
    Debugging,
    CodeReview,
    Refactoring,
    Documentation,
    DevOps,
    Custom(String),
}

/// A skill category with a custom name as characters.
pub ghost enum SkillCategoryView {
    Development,
    Research,
    Debugging,
    CodeReview,
    Refactoring,
    Documentation,
    DevOps,
    Custom(Seq<char>),
}

impl View for SkillCategory {
    type V = SkillCategoryView;

    open spec fn view(&self) -> SkillCategoryView {
        match self {
            SkillCategory::Development => SkillCategoryView::Development,
            SkillCategory::Research => SkillCategoryView::Research,
            SkillCategory::Debugging => SkillCategoryView::Debugging,
            SkillCategory::CodeReview => SkillCategoryView::CodeReview,
            SkillCategory::Refactoring => SkillCategoryView::Refactoring,
            SkillCategory::Documentation => SkillCategoryView::Documentation,
            SkillCategory::DevOps => SkillCategoryView::DevOps,
            SkillCategory::Custom(s) => SkillCategoryView::Custom(s@),
        }
    }
}

/// The name a category is displayed under.
pub open spec fn category_name(c: SkillCategoryView) -> Seq<char> {
    match c {
        SkillCategoryView::Development => "Development"@,
        SkillCategoryView::Research => "Research"@,
        SkillCategoryView::Debugging => "Debugging"@,
        SkillCategoryView::CodeReview => "Code Review"@,
        SkillCategoryView::Refactoring => "Refactoring"@,
        SkillCategoryView::Documentation => "Documentation"@,
        SkillCategoryView::DevOps => "DevOps"@,
        SkillCategoryView::Custom(s) => s,
    }
}

impl SkillCategory {
    /// The name the category is displayed under.
    pub fn to_string(&self) -> (r: String)
        ensures
            r@ == category_name(self@),
    {
        match self {
            SkillCategory::Development => to_owned_string("Development"),
            SkillCategory::Research => to_owned_string("Research"),
            SkillCategory::Debugging => to_owned_string("Debugging"),
            SkillCategory::CodeReview => to_owned_string("Code Review"),
            SkillCategory::Refactoring => to_owned_string("Refactoring"),
            SkillCategory::Documentation => to_owned_string("Documentation"),
            SkillCategory::DevOps => to_owned_string("DevOps"),
            SkillCategory::Custom(s) => s.clone(),
        }
    }

    /// Compares two categories by variant and custom name.
    pub fn equals(&self, other: &SkillCategory) -> (b: bool)
        ensures
            b == (self@ == other@),
    {
        match (self, other) {
            (SkillCategory::Development, SkillCategory::Development) => true,
            (SkillCategory::Research, SkillCategory::Research) => true,
            (SkillCategory::Debugging, SkillCategory::Debugging) => true,
            (SkillCategory::CodeReview, SkillCategory::CodeReview) => true,
            (SkillCategory::Refactoring, SkillCategory::Refactoring) => true,
            (SkillCategory::Documentation, SkillCategory::Documentation) => true,
            (SkillCategory::DevOps, SkillCategory::DevOps) => true,
            (SkillCategory::Custom(a), SkillCategory::Custom(b)) => *a == *b,
            _ => false,
        }
    }
}

/// A reusable capability template for the agent.
#[derive(Debug, Clone)]
pub struct Skill {
    pub id: String,
    pub name: String,
    pub description: String,
    pub category: SkillCategory,
    pub instructions: Vec<String>,
    pub tools_required: Vec<String>,
}

/// A skill as characters.
pub ghost struct SkillView {
    pub id: Seq<char>,
    pub name: Seq<char>,
    pub description: Seq<char>,
    pub category: SkillCategoryView,
    pub instructions: Seq<Seq<char>>,
    pub tools_required: Seq<Seq<char>>,
}

impl View for Skill {
    type V = SkillView;

    open spec fn view(&self) -> SkillView {
        SkillView {
            id: self.id@,
            name: self.name@,
            description: self.description@,
            category: self.category@,
            instructions: self.instructions@.map_values(|s: String| s@),
            tools_required: self.tools_required@.map_values(|s: String| s@),
        }
    }
}

/// The skills every registry starts with, in order.
pub open spec fn builtin_skills_spec() -> Seq<SkillView> {
    seq![
        SkillView {
            id: "rust-dev"@,
            name: "Rust Development"@,
            description: "Expert Rust development: build, test, clippy, and dependency management"@,
            category: SkillCategoryView::Development,
            instructions: seq![
                "Use `cargo check` for fast compilation checks before full builds"@,
                "Run `cargo clippy` to catch common mistakes and improve code quality"@,
                "Use `cargo test` to run unit tests; add `-- --nocapture` to see output"@,
                "Check `Cargo.toml` for dependency versions before adding new ones"@,
                "Prefer workspace-level commands from the workspace root"@,
            ],
            tools_required: seq!["run_terminal"@, "read_file"@, "write_file"@],
        },
        SkillView {
            id: "git-workflow"@,
            name: "Git Workflow"@,
            description: "Git operations: status, diff, commit, branch management, and history"@,
            category: SkillCategoryView::Development,
            instructions: seq![
                "Always check `git status` and `git diff` before committing"@,
                "Write clear, concise commit messages summarizing the change"@,
                "Use `git log --oneline -10` to review recent history"@,
                "Prefer small, focused commits over large ones"@,
                "Stash uncommitted changes before switching branches"@,
            ],
            tools_required: seq!["run_terminal"@],
        },
        SkillView {
            id: "web-research"@,
            name: "Web Research"@,
            description: "Search the web for documentation, solutions, and current information"@,
            category: SkillCategoryView::Research,
            instructions: seq![
                "Use specific, targeted search queries for best results"@,
                "Cross-reference information from multiple sources"@,
                "Prefer official documentation and well-known resources"@,
                "Check the date of information for current relevance"@,
            ],
            tools_required: seq!["web_search"@],
        },
        SkillView {
            id: "debug-rust"@,
            name: "Debug Rust Errors"@,
            description: "Systematic approach to debugging Rust compilation and runtime errors"@,
            category: SkillCategoryView::Debugging,
            instructions: seq![
                "First reproduce the error with `cargo check` or `cargo build`"@,
                "Read the full compiler error message — it often contains the solution"@,
                "Check for missing imports, type mismatches, and borrow checker issues"@,
                "Use `cargo clippy` for additional diagnostic information"@,
                "For panics, look at the backtrace to identify the source location"@,
            ],
            tools_required: seq!["run_terminal"@, "read_file"@, "web_search"@],
        },
        SkillView {
            id: "code-review"@,
            name: "Code Review"@,
            description: "Review code for correctness, performance, style, and security issues"@,
            category: SkillCategoryView::CodeReview,
            instructions: seq![
                "Check for correct error handling — unwrap() usage should be justified"@,
                "Look for performance issues: unnecessary allocations, O(n²) patterns"@,
                "Verify that public APIs have documentation comments"@,
                "Check for unsafe code blocks and verify their safety invariants"@,
                "Ensure tests cover edge cases, not just the happy path"@,
            ],
            tools_required: seq!["read_file"@, "search_workspace"@],
        },
        SkillView {
            id: "refactor"@,
            name: "Code Refactoring"@,
            description: "Safely restructure code while maintaining correctness"@,
            category: SkillCategoryView::Refactoring,
            instructions: seq![
                "Understand the full codebase structure before refactoring"@,
                "Make one logical change at a time to minimize risk"@,
                "Run tests after each significant change to catch regressions early"@,
                "Keep the public API stable unless explicitly asked to change it"@,
                "Update documentation to reflect refactored code"@,
            ],
            tools_required: seq!["read_file"@, "write_file"@, "edit_file"@, "run_terminal"@],
        },
        SkillView {
            id: "create-doc"@,
            name: "Documentation Writing"@,
            description: "Write clear, comprehensive documentation for Rust projects"@,
            category: SkillCategoryView::Documentation,
            instructions: seq![
                "Use `///` for public API documentation with examples"@,
                "Include a `# Examples` section for each public function"@,
                "Document panics, errors, and safety invariants explicitly"@,
                "Keep README.md up to date with project structure and usage"@,
                "Run `cargo doc --no-deps` to verify documentation builds"@,
            ],
            tools_required: seq!["read_file"@, "write_file"@],
        },
        SkillView {
            id: "devops-docker"@,
            name: "DevOps & Docker"@,
            description: "Docker container management, Dockerfile creation, and deployment"@,
            category: SkillCategoryView::DevOps,
            instructions: seq![
                "Use multi-stage builds for smaller Docker images"@,
                "Pin base image versions for reproducible builds"@,
                "Keep `.dockerignore` updated to exclude unnecessary files"@,
                "Use `docker compose` for multi-service applications"@,
                "Scan images for vulnerabilities before deployment"@,
            ],
            tools_required: seq!["run_terminal"@, "read_file"@, "write_file"@],
        },
    ]
}

/// The strings of a slice of string slices, as owned strings.
fn to_strings(v: &[&str]) -> (r: Vec<String>)
    ensures
        r@.map_values(|s: String| s@) == v@.map_values(|s: &str| s@),
{
    let mut r: Vec<String> = Vec::new();
    let mut i: usize = 0;
    while i < v.len()
        invariant
            i <= v@.len(),
            r@.map_values(|s: String| s@) == v@.take(i as int).map_values(|s: &str| s@),
        decreases v.len() - i,
    {
        let ghost prev = r@;
        let t = to_owned_string(v[i]);
        r.push(t);
        assert(r@.map_values(|s: String| s@) =~= prev.map_values(|s: String| s@).push(t@));
        assert(v@.take(i + 1).map_values(|s: &str| s@) =~= v@.take(i as int).map_values(
            |s: &str| s@,
        ).push(v@[i as int]@));
        i = i + 1;
    }
    assert(v@.take(v@.len() as int) =~= v@);
    r
}

/// A skill built from its parts.
fn make_skill(
    id: &str,
    name: &str,
    description: &str,
    category: SkillCategory,
    instructions: &[&str],
    tools_required: &[&str],
) -> (r: Skill)
    ensures
        r@ == (SkillView {
            id: id@,
            name: name@,
            description: description@,
            category: category@,
            instructions: instructions@.map_values(|s: &str| s@),
            tools_required: tools_required@.map_values(|s: &str| s@),
        }),
{
    Skill {
        id: to_owned_string(id),
        name: to_owned_string(name),
        description: to_owned_string(description),
        category,
        instructions: to_strings(instructions),
        tools_required: to_strings(tools_required),
    }
}

/// Does `q` (already lower-cased) occur in the lower-cased name,
/// description or id of `s`?
pub open spec fn skill_matches(s: SkillView, q: Seq<char>) -> bool {
    contains_seq(lowercase_spec(s.name), q) || contains_seq(lowercase_spec(s.description), q)
        || contains_seq(lowercase_spec(s.id), q)
}

/// The lower-case form of a string as `str::to_lowercase` computes it
/// (Unicode's Lowercase mapping).
pub uninterp spec fn lowercase_spec(s: Seq<char>) -> Seq<char>;

/// `str::to_lowercase`.
#[verifier::external_body]
fn to_lowercase(s: &str) -> (r: String)
    ensures
        r@ == lowercase_spec(s@),
{
    s.to_lowercase()
}

/// Does the lower-cased query `q` occur in the lower-cased name,
/// description or id of a skill?
pub fn matches_lowered(name: &str, description: &str, id: &str, q: &Vec<char>) -> (b: bool)
    ensures
        b == (contains_seq(name@, q@) || contains_seq(description@, q@) || contains_seq(id@, q@)),
{
    contains_exec(&chars_of(name), q) || contains_exec(&chars_of(description), q) || contains_exec(
        &chars_of(id),
        q,
    )
}

/// The first skill in `skills` with id `id`, if any.
pub open spec fn first_skill(skills: Seq<SkillView>, id: Seq<char>) -> Option<SkillView>
    decreases skills.len(),
{
    if skills.len() == 0 {
        None
    } else if skills[0].id == id {
        Some(skills[0])
    } else {
        first_skill(skills.drop_first(), id)
    }
}

/// `first_skill` is the skill at the first position with the id.
proof fn lemma_first_skill_found(skills: Seq<SkillView>, id: Seq<char>, k: int)
    requires
        0 <= k < skills.len(),
        skills[k].id == id,
        forall|j: int| 0 <= j < k ==> skills[j].id != id,
    ensures
        first_skill(skills, id) == Some(skills[k]),
    decreases skills.len(),
{
    if k > 0 {
        let rest = skills.drop_first();
        assert(skills[0].id != id);
        assert(rest[k - 1] == skills[k]);
        assert forall|j: int| 0 <= j < k - 1 implies rest[j].id != id by {
            assert(rest[j] == skills[j + 1]);
        }
        lemma_first_skill_found(rest, id, k - 1);
    }
}

/// `first_skill` is none when no skill has the id.
proof fn lemma_first_skill_none(skills: Seq<SkillView>, id: Seq<char>)
    requires
        forall|j: int| 0 <= j < skills.len() ==> skills[j].id != id,
    ensures
        first_skill(skills, id) is None,
    decreases skills.len(),
{
    if skills.len() > 0 {
        let rest = skills.drop_first();
        assert(skills[0].id != id);
        assert forall|j: int| 0 <= j < rest.len() implies rest[j].id != id by {
            assert(rest[j] == skills[j + 1]);
        }
        lemma_first_skill_none(rest, id);
    }
}

/// The registry of skills the agent can use.
pub struct SkillRegistry {
    skills: Vec<Skill>,
}

impl View for SkillRegistry {
    type V = Seq<SkillView>;

    closed spec fn view(&self) -> Seq<SkillView> {
        self.skills@.map_values(|s: Skill| s@)
    }
}

impl Default for SkillRegistry {
    /// A registry holding the built-in skills.
    fn default() -> (r: Self)
        ensures
            r@ == builtin_skills_spec(),
    {
        SkillRegistry::new()
    }
}

impl SkillRegistry {
    /// A registry holding the built-in skills.
    pub fn new() -> (r: Self)
        ensures
            r@ == builtin_skills_spec(),
    {
        let mut registry = SkillRegistry { skills: Vec::new() };
        registry.register_builtins();
        assert(registry@ =~= builtin_skills_spec());
        registry
    }

    /// Adds a skill at the end.
    pub fn register(&mut self, skill: Skill)
        ensures
            final(self)@ == old(self)@.push(skill@),
    {
        let ghost sv = skill@;
        self.skills.push(skill);
        assert(self@ =~= old(self)@.push(sv));
    }

    /// The first skill with id `id`.
    pub fn get(&self, id: &str) -> (r: Option<&Skill>)
        ensures
            match r {
                Some(s) => exists|k: int|
                    0 <= k < self@.len() && self@[k] == s@ && s@.id == id@ && forall|j: int|
                        0 <= j < k ==> self@[j].id != id@,
                None => forall|j: int| 0 <= j < self@.len() ==> self@[j].id != id@,
            },
            match r {
                Some(s) => Some(s@),
                None => None,
            } == first_skill(self@, id@),
    {
        let key = to_owned_string(id);
        let mut i: usize = 0;
        while i < self.skills.len()
            invariant
                i <= self@.len(),
                self@.len() == self.skills@.len(),
                key@ == id@,
                forall|j: int| 0 <= j < i ==> self@[j].id != id@,
            decreases self.skills.len() - i,
        {
            if self.skills[i].id == key {
                assert(self@[i as int] == self.skills@[i as int]@);
                proof {
                    lemma_first_skill_found(self@, id@, i as int);
                }
                return Some(&self.skills[i]);
            }
            assert(self@[i as int] == self.skills@[i as int]@);
            i = i + 1;
        }
        proof {
            lemma_first_skill_none(self@, id@);
        }
        None
    }

    /// All skills, in registration order.
    pub fn all(&self) -> (r: &[Skill])
        ensures
            r@.map_values(|s: Skill| s@) == self@,
    {
        self.skills.as_slice()
    }

    /// The skills of a category, in registration order.
    pub fn by_category(&self, category: &SkillCategory) -> (r: Vec<&Skill>)
        ensures
            r@.map_values(|s: &Skill| s@) == self@.filter(
                |s: SkillView| s.category == category@,
            ),
    {
        let ghost pred = |s: SkillView| s.category == category@;
        let mut out: Vec<&Skill> = Vec::new();
        let mut i: usize = 0;
        while i < self.skills.len()
            invariant
                i <= self@.len(),
                self@.len() == self.skills@.len(),
                pred == (|s: SkillView| s.category == category@),
                out@.map_values(|s: &Skill| s@) == self@.take(i as int).filter(pred),
            decreases self.skills.len() - i,
        {
            let ghost prev = out@;
            let s = &self.skills[i];
            proof {
                assert(self@[i as int] == s@);
                lemma_filter_take_step(self@, pred, i as int);
            }
            if s.category.equals(category) {
                out.push(s);
                assert(out@.map_values(|s: &Skill| s@) =~= prev.map_values(|s: &Skill| s@).push(
                    s@,
                ));
            }
            i = i + 1;
        }
        assert(self@.take(i as int) =~= self@);
        out
    }

    /// The skills whose name, description or id contains `query`, all
    /// compared in lower case; in registration order.
    pub fn search(&self, query: &str) -> (r: Vec<&Skill>)
        ensures
            r@.map_values(|s: &Skill| s@) == self@.filter(
                |s: SkillView| skill_matches(s, lowercase_spec(query@)),
            ),
    {
        let q = chars_of(to_lowercase(query).as_str());
        let ghost pred = |s: SkillView| skill_matches(s, lowercase_spec(query@));
        let mut out: Vec<&Skill> = Vec::new();
        let mut i: usize = 0;
        while i < self.skills.len()
            invariant
                i <= self@.len(),
                self@.len() == self.skills@.len(),
                q@ == lowercase_spec(query@),
                pred == (|s: SkillView| skill_matches(s, lowercase_spec(query@))),
                out@.map_values(|s: &Skill| s@) == self@.take(i as int).filter(pred),
            decreases self.skills.len() - i,
        {
            let ghost prev = out@;
            let s = &self.skills[i];
            proof {
                assert(self@[i as int] == s@);
                lemma_filter_take_step(self@, pred, i as int);
            }
            let hit = matches_lowered(
                to_lowercase(s.name.as_str()).as_str(),
                to_lowercase(s.description.as_str()).as_str(),
                to_lowercase(s.id.as_str()).as_str(),
                &q,
            );
            if hit {
                out.push(s);
                assert(out@.map_values(|s: &Skill| s@) =~= prev.map_values(|s: &Skill| s@).push(
                    s@,
                ));
            }
            i = i + 1;
        }
        assert(self@.take(i as int) =~= self@);
        out
    }

    /// Adds the built-in skills.
    fn register_builtins(&mut self)
        ensures
            final(self)@ == old(self)@ + builtin_skills_spec(),
    {
        let ins: &[&str] = &[
            "Use `cargo check` for fast compilation checks before full builds",
            "Run `cargo clippy` to catch common mistakes and improve code quality",
            "Use `cargo test` to run unit tests; add `-- --nocapture` to see output",
            "Check `Cargo.toml` for dependency versions before adding new ones",
            "Prefer workspace-level commands from the workspace root",
        ];
        let tools: &[&str] = &["run_terminal", "read_file", "write_file"];
        assert(ins@.map_values(|s: &str| s@) =~= builtin_skills_spec()[0].instructions);
        assert(tools@.map_values(|s: &str| s@) =~= builtin_skills_spec()[0].tools_required);
        self.register(
            make_skill(
                "rust-dev",
                "Rust Development",
                "Expert Rust development: build, test, clippy, and dependency management",
                SkillCategory::Development,
                ins,
                tools,
            ),
        );
        assert(self@ =~= old(self)@ + builtin_skills_spec().take(1));
        let ins: &[&str] = &[
            "Always check `git status` and `git diff` before committing",
            "Write clear, concise commit messages summarizing the change",
            "Use `git log --oneline -10` to review recent history",
            "Prefer small, focused commits over large ones",
            "Stash uncommitted changes before switching branches",
        ];
        let tools: &[&str] = &["run_terminal"];
        assert(ins@.map_values(|s: &str| s@) =~= builtin_skills_spec()[1].instructions);
        assert(tools@.map_values(|s: &str| s@) =~= builtin_skills_spec()[1].tools_required);
        self.register(
            make_skill(
                "git-workflow",
                "Git Workflow",
                "Git operations: status, diff, commit, branch management, and history",
                SkillCategory::Development,
                ins,
                tools,
            ),
        );
        assert(self@ =~= old(self)@ + builtin_skills_spec().take(2));
        let ins: &[&str] = &[
            "Use specific, targeted search queries for best results",
            "Cross-reference information from multiple sources",
            "Prefer official documentation and well-known resources",
            "Check the date of information for current relevance",
        ];
        let tools: &[&str] = &["web_search"];
        assert(ins@.map_values(|s: &str| s@) =~= builtin_skills_spec()[2].instructions);
        assert(tools@.map_values(|s: &str| s@) =~= builtin_skills_spec()[2].tools_required);
        self.register(
            make_skill(
                "web-research",
                "Web Research",
                "Search the web for documentation, solutions, and current information",
                SkillCategory::Research,
                ins,
                tools,
            ),
        );
        assert(self@ =~= old(self)@ + builtin_skills_spec().take(3));
        let ins: &[&str] = &[
            "First reproduce the error with `cargo check` or `cargo build`",
            "Read the full compiler error message — it often contains the solution",
            "Check for missing imports, type mismatches, and borrow checker issues",
            "Use `cargo clippy` for additional diagnostic information",
            "For panics, look at the backtrace to identify the source location",
        ];
        let tools: &[&str] = &["run_terminal", "read_file", "web_search"];
        assert(ins@.map_values(|s: &str| s@) =~= builtin_skills_spec()[3].instructions);
        assert(tools@.map_values(|s: &str| s@) =~= builtin_skills_spec()[3].tools_required);
        self.register(
            make_skill(
                "debug-rust",
                "Debug Rust Errors",
                "Systematic approach to debugging Rust compilation and runtime errors",
                SkillCategory::Debugging,
                ins,
                tools,
            ),
        );
        assert(self@ =~= old(self)@ + builtin_skills_spec().take(4));
        let ins: &[&str] = &[
            "Check for correct error handling — unwrap() usage should be justified",
            "Look for performance issues: unnecessary allocations, O(n²) patterns",
            "Verify that public APIs have documentation comments",
            "Check for unsafe code blocks and verify their safety invariants",
            "Ensure tests cover edge cases, not just the happy path",
        ];
        let tools: &[&str] = &["read_file", "search_workspace"];
        assert(ins@.map_values(|s: &str| s@) =~= builtin_skills_spec()[4].instructions);
        assert(tools@.map_values(|s: &str| s@) =~= builtin_skills_spec()[4].tools_required);
        self.register(
            make_skill(
                "code-review",
                "Code Review",
                "Review code for correctness, performance, style, and security issues",
                SkillCategory::CodeReview,
                ins,
                tools,
            ),
        );
        assert(self@ =~= old(self)@ + builtin_skills_spec().take(5));
        let ins: &[&str] = &[
            "Understand the full codebase structure before refactoring",
            "Make one logical change at a time to minimize risk",
            "Run tests after each significant change to catch regressions early",
            "Keep the public API stable unless explicitly asked to change it",
            "Update documentation to reflect refactored code",
        ];
        let tools: &[&str] = &["read_file", "write_file", "edit_file", "run_terminal"];
        assert(ins@.map_values(|s: &str| s@) =~= builtin_skills_spec()[5].instructions);
        assert(tools@.map_values(|s: &str| s@) =~= builtin_skills_spec()[5].tools_required);
        self.register(
            make_skill(
                "refactor",
                "Code Refactoring",
                "Safely restructure code while maintaining correctness",
                SkillCategory::Refactoring,
                ins,
                tools,
            ),
        );
        assert(self@ =~= old(self)@ + builtin_skills_spec().take(6));
        let ins: &[&str] = &[
            "Use `///` for public API documentation with examples",
            "Include a `# Examples` section for each public function",
            "Document panics, errors, and safety invariants explicitly",
            "Keep README.md up to date with project structure and usage",
            "Run `cargo doc --no-deps` to verify documentation builds",
        ];
        let tools: &[&str] = &["read_file", "write_file"];
        assert(ins@.map_values(|s: &str| s@) =~= builtin_skills_spec()[6].instructions);
        assert(tools@.map_values(|s: &str| s@) =~= builtin_skills_spec()[6].tools_required);
        self.register(
            make_skill(
                "create-doc",
                "Documentation Writing",
                "Write clear, comprehensive documentation for Rust projects",
                SkillCategory::Documentation,
                ins,
                tools,
            ),
        );
        assert(self@ =~= old(self)@ + builtin_skills_spec().take(7));
        let ins: &[&str] = &[
            "Use multi-stage builds for smaller Docker images",
            "Pin base image versions for reproducible builds",
            "Keep `.dockerignore` updated to exclude unnecessary files",
            "Use `docker compose` for multi-service applications",
            "Scan images for vulnerabilities before deployment",
        ];
        let tools: &[&str] = &["run_terminal", "read_file", "write_file"];
        assert(ins@.map_values(|s: &str| s@) =~= builtin_skills_spec()[7].instructions);
        assert(tools@.map_values(|s: &str| s@) =~= builtin_skills_spec()[7].tools_required);
        self.register(
            make_skill(
                "devops-docker",
                "DevOps & Docker",
                "Docker container management, Dockerfile creation, and deployment",
                SkillCategory::DevOps,
                ins,
                tools,
            ),
        );
        assert(self@ =~= old(self)@ + builtin_skills_spec().take(8));
        assert(builtin_skills_spec().take(8) =~= builtin_skills_spec());
    }
}

/// Filtering one more element of a prefix.
proof fn lemma_filter_take_step(s: Seq<SkillView>, pred: spec_fn(SkillView) -> bool, i: int)
    requires
        0 <= i < s.len(),
    ensures
        s.take(i + 1).filter(pred) == if pred(s[i]) {
            s.take(i).filter(pred).push(s[i])
        } else {
            s.take(i).filter(pred)
        },
{
    reveal(Seq::filter);
    assert(s.take(i + 1).drop_last() =~= s.take(i));
}


/// Registering a skill appends it; afterwards the skill found under its id is
/// the first one registered with that id (an earlier skill with the same id
/// keeps shadowing the new one), and the skill found under any other id is
/// unchanged.
pub proof fn lemma_register_then_get(skills: Seq<SkillView>, skill: SkillView, id: Seq<char>)
    ensures
        first_skill(skills.push(skill), id) == (match first_skill(skills, id) {
            Some(s) => Some(s),
            None => if skill.id == id {
                Some(skill)
            } else {
                None
            },
        }),
    decreases skills.len(),
{
    let pushed = skills.push(skill);
    if skills.len() > 0 {
        assert(pushed[0] == skills[0]);
        assert(pushed.drop_first() =~= skills.drop_first().push(skill));
        lemma_register_then_get(skills.drop_first(), skill, id);
    } else {
        assert(pushed[0] == skill);
        assert(pushed.drop_first() =~= Seq::<SkillView>::empty());
        assert(first_skill(pushed.drop_first(), id) is None);
    }
}


/// A search finds exactly the registered skills whose name, description or
/// id, lower-cased, contains the lower-cased query: each one found (`found`,
/// what `search` returns) is such a skill, and each such skill is found.
pub proof fn lemma_search_finds_by_name_description_or_id(
    skills: Seq<SkillView>,
    query: Seq<char>,
    found: Seq<SkillView>,
)
    requires
        found == skills.filter(|s: SkillView| skill_matches(s, lowercase_spec(query))),
    ensures
        forall|i: int|
            0 <= i < skills.len() && (contains_seq(lowercase_spec((#[trigger] skills[i]).name), lowercase_spec(query))
                || contains_seq(lowercase_spec(skills[i].description), lowercase_spec(query))
                || contains_seq(lowercase_spec(skills[i].id), lowercase_spec(query))) ==> found.contains(skills[i]),
        forall|j: int|
            0 <= j < found.len() ==> contains_seq(lowercase_spec((#[trigger] found[j]).name), lowercase_spec(query))
                || contains_seq(lowercase_spec(found[j].description), lowercase_spec(query))
                || contains_seq(lowercase_spec(found[j].id), lowercase_spec(query)),
{
    let pred = |s: SkillView| skill_matches(s, lowercase_spec(query));
    skills.filter_lemma(pred);
}

} // verus!
