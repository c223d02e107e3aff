//! The registry of AI providers: which are registered and initialized, which
//! one is active, and the tokens their chats have cost.

use vstd::prelude::*;
use crate::sdk::provider::{
    AiProvider, ChatResponse, ProviderCapabilities, ProviderError, ProviderId, ProviderSettings,
};
use crate::ai::token_usage::{
    TokenUsageTracker, UsageRecord, UsageView, lemma_record_adds, sum_input, sum_output,
};
use crate::agent::context_manager::opt_chars;
use crate::text::{push_str, to_owned_string};

verus! {

/// No id occurs twice.
pub open spec fn ids_unique(ids: Seq<Seq<char>>) -> bool {
    forall|i: int, j: int| 0 <= i < ids.len() && 0 <= j < ids.len() && i != j ==> ids[i] != ids[j]
}

/// Some provider is registered under `id`.
pub open spec fn has_provider(ids: Seq<Seq<char>>, id: Seq<char>) -> bool {
    exists|i: int| 0 <= i < ids.len() && ids[i] == id
}

/// The position of `id` (meaningful when it is registered).
pub open spec fn provider_index(ids: Seq<Seq<char>>, id: Seq<char>) -> int {
    choose|i: int| 0 <= i < ids.len() && ids[i] == id
}

/// The message of the error for an unregistered provider.
pub open spec fn not_registered(id: Seq<char>) -> Seq<char> {
    "Provider '"@ + id + "' is not registered"@
}

/// The registered providers: one entry per id.
struct ProviderTable<P: AiProvider> {
    ids: Vec<String>,
    providers: Vec<P>,
    initialized: Vec<bool>,
}

impl<P: AiProvider> ProviderTable<P> {
    /// Ids are unique and the three lists line up.
    #[verifier::type_invariant]
    closed spec fn wf(self) -> bool {
        &&& self.ids@.len() == self.providers@.len()
        &&& self.ids@.len() == self.initialized@.len()
        &&& ids_unique(self.ids@.map_values(|s: String| s@))
    }

    /// An empty table.
    fn empty() -> (r: Self)
        ensures
            r.ids@.len() == 0,
            r.providers@.len() == 0,
            r.initialized@.len() == 0,
    {
        ProviderTable { ids: Vec::new(), providers: Vec::new(), initialized: Vec::new() }
    }
}

/// The usage history `h` after a chat with provider `id` that came back
/// with `result`: a successful reply that reports its tokens adds a record
/// of them (with no model name); anything else leaves `h` as it was.
pub open spec fn usage_after_chat(
    h: Seq<UsageView>,
    id: Seq<char>,
    result: Result<ChatResponse, ProviderError>,
) -> Seq<UsageView> {
    match result {
        Ok(resp) => match resp.usage {
            Some(u) => h.push(
                UsageView {
                    provider_id: id,
                    model: Seq::empty(),
                    input_tokens: u.input_tokens,
                    output_tokens: u.output_tokens,
                },
            ),
            None => h,
        },
        Err(_) => h,
    }
}

/// A chat adds the tokens its reply reports to the totals, as one more
/// record under the provider's id; a failed chat, or a reply that reports
/// no tokens, leaves the history and the totals as they were.
pub proof fn lemma_chat_usage(h: Seq<UsageView>, id: Seq<char>, result: Result<ChatResponse, ProviderError>)
    ensures
        ({
            let after = usage_after_chat(h, id, result);
            match result {
                Ok(resp) => match resp.usage {
                    Some(u) => {
                        &&& sum_input(after) == sum_input(h) + u.input_tokens
                        &&& sum_output(after) == sum_output(h) + u.output_tokens
                        &&& after.len() == h.len() + 1
                        &&& after.subrange(0, h.len() as int) == h
                        &&& after[h.len() as int].provider_id == id
                    },
                    None => after == h,
                },
                Err(_) => after == h,
            }
        }),
{
    if let Ok(resp) = result {
        if let Some(u) = resp.usage {
            let r = UsageView {
                provider_id: id,
                model: Seq::empty(),
                input_tokens: u.input_tokens,
                output_tokens: u.output_tokens,
            };
            lemma_record_adds(h, r);
            assert(h.push(r).subrange(0, h.len() as int) =~= h);
        }
    }
}

/// The providers the editor can use, keyed by id.
pub struct ProviderService<P: AiProvider> {
    table: ProviderTable<P>,
    active_id: Option<String>,
    usage: TokenUsageTracker,
}

impl<P: AiProvider> ProviderService<P> {

    /// The registered ids, in the order they were first registered.
    pub closed spec fn ids_view(&self) -> Seq<Seq<char>> {
        self.table.ids@.map_values(|s: String| s@)
    }

    /// The providers, in the order of `ids_view`.
    pub closed spec fn providers_view(&self) -> Seq<P> {
        self.table.providers@
    }

    /// Whether each provider was initialized, in the order of `ids_view`.
    pub closed spec fn initialized_view(&self) -> Seq<bool> {
        self.table.initialized@
    }

    /// The active provider's id, if one was chosen.
    pub closed spec fn active_view(&self) -> Option<Seq<char>> {
        opt_chars(self.active_id)
    }

    /// The usage records of all chats.
    pub closed spec fn usage_view(&self) -> Seq<UsageView> {
        self.usage.history_view()
    }

    /// The ids, providers and initialization flags line up, one of each per
    /// registered provider.
    pub open spec fn lined_up(&self) -> bool {
        &&& self.providers_view().len() == self.ids_view().len()
        &&& self.initialized_view().len() == self.ids_view().len()
    }

    /// Is `id` registered and initialized?
    pub open spec fn initialized_spec(&self, id: Seq<char>) -> bool {
        has_provider(self.ids_view(), id) && self.initialized_view()[provider_index(
            self.ids_view(),
            id,
        )]
    }

    /// A service with no providers, none active and no usage.
    pub fn new() -> (r: Self)
        ensures
            r.ids_view() == Seq::<Seq<char>>::empty(),
            r.active_view() is None,
            r.usage_view() == Seq::<UsageView>::empty(),
            r.lined_up(),
    {
        let r = ProviderService {
            table: ProviderTable::empty(),
            active_id: None,
            usage: TokenUsageTracker::new(),
        };
        assert(r.ids_view() =~= Seq::<Seq<char>>::empty());
        r
    }

    /// The position of `id`, if registered.
    fn find(&self, id: &str) -> (r: Option<usize>)
        ensures
            r is Some <==> has_provider(self.ids_view(), id@),
            r matches Some(k) ==> k == provider_index(self.ids_view(), id@) && k < self.ids_view().len(),
    {
        proof {
            use_type_invariant(&self.table);
        }
        let ghost ids = self.ids_view();
        let mut i: usize = 0;
        while i < self.table.ids.len()
            invariant
                i <= self.table.ids@.len(),
                ids == self.table.ids@.map_values(|s: String| s@),
                ids_unique(ids),
                forall|j: int| 0 <= j < i ==> ids[j] != id@,
            decreases self.table.ids.len() - i,
        {
            if crate::text::str_eq(self.table.ids[i].as_str(), id) {
                proof {
                    assert(ids[i as int] == id@);
                    let c = provider_index(ids, id@);
                    assert(0 <= c < ids.len() && ids[c] == id@);
                    assert(c == i);
                }
                return Some(i);
            }
            i = i + 1;
        }
        None
    }

    /// Registers `provider` under `id`, not yet initialized. A provider
    /// already registered under `id` is replaced in place.
    pub fn register(&mut self, id: &str, provider: P)
        ensures
            has_provider(old(self).ids_view(), id@) ==> {
                let k = provider_index(old(self).ids_view(), id@);
                &&& final(self).ids_view() == old(self).ids_view()
                &&& final(self).providers_view() == old(self).providers_view().update(k, provider)
                &&& final(self).initialized_view() == old(self).initialized_view().update(k, false)
            },
            !has_provider(old(self).ids_view(), id@) ==> {
                &&& final(self).ids_view() == old(self).ids_view().push(id@)
                &&& final(self).providers_view() == old(self).providers_view().push(provider)
                &&& final(self).initialized_view() == old(self).initialized_view().push(false)
            },
            final(self).active_view() == old(self).active_view(),
            final(self).usage_view() == old(self).usage_view(),
            final(self).lined_up(),
    {
        proof {
            use_type_invariant(&self.table);
        }
        let found = self.find(id);
        let ghost old_ids = self.ids_view();
        let mut table = ProviderTable::empty();
        std::mem::swap(&mut table, &mut self.table);
        let ProviderTable { mut ids, mut providers, mut initialized } = table;
        match found {
            Some(k) => {
                providers.set(k, provider);
                initialized.set(k, false);
            },
            None => {
                let key = to_owned_string(id);
                ids.push(key);
                providers.push(provider);
                initialized.push(false);
                assert(ids@.map_values(|s: String| s@) =~= old_ids.push(id@));
            },
        }
        self.table = ProviderTable { ids, providers, initialized };
        proof {
            use_type_invariant(&self.table);
        }
    }

    /// The usage tracker of all chats.
    pub fn usage_tracker(&self) -> (r: &TokenUsageTracker)
        ensures
            r.history_view() == self.usage_view(),
    {
        &self.usage
    }

    /// The active provider's id.
    pub fn active_provider(&self) -> (r: Option<String>)
        ensures
            opt_chars(r) == self.active_view(),
    {
        match &self.active_id {
            Some(s) => Some(s.clone()),
            None => None,
        }
    }

    /// Makes `id` the active provider (registered or not).
    pub fn set_active(&mut self, id: &str)
        ensures
            final(self).active_view() == Some(id@),
            final(self).ids_view() == old(self).ids_view(),
            final(self).providers_view() == old(self).providers_view(),
            final(self).initialized_view() == old(self).initialized_view(),
            final(self).usage_view() == old(self).usage_view(),
    {
        self.active_id = Some(to_owned_string(id));
    }

    /// Is `id` registered and initialized?
    pub fn is_initialized(&self, id: &str) -> (r: bool)
        ensures
            r == self.initialized_spec(id@),
    {
        proof {
            use_type_invariant(&self.table);
        }
        match self.find(id) {
            Some(k) => self.table.initialized[k],
            None => false,
        }
    }

    /// The error for an unregistered provider `id`.
    fn not_registered_error(id: &str) -> (e: ProviderError)
        ensures
            e.provider_id.0@ == id@,
            e.message@ == not_registered(id@),
    {
        let mut message = to_owned_string("Provider '");
        push_str(&mut message, id);
        push_str(&mut message, "' is not registered");
        ProviderError { provider_id: ProviderId(to_owned_string(id)), message }
    }

    /// Initializes provider `id` with `settings`. An unregistered id is an
    /// error; otherwise the provider decides, and on success the provider
    /// counts as initialized.
    pub fn initialize(&mut self, id: &str, settings: ProviderSettings) -> (r: Result<(), ProviderError>)
        ensures
            !has_provider(old(self).ids_view(), id@) ==> (r matches Err(e) && e.provider_id.0@ == id@
                && e.message@ == not_registered(id@)),
            final(self).ids_view() == old(self).ids_view(),
            final(self).providers_view() == old(self).providers_view(),
            final(self).initialized_view() == (if r is Ok {
                old(self).initialized_view().update(provider_index(old(self).ids_view(), id@), true)
            } else {
                old(self).initialized_view()
            }),
            r is Ok <==> has_provider(old(self).ids_view(), id@) && old(self).providers_view()[provider_index(
                old(self).ids_view(),
                id@,
            )].accepts_settings(settings),
            has_provider(old(self).ids_view(), id@) ==> (r matches Err(e) ==> (e.provider_id.0@, e.message@)
                == old(self).providers_view()[provider_index(old(self).ids_view(), id@)].rejection(settings)),
            final(self).active_view() == old(self).active_view(),
            final(self).usage_view() == old(self).usage_view(),
            final(self).lined_up(),
            final(self).initialized_spec(id@) == (old(self).initialized_spec(id@) || r is Ok),
            forall|other: Seq<char>|
                other != id@ ==> #[trigger] final(self).initialized_spec(other) == old(
                    self,
                ).initialized_spec(other),
    {
        proof {
            use_type_invariant(&self.table);
        }
        let k = match self.find(id) {
            Some(k) => k,
            None => {
                return Err(Self::not_registered_error(id));
            },
        };
        match self.table.providers[k].initialize(settings) {
            Ok(()) => {},
            Err(e) => {
                return Err(e);
            },
        }
        let mut table = ProviderTable::empty();
        std::mem::swap(&mut table, &mut self.table);
        let ProviderTable { ids, providers, mut initialized } = table;
        initialized.set(k, true);
        self.table = ProviderTable { ids, providers, initialized };
        proof {
            use_type_invariant(&self.table);
            assert forall|other: Seq<char>|
                other != id@ implies #[trigger] self.initialized_spec(other) == old(self).initialized_spec(
                    other,
                ) by {
                if has_provider(self.ids_view(), other) {
                    let j = provider_index(self.ids_view(), other);
                    assert(j != k);
                }
            }
        }
        Ok(())
    }

    /// Checks that a chat can go to provider `id`: it must be registered.
    pub fn chat_target(&self, id: &str) -> (r: Result<&P, ProviderError>)
        ensures
            has_provider(self.ids_view(), id@) <==> r is Ok,
            r matches Ok(p) ==> *p == self.providers_view()[provider_index(self.ids_view(), id@)],
            r matches Err(e) ==> e.provider_id.0@ == id@ && e.message@ == not_registered(id@),
    {
        proof {
            use_type_invariant(&self.table);
        }
        match self.find(id) {
            Some(k) => Ok(&self.table.providers[k]),
            None => Err(Self::not_registered_error(id)),
        }
    }

    /// Finishes a chat with provider `id` that came back with `result`: the
    /// tokens of a successful reply that reports them are recorded (with no
    /// model name), and the result is handed back.
    pub fn finish_chat(&mut self, id: &str, result: Result<ChatResponse, ProviderError>) -> (r: Result<ChatResponse, ProviderError>)
        requires
            match result {
                Ok(resp) => match resp.usage {
                    Some(u) => sum_input(old(self).usage_view()) + u.input_tokens <= u64::MAX
                        && sum_output(old(self).usage_view()) + u.output_tokens <= u64::MAX,
                    None => true,
                },
                Err(_) => true,
            },
        ensures
            r == result,
            final(self).usage_view() == usage_after_chat(old(self).usage_view(), id@, result),
            final(self).ids_view() == old(self).ids_view(),
            final(self).providers_view() == old(self).providers_view(),
            final(self).initialized_view() == old(self).initialized_view(),
            final(self).active_view() == old(self).active_view(),
    {
        match &result {
            Ok(resp) => match resp.usage {
                Some(u) => {
                    let rec = UsageRecord {
                        provider_id: to_owned_string(id),
                        model: String::new(),
                        input_tokens: u.input_tokens,
                        output_tokens: u.output_tokens,
                    };
                    let mut usage = TokenUsageTracker::new();
                    std::mem::swap(&mut usage, &mut self.usage);
                    usage.record(rec);
                    self.usage = usage;
                },
                None => {},
            },
            Err(_) => {},
        }
        result
    }

    /// What provider `id` can do, if it is registered.
    pub fn capabilities_of(&self, id: &str) -> (r: Option<ProviderCapabilities>)
        ensures
            r == (if has_provider(self.ids_view(), id@) {
                Some(self.providers_view()[provider_index(self.ids_view(), id@)].capabilities_spec())
            } else {
                None
            }),
    {
        proof {
            use_type_invariant(&self.table);
        }
        match self.find(id) {
            Some(k) => Some(self.table.providers[k].capabilities()),
            None => None,
        }
    }

    /// The registered ids, in registration order.
    pub fn list_providers(&self) -> (r: Vec<String>)
        ensures
            r@.map_values(|s: String| s@) == self.ids_view(),
    {
        let mut out: Vec<String> = Vec::new();
        let mut i: usize = 0;
        while i < self.table.ids.len()
            invariant
                i <= self.table.ids@.len(),
                out@.map_values(|s: String| s@) == self.ids_view().take(i as int),
            decreases self.table.ids.len() - i,
        {
            let ghost prev = out@;
            let c = self.table.ids[i].clone();
            out.push(c);
            assert(out@.map_values(|s: String| s@) =~= prev.map_values(|s: String| s@).push(self.ids_view()[i as int]));
            assert(self.ids_view().take(i + 1) =~= self.ids_view().take(i as int).push(self.ids_view()[i as int]));
            i = i + 1;
        }
        assert(self.ids_view().take(i as int) =~= self.ids_view());
        out
    }
}

} // verus!
