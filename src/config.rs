use vstd::prelude::*;

use crate::text::{is_first_of, split_once_char, split_once_spec};

verus! {

/// An LLM provider that the user can configure a key for.
#[derive(Clone, Copy, Debug, PartialEq, Eq, Structural)]
pub enum LLMProvider {
    OpenRouter,
    Groq,
    GoogleGemini,
    Cohere,
}

/// The routing tag under which a provider is known.
pub open spec fn provider_tag(p: LLMProvider) -> Seq<char> {
    match p {
        LLMProvider::OpenRouter => "openrouter"@,
        LLMProvider::Groq => "groq"@,
        LLMProvider::GoogleGemini => "google-gemini"@,
        LLMProvider::Cohere => "cohere"@,
    }
}

/// The name of a provider as shown to a person.
pub open spec fn provider_display_name(p: LLMProvider) -> Seq<char> {
    match p {
        LLMProvider::OpenRouter => "OpenRouter"@,
        LLMProvider::Groq => "Groq"@,
        LLMProvider::GoogleGemini => "Google Gemini"@,
        LLMProvider::Cohere => "Cohere"@,
    }
}

/// The chat-completions endpoint of a provider.
pub open spec fn provider_endpoint(p: LLMProvider) -> Seq<char> {
    match p {
        LLMProvider::OpenRouter => "https://openrouter.ai/api/v1/chat/completions"@,
        LLMProvider::Groq => "https://api.groq.com/openai/v1/chat/completions"@,
        LLMProvider::GoogleGemini =>
            "https://generativelanguage.googleapis.com/v1beta/openai/chat/completions"@,
        LLMProvider::Cohere => "https://api.cohere.ai/compatibility/v1/chat/completions"@,
    }
}

impl LLMProvider {
    /// The routing tag of this provider, as used in `provider/model` identifiers.
    pub fn tag(&self) -> (r: &'static str)
        ensures
            r@ == provider_tag(*self),
    {
        match self {
            LLMProvider::OpenRouter => "openrouter",
            LLMProvider::Groq => "groq",
            LLMProvider::GoogleGemini => "google-gemini",
            LLMProvider::Cohere => "cohere",
        }
    }

    /// The provider's name for display.
    pub fn display_name(&self) -> (r: &'static str)
        ensures
            r@ == provider_display_name(*self),
    {
        match self {
            LLMProvider::OpenRouter => "OpenRouter",
            LLMProvider::Groq => "Groq",
            LLMProvider::GoogleGemini => "Google Gemini",
            LLMProvider::Cohere => "Cohere",
        }
    }

    /// The provider's chat-completions endpoint.
    pub fn chat_completions_endpoint(&self) -> (r: &'static str)
        ensures
            r@ == provider_endpoint(*self),
    {
        match self {
            LLMProvider::OpenRouter => "https://openrouter.ai/api/v1/chat/completions",
            LLMProvider::Groq => "https://api.groq.com/openai/v1/chat/completions",
            LLMProvider::GoogleGemini =>
                "https://generativelanguage.googleapis.com/v1beta/openai/chat/completions",
            LLMProvider::Cohere => "https://api.cohere.ai/compatibility/v1/chat/completions",
        }
    }
}

/// Where to send a provider's chat completions, and with which credential.
pub struct LLMProviderDetails {
    pub api_chat_completions_endpoint: String,
    pub api_key: String,
}

/// The mathematical value of provider details: endpoint and key as text.
pub struct ProviderDetailsView {
    pub endpoint: Seq<char>,
    pub api_key: Seq<char>,
}

impl View for LLMProviderDetails {
    type V = ProviderDetailsView;

    open spec fn view(&self) -> ProviderDetailsView {
        ProviderDetailsView { endpoint: self.api_chat_completions_endpoint@, api_key: self.api_key@ }
    }
}

impl LLMProviderDetails {
    /// A copy of these details.
    pub fn duplicate(&self) -> (r: LLMProviderDetails)
        ensures
            r@ == self@,
    {
        LLMProviderDetails {
            api_chat_completions_endpoint: self.api_chat_completions_endpoint.clone(),
            api_key: self.api_key.clone(),
        }
    }
}

/// One row of a routing table.
pub struct ProviderEntry {
    pub tag: String,
    pub details: LLMProviderDetails,
}

/// The provider map that a sequence of rows denotes; a later row wins over an
/// earlier one with the same tag.
pub open spec fn entries_map(s: Seq<ProviderEntry>) -> Map<Seq<char>, ProviderDetailsView>
    decreases s.len(),
{
    if s.len() == 0 {
        Map::empty()
    } else {
        entries_map(s.drop_last()).insert(s.last().tag@, s.last().details@)
    }
}

/// No two rows carry the same tag.
pub open spec fn tags_unique(s: Seq<ProviderEntry>) -> bool {
    forall|i: int, j: int| 0 <= i < j < s.len() ==> s[i].tag@ != s[j].tag@
}

/// The mathematical value of a routing table.
pub struct RouterView {
    pub default_provider: Seq<char>,
    pub providers: Map<Seq<char>, ProviderDetailsView>,
}

/// The result of routing `id` through `t`: the model name to forward and the
/// provider details to use, or `None` when neither the identifier's prefix nor
/// the default names a provider of the table.
pub open spec fn route(t: RouterView, id: Seq<char>) -> Option<(Seq<char>, ProviderDetailsView)> {
    match split_once_spec(id, '/') {
        Some((provider, model)) if t.providers.contains_key(provider) => Some(
            (model, t.providers[provider]),
        ),
        _ => if t.providers.contains_key(t.default_provider) {
            Some((id, t.providers[t.default_provider]))
        } else {
            None
        },
    }
}

/// An identifier `provider/model` whose provider part holds no `/` and names
/// a provider of the table is routed to that provider, with the model part
/// alone forwarded.
pub proof fn lemma_route_named_provider(
    t: RouterView,
    provider: Seq<char>,
    model: Seq<char>,
)
    requires
        t.providers.contains_key(provider),
        forall|i: int| 0 <= i < provider.len() ==> provider[i] != '/',
    ensures
        route(t, provider + seq!['/'] + model) == Some((model, t.providers[provider])),
{
    let id = provider + seq!['/'] + model;
    let n = provider.len() as int;
    assert(is_first_of(id, '/', n));
    assert forall|k: int| is_first_of(id, '/', k) implies k == n by {
        if k < n {
            assert(id[k] == provider[k]);
        } else if k > n {
            assert(id[n] == '/');
        }
    }
    assert(id.subrange(0, n) =~= provider);
    assert(id.subrange(n + 1, id.len() as int) =~= model);
}

/// An identifier whose part before the first `/` names no provider of the
/// table, or that holds no `/`, goes unchanged to the default provider.
pub proof fn lemma_route_fallback(t: RouterView, id: Seq<char>)
    requires
        t.providers.contains_key(t.default_provider),
        split_once_spec(id, '/') is None || !t.providers.contains_key(
            split_once_spec(id, '/')->Some_0.0,
        ),
    ensures
        route(t, id) == Some((id, t.providers[t.default_provider])),
{
}

/// A default provider tag and the details of each configured provider, keyed
/// by tag.
pub struct LLMRouterTable {
    default_provider: String,
    providers: Vec<ProviderEntry>,
}

impl View for LLMRouterTable {
    type V = RouterView;

    closed spec fn view(&self) -> RouterView {
        RouterView { default_provider: self.default_provider@, providers: entries_map(self.providers@) }
    }
}

proof fn lemma_entries_map_index(s: Seq<ProviderEntry>, i: int)
    requires
        tags_unique(s),
        0 <= i < s.len(),
    ensures
        entries_map(s).contains_key(s[i].tag@),
        entries_map(s)[s[i].tag@] == s[i].details@,
    decreases s.len(),
{
    if i < s.len() - 1 {
        lemma_entries_map_index(s.drop_last(), i);
    }
}

proof fn lemma_entries_map_absent(s: Seq<ProviderEntry>, t: Seq<char>)
    requires
        forall|i: int| 0 <= i < s.len() ==> s[i].tag@ != t,
    ensures
        !entries_map(s).contains_key(t),
    decreases s.len(),
{
    if s.len() > 0 {
        lemma_entries_map_absent(s.drop_last(), t);
    }
}

proof fn lemma_entries_map_update(s: Seq<ProviderEntry>, i: int, e: ProviderEntry)
    requires
        tags_unique(s),
        0 <= i < s.len(),
        s[i].tag@ == e.tag@,
    ensures
        entries_map(s.update(i, e)) == entries_map(s).insert(e.tag@, e.details@),
    decreases s.len(),
{
    let u = s.update(i, e);
    if i == s.len() - 1 {
        assert(u.drop_last() == s.drop_last());
        lemma_entries_map_absent(s.drop_last(), e.tag@);
        assert(entries_map(s.drop_last()).insert(s.last().tag@, s.last().details@).insert(
            e.tag@,
            e.details@,
        ) == entries_map(s.drop_last()).insert(e.tag@, e.details@));
    } else {
        assert(u.drop_last() == s.drop_last().update(i, e));
        lemma_entries_map_update(s.drop_last(), i, e);
        assert(s.last().tag@ != e.tag@);
        assert(entries_map(u) == entries_map(s).insert(e.tag@, e.details@));
    }
}

impl LLMRouterTable {
    /// The rows of the table carry distinct tags.
    pub closed spec fn wf(&self) -> bool {
        tags_unique(self.providers@)
    }

    /// An empty table whose default is the provider tagged `default_provider`.
    pub fn new(default_provider: String) -> (r: LLMRouterTable)
        ensures
            r.wf(),
            r@.default_provider == default_provider@,
            r@.providers == Map::<Seq<char>, ProviderDetailsView>::empty(),
    {
        LLMRouterTable { default_provider, providers: Vec::new() }
    }

    /// Adds the provider `tag`, replacing any details it had.
    pub fn insert(&mut self, tag: String, details: LLMProviderDetails)
        requires
            old(self).wf(),
        ensures
            final(self).wf(),
            final(self)@.default_provider == old(self)@.default_provider,
            final(self)@.providers == old(self)@.providers.insert(tag@, details@),
    {
        let pos = self.position(&tag);
        let ghost s = self.providers@;
        let ghost t = tag@;
        let entry = ProviderEntry { tag, details };
        match pos {
            Some(i) => {
                proof {
                    lemma_entries_map_update(s, i as int, entry);
                }
                self.providers.set(i, entry);
                assert(self.providers@ == s.update(i as int, entry));
                assert(tags_unique(self.providers@));
            },
            None => {
                assert forall|j: int| 0 <= j < s.len() implies s[j].tag@ != t by {
                    if s[j].tag@ == t {
                        lemma_entries_map_index(s, j);
                    }
                }
                self.providers.push(entry);
                assert(self.providers@.drop_last() == s);
            },
        }
    }

    /// The tag of the default provider.
    pub fn default_provider(&self) -> (r: &String)
        ensures
            r@ == self@.default_provider,
    {
        &self.default_provider
    }

    /// The index of the row tagged `tag`, if there is one.
    fn position(&self, tag: &String) -> (r: Option<usize>)
        requires
            self.wf(),
        ensures
            r is Some ==> r->Some_0 < self.providers@.len() && self.providers@[r->Some_0 as int].tag@
                == tag@,
            r is None ==> !self@.providers.contains_key(tag@),
    {
        let mut i: usize = 0;
        while i < self.providers.len()
            invariant
                i <= self.providers@.len(),
                forall|j: int| 0 <= j < i ==> self.providers@[j].tag@ != tag@,
            decreases self.providers@.len() - i,
        {
            if self.providers[i].tag == *tag {
                return Some(i);
            }
            i += 1;
        }
        proof {
            lemma_entries_map_absent(self.providers@, tag@);
        }
        None
    }

    /// The details of the provider tagged `tag`, if it is in the table.
    pub fn get(&self, tag: &String) -> (r: Option<&LLMProviderDetails>)
        requires
            self.wf(),
        ensures
            r is Some <==> self@.providers.contains_key(tag@),
            r is Some ==> r->Some_0@ == self@.providers[tag@],
    {
        match self.position(tag) {
            Some(i) => {
                proof {
                    lemma_entries_map_index(self.providers@, i as int);
                }
                Some(&self.providers[i].details)
            },
            None => None,
        }
    }

    /// Routes a `provider/model` identifier. When the part before the first
    /// `/` names a provider of the table, that provider is used and the part
    /// after it is the model name; otherwise the whole identifier is the model
    /// name and the default provider is used. `None` when that default is not
    /// in the table.
    pub fn details_for_model(&self, provider_and_model: &str) -> (r: Option<
        (String, &LLMProviderDetails),
    >)
        requires
            self.wf(),
        ensures
            r is Some <==> route(self@, provider_and_model@) is Some,
            r is Some ==> (r->Some_0.0@, r->Some_0.1@) == route(
                self@,
                provider_and_model@,
            )->Some_0,
    {
        match split_once_char(provider_and_model, '/') {
            Some((provider_name, model_name)) => {
                match self.get(&String::from_str(provider_name)) {
                    Some(details) => {
                        return Some((String::from_str(model_name), details));
                    },
                    None => {},
                }
            },
            None => {},
        }
        match self.get(&self.default_provider) {
            Some(details) => Some((String::from_str(provider_and_model), details)),
            None => None,
        }
    }
}

/// The user's settings: the chosen default provider and a key per provider.
#[derive(Clone)]
pub struct Config {
    pub llm_provider: Option<LLMProvider>,
    pub openrouter_key: Option<String>,
    pub groq_key: Option<String>,
    pub google_gemini_key: Option<String>,
    pub cohere_key: Option<String>,
}

/// The text of an optional string.
pub open spec fn opt_text(o: Option<String>) -> Option<Seq<char>> {
    match o {
        Some(s) => Some(s@),
        None => None,
    }
}

/// The key configured for provider `p`.
pub open spec fn config_key(c: Config, p: LLMProvider) -> Option<Seq<char>> {
    match p {
        LLMProvider::OpenRouter => opt_text(c.openrouter_key),
        LLMProvider::Groq => opt_text(c.groq_key),
        LLMProvider::GoogleGemini => opt_text(c.google_gemini_key),
        LLMProvider::Cohere => opt_text(c.cohere_key),
    }
}

/// The details under which provider `p` is reached with key `key`.
pub open spec fn details_spec(p: LLMProvider, key: Seq<char>) -> ProviderDetailsView {
    ProviderDetailsView { endpoint: provider_endpoint(p), api_key: key }
}

/// `m` with provider `p` added when `c` holds a key for it.
pub open spec fn with_provider(
    m: Map<Seq<char>, ProviderDetailsView>,
    c: Config,
    p: LLMProvider,
) -> Map<Seq<char>, ProviderDetailsView> {
    match config_key(c, p) {
        Some(k) => m.insert(provider_tag(p), details_spec(p, k)),
        None => m,
    }
}

/// Every provider for which `c` holds a key, with its details.
pub open spec fn configured_providers(c: Config) -> Map<Seq<char>, ProviderDetailsView> {
    let m = with_provider(Map::empty(), c, LLMProvider::OpenRouter);
    let m = with_provider(m, c, LLMProvider::Groq);
    let m = with_provider(m, c, LLMProvider::GoogleGemini);
    with_provider(m, c, LLMProvider::Cohere)
}

/// A configuration with nothing set.
pub open spec fn blank_config() -> Config {
    Config {
        llm_provider: None,
        openrouter_key: None,
        groq_key: None,
        google_gemini_key: None,
        cohere_key: None,
    }
}

impl Default for Config {
    fn default() -> (r: Config)
        ensures
            r == blank_config(),
    {
        Config {
            llm_provider: None,
            openrouter_key: None,
            groq_key: None,
            google_gemini_key: None,
            cohere_key: None,
        }
    }
}

impl Config {
    /// The configuration to run with, given what was read from the settings
    /// file (`None` when it could not be read), and whether it must be written
    /// back: a file that cannot be read is replaced by a blank configuration.
    pub fn load_or_create(loaded: Option<Config>) -> (r: (Config, bool))
        ensures
            loaded is Some ==> r.0 == loaded->Some_0 && !r.1,
            loaded is None ==> r.0 == blank_config() && r.1,
    {
        match loaded {
            Some(config) => (config, false),
            None => (Config::default(), true),
        }
    }

    /// Stores a freshly obtained OpenRouter key. When no provider was chosen
    /// yet, OpenRouter becomes the chosen one; the flag says whether it did.
    pub fn set_openrouter_key(&mut self, key: String) -> (became_default: bool)
        ensures
            became_default == (old(self).llm_provider is None),
            final(self).openrouter_key == Some(key),
            final(self).llm_provider == (if became_default {
                Some(LLMProvider::OpenRouter)
            } else {
                old(self).llm_provider
            }),
            final(self).groq_key == old(self).groq_key,
            final(self).google_gemini_key == old(self).google_gemini_key,
            final(self).cohere_key == old(self).cohere_key,
    {
        self.openrouter_key = Some(key);
        if self.llm_provider.is_none() {
            self.llm_provider = Some(LLMProvider::OpenRouter);
            true
        } else {
            false
        }
    }

    /// The key configured for provider `p`.
    pub fn key_for(&self, p: LLMProvider) -> (r: Option<&String>)
        ensures
            r is Some <==> config_key(*self, p) is Some,
            r is Some ==> r->Some_0@ == config_key(*self, p)->Some_0,
    {
        match p {
            LLMProvider::OpenRouter => self.openrouter_key.as_ref(),
            LLMProvider::Groq => self.groq_key.as_ref(),
            LLMProvider::GoogleGemini => self.google_gemini_key.as_ref(),
            LLMProvider::Cohere => self.cohere_key.as_ref(),
        }
    }

    /// The details of provider `p` under the key `key`.
    fn details_with_key(p: LLMProvider, key: &String) -> (r: LLMProviderDetails)
        ensures
            r@ == details_spec(p, key@),
    {
        LLMProviderDetails {
            api_chat_completions_endpoint: String::from_str(p.chat_completions_endpoint()),
            api_key: key.clone(),
        }
    }

    /// Adds provider `p` to `table` when a key is configured for it.
    fn add_provider(&self, table: &mut LLMRouterTable, p: LLMProvider)
        requires
            old(table).wf(),
        ensures
            final(table).wf(),
            final(table)@.default_provider == old(table)@.default_provider,
            final(table)@.providers == with_provider(old(table)@.providers, *self, p),
    {
        match self.key_for(p) {
            Some(key) => {
                table.insert(String::from_str(p.tag()), Self::details_with_key(p, key));
            },
            None => {},
        }
    }

    /// The routing table of this configuration: every provider with a key,
    /// and the chosen provider as default. `None` when no provider is chosen.
    pub fn llm_router_table(&self) -> (r: Option<LLMRouterTable>)
        ensures
            r is Some <==> self.llm_provider is Some,
            r is Some ==> r->Some_0.wf() && r->Some_0@ == (RouterView {
                default_provider: provider_tag(self.llm_provider->Some_0),
                providers: configured_providers(*self),
            }),
    {
        match self.llm_provider {
            Some(default_llm_provider) => {
                let mut table = LLMRouterTable::new(String::from_str(default_llm_provider.tag()));
                self.add_provider(&mut table, LLMProvider::OpenRouter);
                self.add_provider(&mut table, LLMProvider::Groq);
                self.add_provider(&mut table, LLMProvider::GoogleGemini);
                self.add_provider(&mut table, LLMProvider::Cohere);
                Some(table)
            },
            None => None,
        }
    }

    /// The details of the chosen provider, when one is chosen and has a key.
    pub fn llm_provider_details(&self) -> (r: Option<LLMProviderDetails>)
        ensures
            r is Some <==> self.llm_provider is Some && config_key(
                *self,
                self.llm_provider->Some_0,
            ) is Some,
            r is Some ==> r->Some_0@ == details_spec(
                self.llm_provider->Some_0,
                config_key(*self, self.llm_provider->Some_0)->Some_0,
            ),
    {
        match self.llm_provider {
            Some(p) => match self.key_for(p) {
                Some(key) => Some(Self::details_with_key(p, key)),
                None => None,
            },
            None => None,
        }
    }
}

} // verus!
