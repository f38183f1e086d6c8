//! The translation engine: the resource sets of the registered languages,
//! the active language, and the lookup of a text by its key.
//!
//! A lookup asks the cache first, then the resource set of the active
//! language, then that of one fallback language. The cache holds resolved
//! texts by key alone, so every operation that may change what a key resolves
//! to empties it: registering or removing a resource set, switching the
//! active language, choosing a fallback language. That the cache never
//! disagrees with the resource sets is part of the engine's invariant, and is
//! what lets a lookup promise the resolved text whether or not the cache had
//! it.

use crate::api::{key_prefix, I18nManagerAPI, TranslationError, TranslationResource};
use crate::cache::{
    cache_clear, cache_entries, cache_get, cache_keys, cache_len, cache_limit, cache_new,
    cache_put, spec_after_put, MAX_CACHE_CAPACITY,
};
use crate::defaults::{default_text_table, default_texts};
use crate::lang_codes::{spec_is_canonical, spec_normalize, LanguageError};
use crate::settings::I18nSettings;
use crate::lang_tables::{standard_mappings, standard_native_names, LangTables};
use crate::resources::{
    first_misfit, json_object_of, spec_collect, spec_texts_of, I18nLangResources,
};
use crate::table::{
    assoc, assoc_put, assoc_remove, distinct_keys, find_key, key_index, keys_of, lemma_assoc_put,
    lemma_assoc_remove, lemma_key_index, opt_text, pairs_view, stored_keys, texts_view,
};
use crate::text::{
    chars_of, lowercase_of, replace, same_text, spec_replace, spec_starts_with, starts_with,
    string_of,
};
use lru::LruCache;
use vstd::prelude::*;

verus! {

/// The texts of one language, by key.
pub type Texts = Seq<(Seq<char>, Seq<char>)>;

/// The resource sets of the registered languages, by language code, in the
/// order of registration.
pub type Store = Seq<(Seq<char>, Texts)>;

/// The code of the base language, the one that the default texts are in.
pub open spec fn base_lang() -> Seq<char> {
    "en-US"@
}

/// The number of entries that the cache of a new manager holds at most.
pub const DEFAULT_CACHE_CAPACITY: usize = 1000;

/// The text that the resource set of `lang` has for `key`; `None` where the
/// language has no resource set or the set has no such key.
pub open spec fn spec_lookup(resources: Store, lang: Seq<char>, key: Seq<char>) -> Option<
    Seq<char>,
> {
    match assoc(resources, lang) {
        Some(texts) => assoc(texts, key),
        None => None,
    }
}

/// The first of `langs[from..]` that is not `current`.
pub open spec fn spec_first_other(langs: Seq<Seq<char>>, current: Seq<char>, from: int) -> Option<
    Seq<char>,
>
    decreases langs.len() - from,
{
    if from < 0 || from >= langs.len() {
        None
    } else if langs[from] != current {
        Some(langs[from])
    } else {
        spec_first_other(langs, current, from + 1)
    }
}

/// The fallback language: the configured one where one is configured, else
/// the first registered language, in the order of registration, that is not
/// the active one.
pub open spec fn spec_fallback(
    resources: Store,
    current: Seq<char>,
    configured: Option<Seq<char>>,
) -> Option<Seq<char>> {
    match configured {
        Some(lang) => Some(lang),
        None => spec_first_other(keys_of(resources), current, 0),
    }
}

/// What `key` resolves to: the text of the active language, or else the text
/// of the fallback language, or else nothing.
pub open spec fn spec_resolve(
    resources: Store,
    current: Seq<char>,
    configured: Option<Seq<char>>,
    key: Seq<char>,
) -> Option<Seq<char>> {
    match spec_lookup(resources, current, key) {
        Some(text) => Some(text),
        None => match spec_fallback(resources, current, configured) {
            Some(lang) => spec_lookup(resources, lang, key),
            None => None,
        },
    }
}

/// Every entry of the cache holds what its key resolves to.
pub open spec fn spec_coherent(
    cache: Texts,
    resources: Store,
    current: Seq<char>,
    configured: Option<Seq<char>>,
) -> bool {
    forall|i: int|
        0 <= i < cache.len() ==> spec_resolve(resources, current, configured, (#[trigger] cache[i]).0)
            == Some(cache[i].1)
}

/// The placeholder for the parameter `name`: the name in braces.
pub open spec fn spec_placeholder(name: Seq<char>) -> Seq<char> {
    seq!['{'] + name + seq!['}']
}

/// `text` after the parameters were put in, one after the other in their
/// order: each replaces every placeholder of its name by its value.
pub open spec fn spec_format(text: Seq<char>, params: Texts) -> Seq<char>
    decreases params.len(),
{
    if params.len() == 0 {
        text
    } else {
        spec_replace(
            spec_format(text, params.drop_last()),
            spec_placeholder(params.last().0),
            params.last().1,
        )
    }
}

/// The views of a list of parameters.
pub open spec fn params_view(params: Seq<(&str, &str)>) -> Texts {
    Seq::new(params.len(), |i: int| (params[i].0@, params[i].1@))
}

/// The position of the first of `keys[from..]` that does not begin with the
/// key marker.
pub open spec fn spec_first_bad_key(keys: Seq<Seq<char>>, from: int) -> Option<int>
    decreases keys.len() - from,
{
    if from < 0 || from >= keys.len() {
        None
    } else if !spec_starts_with(keys[from], key_prefix()) {
        Some(from)
    } else {
        spec_first_bad_key(keys, from + 1)
    }
}

/// Whether the active language may be switched to `code` under the
/// normalization table `mappings`: the base language always, any other code
/// where some spelling of the table stands for it.
pub open spec fn spec_switchable_by(mappings: Seq<(Seq<char>, Seq<char>)>, code: Seq<char>) -> bool {
    code == base_lang() || spec_is_canonical(mappings, code)
}

/// Whether the active language may be switched to `code` under the standard
/// normalization table.
pub open spec fn spec_switchable(code: Seq<char>) -> bool {
    spec_switchable_by(standard_mappings(), code)
}

/// The state of the engine.
pub struct I18nState {
    /// The code of the active language.
    pub current_lang: Seq<char>,
    /// The code of the configured fallback language.
    pub fallback_lang: Option<Seq<char>>,
    /// The resource sets, in the order of registration.
    pub resources: Store,
    /// The cache, the entry used most recently first.
    pub translation_cache: Texts,
    /// The number of entries that the cache holds at most.
    pub cache_capacity: nat,
}

impl I18nState {
    /// The text that the resource set of `lang` has for `key`.
    pub open spec fn lookup(self, lang: Seq<char>, key: Seq<char>) -> Option<Seq<char>> {
        spec_lookup(self.resources, lang, key)
    }

    /// The fallback language.
    pub open spec fn fallback(self) -> Option<Seq<char>> {
        spec_fallback(self.resources, self.current_lang, self.fallback_lang)
    }

    /// What `key` resolves to.
    pub open spec fn resolve(self, key: Seq<char>) -> Option<Seq<char>> {
        spec_resolve(self.resources, self.current_lang, self.fallback_lang, key)
    }

    /// The text that the cache holds for `key`.
    pub open spec fn cached(self, key: Seq<char>) -> Option<Seq<char>> {
        assoc(self.translation_cache, key)
    }

    /// The state is one that the engine can be in: no language is registered
    /// twice and no resource set has a key twice; the cache holds no key
    /// twice and no more entries than it may; and every entry of the cache
    /// holds what its key resolves to.
    pub open spec fn wf(self) -> bool {
        &&& distinct_keys(keys_of(self.resources))
        &&& forall|i: int|
            0 <= i < self.resources.len() ==> distinct_keys(
                keys_of((#[trigger] self.resources[i]).1),
            )
        &&& 0 < self.cache_capacity
        &&& self.translation_cache.len() <= self.cache_capacity
        &&& distinct_keys(keys_of(self.translation_cache))
        &&& spec_coherent(
            self.translation_cache,
            self.resources,
            self.current_lang,
            self.fallback_lang,
        )
    }

    /// The state after `texts` was registered for `lang`: the set stands in
    /// place of the one that the language had, or behind the last one; the
    /// cache is empty.
    pub open spec fn after_register(self, lang: Seq<char>, texts: Texts) -> I18nState {
        I18nState {
            resources: assoc_put(self.resources, lang, texts),
            translation_cache: Seq::empty(),
            ..self
        }
    }

    /// The state after the resource set of `lang` was removed; the cache is
    /// empty.
    pub open spec fn after_deregister(self, lang: Seq<char>) -> I18nState {
        I18nState {
            resources: assoc_remove(self.resources, lang),
            translation_cache: Seq::empty(),
            ..self
        }
    }

    /// The state after the active language was switched to `code`; the cache
    /// is empty.
    pub open spec fn after_switch(self, code: Seq<char>) -> I18nState {
        I18nState { current_lang: code, translation_cache: Seq::empty(), ..self }
    }

    /// The state after `lang` was chosen as the fallback language, or none;
    /// the cache is empty.
    pub open spec fn after_fallback_choice(self, lang: Option<Seq<char>>) -> I18nState {
        I18nState { fallback_lang: lang, translation_cache: Seq::empty(), ..self }
    }

    /// The state after the translation data `content` was offered as the
    /// resource set of `lang`: the texts of the data are registered where the
    /// data can be read, and nothing changes where it cannot.
    pub open spec fn after_offer(self, lang: Seq<char>, content: Seq<char>) -> I18nState {
        match json_object_of(content) {
            Some(fields) => if first_misfit(fields) is None {
                self.after_register(lang, spec_texts_of(fields))
            } else {
                self
            },
            None => self,
        }
    }

    /// The state after a switch to `code` was tried: the language is switched
    /// where the code is accepted, and nothing changes where it is not.
    pub open spec fn after_switch_attempt(self, code: Seq<char>) -> I18nState {
        if spec_switchable(code) {
            self.after_switch(code)
        } else {
            self
        }
    }

    /// The state after the preferences `fallback` and `chosen` of the
    /// settings were taken over: the fallback language is the configured one;
    /// and a switch is tried to the chosen language, which is the base
    /// language where it is named as such and else the canonical code that
    /// the standard table gives for the name. Without a chosen language, or
    /// with one that the table does not know, the active language stays.
    pub open spec fn after_preferences(
        self,
        fallback: Option<Seq<char>>,
        chosen: Option<Seq<char>>,
    ) -> I18nState {
        let configured = self.after_fallback_choice(fallback);
        match chosen {
            Some(name) => if name == base_lang() {
                configured.after_switch_attempt(name)
            } else {
                match spec_normalize(standard_mappings(), lowercase_of(name)) {
                    Some(code) => configured.after_switch_attempt(code),
                    None => configured,
                }
            },
            None => configured,
        }
    }

    /// The state after the text for `key` was asked for: where the key
    /// resolves to a text, the cache holds that text under the key as its
    /// most recent entry; where it resolves to nothing, nothing changes.
    pub open spec fn after_get_text(self, key: Seq<char>) -> I18nState {
        match self.resolve(key) {
            Some(text) => I18nState {
                translation_cache: spec_after_put(
                    self.translation_cache,
                    self.cache_capacity,
                    key,
                    text,
                ),
                ..self
            },
            None => self,
        }
    }
}

/// Asking for a text keeps the state one that the engine can be in.
pub proof fn lemma_get_text_keeps_wf(s: I18nState, key: Seq<char>)
    requires
        s.wf(),
    ensures
        s.after_get_text(key).wf(),
{
    match s.resolve(key) {
        Some(text) => {
            let cache = s.translation_cache;
            let keys = keys_of(cache);
            let next = spec_after_put(cache, s.cache_capacity, key, text);
            let next_keys = keys_of(next);
            lemma_key_index(keys, key);
            // where each entry of the new cache behind the first comes from
            let gone: int = match key_index(keys, key) {
                Some(at) => at,
                None => cache.len() as int,
            };
            assert forall|j: int| 1 <= j < next.len() implies {
                let from = if j - 1 < gone {
                    j - 1
                } else {
                    j
                };
                0 <= from < cache.len() && #[trigger] next[j] == cache[from] && cache[from].0
                    != key
            } by {
                let from = if j - 1 < gone {
                    j - 1
                } else {
                    j
                };
                assert(keys[from] == cache[from].0);
            }
            assert forall|a: int, b: int| 0 <= a < b < next_keys.len() implies next_keys[a]
                != next_keys[b] by {
                let from_b = if b - 1 < gone {
                    b - 1
                } else {
                    b
                };
                if a > 0 {
                    let from_a = if a - 1 < gone {
                        a - 1
                    } else {
                        a
                    };
                    assert(keys[from_a] != keys[from_b]);
                }
            }
            assert forall|j: int| 0 <= j < next.len() implies spec_resolve(
                s.resources,
                s.current_lang,
                s.fallback_lang,
                (#[trigger] next[j]).0,
            ) == Some(next[j].1) by {}
        },
        None => {},
    }
}

/// Asking for a text changes no answer: every key resolves afterwards to what
/// it resolved to before.
pub proof fn lemma_get_text_changes_no_answer(s: I18nState, key: Seq<char>, other: Seq<char>)
    ensures
        s.after_get_text(key).resolve(other) == s.resolve(other),
{
}

/// After a resource set was registered for a language, the language has
/// exactly the texts of the set, every other language has the texts it had,
/// and the state is one that the engine can be in.
pub proof fn lemma_register_replaces(s: I18nState, lang: Seq<char>, texts: Texts, key: Seq<char>)
    requires
        s.wf(),
        distinct_keys(keys_of(texts)),
    ensures
        s.after_register(lang, texts).wf(),
        s.after_register(lang, texts).lookup(lang, key) == assoc(texts, key),
        forall|other: Seq<char>|
            other != lang ==> #[trigger] s.after_register(lang, texts).lookup(other, key)
                == s.lookup(other, key),
{
    lemma_assoc_put(s.resources, lang, texts);
    lemma_key_index(keys_of(s.resources), lang);
}

/// After the resource set of a language was removed, the language has no
/// texts, every other language has the texts it had, and the state is one
/// that the engine can be in.
pub proof fn lemma_deregister_removes(s: I18nState, lang: Seq<char>, key: Seq<char>)
    requires
        s.wf(),
    ensures
        s.after_deregister(lang).wf(),
        s.after_deregister(lang).lookup(lang, key) is None,
        forall|other: Seq<char>|
            other != lang ==> #[trigger] s.after_deregister(lang).lookup(other, key) == s.lookup(
                other,
                key,
            ),
{
    lemma_assoc_remove(s.resources, lang);
    lemma_key_index(keys_of(s.resources), lang);
}

/// A key whose text the active language has resolves to that text, and still
/// does after the text was asked for once: the second answer is the first.
pub proof fn lemma_active_text_is_returned(s: I18nState, key: Seq<char>, text: Seq<char>)
    requires
        s.wf(),
        s.lookup(s.current_lang, key) == Some(text),
    ensures
        s.resolve(key) == Some(text),
        s.after_get_text(key).resolve(key) == Some(text),
        s.after_get_text(key).wf(),
{
    lemma_get_text_keeps_wf(s, key);
}

/// A key that the active language lacks and the fallback language has
/// resolves to the text of the fallback language.
pub proof fn lemma_fallback_text_is_returned(
    s: I18nState,
    key: Seq<char>,
    other: Seq<char>,
    text: Seq<char>,
)
    requires
        s.lookup(s.current_lang, key) is None,
        s.fallback() == Some(other),
        s.lookup(other, key) == Some(text),
    ensures
        s.resolve(key) == Some(text),
{
}

/// A key that no language has resolves to nothing.
pub proof fn lemma_unknown_key_is_absent(s: I18nState, key: Seq<char>)
    requires
        forall|lang: Seq<char>| s.lookup(lang, key) is None,
    ensures
        s.resolve(key) is None,
        s.after_get_text(key) == s,
{
    assert(s.lookup(s.current_lang, key) is None);
    match s.fallback() {
        Some(lang) => {
            assert(s.lookup(lang, key) is None);
        },
        None => {},
    }
}

/// After a switch of the active language the cache is empty, so what was
/// cached under the language before has no part in what a key resolves to:
/// a key that the new language lacks resolves to what the fallback language
/// has for it, and to nothing where that has nothing.
pub proof fn lemma_switch_drops_cached_texts(s: I18nState, code: Seq<char>, key: Seq<char>)
    requires
        s.wf(),
        s.after_switch(code).lookup(code, key) is None,
    ensures
        s.after_switch(code).wf(),
        s.after_switch(code).cached(key) is None,
        s.after_switch(code).resolve(key) == match s.after_switch(code).fallback() {
            Some(lang) => s.lookup(lang, key),
            None => None,
        },
{
}

/// The views of the resource sets as they are held in memory.
pub open spec fn store_view(store: Seq<(String, I18nLangResources)>) -> Store {
    Seq::new(store.len(), |i: int| (store[i].0@, store[i].1@))
}

/// The translation engine.
pub struct I18nManager {
    current_lang: String,
    fallback_lang: Option<String>,
    resources: Vec<(String, I18nLangResources)>,
    translation_cache: LruCache<String, String>,
}

impl View for I18nManager {
    type V = I18nState;

    closed spec fn view(&self) -> I18nState {
        I18nState {
            current_lang: self.current_lang@,
            fallback_lang: opt_text(self.fallback_lang),
            resources: store_view(self.resources@),
            translation_cache: cache_entries(self.translation_cache),
            cache_capacity: cache_limit(self.translation_cache),
        }
    }
}

/// The text of `text` with the parameters put in, one after the other: each
/// replaces every placeholder `{name}` of its name by its value. A
/// placeholder without a parameter stays as it is; a parameter without a
/// placeholder changes nothing.
pub fn substitute(text: &str, params: &[(&str, &str)]) -> (out: String)
    ensures
        out@ == spec_format(text@, params_view(params@)),
{
    let mut current = chars_of(text);
    let ghost all = params_view(params@);
    let mut i: usize = 0;
    while i < params.len()
        invariant
            i <= params.len(),
            all == params_view(params@),
            current@ == spec_format(text@, all.take(i as int)),
        decreases params.len() - i,
    {
        let name = chars_of(params[i].0);
        let value = chars_of(params[i].1);
        let mut pattern: Vec<char> = Vec::new();
        pattern.push('{');
        let mut k: usize = 0;
        while k < name.len()
            invariant
                k <= name.len(),
                pattern@ == seq!['{'] + name@.subrange(0, k as int),
            decreases name.len() - k,
        {
            pattern.push(name[k]);
            k = k + 1;
        }
        pattern.push('}');
        assert(pattern@ =~= spec_placeholder(name@));
        assert(all.take(i + 1).drop_last() =~= all.take(i as int));
        current = replace(&current, &pattern, &value);
        i = i + 1;
    }
    assert(all.take(params.len() as int) =~= all);
    string_of(&current)
}

impl I18nManager {
    /// The manager is in a state that the engine can be in.
    pub open spec fn wf(&self) -> bool {
        self@.wf()
    }

    /// A manager without resource sets, with the base language active, no
    /// fallback language configured and an empty cache of at most
    /// [`DEFAULT_CACHE_CAPACITY`] entries.
    pub fn new() -> (manager: I18nManager)
        ensures
            manager.wf(),
            manager@ == (I18nState {
                current_lang: base_lang(),
                fallback_lang: None,
                resources: Seq::empty(),
                translation_cache: Seq::empty(),
                cache_capacity: DEFAULT_CACHE_CAPACITY as nat,
            }),
    {
        let manager = I18nManager {
            current_lang: "en-US".to_owned(),
            fallback_lang: None,
            resources: Vec::new(),
            translation_cache: cache_new(DEFAULT_CACHE_CAPACITY),
        };
        assert(manager@.resources =~= Seq::empty());
        manager
    }

    /// A manager like a new one whose cache holds at most `capacity` entries.
    /// `None` where `capacity` is zero or above [`MAX_CACHE_CAPACITY`].
    pub fn with_capacity(capacity: usize) -> (made: Option<I18nManager>)
        ensures
            match made {
                Some(manager) => {
                    &&& 0 < capacity <= MAX_CACHE_CAPACITY
                    &&& manager.wf()
                    &&& manager@ == (I18nState {
                        current_lang: base_lang(),
                        fallback_lang: None,
                        resources: Seq::empty(),
                        translation_cache: Seq::empty(),
                        cache_capacity: capacity as nat,
                    })
                },
                None => capacity == 0 || capacity > MAX_CACHE_CAPACITY,
            },
    {
        if capacity == 0 || capacity > MAX_CACHE_CAPACITY {
            return None;
        }
        let manager = I18nManager {
            current_lang: "en-US".to_owned(),
            fallback_lang: None,
            resources: Vec::new(),
            translation_cache: cache_new(capacity),
        };
        assert(manager@.resources =~= Seq::empty());
        Some(manager)
    }

    /// The code of the active language.
    pub fn current_language(&self) -> (code: String)
        ensures
            code@ == self@.current_lang,
    {
        self.current_lang.clone()
    }

    /// The codes of the registered languages, in the order of registration.
    pub fn registered_languages(&self) -> (codes: Vec<String>)
        ensures
            texts_view(codes@) == keys_of(self@.resources),
    {
        let mut codes: Vec<String> = Vec::new();
        let mut i: usize = 0;
        while i < self.resources.len()
            invariant
                i <= self.resources.len(),
                codes.len() == i,
                forall|j: int| 0 <= j < i ==> codes@[j]@ == self.resources@[j].0@,
            decreases self.resources.len() - i,
        {
            codes.push(self.resources[i].0.clone());
            i = i + 1;
        }
        codes
    }

    /// Whether `lang` has a resource set.
    pub fn is_registered(&self, lang: &str) -> (registered: bool)
        ensures
            registered == assoc(self@.resources, lang@) is Some,
    {
        assert(keys_of(self@.resources) =~= stored_keys(self.resources@));
        find_key(&self.resources, lang).is_some()
    }

    /// The number of entries in the cache.
    pub fn cached_count(&self) -> (count: usize)
        ensures
            count == self@.translation_cache.len(),
    {
        cache_len(&self.translation_cache)
    }

    /// The keys that the cache holds, the one used most recently first.
    pub fn cached_keys(&self) -> (keys: Vec<String>)
        ensures
            texts_view(keys@) == keys_of(self@.translation_cache),
    {
        cache_keys(&self.translation_cache)
    }

    /// Registers `resources` as the resource set of `lang`, in place of the
    /// set that the language had. The cache is emptied.
    pub fn register(&mut self, lang: &str, resources: I18nLangResources)
        requires
            old(self).wf(),
            resources.wf(),
        ensures
            final(self)@ == old(self)@.after_register(lang@, resources@),
            final(self).wf(),
    {
        let ghost before = self@;
        let ghost texts = resources@;
        proof {
            assert(keys_of(before.resources) =~= stored_keys(self.resources@));
            lemma_assoc_put(before.resources, lang@, texts);
            lemma_key_index(keys_of(before.resources), lang@);
        }
        cache_clear(&mut self.translation_cache);
        match find_key(&self.resources, lang) {
            Some(i) => {
                self.resources.set(i, (lang.to_owned(), resources));
                assert(self@.resources =~= before.resources.update(i as int, (lang@, texts)));
            },
            None => {
                self.resources.push((lang.to_owned(), resources));
                assert(self@.resources =~= before.resources.push((lang@, texts)));
            },
        }
    }

    /// Removes the resource set of `lang`. The cache is emptied.
    pub fn deregister(&mut self, lang: &str)
        requires
            old(self).wf(),
        ensures
            final(self)@ == old(self)@.after_deregister(lang@),
            final(self).wf(),
            forall|key: Seq<char>| final(self)@.lookup(lang@, key) is None,
    {
        let ghost before = self@;
        proof {
            assert(keys_of(before.resources) =~= stored_keys(self.resources@));
            lemma_assoc_remove(before.resources, lang@);
            lemma_key_index(keys_of(before.resources), lang@);
        }
        cache_clear(&mut self.translation_cache);
        match find_key(&self.resources, lang) {
            Some(i) => {
                self.resources.remove(i);
                assert(self@.resources =~= before.resources.remove(i as int));
            },
            None => {
            },
        }
    }

    /// The text that the resource set of `lang` has for `key`.
    pub fn lookup(&self, lang: &str, key: &str) -> (text: Option<String>)
        ensures
            opt_text(text) == self@.lookup(lang@, key@),
    {
        assert(keys_of(self@.resources) =~= stored_keys(self.resources@));
        match find_key(&self.resources, lang) {
            Some(i) => self.resources[i].1.get(key),
            None => None,
        }
    }

    /// A copy of the resource set of `lang`.
    pub fn resources_of(&self, lang: &str) -> (set: Option<I18nLangResources>)
        requires
            self.wf(),
        ensures
            match set {
                Some(copy) => assoc(self@.resources, lang@) == Some(copy@) && copy.wf(),
                None => assoc(self@.resources, lang@) is None,
            },
    {
        proof {
            assert(keys_of(self@.resources) =~= stored_keys(self.resources@));
            lemma_key_index(keys_of(self@.resources), lang@);
        }
        match find_key(&self.resources, lang) {
            Some(i) => {
                Some(self.resources[i].1.duplicate())
            },
            None => None,
        }
    }

    /// The text that the resource set of `lang` has for `key`, or what is
    /// missing: the resource set, or the key in it.
    pub fn try_lookup(&self, lang: &str, key: &str) -> (text: Result<String, TranslationError>)
        ensures
            match text {
                Ok(found) => self@.lookup(lang@, key@) == Some(found@),
                Err(TranslationError::ResourceNotFound) => assoc(self@.resources, lang@) is None,
                Err(TranslationError::KeyNotFound(missing)) => {
                    &&& assoc(self@.resources, lang@) is Some
                    &&& self@.lookup(lang@, key@) is None
                    &&& missing@ == key@
                },
                Err(_) => false,
            },
    {
        assert(keys_of(self@.resources) =~= stored_keys(self.resources@));
        match find_key(&self.resources, lang) {
            Some(i) => match self.resources[i].1.get(key) {
                Some(found) => Ok(found),
                None => Err(TranslationError::KeyNotFound(key.to_owned())),
            },
            None => Err(TranslationError::ResourceNotFound),
        }
    }

    /// The fallback language.
    pub fn fallback_language(&self) -> (lang: Option<String>)
        ensures
            opt_text(lang) == self@.fallback(),
    {
        if let Some(configured) = &self.fallback_lang {
            return Some(configured.clone());
        }
        let ghost langs = keys_of(self@.resources);
        let mut i: usize = 0;
        while i < self.resources.len()
            invariant
                i <= self.resources.len(),
                self.fallback_lang is None,
                langs == keys_of(self@.resources),
                spec_first_other(langs, self@.current_lang, 0) == spec_first_other(
                    langs,
                    self@.current_lang,
                    i as int,
                ),
            decreases self.resources.len() - i,
        {
            if !same_text(self.resources[i].0.as_str(), self.current_lang.as_str()) {
                return Some(self.resources[i].0.clone());
            }
            i = i + 1;
        }
        None
    }

    /// What `key` resolves to, as the resource sets have it: the cache is
    /// neither asked nor changed.
    pub fn resolve(&self, key: &str) -> (text: Option<String>)
        ensures
            opt_text(text) == self@.resolve(key@),
    {
        if let Some(found) = self.lookup(self.current_lang.as_str(), key) {
            return Some(found);
        }
        match self.fallback_language() {
            Some(lang) => self.lookup(lang.as_str(), key),
            None => None,
        }
    }

    /// The text for `key` in the active language, or else in the fallback
    /// language; `None` where neither has it. A text that was found is
    /// cached.
    pub fn get_text(&mut self, key: &str) -> (text: Option<String>)
        requires
            old(self).wf(),
        ensures
            opt_text(text) == old(self)@.resolve(key@),
            final(self)@ == old(self)@.after_get_text(key@),
            final(self).wf(),
    {
        let ghost before = self@;
        proof {
            lemma_get_text_keeps_wf(before, key@);
            lemma_key_index(keys_of(before.translation_cache), key@);
        }
        if let Some(cached) = cache_get(&mut self.translation_cache, key) {
            return Some(cached);
        }
        match self.resolve(key) {
            Some(text) => {
                cache_put(&mut self.translation_cache, key.to_owned(), text.clone());
                Some(text)
            },
            None => None,
        }
    }

    /// The text for `key` with the parameters put in. `None` where the key
    /// resolves to nothing.
    pub fn format_text(&mut self, key: &str, params: &[(&str, &str)]) -> (text: Option<String>)
        requires
            old(self).wf(),
        ensures
            opt_text(text) == match old(self)@.resolve(key@) {
                Some(found) => Some(spec_format(found, params_view(params@))),
                None => None,
            },
            final(self)@ == old(self)@.after_get_text(key@),
            final(self).wf(),
    {
        match self.get_text(key) {
            Some(found) => Some(substitute(found.as_str(), params)),
            None => None,
        }
    }

    /// Makes `code` the active language and empties the cache. A code that
    /// is neither the base language nor a canonical code of the normalization
    /// table of `tables` is refused, and nothing changes.
    pub fn switch_language_with(&mut self, tables: &LangTables, code: &str) -> (switched: Result<
        (),
        LanguageError,
    >)
        requires
            old(self).wf(),
        ensures
            match switched {
                Ok(_) => {
                    &&& spec_switchable_by(tables@.mappings, code@)
                    &&& final(self)@ == old(self)@.after_switch(code@)
                },
                Err(LanguageError::UnknownLanguage(unknown)) => {
                    &&& !spec_switchable_by(tables@.mappings, code@)
                    &&& unknown@ == code@
                    &&& final(self)@ == old(self)@
                },
            },
            final(self).wf(),
    {
        if !same_text(code, "en-US") && !tables.is_canonical(code) {
            return Err(LanguageError::UnknownLanguage(code.to_owned()));
        }
        cache_clear(&mut self.translation_cache);
        self.current_lang = code.to_owned();
        Ok(())
    }

    /// Makes `code` the active language and empties the cache. A code that
    /// is neither the base language nor a canonical code of the standard
    /// normalization table is refused, and nothing changes.
    pub fn switch_language(&mut self, code: &str) -> (switched: Result<(), LanguageError>)
        requires
            old(self).wf(),
        ensures
            match switched {
                Ok(_) => spec_switchable(code@) && final(self)@ == old(self)@.after_switch(code@),
                Err(LanguageError::UnknownLanguage(unknown)) => {
                    &&& !spec_switchable(code@)
                    &&& unknown@ == code@
                    &&& final(self)@ == old(self)@
                },
            },
            final(self)@ == old(self)@.after_switch_attempt(code@),
            final(self).wf(),
    {
        self.switch_language_with(&LangTables::standard(), code)
    }

    /// Chooses the fallback language, or none, and empties the cache.
    pub fn set_fallback_language(&mut self, lang: Option<String>)
        requires
            old(self).wf(),
        ensures
            final(self)@ == old(self)@.after_fallback_choice(opt_text(lang)),
            final(self).wf(),
    {
        cache_clear(&mut self.translation_cache);
        self.fallback_lang = lang;
    }

    /// Takes over the preferences of the settings: the fallback language,
    /// and the chosen language as far as it is known.
    pub fn apply_settings(&mut self, settings: &I18nSettings)
        requires
            old(self).wf(),
        ensures
            final(self)@ == old(self)@.after_preferences(
                settings@.fallback_i18n_lang,
                settings@.i18n_lang,
            ),
            final(self).wf(),
    {
        self.set_fallback_language(settings.get_fallback_i18n_lang());
        match &settings.i18n_lang {
            Some(name) => {
                if same_text(name.as_str(), "en-US") {
                    let _ = self.switch_language(name.as_str());
                } else {
                    match crate::lang_codes::normalize(name.as_str()) {
                        Some(code) => {
                            let _ = self.switch_language(code.as_str());
                        },
                        None => {},
                    }
                }
            },
            None => {},
        }
    }

    /// Whether the active language is written from right to left.
    pub fn is_rtl(&self) -> (rtl: bool)
        ensures
            rtl == (self@.current_lang == "ar"@ || self@.current_lang == "he"@),
    {
        same_text(self.current_lang.as_str(), "ar") || same_text(self.current_lang.as_str(), "he")
    }

    /// Registers the default texts as the resource set of the base language.
    pub fn register_default_texts(&mut self)
        requires
            old(self).wf(),
        ensures
            final(self)@ == old(self)@.after_register(base_lang(), spec_collect(default_texts())),
            final(self).wf(),
    {
        let table = default_text_table();
        let defaults = I18nLangResources::from_pairs(&table);
        self.register("en-US", defaults);
    }

    /// Registers the translation data `content`, a flat JSON object from key
    /// to text, as the resource set of `lang_id`. Data that cannot be read is
    /// refused, and nothing changes.
    pub fn register_i18n_lang_extension(&mut self, lang_id: &str, content: &str) -> (registered:
        Result<(), TranslationError>)
        requires
            old(self).wf(),
        ensures
            match registered {
                Ok(_) => {
                    &&& json_object_of(content@) is Some
                    &&& first_misfit(json_object_of(content@)->0) is None
                    &&& final(self)@ == old(self)@.after_register(
                        lang_id@,
                        spec_texts_of(json_object_of(content@)->0),
                    )
                },
                Err(TranslationError::ResourceFormatError(what)) => {
                    &&& match json_object_of(content@) {
                        Some(fields) => {
                            &&& first_misfit(fields) is Some
                            &&& what@ == fields[first_misfit(fields)->0].0
                        },
                        None => true,
                    }
                    &&& final(self)@ == old(self)@
                },
                Err(_) => false,
            },
            final(self)@ == old(self)@.after_offer(lang_id@, content@),
            final(self).wf(),
    {
        match I18nLangResources::from_json(content) {
            Ok(set) => {
                self.register(lang_id, set);
                Ok(())
            },
            Err(error) => Err(error),
        }
    }

    /// The position of the first key of `pairs` that does not begin with the
    /// key marker.
    fn first_bad_key(pairs: &Vec<(String, String)>) -> (bad: Option<usize>)
        ensures
            match bad {
                Some(at) => at < pairs.len() && spec_first_bad_key(
                    keys_of(pairs_view(pairs@)),
                    0,
                ) == Some(at as int),
                None => spec_first_bad_key(keys_of(pairs_view(pairs@)), 0) is None,
            },
    {
        let marker = chars_of("i18n.");
        let ghost keys = keys_of(pairs_view(pairs@));
        let mut i: usize = 0;
        while i < pairs.len()
            invariant
                i <= pairs.len(),
                marker@ == key_prefix(),
                keys == keys_of(pairs_view(pairs@)),
                spec_first_bad_key(keys, 0) == spec_first_bad_key(keys, i as int),
            decreases pairs.len() - i,
        {
            let key = chars_of(pairs[i].0.as_str());
            if !starts_with(&key, &marker) {
                return Some(i);
            }
            i = i + 1;
        }
        None
    }
}

impl I18nManagerAPI for I18nManager {
    open spec fn valid(&self) -> bool {
        self.wf()
    }

    fn get_active_lang(&self) -> (code: String)
        ensures
            code@ == self@.current_lang,
    {
        self.current_language()
    }

    fn set_lang(&mut self, lang_id: &str) -> (switched: Result<(), LanguageError>)
        ensures
            match switched {
                Ok(_) => spec_switchable(lang_id@) && final(self)@ == old(self)@.after_switch(
                    lang_id@,
                ),
                Err(LanguageError::UnknownLanguage(unknown)) => {
                    &&& !spec_switchable(lang_id@)
                    &&& unknown@ == lang_id@
                    &&& final(self)@ == old(self)@
                },
            },
    {
        self.switch_language(lang_id)
    }

    fn translate(&mut self, key: &str) -> (text: String)
        ensures
            text@ == match old(self)@.resolve(key@) {
                Some(found) => found,
                None => key@,
            },
            final(self)@ == old(self)@.after_get_text(key@),
    {
        match self.get_text(key) {
            Some(found) => found,
            None => key.to_owned(),
        }
    }

    fn add_translation_resource(&mut self, resource: TranslationResource) -> (added: Result<
        (),
        TranslationError,
    >)
        ensures
            match added {
                Ok(_) => {
                    &&& spec_first_bad_key(keys_of(pairs_view(resource.translations@)), 0) is None
                    &&& final(self)@ == old(self)@.after_register(
                        resource.lang_id@,
                        spec_collect(pairs_view(resource.translations@)),
                    )
                },
                Err(TranslationError::InvalidKeyFormat(key)) => {
                    &&& spec_first_bad_key(keys_of(pairs_view(resource.translations@)), 0) is Some
                    &&& key@ == keys_of(pairs_view(resource.translations@))[spec_first_bad_key(
                        keys_of(pairs_view(resource.translations@)),
                        0,
                    )->0]
                    &&& final(self)@ == old(self)@
                },
                Err(_) => false,
            },
    {
        match I18nManager::first_bad_key(&resource.translations) {
            Some(at) => Err(TranslationError::InvalidKeyFormat(resource.translations[at].0.clone())),
            None => {
                let set = I18nLangResources::from_pairs(&resource.translations);
                self.register(resource.lang_id.as_str(), set);
                Ok(())
            },
        }
    }

    fn remove_translation_resource(&mut self, lang_id: &str) -> (removed: Result<
        (),
        TranslationError,
    >)
        ensures
            match removed {
                Ok(_) => {
                    &&& assoc(old(self)@.resources, lang_id@) is Some
                    &&& final(self)@ == old(self)@.after_deregister(lang_id@)
                },
                Err(TranslationError::ResourceNotFound) => {
                    &&& assoc(old(self)@.resources, lang_id@) is None
                    &&& final(self)@ == old(self)@
                },
                Err(_) => false,
            },
    {
        if !self.is_registered(lang_id) {
            return Err(TranslationError::ResourceNotFound);
        }
        self.deregister(lang_id);
        Ok(())
    }

    fn get_available_langs(&self) -> (codes: Vec<String>)
        ensures
            texts_view(codes@) == keys_of(self@.resources),
    {
        self.registered_languages()
    }

    fn get_lang_name(&self, lang_id: &str) -> (name: Option<String>)
        ensures
            opt_text(name) == assoc(standard_native_names(), lang_id@),
    {
        LangTables::standard().native_name(lang_id)
    }
}

} // verus!
