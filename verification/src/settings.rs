//! The language settings: which language is chosen, which one stands in
//! where a text is missing, and which language packs are at hand.
//!
//! The settings are a plain value. Where they are kept and how a change of
//! them is made known is the business of the application.

use crate::table::{
    assoc, assoc_put, assoc_remove, distinct_keys, key_index, key_index_from, keys_of,
    lemma_assoc_put, lemma_assoc_remove, lemma_key_index, opt_text,
};
use crate::lang_codes::spec_matches;
use crate::lang_tables::{LangTables, LangTablesView};
use crate::text::same_text;
use vstd::prelude::*;
use vstd::string::StringExecFns;

verus! {

/// A copy of an optional string.
pub fn copy_of(text: &Option<String>) -> (copy: Option<String>)
    ensures
        opt_text(copy) == opt_text(*text),
{
    match text {
        Some(t) => Some(t.clone()),
        None => None,
    }
}

/// What is known of a language that can be chosen.
#[derive(Debug)]
pub struct I18nLangMeta {
    /// The code of the language.
    pub id: String,
    /// The name of the language.
    pub name: String,
    /// The name under which the language is shown.
    pub display_name: String,
    /// The identifier of the language pack that serves the language.
    pub extension_id: Option<String>,
    /// Whether the language is written from right to left.
    pub rtl: bool,
}

/// What an [`I18nLangMeta`] holds, as texts.
pub struct LangMetaView {
    pub id: Seq<char>,
    pub name: Seq<char>,
    pub display_name: Seq<char>,
    pub extension_id: Option<Seq<char>>,
    pub rtl: bool,
}

impl View for I18nLangMeta {
    type V = LangMetaView;

    open spec fn view(&self) -> LangMetaView {
        LangMetaView {
            id: self.id@,
            name: self.name@,
            display_name: self.display_name@,
            extension_id: opt_text(self.extension_id),
            rtl: self.rtl,
        }
    }
}

impl I18nLangMeta {
    /// What is known of a language that a language pack has announced by
    /// code and name: it is shown as the name followed by the code in
    /// brackets, has no pack assigned yet, and is written from left to right.
    pub fn announced(id: String, name: String) -> (meta: I18nLangMeta)
        ensures
            meta@ == (LangMetaView {
                id: id@,
                name: name@,
                display_name: name@ + " ("@ + id@ + ")"@,
                extension_id: None,
                rtl: false,
            }),
    {
        let display_name = name.clone().concat(" (").concat(id.as_str()).concat(")");
        I18nLangMeta { id, name, display_name, extension_id: None, rtl: false }
    }

    /// A copy.
    pub fn duplicate(&self) -> (copy: I18nLangMeta)
        ensures
            copy@ == self@,
    {
        I18nLangMeta {
            id: self.id.clone(),
            name: self.name.clone(),
            display_name: self.display_name.clone(),
            extension_id: copy_of(&self.extension_id),
            rtl: self.rtl,
        }
    }
}

/// The languages at hand as a table by code.
pub open spec fn metas_view(langs: Seq<I18nLangMeta>) -> Seq<(Seq<char>, LangMetaView)> {
    Seq::new(langs.len(), |i: int| (langs[i].id@, langs[i]@))
}

/// Whether the language pack `extension_id` serves the language of `meta`:
/// it is the pack that is assigned to the language, or its identifier matches
/// the code of the language under the tables `t`.
pub open spec fn spec_serves(t: LangTablesView, meta: LangMetaView, extension_id: Seq<char>) -> bool {
    meta.extension_id == Some(extension_id) || spec_matches(t, extension_id, meta.id)
}

/// The code of the first of the languages `langs[from..]` that the language
/// pack `extension_id` serves.
pub open spec fn spec_language_of_extension(
    t: LangTablesView,
    langs: Seq<(Seq<char>, LangMetaView)>,
    extension_id: Seq<char>,
    from: int,
) -> Option<Seq<char>>
    decreases langs.len() - from,
{
    if from < 0 || from >= langs.len() {
        None
    } else if spec_serves(t, langs[from].1, extension_id) {
        Some(langs[from].1.id)
    } else {
        spec_language_of_extension(t, langs, extension_id, from + 1)
    }
}

/// The language settings.
#[derive(Debug)]
pub struct I18nSettings {
    /// The code of the chosen language.
    pub i18n_lang: Option<String>,
    /// Whether the language of the system is taken at start.
    pub auto_detect_system_i18n_lang: bool,
    /// The code of the language that stands in where a text is missing.
    pub fallback_i18n_lang: Option<String>,
    /// The languages at hand, each under its code, in the order in which they
    /// came in.
    pub available_i18n_langs: Vec<I18nLangMeta>,
}

/// What an [`I18nSettings`] holds, as texts.
pub struct SettingsView {
    pub i18n_lang: Option<Seq<char>>,
    pub auto_detect_system_i18n_lang: bool,
    pub fallback_i18n_lang: Option<Seq<char>>,
    pub available_i18n_langs: Seq<(Seq<char>, LangMetaView)>,
}

impl View for I18nSettings {
    type V = SettingsView;

    open spec fn view(&self) -> SettingsView {
        SettingsView {
            i18n_lang: opt_text(self.i18n_lang),
            auto_detect_system_i18n_lang: self.auto_detect_system_i18n_lang,
            fallback_i18n_lang: opt_text(self.fallback_i18n_lang),
            available_i18n_langs: metas_view(self.available_i18n_langs@),
        }
    }
}

/// The value that the detection of the system language has where the
/// settings say nothing of it.
pub fn default_true() -> (on: bool)
    ensures
        on,
{
    true
}

impl Default for I18nSettings {
    /// Settings with nothing chosen, nothing detected and no language at
    /// hand.
    fn default() -> (settings: I18nSettings)
        ensures
            settings.wf(),
            settings@ == (SettingsView {
                i18n_lang: None,
                auto_detect_system_i18n_lang: false,
                fallback_i18n_lang: None,
                available_i18n_langs: Seq::empty(),
            }),
    {
        let settings = I18nSettings {
            i18n_lang: None,
            auto_detect_system_i18n_lang: false,
            fallback_i18n_lang: None,
            available_i18n_langs: Vec::new(),
        };
        assert(settings@.available_i18n_langs =~= Seq::empty());
        settings
    }
}

impl I18nSettings {
    /// No language is at hand twice, and each stands under its own code.
    pub open spec fn wf(&self) -> bool {
        &&& distinct_keys(keys_of(self@.available_i18n_langs))
        &&& forall|i: int|
            0 <= i < self@.available_i18n_langs.len() ==> (
            #[trigger] self@.available_i18n_langs[i]).0 == self@.available_i18n_langs[i].1.id
    }

    /// The position of the language with the code `lang_id`.
    fn position_of(&self, lang_id: &str) -> (found: Option<usize>)
        ensures
            match found {
                Some(i) => i < self.available_i18n_langs.len() && key_index(
                    keys_of(self@.available_i18n_langs),
                    lang_id@,
                ) == Some(i as int),
                None => key_index(keys_of(self@.available_i18n_langs), lang_id@) is None,
            },
    {
        let ghost keys = keys_of(self@.available_i18n_langs);
        let mut i: usize = 0;
        while i < self.available_i18n_langs.len()
            invariant
                i <= self.available_i18n_langs.len(),
                keys == keys_of(self@.available_i18n_langs),
                key_index(keys, lang_id@) == key_index_from(keys, lang_id@, i as int),
            decreases self.available_i18n_langs.len() - i,
        {
            if same_text(self.available_i18n_langs[i].id.as_str(), lang_id) {
                return Some(i);
            }
            i = i + 1;
        }
        None
    }

    /// The code of the chosen language.
    pub fn get_active_i18n_lang(&self) -> (lang: Option<String>)
        ensures
            opt_text(lang) == self@.i18n_lang,
    {
        copy_of(&self.i18n_lang)
    }

    /// Chooses the language, or none.
    pub fn set_i18n_lang(&mut self, lang: Option<String>)
        ensures
            final(self)@ == (SettingsView { i18n_lang: opt_text(lang), ..old(self)@ }),
    {
        self.i18n_lang = lang;
    }

    /// Whether the language of the system is taken at start.
    pub fn get_auto_detect_system_i18n_lang(&self) -> (on: bool)
        ensures
            on == self@.auto_detect_system_i18n_lang,
    {
        self.auto_detect_system_i18n_lang
    }

    /// Says whether the language of the system is taken at start.
    pub fn set_auto_detect_system_i18n_lang(&mut self, enable: bool)
        ensures
            final(self)@ == (SettingsView { auto_detect_system_i18n_lang: enable, ..old(self)@ }),
    {
        self.auto_detect_system_i18n_lang = enable;
    }

    /// The code of the language that stands in where a text is missing.
    pub fn get_fallback_i18n_lang(&self) -> (lang: Option<String>)
        ensures
            opt_text(lang) == self@.fallback_i18n_lang,
    {
        copy_of(&self.fallback_i18n_lang)
    }

    /// Chooses the language that stands in where a text is missing, or none.
    pub fn set_fallback_i18n_lang(&mut self, lang: Option<String>)
        ensures
            final(self)@ == (SettingsView { fallback_i18n_lang: opt_text(lang), ..old(self)@ }),
    {
        self.fallback_i18n_lang = lang;
    }

    /// The languages at hand, in the order in which they came in.
    pub fn get_available_i18n_langs(&self) -> (langs: Vec<I18nLangMeta>)
        ensures
            metas_view(langs@) == self@.available_i18n_langs,
    {
        let mut langs: Vec<I18nLangMeta> = Vec::new();
        let mut i: usize = 0;
        while i < self.available_i18n_langs.len()
            invariant
                i <= self.available_i18n_langs.len(),
                langs.len() == i,
                forall|j: int| 0 <= j < i ==> langs@[j]@ == self.available_i18n_langs@[j]@,
            decreases self.available_i18n_langs.len() - i,
        {
            langs.push(self.available_i18n_langs[i].duplicate());
            i = i + 1;
        }
        langs
    }

    /// What is known of the language with the code `lang_id`.
    pub fn find_available(&self, lang_id: &str) -> (meta: Option<&I18nLangMeta>)
        ensures
            match meta {
                Some(found) => assoc(self@.available_i18n_langs, lang_id@) == Some(found@),
                None => assoc(self@.available_i18n_langs, lang_id@) is None,
            },
    {
        match self.position_of(lang_id) {
            Some(i) => Some(&self.available_i18n_langs[i]),
            None => None,
        }
    }

    /// The code of the language that the language pack `extension_id` is
    /// for: that of the first language at hand which the pack is assigned to
    /// or whose code the identifier of the pack matches under `tables`.
    pub fn language_of_extension(&self, tables: &LangTables, extension_id: &str) -> (code: Option<
        String,
    >)
        ensures
            opt_text(code) == spec_language_of_extension(
                tables@,
                self@.available_i18n_langs,
                extension_id@,
                0,
            ),
    {
        let ghost langs = self@.available_i18n_langs;
        let mut i: usize = 0;
        while i < self.available_i18n_langs.len()
            invariant
                i <= self.available_i18n_langs.len(),
                langs == self@.available_i18n_langs,
                spec_language_of_extension(tables@, langs, extension_id@, 0)
                    == spec_language_of_extension(tables@, langs, extension_id@, i as int),
            decreases self.available_i18n_langs.len() - i,
        {
            let meta = &self.available_i18n_langs[i];
            let assigned = match &meta.extension_id {
                Some(id) => same_text(id.as_str(), extension_id),
                None => false,
            };
            if assigned || tables.matches(extension_id, meta.id.as_str()) {
                return Some(meta.id.clone());
            }
            i = i + 1;
        }
        None
    }

    /// Puts a language at hand, in place of the one that had its code.
    pub fn add_available_i18n_lang(&mut self, meta: I18nLangMeta)
        requires
            old(self).wf(),
        ensures
            final(self)@ == (SettingsView {
                available_i18n_langs: assoc_put(old(self)@.available_i18n_langs, meta.id@, meta@),
                ..old(self)@
            }),
            final(self).wf(),
    {
        let ghost before = self@.available_i18n_langs;
        let ghost added = meta@;
        proof {
            lemma_assoc_put(before, added.id, added);
            lemma_key_index(keys_of(before), added.id);
        }
        match self.position_of(meta.id.as_str()) {
            Some(i) => {
                self.available_i18n_langs.set(i, meta);
                assert(self@.available_i18n_langs =~= before.update(i as int, (added.id, added)));
            },
            None => {
                self.available_i18n_langs.push(meta);
                assert(self@.available_i18n_langs =~= before.push((added.id, added)));
            },
        }
    }

    /// Takes the language with the code `lang_id` from those at hand.
    pub fn remove_available_i18n_lang(&mut self, lang_id: &str)
        requires
            old(self).wf(),
        ensures
            final(self)@ == (SettingsView {
                available_i18n_langs: assoc_remove(old(self)@.available_i18n_langs, lang_id@),
                ..old(self)@
            }),
            final(self).wf(),
            assoc(final(self)@.available_i18n_langs, lang_id@) is None,
    {
        let ghost before = self@.available_i18n_langs;
        proof {
            lemma_assoc_remove(before, lang_id@);
            lemma_key_index(keys_of(before), lang_id@);
        }
        match self.position_of(lang_id) {
            Some(i) => {
                self.available_i18n_langs.remove(i);
                assert(self@.available_i18n_langs =~= before.remove(i as int));
            },
            None => {
            },
        }
    }

    /// Takes the language of the system as the chosen language where the
    /// settings ask for that; else nothing changes.
    pub fn init_default_lang(&mut self, system_lang: String)
        ensures
            final(self)@ == (if old(self)@.auto_detect_system_i18n_lang {
                SettingsView { i18n_lang: Some(system_lang@), ..old(self)@ }
            } else {
                old(self)@
            }),
    {
        if self.auto_detect_system_i18n_lang {
            self.i18n_lang = Some(system_lang);
        }
    }
}

/// The language of the system as the system names it, or the base language
/// where the system names none.
pub fn system_lang_or_base(locale: Option<String>) -> (lang: String)
    ensures
        lang@ == match locale {
            Some(named) => named@,
            None => "en-US"@,
        },
{
    match locale {
        Some(named) => named,
        None => "en-US".to_owned(),
    }
}

} // verus!
