//! The choice of a language from those at hand: which languages a query
//! brings up, which one is marked, and what confirming the choice does.
//!
//! How the list is drawn is the business of the application; what the list
//! holds is decided here.

use crate::manager::I18nManager;
use crate::settings::{copy_of, I18nLangMeta, I18nSettings, LangMetaView, SettingsView};
use crate::table::{key_index, key_index_from, opt_text};
use crate::text::{chars_of, contains, lowercase_of, same_text, spec_contains};
use vstd::prelude::*;

verus! {

/// One language that a query has brought up: its code, and the positions in
/// it that the query hit.
#[derive(Debug)]
pub struct StringMatch {
    /// The code of the language.
    pub text: String,
    /// The positions that the query hit; none are reported.
    pub positions: Vec<usize>,
}

/// The codes of a list of matches.
pub open spec fn matches_view(matches: Seq<StringMatch>) -> Seq<Seq<char>> {
    Seq::new(matches.len(), |i: int| matches[i].text@)
}

/// The views of a list of languages.
pub open spec fn langs_view(langs: Seq<I18nLangMeta>) -> Seq<LangMetaView> {
    Seq::new(langs.len(), |i: int| langs[i]@)
}

/// The codes of a list of languages.
pub open spec fn ids_of(langs: Seq<LangMetaView>) -> Seq<Seq<char>> {
    Seq::new(langs.len(), |i: int| langs[i].id)
}

/// Whether a query, in lower case already, brings up a language: its name or
/// the name it is shown under contains the query, both taken in lower case.
pub open spec fn spec_lang_matches(lang: LangMetaView, query_lower: Seq<char>) -> bool {
    spec_contains(lowercase_of(lang.name), query_lower) || spec_contains(
        lowercase_of(lang.display_name),
        query_lower,
    )
}

/// The codes of those of the first `count` languages that the query brings
/// up, in the order of the languages.
pub open spec fn spec_matching(langs: Seq<LangMetaView>, query_lower: Seq<char>, count: int) -> Seq<
    Seq<char>,
>
    decreases count,
{
    if count <= 0 {
        Seq::empty()
    } else {
        let before = spec_matching(langs, query_lower, count - 1);
        if spec_lang_matches(langs[count - 1], query_lower) {
            before.push(langs[count - 1].id)
        } else {
            before
        }
    }
}

/// What is shown for the match at position `index`: the name under which the
/// first language with the code of the match is shown, or the code where no
/// language has it, or nothing where there is no such match.
pub open spec fn spec_label(langs: Seq<LangMetaView>, matches: Seq<Seq<char>>, index: int) -> Seq<
    char,
> {
    if 0 <= index < matches.len() {
        match key_index(ids_of(langs), matches[index]) {
            Some(at) => langs[at].display_name,
            None => matches[index],
        }
    } else {
        Seq::empty()
    }
}

/// The state of a choice of language.
pub struct I18nLangSelector {
    i18n_langs: Vec<I18nLangMeta>,
    matches: Vec<StringMatch>,
    original_i18n_lang: String,
    selected_i18n_lang: Option<String>,
    selected_index: usize,
}

/// What an [`I18nLangSelector`] holds, as texts.
pub struct SelectorView {
    /// The languages to choose from.
    pub langs: Seq<LangMetaView>,
    /// The codes of the languages that the last query brought up.
    pub matches: Seq<Seq<char>>,
    /// The code of the language that was chosen when the choice began.
    pub original: Seq<char>,
    /// The code of the language that is marked.
    pub selected: Option<Seq<char>>,
    /// The position of the marked match.
    pub selected_index: nat,
}

impl View for I18nLangSelector {
    type V = SelectorView;

    closed spec fn view(&self) -> SelectorView {
        SelectorView {
            langs: langs_view(self.i18n_langs@),
            matches: matches_view(self.matches@),
            original: self.original_i18n_lang@,
            selected: opt_text(self.selected_i18n_lang),
            selected_index: self.selected_index as nat,
        }
    }
}

/// The views of the languages of a table by code.
pub open spec fn values_of(table: Seq<(Seq<char>, LangMetaView)>) -> Seq<LangMetaView> {
    Seq::new(table.len(), |i: int| table[i].1)
}

impl I18nLangSelector {
    /// A choice among the languages that the settings have at hand. The
    /// chosen language of the settings is marked, or the base language where
    /// none is chosen; no query has been made yet.
    pub fn new(settings: &I18nSettings) -> (selector: I18nLangSelector)
        ensures
            selector@ == (SelectorView {
                langs: values_of(settings@.available_i18n_langs),
                matches: Seq::empty(),
                original: match settings@.i18n_lang {
                    Some(code) => code,
                    None => "en-US"@,
                },
                selected: Some(
                    match settings@.i18n_lang {
                        Some(code) => code,
                        None => "en-US"@,
                    },
                ),
                selected_index: 0,
            }),
    {
        let current = match settings.get_active_i18n_lang() {
            Some(code) => code,
            None => "en-US".to_owned(),
        };
        let langs = settings.get_available_i18n_langs();
        let selector = I18nLangSelector {
            i18n_langs: langs,
            matches: Vec::new(),
            original_i18n_lang: current.clone(),
            selected_i18n_lang: Some(current),
            selected_index: 0,
        };
        assert(selector@.langs =~= values_of(settings@.available_i18n_langs));
        assert(selector@.matches =~= Seq::empty());
        selector
    }

    /// The text that stands in the empty query field.
    pub fn placeholder_text() -> (text: String)
        ensures
            text@ == "选择语言..."@,
    {
        "选择语言...".to_owned()
    }

    /// The number of languages that the last query brought up.
    pub fn match_count(&self) -> (count: usize)
        ensures
            count == self@.matches.len(),
    {
        self.matches.len()
    }

    /// The position of the marked match.
    pub fn selected_index(&self) -> (index: usize)
        ensures
            index == self@.selected_index,
    {
        self.selected_index
    }

    /// The code of the marked language.
    pub fn selected_lang(&self) -> (lang: Option<String>)
        ensures
            opt_text(lang) == self@.selected,
    {
        copy_of(&self.selected_i18n_lang)
    }

    /// Marks the match at position `index`. Where there is no such match the
    /// marked language stays.
    pub fn set_selected_index(&mut self, index: usize)
        ensures
            final(self)@ == (SelectorView {
                selected_index: index as nat,
                selected: if index < old(self)@.matches.len() {
                    Some(old(self)@.matches[index as int])
                } else {
                    old(self)@.selected
                },
                ..old(self)@
            }),
    {
        self.selected_index = index;
        if index < self.matches.len() {
            self.selected_i18n_lang = Some(self.matches[index].text.clone());
        }
    }

    /// Makes the query: brings up the languages whose name, or the name they
    /// are shown under, contains the query, case aside. The first of them is
    /// marked; where there is none, the mark stays.
    pub fn update_matches(&mut self, query: &str)
        ensures
            final(self)@.langs == old(self)@.langs,
            final(self)@.original == old(self)@.original,
            final(self)@.matches == spec_matching(
                old(self)@.langs,
                lowercase_of(query@),
                old(self)@.langs.len() as int,
            ),
            final(self)@.selected_index == (if final(self)@.matches.len() > 0 {
                0
            } else {
                old(self)@.selected_index
            }),
            final(self)@.selected == (if final(self)@.matches.len() > 0 {
                Some(final(self)@.matches[0])
            } else {
                old(self)@.selected
            }),
    {
        let wanted = chars_of(query.to_lowercase().as_str());
        let ghost langs = self@.langs;
        let mut found: Vec<StringMatch> = Vec::new();
        let mut i: usize = 0;
        while i < self.i18n_langs.len()
            invariant
                i <= self.i18n_langs.len(),
                wanted@ == lowercase_of(query@),
                langs == langs_view(self.i18n_langs@),
                matches_view(found@) == spec_matching(langs, wanted@, i as int),
            decreases self.i18n_langs.len() - i,
        {
            let lang = &self.i18n_langs[i];
            let name = chars_of(lang.name.as_str().to_lowercase().as_str());
            let shown = chars_of(lang.display_name.as_str().to_lowercase().as_str());
            if contains(&name, &wanted) || contains(&shown, &wanted) {
                found.push(StringMatch { text: lang.id.clone(), positions: Vec::new() });
            }
            i = i + 1;
        }
        self.matches = found;
        if self.matches.len() > 0 {
            self.selected_index = 0;
            self.selected_i18n_lang = Some(self.matches[0].text.clone());
        }
    }

    /// Confirms the choice: the marked language becomes the chosen language
    /// of the settings, the language of the system is no longer taken at
    /// start, and a switch of the engine to the language is tried. Where no
    /// language is marked nothing changes.
    pub fn confirm_selection(&self, settings: &mut I18nSettings, manager: &mut I18nManager)
        requires
            old(manager).wf(),
        ensures
            final(manager).wf(),
            match self@.selected {
                Some(code) => {
                    &&& final(settings)@ == (SettingsView {
                        i18n_lang: Some(code),
                        auto_detect_system_i18n_lang: false,
                        ..old(settings)@
                    })
                    &&& final(manager)@ == old(manager)@.after_switch_attempt(code)
                },
                None => final(settings)@ == old(settings)@ && final(manager)@ == old(manager)@,
            },
    {
        match &self.selected_i18n_lang {
            Some(code) => {
                settings.set_i18n_lang(Some(code.clone()));
                settings.set_auto_detect_system_i18n_lang(false);
                let _ = manager.switch_language(code.as_str());
            },
            None => {},
        }
    }

    /// What is shown for the match at position `index`.
    pub fn render_match(&self, index: usize) -> (label: String)
        ensures
            label@ == spec_label(self@.langs, self@.matches, index as int),
    {
        if index >= self.matches.len() {
            return String::new();
        }
        let code = &self.matches[index].text;
        let ghost ids = ids_of(self@.langs);
        let mut i: usize = 0;
        while i < self.i18n_langs.len()
            invariant
                i <= self.i18n_langs.len(),
                index < self.matches.len(),
                code@ == self@.matches[index as int],
                ids == ids_of(self@.langs),
                key_index(ids, code@) == key_index_from(ids, code@, i as int),
            decreases self.i18n_langs.len() - i,
        {
            if same_text(self.i18n_langs[i].id.as_str(), code.as_str()) {
                return self.i18n_langs[i].display_name.clone();
            }
            i = i + 1;
        }
        code.clone()
    }
}

} // verus!
