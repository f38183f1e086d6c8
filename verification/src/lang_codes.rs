//! Language codes: normalizing raw locale spellings, and deciding whether a
//! language pack serves a language.

use crate::lang_tables::{
    standard_native_names, standard_search_keywords, standard_tables, LangTables, LangTablesView,
};
use crate::table::{
    assoc, keys_of, lookup_list, lookup_pair, opt_text, stored_keys, texts_view,
};
use crate::text::{
    chars_of, contains, lowercase_of, position, same_text, slice_of, spec_before, spec_contains,
    spec_position, spec_starts_with, starts_with, string_of, string_of_range,
};
use vstd::prelude::*;
use vstd::string::StringExecFns;

verus! {

/// A language code could not be accepted.
#[derive(Debug, Clone, PartialEq, Eq)]
pub enum LanguageError {
    /// The code names no language that the tables know.
    UnknownLanguage(String),
}

impl LanguageError {
    /// The message of the error, for display.
    pub fn message(&self) -> (text: String)
        ensures
            match *self {
                LanguageError::UnknownLanguage(code) => text@ == "不支持的语言代码: "@ + code@,
            },
    {
        match self {
            LanguageError::UnknownLanguage(code) => {
                "不支持的语言代码: ".to_owned().concat(code.as_str())
            },
        }
    }
}

/// A language: its canonical code and its name in its own script.
#[derive(Debug, Clone, PartialEq, Eq, Hash)]
pub struct Language {
    /// The canonical code, such as `zh-cn` or `ja`.
    pub code: String,
    /// The name of the language in its own script.
    pub display_name: String,
}

/// The prefix that the identifier of every language pack begins with.
pub open spec fn pack_prefix() -> Seq<char> {
    "i18n-"@
}

/// The main-language part of a locale spelling: what stands before its first
/// `_` or `-`.
pub open spec fn spec_main_part(text: Seq<char>) -> Seq<char> {
    let under = spec_position(text, '_', 0);
    let dash = spec_position(text, '-', 0);
    text.subrange(
        0,
        if under <= dash {
            under
        } else {
            dash
        },
    )
}

/// The canonical code of a spelling that is already in lower case: what the
/// table gives for the spelling itself; failing that, for the spelling without
/// what follows its first `.`; failing that, for the main-language part of
/// the latter.
pub open spec fn spec_normalize(
    mappings: Seq<(Seq<char>, Seq<char>)>,
    lowered: Seq<char>,
) -> Option<Seq<char>> {
    let stripped = spec_before(lowered, '.');
    if assoc(mappings, lowered) is Some {
        assoc(mappings, lowered)
    } else if assoc(mappings, stripped) is Some {
        assoc(mappings, stripped)
    } else {
        assoc(mappings, spec_main_part(stripped))
    }
}

/// Some spelling of the table stands for `code`.
pub open spec fn spec_is_canonical(mappings: Seq<(Seq<char>, Seq<char>)>, code: Seq<char>) -> bool {
    exists|i: int| 0 <= i < mappings.len() && (#[trigger] mappings[i]).1 == code
}

/// Every key of `keys` is its own lower-case form.
pub open spec fn spec_all_lowered(keys: Seq<Seq<char>>) -> bool {
    forall|i: int| 0 <= i < keys.len() ==> lowercase_of(#[trigger] keys[i]) == keys[i]
}

/// The keys of all four tables are in lower case, as lookups expect them.
pub open spec fn spec_keys_lowered(t: LangTablesView) -> bool {
    &&& spec_all_lowered(keys_of(t.mappings))
    &&& spec_all_lowered(keys_of(t.keywords))
    &&& spec_all_lowered(keys_of(t.native_names))
    &&& spec_all_lowered(keys_of(t.search_keywords))
}

/// Each word in lower case.
pub open spec fn spec_lowered_all(words: Seq<Seq<char>>) -> Seq<Seq<char>> {
    Seq::new(words.len(), |i: int| lowercase_of(words[i]))
}

/// `text` contains one of `words`.
pub open spec fn spec_contains_any(text: Seq<char>, words: Seq<Seq<char>>) -> bool {
    exists|i: int| 0 <= i < words.len() && spec_contains(text, #[trigger] words[i])
}

/// Whether the language pack `id` serves the language `code`, all texts but
/// `code` being in lower case already. A pack serves the language when its
/// identifier begins with the prefix and what follows the prefix begins with
/// the code, or contains one of the language's keywords, or contains the
/// language's native name.
pub open spec fn spec_extension_matches(
    id: Seq<char>,
    code: Seq<char>,
    keywords: Seq<Seq<char>>,
    native: Option<Seq<char>>,
) -> bool {
    let part = id.subrange(pack_prefix().len() as int, id.len() as int);
    &&& spec_starts_with(id, pack_prefix())
    &&& {
        ||| spec_starts_with(part, code)
        ||| spec_contains_any(part, keywords)
        ||| (native is Some && spec_contains(part, native->0))
    }
}

/// The keywords of `code` in lower case; none where the table has no entry.
pub open spec fn spec_keywords_lowered(t: LangTablesView, code: Seq<char>) -> Seq<Seq<char>> {
    match assoc(t.keywords, code) {
        Some(words) => spec_lowered_all(words),
        None => Seq::empty(),
    }
}

/// The native name of `code` in lower case.
pub open spec fn spec_native_lowered(t: LangTablesView, code: Seq<char>) -> Option<Seq<char>> {
    match assoc(t.native_names, code) {
        Some(name) => Some(lowercase_of(name)),
        None => None,
    }
}

/// Whether the language pack `package_id` serves the language `code` under
/// the tables `t`. The identifier, the keywords and the native name are
/// compared in lower case; the code is taken as it is.
pub open spec fn spec_matches(t: LangTablesView, package_id: Seq<char>, code: Seq<char>) -> bool {
    spec_extension_matches(
        lowercase_of(package_id),
        code,
        spec_keywords_lowered(t, code),
        spec_native_lowered(t, code),
    )
}

/// The identifier made of the prefix and the first of `words[from..]` that
/// gives an identifier serving `code`.
pub open spec fn spec_first_candidate(
    t: LangTablesView,
    code: Seq<char>,
    words: Seq<Seq<char>>,
    from: int,
) -> Option<Seq<char>>
    decreases words.len() - from,
{
    if from < 0 || from >= words.len() {
        None
    } else if spec_matches(t, pack_prefix() + words[from], code) {
        Some(pack_prefix() + words[from])
    } else {
        spec_first_candidate(t, code, words, from + 1)
    }
}

/// A plausible pack identifier for the language with the lower-case code
/// `lowered`: none where the language has no native name or no keywords,
/// else the first keyword that gives a matching identifier.
pub open spec fn spec_find_extension_id(t: LangTablesView, lowered: Seq<char>) -> Option<
    Seq<char>,
> {
    if assoc(t.native_names, lowered) is None {
        None
    } else {
        match assoc(t.keywords, lowered) {
            Some(words) => spec_first_candidate(t, lowered, words, 0),
            None => None,
        }
    }
}

/// Whether `lang_code` passes as a language setting: the empty code and `en`
/// always do, any other code where its lower-case form has a native name.
pub open spec fn spec_valid_setting(t: LangTablesView, lang_code: Seq<char>) -> bool {
    ||| lang_code.len() == 0
    ||| lang_code == "en"@
    ||| assoc(t.native_names, lowercase_of(lang_code)) is Some
}

/// Each of `words` in lower case.
fn lowered_words(words: &Vec<String>) -> (out: Vec<String>)
    ensures
        texts_view(out@) == spec_lowered_all(texts_view(words@)),
{
    let mut out: Vec<String> = Vec::new();
    let mut i: usize = 0;
    while i < words.len()
        invariant
            i <= words.len(),
            out.len() == i,
            forall|j: int| 0 <= j < i ==> out@[j]@ == lowercase_of(words@[j]@),
        decreases words.len() - i,
    {
        out.push(words[i].as_str().to_lowercase());
        i = i + 1;
    }
    out
}

/// Whether `text` contains one of `words`.
fn contains_any(text: &Vec<char>, words: &Vec<String>) -> (found: bool)
    ensures
        found == spec_contains_any(text@, texts_view(words@)),
{
    let mut i: usize = 0;
    while i < words.len()
        invariant
            i <= words.len(),
            forall|j: int| 0 <= j < i ==> !spec_contains(text@, #[trigger] texts_view(words@)[j]),
        decreases words.len() - i,
    {
        let word = chars_of(words[i].as_str());
        if contains(text, &word) {
            assert(spec_contains(text@, texts_view(words@)[i as int]));
            return true;
        }
        i = i + 1;
    }
    false
}

/// Whether the language pack `id_lower` serves the language `lang_code`, where
/// the identifier, the keywords and the native name are in lower case already.
pub fn extension_matches(
    id_lower: &str,
    lang_code: &str,
    keywords_lower: &Vec<String>,
    native_lower: Option<&String>,
) -> (matched: bool)
    ensures
        matched == spec_extension_matches(
            id_lower@,
            lang_code@,
            texts_view(keywords_lower@),
            match native_lower {
                Some(name) => Some(name@),
                None => None,
            },
        ),
{
    let id = chars_of(id_lower);
    let prefix = chars_of("i18n-");
    if !starts_with(&id, &prefix) {
        return false;
    }
    let part = slice_of(&id, prefix.len(), id.len());
    let code = chars_of(lang_code);
    if starts_with(&part, &code) {
        return true;
    }
    if contains_any(&part, keywords_lower) {
        return true;
    }
    match native_lower {
        Some(name) => {
            let native = chars_of(name.as_str());
            contains(&part, &native)
        },
        None => false,
    }
}

/// Whether every key of `table` is its own lower-case form.
fn keys_lowered<V>(table: &Vec<(String, V)>) -> (lowered: bool)
    ensures
        lowered == spec_all_lowered(stored_keys(table@)),
{
    let mut i: usize = 0;
    while i < table.len()
        invariant
            i <= table.len(),
            forall|j: int|
                0 <= j < i ==> lowercase_of(#[trigger] stored_keys(table@)[j]) == stored_keys(
                    table@,
                )[j],
        decreases table.len() - i,
    {
        let key = table[i].0.as_str();
        assert(stored_keys(table@)[i as int] == key@);
        if !same_text(key.to_lowercase().as_str(), key) {
            return false;
        }
        i = i + 1;
    }
    true
}

impl LangTables {
    /// Whether the keys of all four tables are in lower case. Lookups are made
    /// with lower-case texts, so an entry under a key that is not in lower
    /// case is never found.
    pub fn is_lowered(&self) -> (lowered: bool)
        ensures
            lowered == spec_keys_lowered(self@),
    {
        assert(keys_of(self@.mappings) =~= stored_keys(self.mappings@));
        assert(keys_of(self@.keywords) =~= stored_keys(self.keywords@));
        assert(keys_of(self@.native_names) =~= stored_keys(self.native_names@));
        assert(keys_of(self@.search_keywords) =~= stored_keys(self.search_keywords@));
        keys_lowered(&self.mappings) && keys_lowered(&self.keywords) && keys_lowered(
            &self.native_names,
        ) && keys_lowered(&self.search_keywords)
    }

    /// The canonical code that the table gives for the spelling `raw` as it
    /// is written.
    pub fn system_mapping(&self, raw: &str) -> (code: Option<String>)
        ensures
            opt_text(code) == assoc(self@.mappings, raw@),
    {
        match lookup_pair(&self.mappings, raw) {
            Some(found) => Some(found.clone()),
            None => None,
        }
    }

    /// The native name of the language `code`.
    pub fn native_name(&self, code: &str) -> (name: Option<String>)
        ensures
            opt_text(name) == assoc(self@.native_names, code@),
    {
        match lookup_pair(&self.native_names, code) {
            Some(found) => Some(found.clone()),
            None => None,
        }
    }

    /// The search words of the language `code`.
    pub fn search_words(&self, code: &str) -> (words: Option<String>)
        ensures
            opt_text(words) == assoc(self@.search_keywords, code@),
    {
        match lookup_pair(&self.search_keywords, code) {
            Some(found) => Some(found.clone()),
            None => None,
        }
    }

    /// Whether some spelling of the normalization table stands for `code`.
    pub fn is_canonical(&self, code: &str) -> (canonical: bool)
        ensures
            canonical == spec_is_canonical(self@.mappings, code@),
    {
        let mut i: usize = 0;
        while i < self.mappings.len()
            invariant
                i <= self.mappings.len(),
                forall|j: int| 0 <= j < i ==> (#[trigger] self@.mappings[j]).1 != code@,
            decreases self.mappings.len() - i,
        {
            if same_text(self.mappings[i].1.as_str(), code) {
                assert(self@.mappings[i as int].1 == code@);
                return true;
            }
            i = i + 1;
        }
        false
    }

    /// The canonical code of a spelling that is in lower case already.
    pub fn normalize_lowered(&self, lowered: &str) -> (code: Option<String>)
        ensures
            opt_text(code) == spec_normalize(self@.mappings, lowered@),
    {
        if let Some(found) = lookup_pair(&self.mappings, lowered) {
            return Some(found.clone());
        }
        let chars = chars_of(lowered);
        let dot = position(&chars, '.', 0);
        let stripped = slice_of(&chars, 0, dot);
        let stripped_text = string_of(&stripped);
        if let Some(found) = lookup_pair(&self.mappings, stripped_text.as_str()) {
            return Some(found.clone());
        }
        let under = position(&stripped, '_', 0);
        let dash = position(&stripped, '-', 0);
        let cut = if under <= dash {
            under
        } else {
            dash
        };
        let main = string_of_range(&stripped, 0, cut);
        match lookup_pair(&self.mappings, main.as_str()) {
            Some(found) => Some(found.clone()),
            None => None,
        }
    }

    /// The canonical code of the raw locale spelling `raw`, or `None` where
    /// the language is not supported.
    pub fn normalize(&self, raw: &str) -> (code: Option<String>)
        ensures
            opt_text(code) == spec_normalize(self@.mappings, lowercase_of(raw@)),
    {
        let lowered = raw.to_lowercase();
        self.normalize_lowered(lowered.as_str())
    }

    /// The language whose code, in lower case already, is `lowered`.
    pub fn language_of(&self, lowered: String) -> (made: Result<Language, LanguageError>)
        ensures
            match made {
                Ok(lang) => {
                    &&& lang.code@ == lowered@
                    &&& assoc(self@.native_names, lowered@) == Some(lang.display_name@)
                },
                Err(LanguageError::UnknownLanguage(code)) => {
                    &&& code@ == lowered@
                    &&& assoc(self@.native_names, lowered@) is None
                },
            },
    {
        match lookup_pair(&self.native_names, lowered.as_str()) {
            Some(name) => Ok(Language { code: lowered, display_name: name.clone() }),
            None => Err(LanguageError::UnknownLanguage(lowered)),
        }
    }

    /// The language with the code `code`, which is taken in lower case.
    pub fn language(&self, code: &str) -> (made: Result<Language, LanguageError>)
        ensures
            match made {
                Ok(lang) => {
                    &&& lang.code@ == lowercase_of(code@)
                    &&& assoc(self@.native_names, lowercase_of(code@)) == Some(
                        lang.display_name@,
                    )
                },
                Err(LanguageError::UnknownLanguage(unknown)) => {
                    &&& unknown@ == lowercase_of(code@)
                    &&& assoc(self@.native_names, lowercase_of(code@)) is None
                },
            },
    {
        self.language_of(code.to_lowercase())
    }

    /// The keywords of `code`, each in lower case.
    fn keywords_lowered(&self, code: &str) -> (words: Vec<String>)
        ensures
            texts_view(words@) == spec_keywords_lowered(self@, code@),
    {
        match lookup_list(&self.keywords, code) {
            Some(words) => lowered_words(words),
            None => {
                let none: Vec<String> = Vec::new();
                none
            },
        }
    }

    /// The native name of `code` in lower case.
    fn native_lowered(&self, code: &str) -> (name: Option<String>)
        ensures
            opt_text(name) == spec_native_lowered(self@, code@),
    {
        match lookup_pair(&self.native_names, code) {
            Some(name) => Some(name.as_str().to_lowercase()),
            None => None,
        }
    }

    /// Whether the language pack `package_id` serves the language
    /// `lang_code`.
    pub fn matches(&self, package_id: &str, lang_code: &str) -> (matched: bool)
        ensures
            matched == spec_matches(self@, package_id@, lang_code@),
    {
        let id_lower = package_id.to_lowercase();
        let keywords = self.keywords_lowered(lang_code);
        let native = self.native_lowered(lang_code);
        extension_matches(id_lower.as_str(), lang_code, &keywords, native.as_ref())
    }

    /// A plausible pack identifier for the language `lang_code`: the prefix
    /// followed by the first keyword of the language that gives an identifier
    /// serving it. `None` where the language is unknown or no keyword does.
    pub fn find_extension_id(&self, lang_code: &str) -> (id: Option<String>)
        ensures
            opt_text(id) == spec_find_extension_id(self@, lowercase_of(lang_code@)),
    {
        let lowered = lang_code.to_lowercase();
        if lookup_pair(&self.native_names, lowered.as_str()).is_none() {
            return None;
        }
        let words = match lookup_list(&self.keywords, lowered.as_str()) {
            Some(words) => words,
            None => {
                return None;
            },
        };
        let keywords = self.keywords_lowered(lowered.as_str());
        let native = self.native_lowered(lowered.as_str());
        let ghost t = self@;
        let ghost listed = texts_view(words@);
        let mut i: usize = 0;
        while i < words.len()
            invariant
                i <= words.len(),
                t == self@,
                listed == texts_view(words@),
                lowered@ == lowercase_of(lang_code@),
                assoc(t.keywords, lowered@) == Some(listed),
                assoc(t.native_names, lowered@) is Some,
                texts_view(keywords@) == spec_keywords_lowered(t, lowered@),
                opt_text(native) == spec_native_lowered(t, lowered@),
                spec_first_candidate(t, lowered@, listed, 0) == spec_first_candidate(
                    t,
                    lowered@,
                    listed,
                    i as int,
                ),
            decreases words.len() - i,
        {
            let candidate = "i18n-".to_owned().concat(words[i].as_str());
            let candidate_lower = candidate.as_str().to_lowercase();
            if extension_matches(
                candidate_lower.as_str(),
                lowered.as_str(),
                &keywords,
                native.as_ref(),
            ) {
                return Some(candidate);
            }
            i = i + 1;
        }
        None
    }

    /// Checks `lang_code` as a language setting: the empty code and `en` are
    /// always accepted, any other code where it names a known language.
    pub fn validate(&self, lang_code: &str) -> (checked: Result<(), LanguageError>)
        ensures
            match checked {
                Ok(_) => spec_valid_setting(self@, lang_code@),
                Err(LanguageError::UnknownLanguage(unknown)) => {
                    &&& !spec_valid_setting(self@, lang_code@)
                    &&& unknown@ == lowercase_of(lang_code@)
                },
            },
    {
        if lang_code.is_empty() {
            return Ok(());
        }
        if same_text(lang_code, "en") {
            return Ok(());
        }
        match self.language(lang_code) {
            Ok(_) => Ok(()),
            Err(e) => Err(e),
        }
    }
}

impl Language {
    /// The language with the code `code`, by the standard tables. The code
    /// is taken in lower case.
    pub fn from_code(code: &str) -> (made: Result<Language, LanguageError>)
        ensures
            match made {
                Ok(lang) => {
                    &&& lang.code@ == lowercase_of(code@)
                    &&& assoc(standard_native_names(), lowercase_of(code@)) == Some(
                        lang.display_name@,
                    )
                },
                Err(LanguageError::UnknownLanguage(unknown)) => {
                    &&& unknown@ == lowercase_of(code@)
                    &&& assoc(standard_native_names(), lowercase_of(code@)) is None
                },
            },
    {
        LangTables::standard().language(code)
    }

    /// The words by which packs for this language are searched.
    pub fn search_keywords(&self) -> (words: Option<String>)
        ensures
            opt_text(words) == assoc(standard_search_keywords(), self.code@),
    {
        LangTables::standard().search_words(self.code.as_str())
    }

    /// Whether the language pack `extension_id` serves this language.
    pub fn is_supported_by_extension(&self, extension_id: &str) -> (supported: bool)
        ensures
            supported == spec_matches(standard_tables(), extension_id@, self.code@),
    {
        is_extension_match(extension_id, self.code.as_str())
    }

    /// Checks `lang_code` as a language setting, by the standard tables.
    pub fn validate(lang_code: &str) -> (checked: Result<(), LanguageError>)
        ensures
            match checked {
                Ok(_) => spec_valid_setting(standard_tables(), lang_code@),
                Err(LanguageError::UnknownLanguage(unknown)) => {
                    &&& !spec_valid_setting(standard_tables(), lang_code@)
                    &&& unknown@ == lowercase_of(lang_code@)
                },
            },
    {
        LangTables::standard().validate(lang_code)
    }

    /// A plausible pack identifier for the language `lang_code`, by the
    /// standard tables.
    pub fn find_extension_id(lang_code: &str) -> (id: Option<String>)
        ensures
            opt_text(id) == spec_find_extension_id(standard_tables(), lowercase_of(lang_code@)),
    {
        LangTables::standard().find_extension_id(lang_code)
    }

    /// The native name of the language `lang_code`, by the standard tables.
    pub fn get_display_name(lang_code: &str) -> (name: Option<String>)
        ensures
            opt_text(name) == assoc(standard_native_names(), lang_code@),
    {
        LangTables::standard().native_name(lang_code)
    }
}

/// Whether the language pack `extension_id` serves the language `lang_code`,
/// by the standard tables.
pub fn is_extension_match(extension_id: &str, lang_code: &str) -> (matched: bool)
    ensures
        matched == spec_matches(standard_tables(), extension_id@, lang_code@),
{
    LangTables::standard().matches(extension_id, lang_code)
}

/// The canonical code of the raw locale spelling `raw`, by the standard
/// tables; `None` where the language is not supported.
pub fn normalize(raw: &str) -> (code: Option<String>)
    ensures
        opt_text(code) == spec_normalize(standard_tables().mappings, lowercase_of(raw@)),
{
    LangTables::standard().normalize(raw)
}

} // verus!
