//! From the findings of a scan to a table of default texts: the translation
//! key that a found text gets, and the source of the table.

use crate::defaults_file::{
    push_insert_line, spec_insert_line, spec_insert_lines, spec_table_tail,
};
use crate::menus::{quoted, spec_quoted};
use crate::resources::I18nLangResources;
use crate::scanner::{findings_view, FindingView, HardcodedString};
use crate::table::{assoc, assoc_put, lookup_pair, pairs_view};
use crate::text::{
    chars_of, contains, end_without, extend, lowercase_of, skip_char, slice_of, spec_contains,
    spec_end_without, spec_skip_char, spec_trim, string_of, trim,
};
use vstd::prelude::*;

verus! {

/// Texts by key.
pub type Entries = Seq<(Seq<char>, Seq<char>)>;

/// `text` with an underscore for each blank and each hyphen.
pub open spec fn spec_underscored(text: Seq<char>) -> Seq<char> {
    Seq::new(
        text.len(),
        |i: int|
            if text[i] == ' ' || text[i] == '-' {
                '_'
            } else {
                text[i]
            },
    )
}

/// Whether `c` is one of the marks that a key does not hold.
pub open spec fn spec_is_mark(c: char) -> bool {
    c == '…' || c == '.' || c == ':' || c == '?' || c == '!' || c == '"' || c == ',' || c == '/'
        || c == '\\'
}

/// `text[..upto]` without its marks.
pub open spec fn spec_without_marks(text: Seq<char>, upto: int) -> Seq<char>
    decreases upto,
{
    if upto <= 0 || upto > text.len() {
        Seq::empty()
    } else {
        let before = spec_without_marks(text, upto - 1);
        if spec_is_mark(text[upto - 1]) {
            before
        } else {
            before.push(text[upto - 1])
        }
    }
}

/// `text` without every `ch` at its start and at its end.
pub open spec fn spec_strip(text: Seq<char>, ch: char) -> Seq<char> {
    let start = spec_skip_char(text, ch, 0);
    let end = spec_end_without(text, ch, text.len() as int);
    if start < end {
        text.subrange(start, end)
    } else {
        Seq::empty()
    }
}

/// The part of a translation key that a text gives once it is trimmed and in
/// lower case: with an underscore for each blank and hyphen, without marks,
/// and without underscores at its start and its end.
pub open spec fn spec_key_of_lowered(lowered: Seq<char>) -> Seq<char> {
    spec_strip(spec_without_marks(spec_underscored(lowered), lowered.len() as int), '_')
}

/// The part of a translation key that the text `text` gives.
pub open spec fn spec_normalize_key(text: Seq<char>) -> Seq<char> {
    spec_key_of_lowered(lowercase_of(spec_trim(text)))
}

/// The key of the item `text` of the menu `menu` of the menu bar.
pub open spec fn spec_generate_key(menu: Seq<char>, text: Seq<char>) -> Seq<char> {
    "i18n.top_menu_bar."@ + spec_normalize_key(menu) + "."@ + spec_normalize_key(text)
}

/// The quoted text of the line `line`, where it has one that is not empty
/// and holds no address.
pub open spec fn spec_extract_text(line: Seq<char>) -> Option<Seq<char>> {
    match spec_quoted(line) {
        Some(text) => if text.len() > 0 && !spec_contains(text, "http://"@) && !spec_contains(
            text,
            "https://"@,
        ) {
            Some(text)
        } else {
            None
        },
        None => None,
    }
}

/// Whether the line names a menu of the menu bar.
pub open spec fn spec_names_menu(line: Seq<char>) -> bool {
    spec_contains(line, "Menu {"@) && spec_contains(line, "name:"@)
}

/// The key and the text that the line `content` gives by itself: the text is
/// the quoted text of the line; the key is that of a menu where the line
/// names one, else that of an item of an unknown menu.
pub open spec fn spec_process_menu_text(content: Seq<char>) -> Option<(Seq<char>, Seq<char>)> {
    match spec_extract_text(content) {
        Some(text) => if spec_names_menu(content) {
            Some(("i18n.top_menu_bar."@ + spec_normalize_key(text), text))
        } else {
            Some(("i18n.top_menu_bar.unknown."@ + spec_normalize_key(text), text))
        },
        None => None,
    }
}

/// The part of a translation key that a text gives once it is trimmed and in
/// lower case.
pub fn key_of_lowered(lowered: &Vec<char>) -> (key: Vec<char>)
    ensures
        key@ == spec_key_of_lowered(lowered@),
{
    let ghost under = spec_underscored(lowered@);
    let mut kept: Vec<char> = Vec::new();
    let mut i: usize = 0;
    while i < lowered.len()
        invariant
            i <= lowered.len(),
            under == spec_underscored(lowered@),
            kept@ == spec_without_marks(under, i as int),
        decreases lowered.len() - i,
    {
        let c = if lowered[i] == ' ' || lowered[i] == '-' {
            '_'
        } else {
            lowered[i]
        };
        if !(c == '…' || c == '.' || c == ':' || c == '?' || c == '!' || c == '"' || c == ','
            || c == '/' || c == '\\') {
            kept.push(c);
        }
        i = i + 1;
    }
    let start = skip_char(&kept, '_', 0);
    let end = end_without(&kept, '_', kept.len());
    if start < end {
        slice_of(&kept, start, end)
    } else {
        Vec::new()
    }
}

/// The part of a translation key that the text `text` gives.
pub fn normalize_key(text: &str) -> (key: String)
    ensures
        key@ == spec_normalize_key(text@),
{
    let trimmed = string_of(&trim(&chars_of(text)));
    let lowered = chars_of(trimmed.as_str().to_lowercase().as_str());
    string_of(&key_of_lowered(&lowered))
}

/// The key of the item `text` of the menu `menu` of the menu bar.
pub fn generate_key(menu: &str, text: &str) -> (key: String)
    ensures
        key@ == spec_generate_key(menu@, text@),
{
    let mut key = chars_of("i18n.top_menu_bar.");
    extend(&mut key, &chars_of(normalize_key(menu).as_str()));
    extend(&mut key, &chars_of("."));
    extend(&mut key, &chars_of(normalize_key(text).as_str()));
    string_of(&key)
}

/// The quoted text of the line `line`, where it has one that is not empty
/// and holds no address.
pub fn extract_text(line: &str) -> (text: Option<String>)
    ensures
        crate::table::opt_text(text) == spec_extract_text(line@),
{
    match quoted(&chars_of(line)) {
        Some(found) => {
            if found.len() > 0 && !contains(&found, &chars_of("http://")) && !contains(
                &found,
                &chars_of("https://"),
            ) {
                Some(string_of(&found))
            } else {
                None
            }
        },
        None => None,
    }
}

/// Whether the line names a menu of the menu bar.
pub fn names_menu(line: &str) -> (named: bool)
    ensures
        named == spec_names_menu(line@),
{
    let chars = chars_of(line);
    contains(&chars, &chars_of("Menu {")) && contains(&chars, &chars_of("name:"))
}

/// The key and the text that the line `content` gives by itself.
pub fn process_menu_text(content: &str) -> (found: Option<(String, String)>)
    ensures
        match found {
            Some(pair) => spec_process_menu_text(content@) == Some((pair.0@, pair.1@)),
            None => spec_process_menu_text(content@) is None,
        },
{
    match extract_text(content) {
        Some(text) => {
            let mut key = if names_menu(content) {
                chars_of("i18n.top_menu_bar.")
            } else {
                chars_of("i18n.top_menu_bar.unknown.")
            };
            extend(&mut key, &chars_of(normalize_key(text.as_str()).as_str()));
            Some((string_of(&key), text))
        },
        None => None,
    }
}

/// How far the making of a table has come: the menu that the findings are
/// in, and the texts so far, by key.
pub struct TableSoFar {
    pub menu: Seq<char>,
    pub texts: Entries,
}

/// The table after the finding with the line `content` was taken in. A line
/// that names a menu makes that menu the one that the findings are in, and
/// gives no text; any other text goes under its key in that menu, or under
/// its key by itself where no menu was named yet.
pub open spec fn spec_take_finding(s: TableSoFar, content: Seq<char>) -> TableSoFar {
    match spec_process_menu_text(content) {
        Some((key, text)) => if spec_names_menu(content) {
            TableSoFar { menu: text, ..s }
        } else if s.menu.len() > 0 {
            TableSoFar { texts: assoc_put(s.texts, spec_generate_key(s.menu, text), text), ..s }
        } else {
            TableSoFar { texts: assoc_put(s.texts, key, text), ..s }
        },
        None => s,
    }
}

/// The table after the findings `findings[..count]` were taken in.
pub open spec fn spec_take_findings(findings: Seq<FindingView>, count: int) -> TableSoFar
    decreases count,
{
    if count <= 0 {
        TableSoFar { menu: Seq::empty(), texts: Seq::empty() }
    } else {
        spec_take_finding(spec_take_findings(findings, count - 1), findings[count - 1].content)
    }
}

/// How the source of a table of default texts begins that is made from
/// findings.
pub open spec fn spec_findings_head() -> Seq<char> {
    "use std::collections::HashMap;\nuse once_cell::sync::Lazy;\n\n// 全局静态默认文本映射\nstatic DEFAULT_TEXTS: Lazy<HashMap<&str, &str>> = Lazy::new(|| {\n    let mut texts = HashMap::new();\n\n    // 所有键使用扁平化的命名方式\n"@
}

/// The source of the table of default texts that the findings give.
pub open spec fn spec_defaults_file(findings: Seq<FindingView>) -> Seq<char> {
    let texts = spec_take_findings(findings, findings.len() as int).texts;
    spec_findings_head() + spec_insert_lines(texts, texts.len() as int) + spec_table_tail()
}

/// The source of the table of default texts that the findings give, the
/// texts in the order in which their keys first came up.
pub fn generate_defaults_file(findings: &Vec<HardcodedString>) -> (content: String)
    ensures
        content@ == spec_defaults_file(findings_view(findings@)),
{
    let ghost all = findings_view(findings@);
    let mut texts = I18nLangResources::new();
    let mut current_menu = String::new();
    let mut i: usize = 0;
    while i < findings.len()
        invariant
            i <= findings.len(),
            all == findings_view(findings@),
            texts.wf(),
            spec_take_findings(all, i as int) == (TableSoFar {
                menu: current_menu@,
                texts: texts@,
            }),
        decreases findings.len() - i,
    {
        let line = findings[i].content.as_str();
        match process_menu_text(line) {
            Some(pair) => {
                if names_menu(line) {
                    current_menu = pair.1;
                } else if !current_menu.as_str().is_empty() {
                    let key = generate_key(current_menu.as_str(), pair.1.as_str());
                    texts.insert(key, pair.1);
                } else {
                    texts.insert(pair.0, pair.1);
                }
            },
            None => {},
        }
        i = i + 1;
    }
    let ghost entries = texts@;
    let count = texts.len();
    let mut out = chars_of(
        "use std::collections::HashMap;\nuse once_cell::sync::Lazy;\n\n// 全局静态默认文本映射\nstatic DEFAULT_TEXTS: Lazy<HashMap<&str, &str>> = Lazy::new(|| {\n    let mut texts = HashMap::new();\n\n    // 所有键使用扁平化的命名方式\n",
    );
    let mut k: usize = 0;
    while k < count
        invariant
            k <= count,
            count == entries.len(),
            entries == texts@,
            out@ == spec_findings_head() + spec_insert_lines(entries, k as int),
        decreases count - k,
    {
        let (key, text) = texts.entry(k);
        push_insert_line(&mut out, &chars_of(key.as_str()), &chars_of(text.as_str()));
        k = k + 1;
    }
    extend(
        &mut out,
        &chars_of(
            "\n    texts\n});\n\n/// 获取默认文本\npub fn get_default_text(key: &str) -> Option<&'static str> {\n    DEFAULT_TEXTS.get(key).copied()\n}\n\n/// 获取所有默认文本键\npub fn get_all_default_text_keys() -> impl Iterator<Item = &'static str> {\n    DEFAULT_TEXTS.keys().copied()\n}\n",
        ),
    );
    string_of(&out)
}

/// What a new language pack is told of its language.
#[derive(Debug)]
pub struct LangInfo {
    /// The English name of the language.
    pub name: String,
    /// The name of the language in its own script.
    pub native_name: String,
}

/// The English names of the languages that a pack can be begun for, by code.
pub open spec fn spec_info_names() -> Entries {
    seq![
        ("zh-cn"@, "Chinese (Simplified)"@),
        ("zh-tw"@, "Chinese (Traditional)"@),
        ("ja"@, "Japanese"@),
        ("ko"@, "Korean"@),
        ("fr"@, "French"@),
        ("de"@, "German"@),
        ("es"@, "Spanish"@),
        ("it"@, "Italian"@),
        ("pt"@, "Portuguese"@),
        ("ru"@, "Russian"@),
    ]
}

/// The native names of the languages that a pack can be begun for, by code.
pub open spec fn spec_info_native_names() -> Entries {
    seq![
        ("zh-cn"@, "简体中文"@),
        ("zh-tw"@, "繁體中文"@),
        ("ja"@, "日本語"@),
        ("ko"@, "한국어"@),
        ("fr"@, "Français"@),
        ("de"@, "Deutsch"@),
        ("es"@, "Español"@),
        ("it"@, "Italiano"@),
        ("pt"@, "Português"@),
        ("ru"@, "Русский"@),
    ]
}

/// Appends the entry `(key, text)` to `table`.
fn put_info(table: &mut Vec<(String, String)>, key: &str, text: &str)
    ensures
        pairs_view(final(table)@) == pairs_view(old(table)@).push((key@, text@)),
{
    table.push((key.to_owned(), text.to_owned()));
}

/// What a new pack for the language `lang_id` is told of the language: its
/// names by the two tables, or that the language is unknown.
pub fn get_language_info(lang_id: &str) -> (info: LangInfo)
    ensures
        info.name@ == match assoc(spec_info_names(), lang_id@) {
            Some(name) => name,
            None => "Unknown Language"@,
        },
        info.native_name@ == match assoc(spec_info_native_names(), lang_id@) {
            Some(name) => name,
            None => "Unknown"@,
        },
{
    let mut names: Vec<(String, String)> = Vec::new();
    put_info(&mut names, "zh-cn", "Chinese (Simplified)");
    put_info(&mut names, "zh-tw", "Chinese (Traditional)");
    put_info(&mut names, "ja", "Japanese");
    put_info(&mut names, "ko", "Korean");
    put_info(&mut names, "fr", "French");
    put_info(&mut names, "de", "German");
    put_info(&mut names, "es", "Spanish");
    put_info(&mut names, "it", "Italian");
    put_info(&mut names, "pt", "Portuguese");
    put_info(&mut names, "ru", "Russian");
    assert(pairs_view(names@) == spec_info_names());
    let mut natives: Vec<(String, String)> = Vec::new();
    put_info(&mut natives, "zh-cn", "简体中文");
    put_info(&mut natives, "zh-tw", "繁體中文");
    put_info(&mut natives, "ja", "日本語");
    put_info(&mut natives, "ko", "한국어");
    put_info(&mut natives, "fr", "Français");
    put_info(&mut natives, "de", "Deutsch");
    put_info(&mut natives, "es", "Español");
    put_info(&mut natives, "it", "Italiano");
    put_info(&mut natives, "pt", "Português");
    put_info(&mut natives, "ru", "Русский");
    assert(pairs_view(natives@) == spec_info_native_names());
    let name = match lookup_pair(&names, lang_id) {
        Some(found) => found.clone(),
        None => "Unknown Language".to_owned(),
    };
    let native_name = match lookup_pair(&natives, lang_id) {
        Some(found) => found.clone(),
        None => "Unknown".to_owned(),
    };
    LangInfo { name, native_name }
}

} // verus!
