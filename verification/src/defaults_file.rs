//! The source of a table of default texts: writing it from the texts of the
//! menus, reading the texts back from it, and putting translation keys into
//! the source of the menus in place of the texts.

use crate::linked::{linked_entries, linked_insert, linked_new, linked_pairs, spec_linked_put};
use crate::table::{assoc_put, pairs_view};
use crate::text::{
    chars_of, chars_view, contains, end_without, extend, first_occurrence, last_position,
    lines_of, position, replace, skip_char, slice_of, spec_contains, spec_end_without,
    spec_find_from, spec_last_position, spec_lines, spec_position, spec_replace, spec_skip_char,
    spec_starts_with, starts_with, string_of,
};
use linked_hash_map::LinkedHashMap;
use vstd::prelude::*;

verus! {

/// Texts by key.
pub type Entries = Seq<(Seq<char>, Seq<char>)>;

/// How the source of a table of default texts begins.
pub open spec fn spec_table_head() -> Seq<char> {
    "use std::collections::HashMap;\nuse once_cell::sync::Lazy;\n\n// 全局静态默认文本映射\nstatic DEFAULT_TEXTS: Lazy<HashMap<&str, &str>> = Lazy::new(|| {\n    let mut texts = HashMap::new();\n\n"@
}

/// How the source of a table of default texts ends.
pub open spec fn spec_table_tail() -> Seq<char> {
    "\n    texts\n});\n\n/// 获取默认文本\npub fn get_default_text(key: &str) -> Option<&'static str> {\n    DEFAULT_TEXTS.get(key).copied()\n}\n\n/// 获取所有默认文本键\npub fn get_all_default_text_keys() -> impl Iterator<Item = &'static str> {\n    DEFAULT_TEXTS.keys().copied()\n}\n"@
}

/// The line that puts `text` under `key` into the table.
pub open spec fn spec_insert_line(key: Seq<char>, text: Seq<char>) -> Seq<char> {
    "    texts.insert(\""@ + key + "\", \""@ + text + "\");\n"@
}

/// The lines for the entries `entries[..count]` of the menus. An entry that
/// holds an address gives no line; a key with two dots in a row stands with
/// one.
pub open spec fn spec_menu_lines(entries: Entries, count: int) -> Seq<char>
    decreases count,
{
    if count <= 0 {
        Seq::empty()
    } else {
        let before = spec_menu_lines(entries, count - 1);
        let key = entries[count - 1].0;
        let text = entries[count - 1].1;
        if spec_starts_with(text, "https://"@) || spec_contains(key, "https://"@) {
            before
        } else {
            before + spec_insert_line(spec_replace(key, ".."@, "."@), text)
        }
    }
}

/// The lines for the entries `entries[..count]`, one for each.
pub open spec fn spec_insert_lines(entries: Entries, count: int) -> Seq<char>
    decreases count,
{
    if count <= 0 {
        Seq::empty()
    } else {
        spec_insert_lines(entries, count - 1) + spec_insert_line(
            entries[count - 1].0,
            entries[count - 1].1,
        )
    }
}

/// The source of the table of default texts for the texts of the menus.
pub open spec fn spec_defaults_app_menus(entries: Entries) -> Seq<char> {
    spec_table_head() + spec_menu_lines(entries, entries.len() as int) + spec_table_tail()
}

/// Appends the line that puts `text` under `key` into the table.
pub fn push_insert_line(out: &mut Vec<char>, key: &Vec<char>, text: &Vec<char>)
    ensures
        final(out)@ == old(out)@ + spec_insert_line(key@, text@),
{
    extend(out, &chars_of("    texts.insert(\""));
    extend(out, key);
    extend(out, &chars_of("\", \""));
    extend(out, text);
    extend(out, &chars_of("\");\n"));
}

/// The source of the table of default texts for the texts `texts` of the
/// menus, in their order.
pub fn generate_defaults_app_menus(texts: &LinkedHashMap<String, String>) -> (content: String)
    ensures
        content@ == spec_defaults_app_menus(linked_entries(*texts)),
{
    let pairs = linked_pairs(texts);
    let ghost entries = linked_entries(*texts);
    let mut out = chars_of(
        "use std::collections::HashMap;\nuse once_cell::sync::Lazy;\n\n// 全局静态默认文本映射\nstatic DEFAULT_TEXTS: Lazy<HashMap<&str, &str>> = Lazy::new(|| {\n    let mut texts = HashMap::new();\n\n",
    );
    let mut i: usize = 0;
    while i < pairs.len()
        invariant
            i <= pairs.len(),
            entries == pairs_view(pairs@),
            out@ == spec_table_head() + spec_menu_lines(entries, i as int),
        decreases pairs.len() - i,
    {
        let key = chars_of(pairs[i].0.as_str());
        let text = chars_of(pairs[i].1.as_str());
        if !(starts_with(&text, &chars_of("https://")) || contains(&key, &chars_of("https://"))) {
            let shown = replace(&key, &chars_of(".."), &chars_of("."));
            push_insert_line(&mut out, &shown, &text);
        }
        i = i + 1;
    }
    extend(
        &mut out,
        &chars_of(
            "\n    texts\n});\n\n/// 获取默认文本\npub fn get_default_text(key: &str) -> Option<&'static str> {\n    DEFAULT_TEXTS.get(key).copied()\n}\n\n/// 获取所有默认文本键\npub fn get_all_default_text_keys() -> impl Iterator<Item = &'static str> {\n    DEFAULT_TEXTS.keys().copied()\n}\n",
        ),
    );
    string_of(&out)
}

/// The keys by text: for each text of `entries[..count]` the key of the last
/// entry that holds it, the texts in the order in which they first occur.
pub open spec fn spec_keys_by_text(entries: Entries, count: int) -> Entries
    decreases count,
{
    if count <= 0 {
        Seq::empty()
    } else {
        assoc_put(
            spec_keys_by_text(entries, count - 1),
            entries[count - 1].1,
            entries[count - 1].0,
        )
    }
}

/// The request for the translation under `key`, as it stands in the source.
pub open spec fn spec_request(key: Seq<char>) -> Seq<char> {
    "t!(cx, \""@ + key + "\")"@
}

/// `content` with each of the texts `by_text[..count]`, where it stands in
/// quotation marks, replaced by the request for its key, text by text.
pub open spec fn spec_requests_put(content: Seq<char>, by_text: Entries, count: int) -> Seq<char>
    decreases count,
{
    if count <= 0 {
        content
    } else {
        spec_replace(
            spec_requests_put(content, by_text, count - 1),
            "\""@ + by_text[count - 1].0 + "\""@,
            spec_request(by_text[count - 1].1),
        )
    }
}

/// The source `content` with the texts of `entries` replaced by the requests
/// for their keys, and with the import of the request at its head where it
/// has none.
pub open spec fn spec_replace_hardcoded(content: Seq<char>, entries: Entries) -> Seq<char> {
    let by_text = spec_keys_by_text(entries, entries.len() as int);
    let replaced = spec_requests_put(content, by_text, by_text.len() as int);
    if spec_contains(replaced, "use crate::i18n::t"@) {
        replaced
    } else {
        "use crate::i18n::t;\n\n"@ + replaced
    }
}

/// The source `content` of the menus with the texts of `texts` replaced by
/// the requests for their keys.
pub fn replace_hardcoded_strings(content: &str, texts: &LinkedHashMap<String, String>) -> (out:
    String)
    ensures
        out@ == spec_replace_hardcoded(content@, linked_entries(*texts)),
{
    let pairs = linked_pairs(texts);
    let ghost entries = linked_entries(*texts);
    let mut by_text = crate::resources::I18nLangResources::new();
    let mut i: usize = 0;
    while i < pairs.len()
        invariant
            i <= pairs.len(),
            entries == pairs_view(pairs@),
            by_text.wf(),
            by_text@ == spec_keys_by_text(entries, i as int),
        decreases pairs.len() - i,
    {
        by_text.insert(pairs[i].1.clone(), pairs[i].0.clone());
        i = i + 1;
    }
    let ghost table = by_text@;
    let count = by_text.len();
    let mut current = chars_of(content);
    let mut k: usize = 0;
    while k < count
        invariant
            k <= count,
            count == table.len(),
            table == by_text@,
            current@ == spec_requests_put(content@, table, k as int),
        decreases count - k,
    {
        let (text, key) = by_text.entry(k);
        let mut pattern = chars_of("\"");
        extend(&mut pattern, &chars_of(text.as_str()));
        extend(&mut pattern, &chars_of("\""));
        let mut request = chars_of("t!(cx, \"");
        extend(&mut request, &chars_of(key.as_str()));
        extend(&mut request, &chars_of("\")"));
        current = replace(&current, &pattern, &request);
        k = k + 1;
    }
    if contains(&current, &chars_of("use crate::i18n::t")) {
        string_of(&current)
    } else {
        let mut out = chars_of("use crate::i18n::t;\n\n");
        extend(&mut out, &current);
        string_of(&out)
    }
}

/// The separator between the key and the text in a line of the table.
pub open spec fn spec_pair_separator() -> Seq<char> {
    "\", \""@
}

/// The key and the text that the line `line` of the source of a table puts
/// into it. The line must mention the insertion; what stands from its first
/// quotation mark to its last must hold the separator exactly once; the key
/// is what stands before the separator without the quotation marks at its
/// start, the text what stands behind it without those at its end.
pub open spec fn spec_pair_of_line(line: Seq<char>) -> Option<(Seq<char>, Seq<char>)> {
    let open = spec_position(line, '"', 0);
    let close = spec_last_position(line, '"', line.len() as int);
    if !spec_contains(line, "texts.insert"@) || open >= line.len() {
        None
    } else {
        let part = line.subrange(open, close + 1);
        let sep = spec_pair_separator();
        match spec_find_from(part, sep, 0) {
            Some(at) => if spec_find_from(part, sep, at + sep.len()) is None {
                let key = part.subrange(0, at);
                let text = part.subrange(at + sep.len(), part.len() as int);
                Some(
                    (
                        key.subrange(spec_skip_char(key, '"', 0), key.len() as int),
                        text.subrange(0, spec_end_without(text, '"', text.len() as int)),
                    ),
                )
            } else {
                None
            },
            None => None,
        }
    }
}

/// The entries that the lines `lines[..count]` put into the table.
pub open spec fn spec_pairs_of_lines(lines: Seq<Seq<char>>, count: int) -> Entries
    decreases count,
{
    if count <= 0 {
        Seq::empty()
    } else {
        let before = spec_pairs_of_lines(lines, count - 1);
        match spec_pair_of_line(lines[count - 1]) {
            Some((key, text)) => spec_linked_put(before, key, text),
            None => before,
        }
    }
}

/// The key and the text that the line `line` of the source of a table puts
/// into it.
pub fn pair_of_line(line: &Vec<char>) -> (pair: Option<(Vec<char>, Vec<char>)>)
    ensures
        match pair {
            Some(found) => spec_pair_of_line(line@) == Some((found.0@, found.1@)),
            None => spec_pair_of_line(line@) is None,
        },
{
    if !contains(line, &chars_of("texts.insert")) {
        return None;
    }
    let open = position(line, '"', 0);
    if open >= line.len() {
        return None;
    }
    let close = match last_position(line, '"') {
        Some(at) => at,
        None => {
            proof {
                lemma_last_not_before_first(line@, '"', 0);
            }
            return None;
        },
    };
    proof {
        lemma_last_not_before_first(line@, '"', 0);
    }
    let part = slice_of(line, open, close + 1);
    let sep = chars_of("\", \"");
    match first_occurrence(&part, &sep, 0) {
        Some(at) => {
            if first_occurrence(&part, &sep, at + sep.len()).is_none() {
                let key = slice_of(&part, 0, at);
                let text = slice_of(&part, at + sep.len(), part.len());
                let from = skip_char(&key, '"', 0);
                let to = end_without(&text, '"', text.len());
                Some((slice_of(&key, from, key.len()), slice_of(&text, 0, to)))
            } else {
                None
            }
        },
        None => None,
    }
}

/// Where `text` holds `ch` at or after `from`, the last `ch` does not stand
/// before the first.
pub proof fn lemma_last_not_before_first(text: Seq<char>, ch: char, from: int)
    requires
        0 <= from,
    ensures
        spec_position(text, ch, from) < text.len() ==> spec_position(text, ch, from)
            <= spec_last_position(text, ch, text.len() as int) < text.len(),
    decreases text.len() - from,
{
    if from < text.len() {
        if text[from] == ch {
            lemma_last_at_least(text, ch, text.len() as int, from);
        } else {
            lemma_last_not_before_first(text, ch, from + 1);
        }
    }
}

/// The last `ch` of `text[..upto]` does not stand before any `ch` of it.
pub proof fn lemma_last_at_least(text: Seq<char>, ch: char, upto: int, at: int)
    requires
        0 <= at < upto <= text.len(),
        text[at] == ch,
    ensures
        at <= spec_last_position(text, ch, upto) < upto,
    decreases upto,
{
    if text[upto - 1] != ch {
        lemma_last_at_least(text, ch, upto - 1, at);
    }
}

/// The entries that the source `content` of a table of default texts puts
/// into the table, in their order.
pub fn scan_defaults_file(content: &str) -> (texts: LinkedHashMap<String, String>)
    ensures
        linked_entries(texts) == spec_pairs_of_lines(
            spec_lines(content@),
            spec_lines(content@).len() as int,
        ),
{
    let lines = lines_of(&chars_of(content));
    let ghost all = spec_lines(content@);
    let mut texts = linked_new();
    let mut i: usize = 0;
    while i < lines.len()
        invariant
            i <= lines.len(),
            all == chars_view(lines@),
            linked_entries(texts) == spec_pairs_of_lines(all, i as int),
        decreases lines.len() - i,
    {
        match pair_of_line(&lines[i]) {
            Some(pair) => {
                linked_insert(&mut texts, string_of(&pair.0), string_of(&pair.1));
            },
            None => {},
        }
        i = i + 1;
    }
    texts
}

} // verus!
