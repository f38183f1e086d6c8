//! The language tables.
//!
//! Four tables drive the handling of language codes: from raw locale
//! spellings to canonical codes, from canonical codes to the keywords by which
//! a language pack may name the language, to the language's name in its own
//! script, and to the words by which packs for it are searched. They are plain
//! values: [`LangTables::standard`] builds the set that ships with the crate,
//! and a caller may build or change a set of its own.

use crate::table::{lists_view, pairs_view, texts_view};
use vstd::prelude::*;

verus! {

/// The tables by which language codes are normalized and language packs are
/// matched. Keys are held in lower case. An entry is found by its key; where
/// a key occurs twice the first entry wins.
pub struct LangTables {
    /// From a raw locale spelling to the canonical code it stands for.
    pub mappings: Vec<(String, String)>,
    /// From a canonical code to the keywords that name the language in the
    /// identifier of a language pack.
    pub keywords: Vec<(String, Vec<String>)>,
    /// From a canonical code to the language's name in its own script.
    pub native_names: Vec<(String, String)>,
    /// From a canonical code to the words by which packs for it are searched.
    pub search_keywords: Vec<(String, String)>,
}

/// What a [`LangTables`] holds, as texts.
pub struct LangTablesView {
    pub mappings: Seq<(Seq<char>, Seq<char>)>,
    pub keywords: Seq<(Seq<char>, Seq<Seq<char>>)>,
    pub native_names: Seq<(Seq<char>, Seq<char>)>,
    pub search_keywords: Seq<(Seq<char>, Seq<char>)>,
}

impl View for LangTables {
    type V = LangTablesView;

    open spec fn view(&self) -> LangTablesView {
        LangTablesView {
            mappings: pairs_view(self.mappings@),
            keywords: lists_view(self.keywords@),
            native_names: pairs_view(self.native_names@),
            search_keywords: pairs_view(self.search_keywords@),
        }
    }
}

/// The spellings that stand for simplified Chinese. A bare `zh` stands for
/// simplified Chinese: that is a choice, not a fact, and a caller who wants
/// the other reading changes the entry in its own tables.
pub open spec fn spellings_zh_cn() -> Seq<(Seq<char>, Seq<char>)> {
    seq![
        ("chinese-simplified"@, "zh-cn"@),
        ("chinese (simplified)"@, "zh-cn"@),
        ("chs"@, "zh-cn"@),
        ("zh_cn"@, "zh-cn"@),
        ("zh-cn"@, "zh-cn"@),
        ("zh_hans"@, "zh-cn"@),
        ("zh-hans"@, "zh-cn"@),
        ("zh_cn.utf8"@, "zh-cn"@),
        ("zh_cn.utf-8"@, "zh-cn"@),
        ("zh.utf8"@, "zh-cn"@),
        ("zh"@, "zh-cn"@),
        ("chinese"@, "zh-cn"@),
        ("zho"@, "zh-cn"@),
        ("zhcn"@, "zh-cn"@),
    ]
}

/// The spellings that stand for traditional Chinese.
pub open spec fn spellings_zh_tw() -> Seq<(Seq<char>, Seq<char>)> {
    seq![
        ("chinese-traditional"@, "zh-tw"@),
        ("chinese (traditional)"@, "zh-tw"@),
        ("cht"@, "zh-tw"@),
        ("zh_tw"@, "zh-tw"@),
        ("zh-tw"@, "zh-tw"@),
        ("zh_hant"@, "zh-tw"@),
        ("zh-hant"@, "zh-tw"@),
        ("zh_tw.utf8"@, "zh-tw"@),
        ("zh_tw.utf-8"@, "zh-tw"@),
        ("zh_hk"@, "zh-tw"@),
        ("zh-hk"@, "zh-tw"@),
        ("zh_mo"@, "zh-tw"@),
        ("zh-mo"@, "zh-tw"@),
        ("zhtw"@, "zh-tw"@),
        ("zhht"@, "zh-tw"@),
    ]
}

/// The spellings that stand for Japanese.
pub open spec fn spellings_ja() -> Seq<(Seq<char>, Seq<char>)> {
    seq![
        ("japanese"@, "ja"@),
        ("ja"@, "ja"@),
        ("ja_jp"@, "ja"@),
        ("ja-jp"@, "ja"@),
        ("jpn"@, "ja"@),
        ("ja_ja"@, "ja"@),
        ("ja-ja"@, "ja"@),
        ("ja.utf8"@, "ja"@),
        ("ja.utf-8"@, "ja"@),
        ("ja_jp.utf8"@, "ja"@),
        ("ja_jp.utf-8"@, "ja"@),
    ]
}

/// The spellings that stand for Korean.
pub open spec fn spellings_ko() -> Seq<(Seq<char>, Seq<char>)> {
    seq![
        ("korean"@, "ko"@),
        ("ko"@, "ko"@),
        ("ko_kr"@, "ko"@),
        ("ko-kr"@, "ko"@),
        ("kor"@, "ko"@),
        ("ko_ko"@, "ko"@),
        ("ko-ko"@, "ko"@),
        ("ko.utf8"@, "ko"@),
        ("ko.utf-8"@, "ko"@),
        ("ko_kr.utf8"@, "ko"@),
        ("ko_kr.utf-8"@, "ko"@),
    ]
}

/// The spellings that stand for Vietnamese.
pub open spec fn spellings_vi() -> Seq<(Seq<char>, Seq<char>)> {
    seq![
        ("vietnamese"@, "vi"@),
        ("vi"@, "vi"@),
        ("vi_vn"@, "vi"@),
        ("vi-vn"@, "vi"@),
        ("vie"@, "vi"@),
        ("vi.utf8"@, "vi"@),
        ("vi.utf-8"@, "vi"@),
        ("vi_vn.utf8"@, "vi"@),
    ]
}

/// The spellings that stand for Thai.
pub open spec fn spellings_th() -> Seq<(Seq<char>, Seq<char>)> {
    seq![
        ("thai"@, "th"@),
        ("th"@, "th"@),
        ("th_th"@, "th"@),
        ("th-th"@, "th"@),
        ("tha"@, "th"@),
        ("th.utf8"@, "th"@),
        ("th_th.utf8"@, "th"@),
    ]
}

/// The spellings that stand for Indonesian.
pub open spec fn spellings_id() -> Seq<(Seq<char>, Seq<char>)> {
    seq![
        ("indonesian"@, "id"@),
        ("id"@, "id"@),
        ("id_id"@, "id"@),
        ("id-id"@, "id"@),
        ("ind"@, "id"@),
        ("id.utf8"@, "id"@),
        ("id_id.utf8"@, "id"@),
    ]
}

/// The spellings that stand for Malay.
pub open spec fn spellings_ms() -> Seq<(Seq<char>, Seq<char>)> {
    seq![
        ("malay"@, "ms"@),
        ("ms"@, "ms"@),
        ("ms_my"@, "ms"@),
        ("ms-my"@, "ms"@),
        ("msa"@, "ms"@),
        ("ms.utf8"@, "ms"@),
        ("ms_my.utf8"@, "ms"@),
    ]
}

/// The spellings that stand for Spanish.
pub open spec fn spellings_es() -> Seq<(Seq<char>, Seq<char>)> {
    seq![
        ("spanish"@, "es"@),
        ("es"@, "es"@),
        ("es_es"@, "es"@),
        ("es-es"@, "es"@),
        ("spa"@, "es"@),
        ("es_419"@, "es"@),
        ("es-419"@, "es"@),
        ("es_mx"@, "es"@),
        ("es-mx"@, "es"@),
        ("es.utf8"@, "es"@),
        ("es_es.utf8"@, "es"@),
    ]
}

/// The spellings that stand for French.
pub open spec fn spellings_fr() -> Seq<(Seq<char>, Seq<char>)> {
    seq![
        ("french"@, "fr"@),
        ("fr"@, "fr"@),
        ("fr_fr"@, "fr"@),
        ("fr-fr"@, "fr"@),
        ("fra"@, "fr"@),
        ("fr_ca"@, "fr"@),
        ("fr-ca"@, "fr"@),
        ("fr_be"@, "fr"@),
        ("fr_ch"@, "fr"@),
        ("fr.utf8"@, "fr"@),
        ("fr_fr.utf8"@, "fr"@),
    ]
}

/// The spellings that stand for German.
pub open spec fn spellings_de() -> Seq<(Seq<char>, Seq<char>)> {
    seq![
        ("german"@, "de"@),
        ("de"@, "de"@),
        ("de_de"@, "de"@),
        ("de-de"@, "de"@),
        ("deu"@, "de"@),
        ("de_at"@, "de"@),
        ("de-at"@, "de"@),
        ("de_ch"@, "de"@),
        ("de.utf8"@, "de"@),
        ("de_de.utf8"@, "de"@),
    ]
}

/// The spellings that stand for Italian.
pub open spec fn spellings_it() -> Seq<(Seq<char>, Seq<char>)> {
    seq![
        ("italian"@, "it"@),
        ("it"@, "it"@),
        ("it_it"@, "it"@),
        ("it-it"@, "it"@),
        ("ita"@, "it"@),
        ("it_ch"@, "it"@),
        ("it.utf8"@, "it"@),
        ("it_it.utf8"@, "it"@),
    ]
}

/// The standard normalization table: the spellings of each language in turn.
/// Several spellings lead to one code.
pub open spec fn standard_mappings() -> Seq<(Seq<char>, Seq<char>)> {
    spellings_zh_cn() + spellings_zh_tw() + spellings_ja() + spellings_ko() + spellings_vi() + spellings_th() + spellings_id() + spellings_ms() + spellings_es() + spellings_fr() + spellings_de() + spellings_it()
}

/// The standard keywords of each language.
pub open spec fn standard_keywords() -> Seq<(Seq<char>, Seq<Seq<char>>)> {
    seq![
        ("zh-cn"@, seq!["zh-cn"@, "zh_cn"@, "zhcn"@, "zh-CN"@, "zh_CN"@, "simplified"@, "简体"@, "简体中文"@, "中文"@, "汉语"@]),
        ("zh-tw"@, seq!["zh-tw"@, "zh_tw"@, "zhtw"@, "zh-TW"@, "zh_TW"@, "traditional"@, "繁體"@, "繁體中文"@, "正體"@, "正體中文"@, "zh-hk"@, "zh_hk"@, "香港"@, "台灣"@, "澳門"@]),
        ("ja"@, seq!["ja"@, "jp"@, "jpn"@, "japanese"@, "日本語"@, "日文"@, "にほんご"@]),
        ("ko"@, seq!["ko"@, "kr"@, "kor"@, "korean"@, "한국어"@, "韓國語"@, "조선말"@]),
        ("vi"@, seq!["vi"@, "vie"@, "vietnamese"@, "tieng-viet"@, "tiếng-việt"@]),
        ("es"@, seq!["es"@, "spa"@, "spanish"@, "español"@, "castellano"@, "西班牙语"@, "西班牙文"@]),
        ("fr"@, seq!["fr"@, "fra"@, "french"@, "français"@, "法语"@, "法文"@]),
        ("de"@, seq!["de"@, "deu"@, "german"@, "deutsch"@, "德语"@, "德文"@]),
        ("it"@, seq!["it"@, "ita"@, "italian"@, "italiano"@, "意大利语"@, "意大利文"@]),
    ]
}

/// The standard names of the languages, each in its own script.
pub open spec fn standard_native_names() -> Seq<(Seq<char>, Seq<char>)> {
    seq![
        ("zh-cn"@, "简体中文"@),
        ("zh-tw"@, "繁體中文"@),
        ("ja"@, "日本語"@),
        ("ko"@, "한국어"@),
        ("vi"@, "Tiếng Việt"@),
        ("th"@, "ไทย"@),
        ("id"@, "Bahasa Indonesia"@),
        ("ms"@, "Bahasa Melayu"@),
        ("en"@, "English"@),
        ("es"@, "Español"@),
        ("fr"@, "Français"@),
        ("de"@, "Deutsch"@),
        ("it"@, "Italiano"@),
        ("pt"@, "Português"@),
        ("nl"@, "Nederlands"@),
        ("ru"@, "Русский"@),
        ("pl"@, "Polski"@),
        ("uk"@, "Українська"@),
        ("cs"@, "Čeština"@),
        ("hu"@, "Magyar"@),
        ("ar"@, "العربية"@),
        ("tr"@, "Türkçe"@),
        ("hi"@, "हिन्दी"@),
        ("he"@, "עברית"@),
    ]
}

/// The standard search words of each language.
pub open spec fn standard_search_keywords() -> Seq<(Seq<char>, Seq<char>)> {
    seq![
        ("zh-cn"@, "Chinese Simplified 简体中文 中文"@),
        ("zh-tw"@, "Chinese Traditional 繁體中文 正體中文"@),
        ("ja"@, "Japanese 日本語 にほんご"@),
        ("ko"@, "Korean 한국어 韓國語"@),
        ("vi"@, "Vietnamese Tiếng Việt"@),
        ("th"@, "Thai ไทย ภาษาไทย"@),
        ("id"@, "Indonesian Bahasa Indonesia"@),
        ("ms"@, "Malay Bahasa Melayu Melayu"@),
        ("es"@, "Spanish Español Castellano"@),
        ("fr"@, "French Français"@),
        ("de"@, "German Deutsch"@),
        ("it"@, "Italian Italiano"@),
        ("pt"@, "Portuguese Português"@),
        ("ru"@, "Russian Русский русский язык"@),
        ("pl"@, "Polish Polski język polski"@),
        ("ar"@, "Arabic العربية"@),
        ("tr"@, "Turkish Türkçe"@),
    ]
}

/// The standard set of tables.
pub open spec fn standard_tables() -> LangTablesView {
    LangTablesView {
        mappings: standard_mappings(),
        keywords: standard_keywords(),
        native_names: standard_native_names(),
        search_keywords: standard_search_keywords(),
    }
}

/// Appends the entry `(key, value)` to `table`.
fn put_pair(table: &mut Vec<(String, String)>, key: &str, value: &str)
    ensures
        pairs_view(final(table)@) == pairs_view(old(table)@).push((key@, value@)),
{
    table.push((key.to_owned(), value.to_owned()));
}

/// Appends `word` to `list`.
fn put_word(list: &mut Vec<String>, word: &str)
    ensures
        texts_view(final(list)@) == texts_view(old(list)@).push(word@),
{
    list.push(word.to_owned());
}

/// Appends the entry `(key, words)` to `table`.
fn put_list(table: &mut Vec<(String, Vec<String>)>, key: &str, words: Vec<String>)
    ensures
        lists_view(final(table)@) == lists_view(old(table)@).push((key@, texts_view(words@))),
{
    table.push((key.to_owned(), words));
}

/// Appends the spellings that stand for simplified Chinese.
fn put_spellings_zh_cn(table: &mut Vec<(String, String)>)
    ensures
        pairs_view(final(table)@) == pairs_view(old(table)@) + spellings_zh_cn(),
{
    put_pair(table, "chinese-simplified", "zh-cn");
    put_pair(table, "chinese (simplified)", "zh-cn");
    put_pair(table, "chs", "zh-cn");
    put_pair(table, "zh_cn", "zh-cn");
    put_pair(table, "zh-cn", "zh-cn");
    put_pair(table, "zh_hans", "zh-cn");
    put_pair(table, "zh-hans", "zh-cn");
    put_pair(table, "zh_cn.utf8", "zh-cn");
    put_pair(table, "zh_cn.utf-8", "zh-cn");
    put_pair(table, "zh.utf8", "zh-cn");
    put_pair(table, "zh", "zh-cn");
    put_pair(table, "chinese", "zh-cn");
    put_pair(table, "zho", "zh-cn");
    put_pair(table, "zhcn", "zh-cn");
}

/// Appends the spellings that stand for traditional Chinese.
fn put_spellings_zh_tw(table: &mut Vec<(String, String)>)
    ensures
        pairs_view(final(table)@) == pairs_view(old(table)@) + spellings_zh_tw(),
{
    put_pair(table, "chinese-traditional", "zh-tw");
    put_pair(table, "chinese (traditional)", "zh-tw");
    put_pair(table, "cht", "zh-tw");
    put_pair(table, "zh_tw", "zh-tw");
    put_pair(table, "zh-tw", "zh-tw");
    put_pair(table, "zh_hant", "zh-tw");
    put_pair(table, "zh-hant", "zh-tw");
    put_pair(table, "zh_tw.utf8", "zh-tw");
    put_pair(table, "zh_tw.utf-8", "zh-tw");
    put_pair(table, "zh_hk", "zh-tw");
    put_pair(table, "zh-hk", "zh-tw");
    put_pair(table, "zh_mo", "zh-tw");
    put_pair(table, "zh-mo", "zh-tw");
    put_pair(table, "zhtw", "zh-tw");
    put_pair(table, "zhht", "zh-tw");
}

/// Appends the spellings that stand for Japanese.
fn put_spellings_ja(table: &mut Vec<(String, String)>)
    ensures
        pairs_view(final(table)@) == pairs_view(old(table)@) + spellings_ja(),
{
    put_pair(table, "japanese", "ja");
    put_pair(table, "ja", "ja");
    put_pair(table, "ja_jp", "ja");
    put_pair(table, "ja-jp", "ja");
    put_pair(table, "jpn", "ja");
    put_pair(table, "ja_ja", "ja");
    put_pair(table, "ja-ja", "ja");
    put_pair(table, "ja.utf8", "ja");
    put_pair(table, "ja.utf-8", "ja");
    put_pair(table, "ja_jp.utf8", "ja");
    put_pair(table, "ja_jp.utf-8", "ja");
}

/// Appends the spellings that stand for Korean.
fn put_spellings_ko(table: &mut Vec<(String, String)>)
    ensures
        pairs_view(final(table)@) == pairs_view(old(table)@) + spellings_ko(),
{
    put_pair(table, "korean", "ko");
    put_pair(table, "ko", "ko");
    put_pair(table, "ko_kr", "ko");
    put_pair(table, "ko-kr", "ko");
    put_pair(table, "kor", "ko");
    put_pair(table, "ko_ko", "ko");
    put_pair(table, "ko-ko", "ko");
    put_pair(table, "ko.utf8", "ko");
    put_pair(table, "ko.utf-8", "ko");
    put_pair(table, "ko_kr.utf8", "ko");
    put_pair(table, "ko_kr.utf-8", "ko");
}

/// Appends the spellings that stand for Vietnamese.
fn put_spellings_vi(table: &mut Vec<(String, String)>)
    ensures
        pairs_view(final(table)@) == pairs_view(old(table)@) + spellings_vi(),
{
    put_pair(table, "vietnamese", "vi");
    put_pair(table, "vi", "vi");
    put_pair(table, "vi_vn", "vi");
    put_pair(table, "vi-vn", "vi");
    put_pair(table, "vie", "vi");
    put_pair(table, "vi.utf8", "vi");
    put_pair(table, "vi.utf-8", "vi");
    put_pair(table, "vi_vn.utf8", "vi");
}

/// Appends the spellings that stand for Thai.
fn put_spellings_th(table: &mut Vec<(String, String)>)
    ensures
        pairs_view(final(table)@) == pairs_view(old(table)@) + spellings_th(),
{
    put_pair(table, "thai", "th");
    put_pair(table, "th", "th");
    put_pair(table, "th_th", "th");
    put_pair(table, "th-th", "th");
    put_pair(table, "tha", "th");
    put_pair(table, "th.utf8", "th");
    put_pair(table, "th_th.utf8", "th");
}

/// Appends the spellings that stand for Indonesian.
fn put_spellings_id(table: &mut Vec<(String, String)>)
    ensures
        pairs_view(final(table)@) == pairs_view(old(table)@) + spellings_id(),
{
    put_pair(table, "indonesian", "id");
    put_pair(table, "id", "id");
    put_pair(table, "id_id", "id");
    put_pair(table, "id-id", "id");
    put_pair(table, "ind", "id");
    put_pair(table, "id.utf8", "id");
    put_pair(table, "id_id.utf8", "id");
}

/// Appends the spellings that stand for Malay.
fn put_spellings_ms(table: &mut Vec<(String, String)>)
    ensures
        pairs_view(final(table)@) == pairs_view(old(table)@) + spellings_ms(),
{
    put_pair(table, "malay", "ms");
    put_pair(table, "ms", "ms");
    put_pair(table, "ms_my", "ms");
    put_pair(table, "ms-my", "ms");
    put_pair(table, "msa", "ms");
    put_pair(table, "ms.utf8", "ms");
    put_pair(table, "ms_my.utf8", "ms");
}

/// Appends the spellings that stand for Spanish.
fn put_spellings_es(table: &mut Vec<(String, String)>)
    ensures
        pairs_view(final(table)@) == pairs_view(old(table)@) + spellings_es(),
{
    put_pair(table, "spanish", "es");
    put_pair(table, "es", "es");
    put_pair(table, "es_es", "es");
    put_pair(table, "es-es", "es");
    put_pair(table, "spa", "es");
    put_pair(table, "es_419", "es");
    put_pair(table, "es-419", "es");
    put_pair(table, "es_mx", "es");
    put_pair(table, "es-mx", "es");
    put_pair(table, "es.utf8", "es");
    put_pair(table, "es_es.utf8", "es");
}

/// Appends the spellings that stand for French.
fn put_spellings_fr(table: &mut Vec<(String, String)>)
    ensures
        pairs_view(final(table)@) == pairs_view(old(table)@) + spellings_fr(),
{
    put_pair(table, "french", "fr");
    put_pair(table, "fr", "fr");
    put_pair(table, "fr_fr", "fr");
    put_pair(table, "fr-fr", "fr");
    put_pair(table, "fra", "fr");
    put_pair(table, "fr_ca", "fr");
    put_pair(table, "fr-ca", "fr");
    put_pair(table, "fr_be", "fr");
    put_pair(table, "fr_ch", "fr");
    put_pair(table, "fr.utf8", "fr");
    put_pair(table, "fr_fr.utf8", "fr");
}

/// Appends the spellings that stand for German.
fn put_spellings_de(table: &mut Vec<(String, String)>)
    ensures
        pairs_view(final(table)@) == pairs_view(old(table)@) + spellings_de(),
{
    put_pair(table, "german", "de");
    put_pair(table, "de", "de");
    put_pair(table, "de_de", "de");
    put_pair(table, "de-de", "de");
    put_pair(table, "deu", "de");
    put_pair(table, "de_at", "de");
    put_pair(table, "de-at", "de");
    put_pair(table, "de_ch", "de");
    put_pair(table, "de.utf8", "de");
    put_pair(table, "de_de.utf8", "de");
}

/// Appends the spellings that stand for Italian.
fn put_spellings_it(table: &mut Vec<(String, String)>)
    ensures
        pairs_view(final(table)@) == pairs_view(old(table)@) + spellings_it(),
{
    put_pair(table, "italian", "it");
    put_pair(table, "it", "it");
    put_pair(table, "it_it", "it");
    put_pair(table, "it-it", "it");
    put_pair(table, "ita", "it");
    put_pair(table, "it_ch", "it");
    put_pair(table, "it.utf8", "it");
    put_pair(table, "it_it.utf8", "it");
}

/// Builds the standard normalization table.
fn build_mappings() -> (table: Vec<(String, String)>)
    ensures
        pairs_view(table@) == standard_mappings(),
{
    let mut table: Vec<(String, String)> = Vec::new();
    put_spellings_zh_cn(&mut table);
    put_spellings_zh_tw(&mut table);
    put_spellings_ja(&mut table);
    put_spellings_ko(&mut table);
    put_spellings_vi(&mut table);
    put_spellings_th(&mut table);
    put_spellings_id(&mut table);
    put_spellings_ms(&mut table);
    put_spellings_es(&mut table);
    put_spellings_fr(&mut table);
    put_spellings_de(&mut table);
    put_spellings_it(&mut table);
    table
}

/// The standard keywords of `zh-cn`.
fn words_zh_cn() -> (words: Vec<String>)
    ensures
        texts_view(words@) == seq!["zh-cn"@, "zh_cn"@, "zhcn"@, "zh-CN"@, "zh_CN"@, "simplified"@, "简体"@, "简体中文"@, "中文"@, "汉语"@],
{
    let mut words: Vec<String> = Vec::new();
    put_word(&mut words, "zh-cn");
    put_word(&mut words, "zh_cn");
    put_word(&mut words, "zhcn");
    put_word(&mut words, "zh-CN");
    put_word(&mut words, "zh_CN");
    put_word(&mut words, "simplified");
    put_word(&mut words, "简体");
    put_word(&mut words, "简体中文");
    put_word(&mut words, "中文");
    put_word(&mut words, "汉语");
    words
}

/// The standard keywords of `zh-tw`.
fn words_zh_tw() -> (words: Vec<String>)
    ensures
        texts_view(words@) == seq!["zh-tw"@, "zh_tw"@, "zhtw"@, "zh-TW"@, "zh_TW"@, "traditional"@, "繁體"@, "繁體中文"@, "正體"@, "正體中文"@, "zh-hk"@, "zh_hk"@, "香港"@, "台灣"@, "澳門"@],
{
    let mut words: Vec<String> = Vec::new();
    put_word(&mut words, "zh-tw");
    put_word(&mut words, "zh_tw");
    put_word(&mut words, "zhtw");
    put_word(&mut words, "zh-TW");
    put_word(&mut words, "zh_TW");
    put_word(&mut words, "traditional");
    put_word(&mut words, "繁體");
    put_word(&mut words, "繁體中文");
    put_word(&mut words, "正體");
    put_word(&mut words, "正體中文");
    put_word(&mut words, "zh-hk");
    put_word(&mut words, "zh_hk");
    put_word(&mut words, "香港");
    put_word(&mut words, "台灣");
    put_word(&mut words, "澳門");
    words
}

/// The standard keywords of `ja`.
fn words_ja() -> (words: Vec<String>)
    ensures
        texts_view(words@) == seq!["ja"@, "jp"@, "jpn"@, "japanese"@, "日本語"@, "日文"@, "にほんご"@],
{
    let mut words: Vec<String> = Vec::new();
    put_word(&mut words, "ja");
    put_word(&mut words, "jp");
    put_word(&mut words, "jpn");
    put_word(&mut words, "japanese");
    put_word(&mut words, "日本語");
    put_word(&mut words, "日文");
    put_word(&mut words, "にほんご");
    words
}

/// The standard keywords of `ko`.
fn words_ko() -> (words: Vec<String>)
    ensures
        texts_view(words@) == seq!["ko"@, "kr"@, "kor"@, "korean"@, "한국어"@, "韓國語"@, "조선말"@],
{
    let mut words: Vec<String> = Vec::new();
    put_word(&mut words, "ko");
    put_word(&mut words, "kr");
    put_word(&mut words, "kor");
    put_word(&mut words, "korean");
    put_word(&mut words, "한국어");
    put_word(&mut words, "韓國語");
    put_word(&mut words, "조선말");
    words
}

/// The standard keywords of `vi`.
fn words_vi() -> (words: Vec<String>)
    ensures
        texts_view(words@) == seq!["vi"@, "vie"@, "vietnamese"@, "tieng-viet"@, "tiếng-việt"@],
{
    let mut words: Vec<String> = Vec::new();
    put_word(&mut words, "vi");
    put_word(&mut words, "vie");
    put_word(&mut words, "vietnamese");
    put_word(&mut words, "tieng-viet");
    put_word(&mut words, "tiếng-việt");
    words
}

/// The standard keywords of `es`.
fn words_es() -> (words: Vec<String>)
    ensures
        texts_view(words@) == seq!["es"@, "spa"@, "spanish"@, "español"@, "castellano"@, "西班牙语"@, "西班牙文"@],
{
    let mut words: Vec<String> = Vec::new();
    put_word(&mut words, "es");
    put_word(&mut words, "spa");
    put_word(&mut words, "spanish");
    put_word(&mut words, "español");
    put_word(&mut words, "castellano");
    put_word(&mut words, "西班牙语");
    put_word(&mut words, "西班牙文");
    words
}

/// The standard keywords of `fr`.
fn words_fr() -> (words: Vec<String>)
    ensures
        texts_view(words@) == seq!["fr"@, "fra"@, "french"@, "français"@, "法语"@, "法文"@],
{
    let mut words: Vec<String> = Vec::new();
    put_word(&mut words, "fr");
    put_word(&mut words, "fra");
    put_word(&mut words, "french");
    put_word(&mut words, "français");
    put_word(&mut words, "法语");
    put_word(&mut words, "法文");
    words
}

/// The standard keywords of `de`.
fn words_de() -> (words: Vec<String>)
    ensures
        texts_view(words@) == seq!["de"@, "deu"@, "german"@, "deutsch"@, "德语"@, "德文"@],
{
    let mut words: Vec<String> = Vec::new();
    put_word(&mut words, "de");
    put_word(&mut words, "deu");
    put_word(&mut words, "german");
    put_word(&mut words, "deutsch");
    put_word(&mut words, "德语");
    put_word(&mut words, "德文");
    words
}

/// The standard keywords of `it`.
fn words_it() -> (words: Vec<String>)
    ensures
        texts_view(words@) == seq!["it"@, "ita"@, "italian"@, "italiano"@, "意大利语"@, "意大利文"@],
{
    let mut words: Vec<String> = Vec::new();
    put_word(&mut words, "it");
    put_word(&mut words, "ita");
    put_word(&mut words, "italian");
    put_word(&mut words, "italiano");
    put_word(&mut words, "意大利语");
    put_word(&mut words, "意大利文");
    words
}

/// Builds the standard keyword table.
fn build_keywords() -> (table: Vec<(String, Vec<String>)>)
    ensures
        lists_view(table@) == standard_keywords(),
{
    let mut table: Vec<(String, Vec<String>)> = Vec::new();
    put_list(&mut table, "zh-cn", words_zh_cn());
    put_list(&mut table, "zh-tw", words_zh_tw());
    put_list(&mut table, "ja", words_ja());
    put_list(&mut table, "ko", words_ko());
    put_list(&mut table, "vi", words_vi());
    put_list(&mut table, "es", words_es());
    put_list(&mut table, "fr", words_fr());
    put_list(&mut table, "de", words_de());
    put_list(&mut table, "it", words_it());
    table
}

/// Builds the standard table of native names.
fn build_native_names() -> (table: Vec<(String, String)>)
    ensures
        pairs_view(table@) == standard_native_names(),
{
    let mut table: Vec<(String, String)> = Vec::new();
    put_pair(&mut table, "zh-cn", "简体中文");
    put_pair(&mut table, "zh-tw", "繁體中文");
    put_pair(&mut table, "ja", "日本語");
    put_pair(&mut table, "ko", "한국어");
    put_pair(&mut table, "vi", "Tiếng Việt");
    put_pair(&mut table, "th", "ไทย");
    put_pair(&mut table, "id", "Bahasa Indonesia");
    put_pair(&mut table, "ms", "Bahasa Melayu");
    put_pair(&mut table, "en", "English");
    put_pair(&mut table, "es", "Español");
    put_pair(&mut table, "fr", "Français");
    put_pair(&mut table, "de", "Deutsch");
    put_pair(&mut table, "it", "Italiano");
    put_pair(&mut table, "pt", "Português");
    put_pair(&mut table, "nl", "Nederlands");
    put_pair(&mut table, "ru", "Русский");
    put_pair(&mut table, "pl", "Polski");
    put_pair(&mut table, "uk", "Українська");
    put_pair(&mut table, "cs", "Čeština");
    put_pair(&mut table, "hu", "Magyar");
    put_pair(&mut table, "ar", "العربية");
    put_pair(&mut table, "tr", "Türkçe");
    put_pair(&mut table, "hi", "हिन्दी");
    put_pair(&mut table, "he", "עברית");
    table
}

/// Builds the standard table of search words.
fn build_search_keywords() -> (table: Vec<(String, String)>)
    ensures
        pairs_view(table@) == standard_search_keywords(),
{
    let mut table: Vec<(String, String)> = Vec::new();
    put_pair(&mut table, "zh-cn", "Chinese Simplified 简体中文 中文");
    put_pair(&mut table, "zh-tw", "Chinese Traditional 繁體中文 正體中文");
    put_pair(&mut table, "ja", "Japanese 日本語 にほんご");
    put_pair(&mut table, "ko", "Korean 한국어 韓國語");
    put_pair(&mut table, "vi", "Vietnamese Tiếng Việt");
    put_pair(&mut table, "th", "Thai ไทย ภาษาไทย");
    put_pair(&mut table, "id", "Indonesian Bahasa Indonesia");
    put_pair(&mut table, "ms", "Malay Bahasa Melayu Melayu");
    put_pair(&mut table, "es", "Spanish Español Castellano");
    put_pair(&mut table, "fr", "French Français");
    put_pair(&mut table, "de", "German Deutsch");
    put_pair(&mut table, "it", "Italian Italiano");
    put_pair(&mut table, "pt", "Portuguese Português");
    put_pair(&mut table, "ru", "Russian Русский русский язык");
    put_pair(&mut table, "pl", "Polish Polski język polski");
    put_pair(&mut table, "ar", "Arabic العربية");
    put_pair(&mut table, "tr", "Turkish Türkçe");
    table
}

impl LangTables {
    /// The standard set of tables.
    pub fn standard() -> (tables: LangTables)
        ensures
            tables@ == standard_tables(),
    {
        LangTables {
            mappings: build_mappings(),
            keywords: build_keywords(),
            native_names: build_native_names(),
            search_keywords: build_search_keywords(),
        }
    }
}

} // verus!
