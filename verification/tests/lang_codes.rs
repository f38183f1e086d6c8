use i18n::lang_codes::extension_matches;
use i18n::{is_extension_match, normalize, LangTables, Language, LanguageError};

#[test]
fn test_language_creation() {
    let zh_cn = Language::from_code("zh-cn").unwrap();
    assert_eq!(zh_cn.code, "zh-cn");
    assert_eq!(zh_cn.display_name, "简体中文");

    let ja = Language::from_code("ja").unwrap();
    assert_eq!(ja.code, "ja");
    assert_eq!(ja.display_name, "日本語");

    assert!(Language::from_code("invalid").is_err());
}

#[test]
fn test_system_language_detection() {
    assert_eq!(normalize("zh_CN.UTF-8").unwrap(), "zh-cn");
    assert_eq!(normalize("ja_JP.utf8").unwrap(), "ja");
    assert_eq!(normalize("en_US.UTF-8"), None);
}

#[test]
fn test_extension_matching() {
    assert!(is_extension_match("i18n-zh-cn", "zh-cn"));
    assert!(is_extension_match("i18n-zh-CN", "zh-cn"));

    assert!(is_extension_match("i18n-zh-cn-official", "zh-cn"));
    assert!(is_extension_match("i18n-zh-cn-community", "zh-cn"));
    assert!(is_extension_match("i18n-zh-cn-阿里", "zh-cn"));

    assert!(is_extension_match("i18n-简体中文", "zh-cn"));
    assert!(is_extension_match("i18n-简体中文-社区版", "zh-cn"));

    assert!(is_extension_match("i18n-zhcn-custom", "zh-cn"));
    assert!(is_extension_match("i18n-chinese-simplified", "zh-cn"));

    assert!(!is_extension_match("zh-cn", "zh-cn"));
    assert!(!is_extension_match("i18n-en", "zh-cn"));
    assert!(!is_extension_match("i18n-japanese", "zh-cn"));
}

#[test]
fn test_language_mappings() {
    let tables = LangTables::standard();
    assert_eq!(tables.system_mapping("zh_cn"), Some("zh-cn".to_string()));
    assert_eq!(tables.system_mapping("chinese-simplified"), Some("zh-cn".to_string()));
    assert_eq!(tables.system_mapping("japanese"), Some("ja".to_string()));

    assert_eq!(tables.native_name("zh-cn"), Some("简体中文".to_string()));
    assert_eq!(tables.native_name("ja"), Some("日本語".to_string()));

    assert!(tables.search_words("zh-cn").unwrap().contains("中文"));
    assert!(tables.search_words("ja").unwrap().contains("日本語"));
}

#[test]
fn standard_tables_have_every_entry() {
    let tables = LangTables::standard();
    assert_eq!(tables.mappings.len(), 120);
    assert_eq!(tables.keywords.len(), 9);
    assert_eq!(tables.native_names.len(), 24);
    assert_eq!(tables.search_keywords.len(), 17);
    assert_eq!(tables.mappings[0], ("chinese-simplified".to_string(), "zh-cn".to_string()));
    assert_eq!(tables.mappings[119], ("it_it.utf8".to_string(), "it".to_string()));
    assert_eq!(tables.keywords[2].0, "ja");
    assert_eq!(tables.keywords[2].1, vec!["ja", "jp", "jpn", "japanese", "日本語", "日文", "にほんご"]);
}

#[test]
fn table_keys_are_in_lower_case() {
    assert!(LangTables::standard().is_lowered());
    let mut tables = LangTables::standard();
    tables.mappings.push(("ZH".to_string(), "zh-cn".to_string()));
    assert!(!tables.is_lowered());
    // what stands under such a key is never found
    assert_eq!(tables.system_mapping("ZH"), Some("zh-cn".to_string()));
    tables.mappings.retain(|entry| entry.0 != "zh");
    assert_eq!(tables.normalize("ZH"), None);
    let mut tables = LangTables::standard();
    tables.native_names.push(("Pt-BR".to_string(), "Português".to_string()));
    assert!(!tables.is_lowered());
}

#[test]
fn normalize_takes_the_spelling_as_it_is_first() {
    assert_eq!(normalize("zh"), Some("zh-cn".to_string()));
    assert_eq!(normalize("ZH_TW"), Some("zh-tw".to_string()));
    assert_eq!(normalize("zh-Hant"), Some("zh-tw".to_string()));
    assert_eq!(normalize("Chinese (Traditional)"), Some("zh-tw".to_string()));
    assert_eq!(normalize("ko_KR.UTF-8"), Some("ko".to_string()));
}

#[test]
fn normalize_strips_what_follows_the_first_dot() {
    // "fr_ca.iso-8859-1" is no entry; "fr_ca" is.
    assert_eq!(normalize("fr_CA.ISO-8859-1"), Some("fr".to_string()));
    assert_eq!(normalize("de_AT.utf8.extra"), Some("de".to_string()));
}

#[test]
fn normalize_falls_back_to_the_main_language() {
    // neither "es_ar.utf-8" nor "es_ar" is an entry; "es" is.
    assert_eq!(normalize("es_AR.UTF-8"), Some("es".to_string()));
    assert_eq!(normalize("it-SM"), Some("it".to_string()));
    assert_eq!(normalize("vi_XX"), Some("vi".to_string()));
}

#[test]
fn normalize_knows_no_unsupported_language() {
    assert_eq!(normalize(""), None);
    assert_eq!(normalize("en"), None);
    assert_eq!(normalize("pt_BR.UTF-8"), None);
    assert_eq!(normalize("."), None);
    assert_eq!(normalize("_"), None);
}

#[test]
fn normalize_lowered_does_not_change_case() {
    let tables = LangTables::standard();
    assert_eq!(tables.normalize_lowered("ja_jp"), Some("ja".to_string()));
    assert_eq!(tables.normalize_lowered("JA_JP"), None);
    assert_eq!(tables.normalize("JA_JP"), Some("ja".to_string()));
}

#[test]
fn normalize_with_tables_of_ones_own() {
    let tables = LangTables {
        mappings: vec![
            ("zh".to_string(), "zh-tw".to_string()),
            ("zh".to_string(), "zh-cn".to_string()),
            ("tlh.utf8".to_string(), "tlh".to_string()),
        ],
        keywords: vec![],
        native_names: vec![],
        search_keywords: vec![],
    };
    // the first entry of a key wins
    assert_eq!(tables.normalize("zh_CN.UTF-8"), Some("zh-tw".to_string()));
    assert_eq!(tables.normalize("TLH.UTF8"), Some("tlh".to_string()));
    assert_eq!(tables.normalize("tlh"), None);
    assert!(tables.is_canonical("zh-cn"));
    assert!(tables.is_canonical("tlh"));
    assert!(!tables.is_canonical("zh"));
}

#[test]
fn matcher_rules_in_order() {
    let keywords = vec!["jp".to_string(), "日本語".to_string()];
    let native = "日本語".to_string();
    // no prefix
    assert!(!extension_matches("ja", "ja", &keywords, Some(&native)));
    assert!(!extension_matches("i18n", "ja", &keywords, Some(&native)));
    assert!(!extension_matches("xi18n-ja", "ja", &keywords, Some(&native)));
    // the rest begins with the code
    assert!(extension_matches("i18n-ja", "ja", &vec![], None));
    assert!(extension_matches("i18n-japan", "ja", &vec![], None));
    assert!(!extension_matches("i18n-xja", "ja", &vec![], None));
    // the rest contains a keyword
    assert!(extension_matches("i18n-pack-jp-1", "ja", &keywords, None));
    assert!(!extension_matches("i18n-pack-j-p", "ja", &keywords, None));
    // the rest contains the native name
    assert!(extension_matches("i18n-x日本語x", "ja", &vec![], Some(&native)));
    assert!(!extension_matches("i18n-x日本x", "ja", &vec![], Some(&native)));
    // the prefix alone
    assert!(!extension_matches("i18n-", "ja", &keywords, Some(&native)));
    assert!(extension_matches("i18n-", "", &keywords, Some(&native)));
}

#[test]
fn matcher_compares_in_lower_case() {
    assert!(is_extension_match("I18N-ZH-CN", "zh-cn"));
    assert!(is_extension_match("i18n-pack-ESPAÑOL", "es"));
    assert!(is_extension_match("i18n-DEUTSCH", "de"));
    // the code itself is taken as it is
    assert!(!is_extension_match("i18n-th", "TH"));
    assert!(is_extension_match("i18n-th", "th"));
    // a language with a native name and no keywords
    assert!(is_extension_match("i18n-pack-ไทย", "th"));
    assert!(!is_extension_match("i18n-pack", "th"));
}

#[test]
fn language_is_supported_by_extension() {
    let ja = Language::from_code("JA").unwrap();
    assert_eq!(ja.code, "ja");
    assert!(ja.is_supported_by_extension("i18n-japanese"));
    assert!(!ja.is_supported_by_extension("i18n-korean"));
    assert!(!ja.is_supported_by_extension("japanese"));
}

#[test]
fn language_from_code_names_the_unknown_code() {
    match Language::from_code("Invalid") {
        Err(LanguageError::UnknownLanguage(code)) => assert_eq!(code, "invalid"),
        Ok(_) => panic!("an unknown code was accepted"),
    }
    assert_eq!(
        LanguageError::UnknownLanguage("xx".to_string()).message(),
        "不支持的语言代码: xx"
    );
}

#[test]
fn language_search_keywords() {
    let zh = Language::from_code("zh-cn").unwrap();
    assert_eq!(zh.search_keywords(), Some("Chinese Simplified 简体中文 中文".to_string()));
    // a language with a native name and no search words
    let he = Language::from_code("he").unwrap();
    assert_eq!(he.display_name, "עברית");
    assert_eq!(he.search_keywords(), None);
}

#[test]
fn language_validate() {
    assert_eq!(Language::validate(""), Ok(()));
    assert_eq!(Language::validate("en"), Ok(()));
    assert_eq!(Language::validate("zh-CN"), Ok(()));
    assert_eq!(Language::validate("ru"), Ok(()));
    assert_eq!(
        Language::validate("xx"),
        Err(LanguageError::UnknownLanguage("xx".to_string()))
    );
    assert_eq!(
        Language::validate("EN-US"),
        Err(LanguageError::UnknownLanguage("en-us".to_string()))
    );
}

#[test]
fn language_find_extension_id() {
    assert_eq!(Language::find_extension_id("zh-cn"), Some("i18n-zh-cn".to_string()));
    assert_eq!(Language::find_extension_id("ZH-TW"), Some("i18n-zh-tw".to_string()));
    assert_eq!(Language::find_extension_id("ja"), Some("i18n-ja".to_string()));
    // a known language without keywords has no candidate
    assert_eq!(Language::find_extension_id("th"), None);
    // an unknown language has none either
    assert_eq!(Language::find_extension_id("xx"), None);
}

#[test]
fn find_extension_id_takes_the_first_keyword_that_matches() {
    let tables = LangTables {
        mappings: vec![],
        keywords: vec![("ja".to_string(), vec!["".to_string(), "JP".to_string()])],
        native_names: vec![("ja".to_string(), "日本語".to_string())],
        search_keywords: vec![],
    };
    // "i18n-" + "" has a rest that contains the empty keyword
    assert_eq!(tables.find_extension_id("ja"), Some("i18n-".to_string()));
    let tables = LangTables {
        mappings: vec![],
        keywords: vec![("ja".to_string(), vec!["JP".to_string(), "jpn".to_string()])],
        native_names: vec![("ja".to_string(), "日本語".to_string())],
        search_keywords: vec![],
    };
    assert_eq!(tables.find_extension_id("ja"), Some("i18n-JP".to_string()));
    let tables = LangTables {
        mappings: vec![],
        keywords: vec![("ja".to_string(), vec![])],
        native_names: vec![("ja".to_string(), "日本語".to_string())],
        search_keywords: vec![],
    };
    assert_eq!(tables.find_extension_id("ja"), None);
}

#[test]
fn language_get_display_name() {
    assert_eq!(Language::get_display_name("ko"), Some("한국어".to_string()));
    assert_eq!(Language::get_display_name("en"), Some("English".to_string()));
    assert_eq!(Language::get_display_name("KO"), None);
    assert_eq!(Language::get_display_name("xx"), None);
}
