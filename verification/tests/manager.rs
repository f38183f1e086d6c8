use i18n::cache::MAX_CACHE_CAPACITY;
use i18n::manager::DEFAULT_CACHE_CAPACITY;
use i18n::{
    i18n_key, substitute, I18nLangResources, I18nManager, I18nManagerAPI, JsonField, LangTables,
    LanguageError, TranslationError, TranslationResource,
};

fn set_of(pairs: &[(&str, &str)]) -> I18nLangResources {
    let mut set = I18nLangResources::new();
    for (key, text) in pairs {
        set.insert(key.to_string(), text.to_string());
    }
    set
}

fn strings(list: &[&str]) -> Vec<String> {
    list.iter().map(|s| s.to_string()).collect()
}

#[test]
fn new_manager_is_empty_and_in_the_base_language() {
    let mut manager = I18nManager::new();
    assert_eq!(manager.current_language(), "en-US");
    assert_eq!(manager.registered_languages(), Vec::<String>::new());
    assert_eq!(manager.fallback_language(), None);
    assert_eq!(manager.cached_count(), 0);
    assert_eq!(manager.get_text("i18n.menu.file"), None);
    assert!(!manager.is_rtl());
    assert_eq!(DEFAULT_CACHE_CAPACITY, 1000);
}

#[test]
fn registered_text_is_returned_and_returned_again() {
    let mut manager = I18nManager::new();
    manager.register("fr", set_of(&[("i18n.menu.file", "Fichier"), ("i18n.menu.edit", "Édition")]));
    assert_eq!(manager.switch_language("fr"), Ok(()));
    assert_eq!(manager.cached_count(), 0);
    assert_eq!(manager.get_text("i18n.menu.file"), Some("Fichier".to_string()));
    assert_eq!(manager.cached_count(), 1);
    assert_eq!(manager.get_text("i18n.menu.file"), Some("Fichier".to_string()));
    assert_eq!(manager.cached_count(), 1);
    assert_eq!(manager.get_text("i18n.menu.edit"), Some("Édition".to_string()));
    assert_eq!(manager.cached_count(), 2);
}

#[test]
fn missing_text_comes_from_the_fallback_language() {
    let mut manager = I18nManager::new();
    manager.register_default_texts();
    manager.register("fr", set_of(&[("i18n.menu.file", "Fichier")]));
    assert_eq!(manager.switch_language("fr"), Ok(()));
    assert_eq!(manager.fallback_language(), Some("en-US".to_string()));
    assert_eq!(manager.get_text("i18n.menu.file"), Some("Fichier".to_string()));
    assert_eq!(manager.get_text("i18n.menu.file.save"), Some("Save".to_string()));
    // and again, now from the cache
    assert_eq!(manager.get_text("i18n.menu.file.save"), Some("Save".to_string()));
}

#[test]
fn exactly_one_language_is_the_fallback() {
    let mut manager = I18nManager::new();
    manager.register("ja", set_of(&[]));
    manager.register("fr", set_of(&[("k", "v")]));
    assert_eq!(manager.switch_language("de"), Ok(()));
    // the first registered language that is not the active one
    assert_eq!(manager.fallback_language(), Some("ja".to_string()));
    assert_eq!(manager.get_text("k"), None);
    manager.set_fallback_language(Some("fr".to_string()));
    assert_eq!(manager.fallback_language(), Some("fr".to_string()));
    assert_eq!(manager.get_text("k"), Some("v".to_string()));
    // the active language is never found as the fallback by the order
    manager.set_fallback_language(None);
    assert_eq!(manager.switch_language("ja"), Ok(()));
    assert_eq!(manager.fallback_language(), Some("fr".to_string()));
    assert_eq!(manager.get_text("k"), Some("v".to_string()));
}

#[test]
fn a_key_that_no_language_has_is_absent() {
    let mut manager = I18nManager::new();
    manager.register_default_texts();
    manager.register("fr", set_of(&[("i18n.menu.file", "Fichier")]));
    assert_eq!(manager.get_text("i18n.no.such.key"), None);
    assert_eq!(manager.get_text(""), None);
    // what is absent is not cached
    assert_eq!(manager.cached_count(), 0);
    assert_eq!(manager.format_text("i18n.no.such.key", &[("a", "b")]), None);
}

#[test]
fn format_text_puts_the_parameters_in() {
    let mut manager = I18nManager::new();
    manager.register("en-US", set_of(&[("greeting", "Hello, {name}!")]));
    assert_eq!(
        manager.format_text("greeting", &[("name", "Ada")]),
        Some("Hello, Ada!".to_string())
    );
    // a placeholder without a parameter stays
    assert_eq!(manager.format_text("greeting", &[]), Some("Hello, {name}!".to_string()));
    assert_eq!(
        manager.format_text("greeting", &[("who", "Ada")]),
        Some("Hello, {name}!".to_string())
    );
    // a parameter without a placeholder changes nothing
    assert_eq!(
        manager.format_text("greeting", &[("name", "Ada"), ("unused", "x")]),
        Some("Hello, Ada!".to_string())
    );
}

#[test]
fn substitute_works_in_the_order_of_the_parameters() {
    assert_eq!(substitute("{a}{b}", &[("a", "{b}"), ("b", "x")]), "xx");
    assert_eq!(substitute("{a}{b}", &[("b", "x"), ("a", "{b}")]), "{b}x");
    // what was put in is not searched again within one parameter
    assert_eq!(substitute("{a}", &[("a", "{a}{a}")]), "{a}{a}");
    assert_eq!(substitute("{a}-{a}", &[("a", "1")]), "1-1");
    assert_eq!(substitute("{{a}}", &[("a", "1")]), "{1}");
    assert_eq!(substitute("{}", &[("", "empty")]), "empty");
    assert_eq!(substitute("", &[("a", "1")]), "");
    assert_eq!(substitute("{名}様", &[("名", "山田")]), "山田様");
}

#[test]
fn switching_the_language_drops_what_was_cached() {
    let mut manager = I18nManager::new();
    manager.register("es", set_of(&[("k", "Guardar")]));
    manager.register("de", set_of(&[]));
    manager.set_fallback_language(Some("xx".to_string()));
    assert_eq!(manager.switch_language("es"), Ok(()));
    assert_eq!(manager.get_text("k"), Some("Guardar".to_string()));
    assert_eq!(manager.cached_keys(), strings(&["k"]));
    assert_eq!(manager.switch_language("de"), Ok(()));
    assert_eq!(manager.cached_count(), 0);
    assert_eq!(manager.get_text("k"), None);
    // back again the text is there again
    assert_eq!(manager.switch_language("es"), Ok(()));
    assert_eq!(manager.get_text("k"), Some("Guardar".to_string()));
}

#[test]
fn switching_to_the_language_that_is_the_fallback_of_the_next() {
    // without a configured fallback the language before may be the fallback
    // after: the text comes from the resource set then, not from the cache
    let mut manager = I18nManager::new();
    manager.register("es", set_of(&[("k", "Guardar")]));
    manager.register("de", set_of(&[]));
    assert_eq!(manager.switch_language("es"), Ok(()));
    assert_eq!(manager.get_text("k"), Some("Guardar".to_string()));
    assert_eq!(manager.switch_language("de"), Ok(()));
    assert_eq!(manager.cached_count(), 0);
    assert_eq!(manager.fallback_language(), Some("es".to_string()));
    assert_eq!(manager.get_text("k"), Some("Guardar".to_string()));
}

#[test]
fn switch_language_refuses_unknown_codes() {
    let mut manager = I18nManager::new();
    manager.register("en-US", set_of(&[("k", "v")]));
    assert_eq!(manager.get_text("k"), Some("v".to_string()));
    assert_eq!(
        manager.switch_language("xx"),
        Err(LanguageError::UnknownLanguage("xx".to_string()))
    );
    // nothing has changed, the cache neither
    assert_eq!(manager.current_language(), "en-US");
    assert_eq!(manager.cached_count(), 1);
    // a raw spelling is no canonical code
    assert_eq!(
        manager.switch_language("zh_cn"),
        Err(LanguageError::UnknownLanguage("zh_cn".to_string()))
    );
    assert_eq!(
        manager.switch_language("ZH-CN"),
        Err(LanguageError::UnknownLanguage("ZH-CN".to_string()))
    );
    assert_eq!(
        manager.switch_language(""),
        Err(LanguageError::UnknownLanguage("".to_string()))
    );
    assert_eq!(manager.switch_language("zh-cn"), Ok(()));
    assert_eq!(manager.current_language(), "zh-cn");
    assert_eq!(manager.cached_count(), 0);
    // the base language is always accepted
    assert_eq!(manager.switch_language("en-US"), Ok(()));
    assert_eq!(manager.current_language(), "en-US");
    for code in ["zh-tw", "ja", "ko", "vi", "th", "id", "ms", "es", "fr", "de", "it"] {
        assert_eq!(manager.switch_language(code), Ok(()));
    }
}

#[test]
fn is_rtl_follows_the_active_language() {
    let tables = LangTables {
        mappings: vec![
            ("arabic".to_string(), "ar".to_string()),
            ("hebrew".to_string(), "he".to_string()),
            ("farsi".to_string(), "fa".to_string()),
        ],
        keywords: vec![],
        native_names: vec![],
        search_keywords: vec![],
    };
    let mut manager = I18nManager::new();
    assert!(!manager.is_rtl());
    assert_eq!(manager.switch_language_with(&tables, "ar"), Ok(()));
    assert!(manager.is_rtl());
    assert_eq!(manager.switch_language_with(&tables, "he"), Ok(()));
    assert!(manager.is_rtl());
    assert_eq!(manager.switch_language_with(&tables, "fa"), Ok(()));
    assert!(!manager.is_rtl());
    assert_eq!(
        manager.switch_language_with(&tables, "ja"),
        Err(LanguageError::UnknownLanguage("ja".to_string()))
    );
    assert_eq!(manager.switch_language_with(&tables, "en-US"), Ok(()));
    assert!(!manager.is_rtl());
    // the standard table knows neither
    assert!(manager.switch_language("ar").is_err());
}

#[test]
fn registering_replaces_the_whole_set_and_empties_the_cache() {
    let mut manager = I18nManager::new();
    manager.register("fr", set_of(&[("a", "1"), ("b", "2")]));
    manager.register("de", set_of(&[("a", "eins")]));
    assert_eq!(manager.switch_language("fr"), Ok(()));
    manager.set_fallback_language(Some("fr".to_string()));
    assert_eq!(manager.get_text("a"), Some("1".to_string()));
    assert_eq!(manager.get_text("b"), Some("2".to_string()));
    manager.register("fr", set_of(&[("a", "3")]));
    assert_eq!(manager.cached_count(), 0);
    assert_eq!(manager.get_text("a"), Some("3".to_string()));
    assert_eq!(manager.get_text("b"), None);
    // the language keeps its place in the order of registration
    assert_eq!(manager.registered_languages(), strings(&["fr", "de"]));
    assert_eq!(manager.lookup("de", "a"), Some("eins".to_string()));
}

#[test]
fn deregistering_removes_the_set() {
    let mut manager = I18nManager::new();
    manager.register("fr", set_of(&[("a", "1")]));
    manager.register("de", set_of(&[("a", "eins")]));
    manager.register("it", set_of(&[("a", "uno")]));
    assert_eq!(manager.switch_language("de"), Ok(()));
    assert_eq!(manager.get_text("a"), Some("eins".to_string()));
    manager.deregister("de");
    assert_eq!(manager.registered_languages(), strings(&["fr", "it"]));
    assert!(!manager.is_registered("de"));
    assert_eq!(manager.lookup("de", "a"), None);
    assert_eq!(manager.cached_count(), 0);
    // the active language has no set now: the fallback answers
    assert_eq!(manager.get_text("a"), Some("1".to_string()));
    manager.deregister("fr");
    assert_eq!(manager.get_text("a"), Some("uno".to_string()));
    manager.deregister("nothing");
    assert_eq!(manager.registered_languages(), strings(&["it"]));
    manager.deregister("it");
    assert_eq!(manager.get_text("a"), None);
}

#[test]
fn the_cache_evicts_the_entry_used_least_recently() {
    let mut manager = I18nManager::with_capacity(2).unwrap();
    manager.register("en-US", set_of(&[("a", "1"), ("b", "2"), ("c", "3")]));
    assert_eq!(manager.get_text("a"), Some("1".to_string()));
    assert_eq!(manager.get_text("b"), Some("2".to_string()));
    assert_eq!(manager.cached_keys(), strings(&["b", "a"]));
    // a hit moves the entry to the front
    assert_eq!(manager.get_text("a"), Some("1".to_string()));
    assert_eq!(manager.cached_keys(), strings(&["a", "b"]));
    // a new entry in a full cache takes the place of the last
    assert_eq!(manager.get_text("c"), Some("3".to_string()));
    assert_eq!(manager.cached_keys(), strings(&["c", "a"]));
    assert_eq!(manager.cached_count(), 2);
    // what was evicted is found again all the same
    assert_eq!(manager.get_text("b"), Some("2".to_string()));
    assert_eq!(manager.cached_keys(), strings(&["b", "c"]));
}

#[test]
fn a_cache_of_one_entry() {
    let mut manager = I18nManager::with_capacity(1).unwrap();
    manager.register("en-US", set_of(&[("a", "1"), ("b", "2")]));
    assert_eq!(manager.get_text("a"), Some("1".to_string()));
    assert_eq!(manager.get_text("b"), Some("2".to_string()));
    assert_eq!(manager.cached_keys(), strings(&["b"]));
    assert_eq!(manager.get_text("b"), Some("2".to_string()));
    assert_eq!(manager.cached_keys(), strings(&["b"]));
}

#[test]
fn the_default_cache_holds_a_thousand_entries() {
    let mut manager = I18nManager::new();
    let mut set = I18nLangResources::new();
    for i in 0..1001 {
        set.insert(format!("k{}", i), format!("v{}", i));
    }
    manager.register("en-US", set);
    for i in 0..1001 {
        assert_eq!(manager.get_text(&format!("k{}", i)), Some(format!("v{}", i)));
    }
    assert_eq!(manager.cached_count(), 1000);
    let keys = manager.cached_keys();
    assert_eq!(keys[0], "k1000");
    assert_eq!(keys[999], "k1");
}

#[test]
fn with_capacity_refuses_what_no_cache_can_have() {
    assert!(I18nManager::with_capacity(0).is_none());
    assert!(I18nManager::with_capacity(MAX_CACHE_CAPACITY + 1).is_none());
    assert!(I18nManager::with_capacity(usize::MAX).is_none());
    assert!(I18nManager::with_capacity(1).is_some());
    assert!(I18nManager::with_capacity(5000).is_some());
}

#[test]
fn default_texts_are_registered_for_the_base_language() {
    let mut manager = I18nManager::new();
    manager.register_default_texts();
    assert_eq!(manager.registered_languages(), strings(&["en-US"]));
    assert_eq!(manager.get_text("i18n.menu.zed"), Some("Zed".to_string()));
    assert_eq!(manager.get_text("i18n.menu.zed.about_zed"), Some("About Zed…".to_string()));
    assert_eq!(
        manager.get_text("i18n.menu.other.editor_layout"),
        Some("Editor Layout".to_string())
    );
    assert_eq!(
        manager.get_text("i18n.menu.go.go_to_line/column"),
        Some("Go to Line/Column...".to_string())
    );
    let set = manager.resources_of("en-US").unwrap();
    assert_eq!(set.len(), 95);
    assert_eq!(set.keys(), i18n::get_all_default_text_keys());
}

#[test]
fn default_text_table() {
    assert_eq!(i18n::get_default_text("i18n.menu.file.save"), Some("Save".to_string()));
    assert_eq!(i18n::get_default_text("i18n.menu.file.save_as"), Some("Save As…".to_string()));
    assert_eq!(i18n::get_default_text("i18n.menu.file.saved"), None);
    assert_eq!(i18n::get_default_text(""), None);
    let keys = i18n::get_all_default_text_keys();
    assert_eq!(keys.len(), 95);
    assert_eq!(keys[0], "i18n.menu.zed");
    assert_eq!(keys[94], "i18n.menu.other.editor_layout");
}

#[test]
fn translation_data_is_registered() {
    let mut manager = I18nManager::new();
    let registered = manager.register_i18n_lang_extension(
        "zh-cn",
        "{\"i18n.menu.file\": \"文件\", \"i18n.menu.edit\": \"编辑\", \"rtl\": false}",
    );
    assert_eq!(registered, Ok(()));
    assert_eq!(manager.switch_language("zh-cn"), Ok(()));
    assert_eq!(manager.get_text("i18n.menu.file"), Some("文件".to_string()));
    assert_eq!(manager.get_text("i18n.menu.edit"), Some("编辑".to_string()));
    assert_eq!(manager.get_text("rtl"), None);
    assert_eq!(manager.resources_of("zh-cn").unwrap().len(), 2);
}

#[test]
fn unreadable_translation_data_changes_nothing() {
    let mut manager = I18nManager::new();
    manager.register("zh-cn", set_of(&[("k", "旧")]));
    assert_eq!(manager.switch_language("zh-cn"), Ok(()));
    assert_eq!(manager.get_text("k"), Some("旧".to_string()));
    for content in ["", "{", "[]", "\"text\"", "{\"k\": \"v\",}", "{\"k\": \"v\"} x", "null"] {
        match manager.register_i18n_lang_extension("zh-cn", content) {
            Err(TranslationError::ResourceFormatError(_)) => {}
            other => panic!("{:?} was not refused: {:?}", content, other),
        }
    }
    // a value that is no text names its field
    assert_eq!(
        manager.register_i18n_lang_extension("zh-cn", "{\"a\": \"b\", \"count\": 3}"),
        Err(TranslationError::ResourceFormatError("count".to_string()))
    );
    assert_eq!(
        manager.register_i18n_lang_extension("zh-cn", "{\"a\": {\"b\": \"c\"}}"),
        Err(TranslationError::ResourceFormatError("a".to_string()))
    );
    // a flag under another name than rtl is no text either
    assert_eq!(
        manager.register_i18n_lang_extension("zh-cn", "{\"ltr\": true}"),
        Err(TranslationError::ResourceFormatError("ltr".to_string()))
    );
    assert_eq!(manager.registered_languages(), strings(&["zh-cn"]));
    assert_eq!(manager.lookup("zh-cn", "k"), Some("旧".to_string()));
    assert_eq!(manager.cached_count(), 1);
}

#[test]
fn resource_set_from_json() {
    let set = I18nLangResources::from_json("{\"b\": \"2\", \"rtl\": true, \"a\": \"1\"}").unwrap();
    assert!(set.is_rtl());
    assert_eq!(set.len(), 2);
    assert_eq!(set.get("a"), Some("1".to_string()));
    assert_eq!(set.get("b"), Some("2".to_string()));
    assert_eq!(set.get("rtl"), None);
    let set = I18nLangResources::from_json("{\"rtl\": \"yes\"}").unwrap();
    assert!(!set.is_rtl());
    assert_eq!(set.get("rtl"), Some("yes".to_string()));
    let set = I18nLangResources::from_json("{}").unwrap();
    assert!(set.is_empty());
    assert!(!set.is_rtl());
    // a key that stands twice has the later text
    let set = I18nLangResources::from_json("{\"a\": \"1\", \"a\": \"2\"}").unwrap();
    assert_eq!(set.len(), 1);
    assert_eq!(set.get("a"), Some("2".to_string()));
    // escapes are read
    let set = I18nLangResources::from_json("{\"a\\n\": \"\\u4e2d\\\"\"}").unwrap();
    assert_eq!(set.get("a\n"), Some("中\"".to_string()));
}

#[test]
fn resource_set_from_fields() {
    let fields = vec![
        ("a".to_string(), JsonField::Text("1".to_string())),
        ("rtl".to_string(), JsonField::Flag(true)),
        ("a".to_string(), JsonField::Text("2".to_string())),
        ("rtl".to_string(), JsonField::Flag(false)),
        ("b".to_string(), JsonField::Text("3".to_string())),
    ];
    let set = I18nLangResources::from_fields(&fields).unwrap();
    assert!(!set.is_rtl());
    assert_eq!(set.keys(), strings(&["a", "b"]));
    assert_eq!(set.get("a"), Some("2".to_string()));
    let fields = vec![
        ("a".to_string(), JsonField::Text("1".to_string())),
        ("x".to_string(), JsonField::Other),
        ("y".to_string(), JsonField::Flag(true)),
    ];
    assert_eq!(
        I18nLangResources::from_fields(&fields).err(),
        Some(TranslationError::ResourceFormatError("x".to_string()))
    );
    assert!(I18nLangResources::from_fields(&vec![]).unwrap().is_empty());
}

#[test]
fn resource_set_keeps_the_order_of_its_keys() {
    let mut set = I18nLangResources::new();
    assert!(set.is_empty());
    set.insert("b".to_string(), "1".to_string());
    set.insert("a".to_string(), "2".to_string());
    set.insert("b".to_string(), "3".to_string());
    assert_eq!(set.len(), 2);
    assert_eq!(set.keys(), strings(&["b", "a"]));
    assert_eq!(set.get("b"), Some("3".to_string()));
    assert_eq!(set.get("c"), None);
    assert!(set.contains_key("a"));
    assert!(!set.contains_key("A"));
    let (key, text) = set.entry(1);
    assert_eq!((key.as_str(), text.as_str()), ("a", "2"));
    assert!(!set.is_rtl());
    set.set_rtl(true);
    assert!(set.is_rtl());
    let copy = set.duplicate();
    assert_eq!(copy.keys(), set.keys());
    assert_eq!(copy.get("b"), Some("3".to_string()));
    assert!(copy.is_rtl());
    let pairs = vec![
        ("x".to_string(), "1".to_string()),
        ("y".to_string(), "2".to_string()),
        ("x".to_string(), "3".to_string()),
    ];
    let set = I18nLangResources::from_pairs(&pairs);
    assert_eq!(set.keys(), strings(&["x", "y"]));
    assert_eq!(set.get("x"), Some("3".to_string()));
}

#[test]
fn try_lookup_says_what_is_missing() {
    let mut manager = I18nManager::new();
    manager.register("fr", set_of(&[("a", "1")]));
    assert_eq!(manager.try_lookup("fr", "a"), Ok("1".to_string()));
    assert_eq!(
        manager.try_lookup("fr", "b"),
        Err(TranslationError::KeyNotFound("b".to_string()))
    );
    assert_eq!(manager.try_lookup("de", "a"), Err(TranslationError::ResourceNotFound));
    assert_eq!(manager.lookup("fr", "a"), Some("1".to_string()));
    assert_eq!(manager.lookup("fr", "b"), None);
    assert_eq!(manager.lookup("de", "a"), None);
    // resolve answers as get_text does and leaves the cache alone
    assert_eq!(manager.resolve("a"), Some("1".to_string()));
    assert_eq!(manager.cached_count(), 0);
}

#[test]
fn error_messages() {
    assert_eq!(TranslationError::ResourceNotFound.message(), "翻译资源未找到");
    assert_eq!(TranslationError::KeyNotFound("k".to_string()).message(), "翻译键未找到: k");
    assert_eq!(
        TranslationError::InvalidKeyFormat("k".to_string()).message(),
        "无效的翻译键格式: k"
    );
    assert_eq!(
        TranslationError::ResourceFormatError("k".to_string()).message(),
        "翻译资源格式错误: k"
    );
}

#[test]
fn keys_begin_with_the_marker() {
    assert_eq!(i18n_key("menu.file"), "i18n.menu.file");
    assert_eq!(i18n_key(""), "i18n.");
}

#[test]
fn manager_api_translates_or_gives_the_key_back() {
    let mut manager = I18nManager::new();
    manager.register("en-US", set_of(&[("i18n.a", "A")]));
    assert_eq!(manager.get_active_lang(), "en-US");
    assert_eq!(manager.translate("i18n.a"), "A");
    assert_eq!(manager.translate("i18n.b"), "i18n.b");
    assert_eq!(manager.set_lang("ja"), Ok(()));
    assert_eq!(manager.get_active_lang(), "ja");
    assert_eq!(
        manager.set_lang("klingon"),
        Err(LanguageError::UnknownLanguage("klingon".to_string()))
    );
    assert_eq!(manager.get_lang_name("ja"), Some("日本語".to_string()));
    assert_eq!(manager.get_lang_name("klingon"), None);
}

#[test]
fn manager_api_adds_and_removes_resources() {
    let mut manager = I18nManager::new();
    let resource = TranslationResource {
        lang_id: "fr".to_string(),
        translations: vec![
            ("i18n.a".to_string(), "1".to_string()),
            ("i18n.b".to_string(), "2".to_string()),
            ("i18n.a".to_string(), "3".to_string()),
        ],
    };
    assert_eq!(manager.add_translation_resource(resource), Ok(()));
    assert_eq!(manager.get_available_langs(), strings(&["fr"]));
    assert_eq!(manager.lookup("fr", "i18n.a"), Some("3".to_string()));
    // a key without the marker is refused and nothing is registered
    let resource = TranslationResource {
        lang_id: "de".to_string(),
        translations: vec![
            ("i18n.a".to_string(), "1".to_string()),
            ("greeting".to_string(), "2".to_string()),
            ("I18N.b".to_string(), "3".to_string()),
        ],
    };
    assert_eq!(
        manager.add_translation_resource(resource),
        Err(TranslationError::InvalidKeyFormat("greeting".to_string()))
    );
    assert_eq!(manager.get_available_langs(), strings(&["fr"]));
    let resource = TranslationResource {
        lang_id: "de".to_string(),
        translations: vec![("i18n".to_string(), "1".to_string())],
    };
    assert_eq!(
        manager.add_translation_resource(resource),
        Err(TranslationError::InvalidKeyFormat("i18n".to_string()))
    );
    assert_eq!(
        manager.remove_translation_resource("de"),
        Err(TranslationError::ResourceNotFound)
    );
    assert_eq!(manager.remove_translation_resource("fr"), Ok(()));
    assert_eq!(manager.get_available_langs(), Vec::<String>::new());
    assert_eq!(
        manager.remove_translation_resource("fr"),
        Err(TranslationError::ResourceNotFound)
    );
}

#[test]
fn cached_answers_agree_with_the_resource_sets() {
    // a long run of operations chosen by a fixed sequence of numbers: every
    // answer of the cache is the answer of the resource sets, and the cache
    // holds no key twice and never more entries than it may
    let langs = ["en-US", "fr", "de", "ja", "it"];
    let keys = ["a", "b", "c", "d", "e", "f", "g"];
    let mut manager = I18nManager::with_capacity(3).unwrap();
    let mut seed: u64 = 0x2545_f491_4f6c_dd1d;
    let mut next = |bound: usize| {
        seed = seed.wrapping_mul(6364136223846793005).wrapping_add(1442695040888963407);
        ((seed >> 33) as usize) % bound
    };
    for step in 0..4000 {
        match next(10) {
            0 => {
                let mut set = I18nLangResources::new();
                for key in keys {
                    if next(2) == 0 {
                        set.insert(key.to_string(), format!("{}-{}", key, step));
                    }
                }
                manager.register(langs[next(langs.len())], set);
                assert_eq!(manager.cached_count(), 0);
            }
            1 => {
                manager.deregister(langs[next(langs.len())]);
                assert_eq!(manager.cached_count(), 0);
            }
            2 => {
                assert_eq!(manager.switch_language(langs[next(langs.len())]), Ok(()));
                assert_eq!(manager.cached_count(), 0);
            }
            3 => {
                let choice = next(langs.len() + 1);
                manager.set_fallback_language(langs.get(choice).map(|l| l.to_string()));
                assert_eq!(manager.cached_count(), 0);
            }
            _ => {
                let key = keys[next(keys.len())];
                let expected = manager.resolve(key);
                let before = manager.cached_keys();
                assert_eq!(manager.get_text(key), expected);
                let after = manager.cached_keys();
                match expected {
                    Some(_) => {
                        assert_eq!(after[0], key);
                        let mut rest: Vec<String> =
                            before.iter().filter(|k| k.as_str() != key).cloned().collect();
                        if !before.iter().any(|k| k == key) && before.len() == 3 {
                            rest.pop();
                        }
                        assert_eq!(after[1..].to_vec(), rest);
                    }
                    None => assert_eq!(after, before),
                }
                assert!(after.len() <= 3);
                for (i, k) in after.iter().enumerate() {
                    assert!(!after[..i].contains(k));
                }
            }
        }
    }
}
