use i18n::extension::{
    register_i18n_extensions, ExtensionHostProxy, ExtensionI18nProxy, I18nExtension,
    InstalledExtension,
};
use i18n::selector::I18nLangSelector;
use i18n::settings::{copy_of, default_true, system_lang_or_base, I18nLangMeta, I18nSettings};
use i18n::{I18nLangResources, I18nManager, TranslationError};

fn meta(id: &str, name: &str, display_name: &str) -> I18nLangMeta {
    I18nLangMeta {
        id: id.to_string(),
        name: name.to_string(),
        display_name: display_name.to_string(),
        extension_id: None,
        rtl: false,
    }
}

fn ids(settings: &I18nSettings) -> Vec<String> {
    settings.get_available_i18n_langs().into_iter().map(|m| m.id).collect()
}

#[test]
fn default_settings() {
    let settings = I18nSettings::default();
    assert_eq!(settings.get_active_i18n_lang(), None);
    assert!(!settings.get_auto_detect_system_i18n_lang());
    assert_eq!(settings.get_fallback_i18n_lang(), None);
    assert!(settings.get_available_i18n_langs().is_empty());
    assert!(default_true());
}

#[test]
fn settings_are_set_and_read() {
    let mut settings = I18nSettings::default();
    settings.set_i18n_lang(Some("ja".to_string()));
    settings.set_auto_detect_system_i18n_lang(true);
    settings.set_fallback_i18n_lang(Some("en-US".to_string()));
    assert_eq!(settings.get_active_i18n_lang(), Some("ja".to_string()));
    assert!(settings.get_auto_detect_system_i18n_lang());
    assert_eq!(settings.get_fallback_i18n_lang(), Some("en-US".to_string()));
    settings.set_i18n_lang(None);
    assert_eq!(settings.get_active_i18n_lang(), None);
    assert_eq!(settings.get_fallback_i18n_lang(), Some("en-US".to_string()));
    assert_eq!(copy_of(&Some("x".to_string())), Some("x".to_string()));
    assert_eq!(copy_of(&None), None);
}

#[test]
fn languages_at_hand() {
    let mut settings = I18nSettings::default();
    settings.add_available_i18n_lang(meta("ja", "Japanese", "日本語"));
    settings.add_available_i18n_lang(meta("fr", "French", "Français"));
    settings.add_available_i18n_lang(meta("ja", "Japanese", "にほんご"));
    assert_eq!(ids(&settings), vec!["ja", "fr"]);
    assert_eq!(settings.find_available("ja").unwrap().display_name, "にほんご");
    assert!(settings.find_available("de").is_none());
    settings.remove_available_i18n_lang("de");
    assert_eq!(ids(&settings), vec!["ja", "fr"]);
    settings.remove_available_i18n_lang("ja");
    assert_eq!(ids(&settings), vec!["fr"]);
    assert!(settings.find_available("ja").is_none());
}

#[test]
fn the_system_language_is_taken_where_the_settings_ask_for_it() {
    let mut settings = I18nSettings::default();
    settings.set_i18n_lang(Some("fr".to_string()));
    settings.init_default_lang("ja-JP".to_string());
    assert_eq!(settings.get_active_i18n_lang(), Some("fr".to_string()));
    settings.set_auto_detect_system_i18n_lang(true);
    settings.init_default_lang("ja-JP".to_string());
    assert_eq!(settings.get_active_i18n_lang(), Some("ja-JP".to_string()));
    assert_eq!(system_lang_or_base(Some("de-DE".to_string())), "de-DE");
    assert_eq!(system_lang_or_base(None), "en-US");
}

#[test]
fn the_language_that_a_pack_is_for() {
    let tables = i18n::LangTables::standard();
    let mut settings = I18nSettings::default();
    settings.add_available_i18n_lang(meta("fr", "French", "Français"));
    settings.add_available_i18n_lang(meta("ja", "Japanese", "日本語"));
    let mut assigned = meta("ko", "Korean", "한국어");
    assigned.extension_id = Some("hangul-pack".to_string());
    settings.add_available_i18n_lang(assigned);
    assert_eq!(settings.language_of_extension(&tables, "i18n-japanese"), Some("ja".to_string()));
    assert_eq!(settings.language_of_extension(&tables, "I18N-FRA"), Some("fr".to_string()));
    // the first language that the pack serves is taken
    assert_eq!(settings.language_of_extension(&tables, "i18n-jp-french"), Some("fr".to_string()));
    // a pack that is assigned needs no matching identifier
    assert_eq!(settings.language_of_extension(&tables, "hangul-pack"), Some("ko".to_string()));
    assert_eq!(settings.language_of_extension(&tables, "i18n-korean"), Some("ko".to_string()));
    assert_eq!(settings.language_of_extension(&tables, "i18n-german"), None);
    assert_eq!(settings.language_of_extension(&tables, "japanese"), None);
}

#[test]
fn the_manager_takes_over_the_preferences() {
    let mut manager = I18nManager::new();
    let mut settings = I18nSettings::default();
    manager.apply_settings(&settings);
    assert_eq!(manager.current_language(), "en-US");
    assert_eq!(manager.fallback_language(), None);
    settings.set_i18n_lang(Some("zh_CN.UTF-8".to_string()));
    settings.set_fallback_i18n_lang(Some("en-US".to_string()));
    manager.apply_settings(&settings);
    assert_eq!(manager.current_language(), "zh-cn");
    assert_eq!(manager.fallback_language(), Some("en-US".to_string()));
    // a language that the table does not know leaves the active one
    settings.set_i18n_lang(Some("tlh".to_string()));
    settings.set_fallback_i18n_lang(None);
    manager.apply_settings(&settings);
    assert_eq!(manager.current_language(), "zh-cn");
    assert_eq!(manager.fallback_language(), None);
    settings.set_i18n_lang(Some("en-US".to_string()));
    manager.apply_settings(&settings);
    assert_eq!(manager.current_language(), "en-US");
    settings.set_i18n_lang(Some("en-us".to_string()));
    manager.apply_settings(&settings);
    assert_eq!(manager.current_language(), "en-US");
    settings.set_i18n_lang(Some("ja-JP".to_string()));
    manager.apply_settings(&settings);
    assert_eq!(manager.current_language(), "ja");
}

#[test]
fn an_announced_language() {
    let announced = I18nLangMeta::announced("fr".to_string(), "French".to_string());
    assert_eq!(announced.id, "fr");
    assert_eq!(announced.name, "French");
    assert_eq!(announced.display_name, "French (fr)");
    assert_eq!(announced.extension_id, None);
    assert!(!announced.rtl);
    let copy = announced.duplicate();
    assert_eq!(copy.display_name, "French (fr)");
}

#[test]
fn a_language_pack_loads_its_translations() {
    let mut pack = I18nExtension::new("/packs/zh".to_string());
    assert_eq!(pack.work_dir(), "/packs/zh");
    assert_eq!(
        I18nExtension::translation_file(),
        vec!["resources", "translations", "translation.json"]
    );
    assert_eq!(pack.get_translation("i18n.menu.file"), None);
    assert_eq!(pack.translation_or_key("i18n.menu.file"), "i18n.menu.file");
    assert_eq!(pack.load_translations("{\"i18n.menu.file\": \"文件\"}"), Ok(()));
    assert_eq!(pack.get_translation("i18n.menu.file"), Some("文件".to_string()));
    assert_eq!(pack.get_translation("i18n.menu.edit"), None);
    assert_eq!(pack.translation_or_key("i18n.menu.file"), "文件");
    assert_eq!(pack.translation_or_key("i18n.menu.edit"), "i18n.menu.edit");
    // data that cannot be read leaves what was loaded
    match pack.load_translations("not json") {
        Err(TranslationError::ResourceFormatError(_)) => {}
        other => panic!("not refused: {:?}", other),
    }
    assert_eq!(
        pack.load_translations("{\"a\": 1}"),
        Err(TranslationError::ResourceFormatError("a".to_string()))
    );
    assert_eq!(pack.get_translation("i18n.menu.file"), Some("文件".to_string()));
    assert_eq!(pack.load_translations("{}"), Ok(()));
    assert_eq!(pack.get_translation("i18n.menu.file"), None);
}

#[test]
fn the_host_takes_what_a_pack_offers() {
    let mut host = ExtensionHostProxy::new(I18nManager::new(), I18nSettings::default());
    assert_eq!(host.get_current_i18n_lang(), None);
    host.register_i18n_lang("fr".to_string(), "French".to_string());
    assert_eq!(host.settings.find_available("fr").unwrap().display_name, "French (fr)");
    host.provide_translation("fr".to_string(), "a".to_string(), "1".to_string());
    host.provide_translation("fr".to_string(), "b".to_string(), "2".to_string());
    host.provide_translation("fr".to_string(), "a".to_string(), "3".to_string());
    assert_eq!(host.i18n_manager.registered_languages(), vec!["fr"]);
    assert_eq!(host.i18n_manager.lookup("fr", "a"), Some("3".to_string()));
    assert_eq!(host.i18n_manager.lookup("fr", "b"), Some("2".to_string()));
    host.settings.set_i18n_lang(Some("fr".to_string()));
    assert_eq!(host.get_current_i18n_lang(), Some("fr".to_string()));
}

fn installed(categories: &[&str], locale: Option<&str>, translations: Option<&str>) -> InstalledExtension {
    InstalledExtension {
        categories: categories.iter().map(|c| c.to_string()).collect(),
        locale: locale.map(|l| l.to_string()),
        translations: translations.map(|t| t.to_string()),
    }
}

#[test]
fn installed_language_packs_are_registered() {
    let mut settings = I18nSettings::default();
    settings.set_i18n_lang(Some("ja".to_string()));
    let mut host = ExtensionHostProxy::new(I18nManager::new(), settings);
    let extensions = vec![
        installed(&["theme"], Some("fr"), Some("{\"k\": \"thème\"}")),
        installed(&["i18n"], Some("fr"), Some("{\"k\": \"fr\"}")),
        installed(&["languages", "i18n"], Some("ja"), Some("{\"k\": \"ja\"}")),
        installed(&["i18n"], None, Some("{\"k\": \"?\"}")),
        installed(&["i18n"], Some("de"), Some("broken")),
        installed(&["i18n"], Some("it"), None),
    ];
    register_i18n_extensions(&mut host, &extensions);
    assert_eq!(host.i18n_manager.registered_languages(), vec!["fr", "ja", "unknown"]);
    assert_eq!(host.i18n_manager.current_language(), "ja");
    assert_eq!(host.i18n_manager.get_text("k"), Some("ja".to_string()));
    assert_eq!(host.i18n_manager.lookup("unknown", "k"), Some("?".to_string()));
    assert_eq!(host.settings.get_active_i18n_lang(), Some("ja".to_string()));
}

#[test]
fn the_pack_of_a_language_that_is_not_accepted_does_not_switch() {
    let mut settings = I18nSettings::default();
    settings.set_i18n_lang(Some("tlh".to_string()));
    let mut host = ExtensionHostProxy::new(I18nManager::new(), settings);
    let extensions = vec![installed(&["i18n"], Some("tlh"), Some("{\"k\": \"nuqneH\"}"))];
    register_i18n_extensions(&mut host, &extensions);
    assert_eq!(host.i18n_manager.registered_languages(), vec!["tlh"]);
    assert_eq!(host.i18n_manager.current_language(), "en-US");
    // the only other language is the fallback
    assert_eq!(host.i18n_manager.get_text("k"), Some("nuqneH".to_string()));
}

fn selector_settings() -> I18nSettings {
    let mut settings = I18nSettings::default();
    settings.add_available_i18n_lang(meta("zh-cn", "Chinese (Simplified)", "简体中文"));
    settings.add_available_i18n_lang(meta("ja", "Japanese", "日本語"));
    settings.add_available_i18n_lang(meta("fr", "French", "Français"));
    settings
}

#[test]
fn a_new_selector_marks_the_chosen_language() {
    let selector = I18nLangSelector::new(&selector_settings());
    assert_eq!(selector.match_count(), 0);
    assert_eq!(selector.selected_index(), 0);
    assert_eq!(selector.selected_lang(), Some("en-US".to_string()));
    assert_eq!(selector.render_match(0), "");
    assert_eq!(I18nLangSelector::placeholder_text(), "选择语言...");
    let mut settings = selector_settings();
    settings.set_i18n_lang(Some("fr".to_string()));
    let selector = I18nLangSelector::new(&settings);
    assert_eq!(selector.selected_lang(), Some("fr".to_string()));
}

#[test]
fn a_query_brings_up_the_languages_that_contain_it() {
    let mut selector = I18nLangSelector::new(&selector_settings());
    selector.update_matches("ESE");
    assert_eq!(selector.match_count(), 2);
    assert_eq!(selector.render_match(0), "简体中文");
    assert_eq!(selector.render_match(1), "日本語");
    assert_eq!(selector.render_match(2), "");
    assert_eq!(selector.selected_lang(), Some("zh-cn".to_string()));
    selector.set_selected_index(1);
    assert_eq!(selector.selected_index(), 1);
    assert_eq!(selector.selected_lang(), Some("ja".to_string()));
    // a position without a match keeps the marked language
    selector.set_selected_index(7);
    assert_eq!(selector.selected_index(), 7);
    assert_eq!(selector.selected_lang(), Some("ja".to_string()));
    // the name under which a language is shown is searched too
    selector.update_matches("français");
    assert_eq!(selector.match_count(), 1);
    assert_eq!(selector.selected_index(), 0);
    assert_eq!(selector.selected_lang(), Some("fr".to_string()));
    // a query without a match keeps the mark
    selector.set_selected_index(3);
    selector.update_matches("klingon");
    assert_eq!(selector.match_count(), 0);
    assert_eq!(selector.selected_index(), 3);
    assert_eq!(selector.selected_lang(), Some("fr".to_string()));
    // the empty query brings up every language
    selector.update_matches("");
    assert_eq!(selector.match_count(), 3);
}

#[test]
fn confirming_the_choice() {
    let mut settings = selector_settings();
    settings.set_auto_detect_system_i18n_lang(true);
    let mut manager = I18nManager::new();
    manager.register("ja", I18nLangResources::new());
    let mut selector = I18nLangSelector::new(&settings);
    selector.update_matches("japan");
    selector.confirm_selection(&mut settings, &mut manager);
    assert_eq!(settings.get_active_i18n_lang(), Some("ja".to_string()));
    assert!(!settings.get_auto_detect_system_i18n_lang());
    assert_eq!(manager.current_language(), "ja");
}
