use i18n::defaults_file::{
    generate_defaults_app_menus, pair_of_line, replace_hardcoded_strings, scan_defaults_file,
};
use i18n::menu_scan::{item_key, scan_app_menus};
use i18n::menus::{extract_menu_text, normalize_key, process_menu_text, quoted, MenuPath};
use i18n::scan_keys;
use i18n::scanner::HardcodedString;
use linked_hash_map::LinkedHashMap;

fn c(s: &str) -> Vec<char> {
    s.chars().collect()
}

fn entries(map: &LinkedHashMap<String, String>) -> Vec<(&str, &str)> {
    map.iter().map(|(k, v)| (k.as_str(), v.as_str())).collect()
}

fn map_of(pairs: &[(&str, &str)]) -> LinkedHashMap<String, String> {
    let mut map = LinkedHashMap::new();
    for (k, v) in pairs {
        map.insert(k.to_string(), v.to_string());
    }
    map
}

const HEAD: &str = "use std::collections::HashMap;\nuse once_cell::sync::Lazy;\n\n// 全局静态默认文本映射\nstatic DEFAULT_TEXTS: Lazy<HashMap<&str, &str>> = Lazy::new(|| {\n    let mut texts = HashMap::new();\n\n";
const TAIL: &str = "\n    texts\n});\n\n/// 获取默认文本\npub fn get_default_text(key: &str) -> Option<&'static str> {\n    DEFAULT_TEXTS.get(key).copied()\n}\n\n/// 获取所有默认文本键\npub fn get_all_default_text_keys() -> impl Iterator<Item = &'static str> {\n    DEFAULT_TEXTS.keys().copied()\n}\n";

#[test]
fn menu_texts_become_key_parts() {
    assert_eq!(normalize_key("About Zed…"), "about_zed");
    assert_eq!(normalize_key("Select Theme..."), "select_theme");
    assert_eq!(normalize_key("Go to Line/Column..."), "go_to_line/column");
    assert_eq!(normalize_key("Don't Save & Quit"), "dont_save__quit");
    assert_eq!(normalize_key("Save-As"), "save_as");
    assert_eq!(normalize_key("a....b"), "a.b");
    assert_eq!(normalize_key(""), "");
    assert_eq!(normalize_key("ÉDITION"), "édition");
}

#[test]
fn the_way_to_a_menu_gives_its_keys() {
    let mut path = MenuPath::new();
    assert!(path.is_empty());
    assert_eq!(path.last(), None);
    assert_eq!(path.to_menu_key(), "i18n.menu");
    assert_eq!(path.to_key("Open File..."), "i18n.menu.open_file");
    path.push("Zed");
    assert!(!path.is_empty());
    assert_eq!(path.to_menu_key(), "i18n.menu.zed");
    path.push("Editor Layout");
    assert_eq!(path.last(), Some(&"editor_layout".to_string()));
    assert_eq!(path.to_menu_key(), "i18n.menu.zed.editor_layout");
    assert_eq!(path.to_key("Split Up"), "i18n.menu.zed.editor_layout.split_up");
    assert_eq!(path.pop(), Some("editor_layout".to_string()));
    assert_eq!(path.to_key("Quit"), "i18n.menu.zed.quit");
    assert_eq!(path.pop(), Some("zed".to_string()));
    assert_eq!(path.pop(), None);
    assert!(path.is_empty());
}

#[test]
fn quoted_texts() {
    assert_eq!(quoted(&c("a \"b c\" d \"e\"")), Some(c("b c")));
    assert_eq!(quoted(&c("\"\"")), Some(c("")));
    assert_eq!(quoted(&c("a \"b")), None);
    assert_eq!(quoted(&c("\"")), None);
    assert_eq!(quoted(&c("abc")), None);
    assert_eq!(quoted(&c("")), None);
}

#[test]
fn the_text_of_a_menu_line() {
    let found = |line: &str| extract_menu_text(line).map(|e| (e.text, e.is_menu));
    assert_eq!(found("name: \"File\".into(),"), Some(("File".to_string(), true)));
    assert_eq!(
        found("MenuItem::action(\"New Window\", workspace::NewWindow),"),
        Some(("New Window".to_string(), false))
    );
    assert_eq!(found("name: MenuItem::action(\"Both\")"), Some(("Both".to_string(), true)));
    assert_eq!(found("name: t!(cx, \"i18n.menu.file\").into(),"), None);
    assert_eq!(found("MenuItem::action(\"unclosed"), None);
    assert_eq!(found("let a = \"x\";"), None);
    assert_eq!(found("MenuItem::os_action(\"Cut\", x)"), None);
    assert_eq!(found("name: x"), None);
}

#[test]
fn a_menu_line_gives_key_and_text() {
    let mut path = MenuPath::new();
    assert_eq!(
        process_menu_text("name: \"File\".into(),", &path),
        Some(("i18n.menu".to_string(), "File".to_string()))
    );
    path.push("File");
    assert_eq!(
        process_menu_text("name: \"File\".into(),", &path),
        Some(("i18n.menu.file".to_string(), "File".to_string()))
    );
    assert_eq!(
        process_menu_text("  MenuItem::action(\"Save As…\", x),", &path),
        Some(("i18n.menu.file.save_as".to_string(), "Save As…".to_string()))
    );
    assert_eq!(process_menu_text("   ", &path), None);
    assert_eq!(process_menu_text("", &path), None);
    assert_eq!(process_menu_text("#[cfg(x)] MenuItem::action(\"A\", x)", &path), None);
    assert_eq!(process_menu_text("MenuItem::separator(), name: \"A\"", &path), None);
    assert_eq!(process_menu_text("let a = \"x\";", &path), None);
}

#[test]
fn the_key_of_an_item() {
    assert_eq!(item_key("zed", "Open Settings"), "i18n.menu.zed.settings.open_settings");
    assert_eq!(item_key("zed", "Select Theme..."), "i18n.menu.zed.settings.select_theme");
    assert_eq!(item_key("zed", "Quit"), "i18n.menu.zed.quit");
    assert_eq!(item_key("view", "Split Up"), "i18n.menu.view.editor_layout.split_up");
    assert_eq!(item_key("view", "Split Right"), "i18n.menu.view.editor_layout.split_right");
    assert_eq!(item_key("view", "Zoom In"), "i18n.menu.view.zoom_in");
    for menu in ["file", "edit", "selection", "go", "terminal", "window", "help"] {
        assert_eq!(item_key(menu, "Split Up"), format!("i18n.menu.{}.split_up", menu));
    }
    assert_eq!(item_key("", "Save"), "i18n.menu.other.save");
    assert_eq!(item_key("tools", "Save"), "i18n.menu.other.save");
    assert_eq!(item_key("File", "Save"), "i18n.menu.other.save");
}

#[test]
fn the_menus_are_scanned() {
    let content = "vec![\n    Menu {\n        name: \"Zed\".into(),\n        items: vec![\n            MenuItem::action(\"About Zed…\", zed_actions::About),\n            MenuItem::action(\"Open Settings\", super::OpenSettings),\n            MenuItem::action(\n                \"Check for Updates\",\n                auto_update::Check,\n            ),\n            MenuItem::action(\"Docs\", OpenUrl(\"https://zed.dev/docs\")),\n        ],\n    },\n    Menu {\n        name: \"File\".into(),\n        items: vec![\n            MenuItem::action(\"New Window\", workspace::NewWindow),\n        ],\n    },\n]\n";
    let texts = scan_app_menus(content);
    assert_eq!(
        entries(&texts),
        vec![
            ("i18n.menu.zed", "Zed"),
            ("i18n.menu.zed.about_zed", "About Zed…"),
            ("i18n.menu.zed.settings.open_settings", "Open Settings"),
            ("i18n.menu.zed.check_for_updates", "Check for Updates"),
            ("i18n.menu.zed.docs", "Docs"),
            ("i18n.menu.file", "File"),
            ("i18n.menu.file.new_window", "New Window"),
        ]
    );
}

#[test]
fn texts_that_no_menu_accounts_for_come_last() {
    let content = "Menu {\n    name: \"View\".into(),\n    items: vec![\n        MenuItem::submenu(Menu {\n            name: \"Editor Layout\".into(),\n            items: vec![\n                MenuItem::action(\"Split Up\", a),\n            ],\n        }),\n        MenuItem::os_action(\"Zoom In\", b),\n    ],\n},\nconst STRAY: &str = \"Stray Text\";\nconst KEY: &str = \"i18n.menu.custom\";\nconst ASKED: &str = t!(cx, \"i18n.menu.asked\");\n";
    let texts = scan_app_menus(content);
    assert_eq!(
        entries(&texts),
        vec![
            ("i18n.menu.view", "View"),
            ("i18n.menu.view.editor_layout.split_up", "Split Up"),
            ("i18n.menu.view.zoom_in", "Zoom In"),
            ("i18n.menu.zed.about_zed", "About Zed…"),
            ("i18n.menu.zed.check_for_updates", "Check for Updates"),
            ("i18n.menu.other.editor_layout", "Editor Layout"),
            ("i18n.menu.other.stray_text", "Stray Text"),
            ("i18n.menu.custom", "i18n.menu.custom"),
            ("i18n.menu.asked", "i18n.menu.asked"),
        ]
    );
}

#[test]
fn submenus_and_repeated_items() {
    let content = "Menu {\n    name: \"File\".into(),\n        MenuItem::submenu(\n            Menu {\n                name: \"Settings\".into(),\n        }],\n        MenuItem::action(\"Save\", a),\n        MenuItem::action(\"Open\", b),\n        MenuItem::action(\"Save\", c),\n        MenuItem::action(\"https://zed.dev\", e),\n";
    let texts = scan_app_menus(content);
    assert_eq!(
        entries(&texts),
        vec![
            ("i18n.menu.file", "File"),
            ("i18n.menu.zed.settings", "Settings"),
            ("i18n.menu.file.open", "Open"),
            ("i18n.menu.file.save", "Save"),
            ("i18n.menu.zed.about_zed", "About Zed…"),
            ("i18n.menu.zed.check_for_updates", "Check for Updates"),
        ]
    );
}

#[test]
fn a_source_without_menus() {
    assert_eq!(
        entries(&scan_app_menus("")),
        vec![
            ("i18n.menu.zed.about_zed", "About Zed…"),
            ("i18n.menu.zed.check_for_updates", "Check for Updates"),
        ]
    );
}

#[test]
fn the_table_of_the_menu_texts_is_written() {
    let texts = map_of(&[
        ("i18n.menu.zed", "Zed"),
        ("i18n.menu..x", "X"),
        ("i18n.link", "https://zed.dev"),
        ("https://k", "v"),
        ("i18n.menu.z", "see https://zed.dev"),
    ]);
    let expected = format!(
        "{}    texts.insert(\"i18n.menu.zed\", \"Zed\");\n    texts.insert(\"i18n.menu.x\", \"X\");\n    texts.insert(\"i18n.menu.z\", \"see https://zed.dev\");\n{}",
        HEAD, TAIL
    );
    assert_eq!(generate_defaults_app_menus(&texts), expected);
    assert_eq!(generate_defaults_app_menus(&LinkedHashMap::new()), format!("{}{}", HEAD, TAIL));
}

#[test]
fn what_is_written_is_read_back() {
    let texts = map_of(&[("i18n.menu.zed", "Zed"), ("i18n.menu.file.save_as", "Save As…")]);
    let read = scan_defaults_file(&generate_defaults_app_menus(&texts));
    assert_eq!(entries(&read), entries(&texts));
}

#[test]
fn the_lines_of_a_table_are_read() {
    let pair = |line: &str| pair_of_line(&c(line)).map(|(k, v)| {
        (k.into_iter().collect::<String>(), v.into_iter().collect::<String>())
    });
    assert_eq!(
        pair("    texts.insert(\"i18n.menu.zed\", \"Zed\");"),
        Some(("i18n.menu.zed".to_string(), "Zed".to_string()))
    );
    assert_eq!(pair("texts.insert(\"a\", \"\")"), Some(("a".to_string(), "".to_string())));
    assert_eq!(pair("texts.insert(\"\"a\", \"b\"\")"), Some(("a".to_string(), "b".to_string())));
    assert_eq!(pair("texts.insert(\"a\", \"x\", \"y\")"), None);
    assert_eq!(pair("texts.insert(\"a\",\"b\")"), None);
    assert_eq!(pair("texts.insert(a, b)"), None);
    assert_eq!(pair("texts.insert(\"a"), None);
    assert_eq!(pair("insert(\"a\", \"b\")"), None);
    let read = scan_defaults_file(
        "texts.insert(\"a\", \"1\");\ntexts.insert(\"b\", \"2\");\nnothing\ntexts.insert(\"a\", \"3\");\n",
    );
    // a key that comes again moves to the end
    assert_eq!(entries(&read), vec![("b", "2"), ("a", "3")]);
}

#[test]
fn texts_are_replaced_by_requests() {
    let texts = map_of(&[("i18n.menu.zed", "Zed"), ("i18n.menu.zed2", "Zed"), ("i18n.menu.file", "File")]);
    assert_eq!(
        replace_hardcoded_strings("name: \"Zed\".into(), action(\"Zed\", x), \"Other\", File", &texts),
        "use crate::i18n::t;\n\nname: t!(cx, \"i18n.menu.zed2\").into(), action(t!(cx, \"i18n.menu.zed2\"), x), \"Other\", File"
    );
    assert_eq!(
        replace_hardcoded_strings("use crate::i18n::t;\n\"File\"", &texts),
        "use crate::i18n::t;\nt!(cx, \"i18n.menu.file\")"
    );
    // one text after the other: what was put in is searched by the next
    let texts = map_of(&[("k1", "a"), ("k2", "k1")]);
    assert_eq!(
        replace_hardcoded_strings("\"a\" \"k1\"", &texts),
        "use crate::i18n::t;\n\nt!(cx, t!(cx, \"k2\")) t!(cx, \"k2\")"
    );
    assert_eq!(replace_hardcoded_strings("", &LinkedHashMap::new()), "use crate::i18n::t;\n\n");
}

#[test]
fn found_texts_become_key_parts() {
    assert_eq!(scan_keys::normalize_key("  Open File... "), "open_file");
    assert_eq!(scan_keys::normalize_key("- Save As… -"), "save_as");
    assert_eq!(scan_keys::normalize_key("What's New?"), "what's_new");
    assert_eq!(scan_keys::normalize_key("a/b\\c:d!e,f\"g"), "abcdefg");
    assert_eq!(scan_keys::normalize_key("___"), "");
    assert_eq!(scan_keys::normalize_key(""), "");
    assert_eq!(scan_keys::normalize_key("A_B"), "a_b");
    assert_eq!(scan_keys::generate_key("File", "New Window"), "i18n.top_menu_bar.file.new_window");
    assert_eq!(scan_keys::generate_key("", ""), "i18n.top_menu_bar..");
}

#[test]
fn found_lines_give_texts() {
    assert_eq!(scan_keys::extract_text("label: \"Hello\""), Some("Hello".to_string()));
    assert_eq!(scan_keys::extract_text("\"http://x\""), None);
    assert_eq!(scan_keys::extract_text("\"see https://x\""), None);
    assert_eq!(scan_keys::extract_text("\"\" \"later\""), None);
    assert_eq!(scan_keys::extract_text("no quotes"), None);
    assert!(scan_keys::names_menu("Menu { name: \"File\".into(),"));
    assert!(!scan_keys::names_menu("Menu { items"));
    assert_eq!(
        scan_keys::process_menu_text("Menu { name: \"File\".into(),"),
        Some(("i18n.top_menu_bar.file".to_string(), "File".to_string()))
    );
    assert_eq!(
        scan_keys::process_menu_text("MenuItem::action(\"New\", x)"),
        Some(("i18n.top_menu_bar.unknown.new".to_string(), "New".to_string()))
    );
    assert_eq!(scan_keys::process_menu_text("MenuItem::separator()"), None);
}

fn finding(content: &str) -> HardcodedString {
    HardcodedString {
        file_path: "menus.rs".to_string(),
        line_number: 1,
        content: content.to_string(),
        context: String::new(),
    }
}

#[test]
fn the_table_of_the_findings_is_written() {
    let findings = vec![
        finding("MenuItem::action(\"Early\", x)"),
        finding("Menu { name: \"File\".into(),"),
        finding("MenuItem::action(\"New\", x)"),
        finding("MenuItem::action(\"Open\", x)"),
        finding("Menu { name: \"Edit\".into(),"),
        finding("MenuItem::action(\"New\", x)"),
        finding("no quotes here"),
        finding("MenuItem::action(\"Renew\", x)"),
        finding("MenuItem::action(\"New\", y)"),
    ];
    let expected = format!(
        "{}    // 所有键使用扁平化的命名方式\n    texts.insert(\"i18n.top_menu_bar.unknown.early\", \"Early\");\n    texts.insert(\"i18n.top_menu_bar.file.new\", \"New\");\n    texts.insert(\"i18n.top_menu_bar.file.open\", \"Open\");\n    texts.insert(\"i18n.top_menu_bar.edit.new\", \"New\");\n    texts.insert(\"i18n.top_menu_bar.edit.renew\", \"Renew\");\n{}",
        HEAD, TAIL
    );
    assert_eq!(scan_keys::generate_defaults_file(&findings), expected);
    assert_eq!(
        scan_keys::generate_defaults_file(&vec![]),
        format!("{}    // 所有键使用扁平化的命名方式\n{}", HEAD, TAIL)
    );
}

#[test]
fn what_a_new_pack_is_told_of_its_language() {
    let info = scan_keys::get_language_info("ja");
    assert_eq!((info.name.as_str(), info.native_name.as_str()), ("Japanese", "日本語"));
    let info = scan_keys::get_language_info("zh-cn");
    assert_eq!((info.name.as_str(), info.native_name.as_str()), ("Chinese (Simplified)", "简体中文"));
    let info = scan_keys::get_language_info("ru");
    assert_eq!((info.name.as_str(), info.native_name.as_str()), ("Russian", "Русский"));
    let info = scan_keys::get_language_info("JA");
    assert_eq!((info.name.as_str(), info.native_name.as_str()), ("Unknown Language", "Unknown"));
}
