use i18n::reorganize::{dock_panels, write_json_section, JsonReorganizer, ValueSource};
use i18n::report::{FormatError, ValidationReport};
use i18n::scanner::{check_line, extract_context, has_chinese, CodeScanner, SourceFile};
use i18n::template::I18NTemplate;
use i18n::validator::{
    count_placeholders, get_translation_category, key_of_groups, part_of, DockPanelType,
    I18NValidator, TranslationCategory,
};
use i18n::TranslationResource;

fn c(s: &str) -> Vec<char> {
    s.chars().collect()
}

fn s(v: Vec<char>) -> String {
    v.into_iter().collect()
}

fn strings(list: &[&str]) -> Vec<String> {
    list.iter().map(|s| s.to_string()).collect()
}

fn pairs(list: &[(&str, &str)]) -> Vec<(String, String)> {
    list.iter().map(|(k, v)| (k.to_string(), v.to_string())).collect()
}

#[test]
fn report_collects_errors_and_warnings() {
    let mut report = ValidationReport::new();
    assert!(!report.has_errors());
    assert!(report.get_errors().is_empty());
    assert!(report.get_warnings().is_empty());
    assert!(report.missing_keys.is_empty());
    assert_eq!(report.lang_id, "");
    report.add_warning("w1".to_string());
    assert!(!report.has_errors());
    report.add_error("e1".to_string());
    report.add_error("e2".to_string());
    assert!(report.has_errors());
    assert_eq!(report.get_errors(), &strings(&["e1", "e2"]));
    assert_eq!(report.get_warnings(), &strings(&["w1"]));
    let mut other = ValidationReport::default();
    other.add_error("e3".to_string());
    other.add_warning("w2".to_string());
    other.add_warning("w3".to_string());
    other.missing_keys.push("k".to_string());
    report.merge(other);
    assert_eq!(report.get_errors(), &strings(&["e1", "e2", "e3"]));
    assert_eq!(report.get_warnings(), &strings(&["w1", "w2", "w3"]));
    assert!(report.missing_keys.is_empty());
}

#[test]
fn dock_panels_have_names() {
    let all = [
        (DockPanelType::Project, "project"),
        (DockPanelType::Git, "git"),
        (DockPanelType::Outline, "outline"),
        (DockPanelType::Collab, "collab"),
        (DockPanelType::ProjectSearch, "project_search"),
        (DockPanelType::ProjectDiagnostics, "project_diagnostics"),
        (DockPanelType::EditPredictions, "edit_predictions"),
        (DockPanelType::Terminal, "terminal"),
        (DockPanelType::Agent, "agent"),
        (DockPanelType::Notifications, "notifications"),
    ];
    for (panel, name) in all {
        assert_eq!(panel.as_str(), name);
        assert_eq!(DockPanelType::from_str(name), Some(panel));
    }
    assert_eq!(DockPanelType::from_str("Project"), None);
    assert_eq!(DockPanelType::from_str(""), None);
    assert_eq!(DockPanelType::from_str("projects"), None);
    let listed: Vec<DockPanelType> = all.iter().map(|(p, _)| *p).collect();
    assert_eq!(dock_panels(), listed);
    assert!(DockPanelType::Project < DockPanelType::Git);
    assert!(TranslationCategory::Extension < TranslationCategory::DockPanels(DockPanelType::Project));
}

#[test]
fn categories_of_keys() {
    assert_eq!(
        get_translation_category("i18n.top_menu_bar.file.new"),
        Some(TranslationCategory::TopMenuBar)
    );
    assert_eq!(get_translation_category("i18n.editor.welcome"), Some(TranslationCategory::Editor));
    assert_eq!(
        get_translation_category("i18n.extension.install"),
        Some(TranslationCategory::Extension)
    );
    assert_eq!(
        get_translation_category("i18n.dock_panels.git.commit"),
        Some(TranslationCategory::DockPanels(DockPanelType::Git))
    );
    assert_eq!(
        get_translation_category("i18n.dock_panels.project_search"),
        Some(TranslationCategory::DockPanels(DockPanelType::ProjectSearch))
    );
    assert_eq!(get_translation_category("i18n.dock_panels.nothing.x"), None);
    assert_eq!(get_translation_category("i18n.dock_panels."), None);
    assert_eq!(get_translation_category("i18n.top_menu_bar"), None);
    assert_eq!(get_translation_category("i18n.menu.file"), None);
    assert_eq!(get_translation_category(""), None);
    assert_eq!(part_of(&c("a.b.c"), 0), Some(c("a")));
    assert_eq!(part_of(&c("a.b.c"), 2), Some(c("c")));
    assert_eq!(part_of(&c("a.b.c"), 3), None);
    assert_eq!(part_of(&c("a.b."), 2), Some(c("")));
    assert_eq!(part_of(&c(""), 0), Some(c("")));
    assert_eq!(part_of(&c(""), 1), None);
}

#[test]
fn placeholders_are_counted_by_their_opening_brace() {
    assert_eq!(count_placeholders(""), 0);
    assert_eq!(count_placeholders("Hello, {name}!"), 1);
    assert_eq!(count_placeholders("{a}{b} {"), 3);
    assert_eq!(count_placeholders("}"), 0);
}

#[test]
fn validate_format_checks_against_the_default_text() {
    let validator = I18NValidator::new(".".to_string());
    assert_eq!(validator.validate_format("i18n.menu.file", "Fichier"), Ok(()));
    assert_eq!(
        validator.validate_format("i18n.menu.file", "Fichier {n}"),
        Err("Placeholder count mismatch: expected 0, got 1".to_string())
    );
    assert_eq!(
        validator.validate_format("i18n.menu.file", "{{{{{{{{{{{{"),
        Err("Placeholder count mismatch: expected 0, got 12".to_string())
    );
    assert_eq!(
        validator.validate_format("i18n.nothing", "x"),
        Err("No default text found for key: i18n.nothing".to_string())
    );
}

#[test]
fn reference_keys_are_read_from_the_source_of_a_table() {
    let mut validator = I18NValidator::new("base".to_string());
    assert_eq!(validator.base_dir(), "base");
    validator.add_reference_key("old".to_string());
    let content = "static T = {\n    texts.insert(\"i18n.menu.zed\", \"Zed\");\n    texts.insert(\"i18n.menu.file\",   \"File\");\n    texts.insert(\"i18n.empty\", \"\");\n    let x = \"texts.insert\";\n    // texts.insert(\"i18n.comment\", \"kept\");\r\n    texts.insert(\"i18n.menu.zed\", \"Again\");\n    texts.insert (\"i18n.blank\", \"no\");\n    texts.insert(\"a\",\"b\") texts.insert(\"c\", \"d\");\n};\n";
    validator.load_reference_keys(content);
    assert_eq!(
        validator.reference_keys(),
        &strings(&["i18n.menu.zed", "i18n.menu.file", "i18n.comment", "a"])
    );
    validator.load_reference_keys("");
    assert!(validator.reference_keys().is_empty());
}

#[test]
fn the_key_of_a_match() {
    let some = |t: &str| Some(t.to_string());
    assert_eq!(key_of_groups(&Some(vec![some("whole"), some("k"), some("v")])), some("k"));
    assert_eq!(key_of_groups(&Some(vec![some("whole"), some("k"), None])), None);
    assert_eq!(key_of_groups(&Some(vec![some("whole"), None, some("v")])), None);
    assert_eq!(key_of_groups(&Some(vec![some("whole"), some("k")])), None);
    assert_eq!(key_of_groups(&Some(vec![])), None);
    assert_eq!(key_of_groups(&None), None);
}

#[test]
fn check_reports_missing_extra_and_unfit() {
    let mut validator = I18NValidator::new(".".to_string());
    for key in ["i18n.menu.file", "i18n.menu.edit", "i18n.other", "i18n.menu.file"] {
        validator.add_reference_key(key.to_string());
    }
    assert_eq!(
        validator.reference_keys(),
        &strings(&["i18n.menu.file", "i18n.menu.edit", "i18n.other"])
    );
    let resource = TranslationResource {
        lang_id: "fr".to_string(),
        translations: pairs(&[
            ("i18n.menu.file", "Fichier {n}"),
            ("i18n.extra", "x"),
            ("i18n.other", "y"),
            ("i18n.menu.zed", "Zed"),
        ]),
    };
    let report = validator.check(&resource);
    assert_eq!(report.lang_id, "fr");
    assert_eq!(report.missing_keys, strings(&["i18n.menu.edit"]));
    assert_eq!(report.extra_keys, strings(&["i18n.extra", "i18n.menu.zed"]));
    let faults: Vec<(&str, &str)> =
        report.format_errors.iter().map(|e: &FormatError| (e.key.as_str(), e.error.as_str())).collect();
    assert_eq!(
        faults,
        vec![
            ("i18n.menu.file", "Placeholder count mismatch: expected 0, got 1"),
            ("i18n.extra", "No default text found for key: i18n.extra"),
            ("i18n.other", "No default text found for key: i18n.other"),
        ]
    );
    assert!(!report.has_errors());
    assert_eq!(validator.missing_from(&strings(&["i18n.other", "x"])), strings(&["i18n.menu.file", "i18n.menu.edit"]));
    assert_eq!(validator.extra_among(&strings(&["i18n.other", "x", "x"])), strings(&["x", "x"]));
}

#[test]
fn validate_takes_the_default_keys_as_reference() {
    let mut validator = I18NValidator::new(".".to_string());
    validator.add_reference_key("i18n.own".to_string());
    validator.add_reference_key("i18n.menu.file".to_string());
    let resource = TranslationResource {
        lang_id: "de".to_string(),
        translations: pairs(&[("i18n.menu.zed", "Zed"), ("i18n.menu.file", "Datei")]),
    };
    let report = validator.validate(&resource);
    assert_eq!(validator.reference_keys().len(), 96);
    assert_eq!(validator.reference_keys()[0], "i18n.own");
    assert_eq!(validator.reference_keys()[1], "i18n.menu.file");
    assert_eq!(validator.reference_keys()[2], "i18n.menu.zed");
    assert_eq!(report.missing_keys.len(), 94);
    assert_eq!(report.missing_keys[0], "i18n.own");
    assert_eq!(report.missing_keys[1], "i18n.menu.zed.about_zed");
    assert!(report.extra_keys.is_empty());
    assert!(report.format_errors.is_empty());
    let report = I18NValidator::validate_language_pack("de", "packs/de".to_string(), &resource);
    assert_eq!(report.lang_id, "de");
    assert_eq!(report.missing_keys.len(), 93);
    assert_eq!(report.missing_keys[0], "i18n.menu.zed.about_zed");
}

#[test]
fn lines_worth_reporting() {
    let found = |line: &str| check_line(&c(line)).map(s);
    assert_eq!(found("    // label: \"x y\""), None);
    assert_eq!(found("//"), None);
    assert_eq!(found("  label: t!(cx, \"i18n.a\"),"), None);
    assert_eq!(found("  label: name,  "), Some("label: name,".to_string()));
    assert_eq!(found("let a = \"one\";"), Some("let a = \"one\";".to_string()));
    assert_eq!(found("\"one\""), None);
    assert_eq!(found("let a = one;"), None);
    assert_eq!(found("x中y"), Some("x中y".to_string()));
    assert_eq!(found("\u{4e00}"), Some("\u{4e00}".to_string()));
    assert_eq!(found("\u{9fff}"), Some("\u{9fff}".to_string()));
    assert_eq!(found("\u{4dff}\u{a000}あ"), None);
    for mark in ["title:", "message:", "tooltip:", "Error:", "Warning:", "MenuItem::", "Menu {"] {
        assert_eq!(found(mark), Some(mark.to_string()));
    }
    assert_eq!(found("Menu{"), None);
    assert_eq!(found(""), None);
    assert!(has_chinese(&c("a文")));
    assert!(!has_chinese(&c("aあ")));
}

#[test]
fn the_lines_around_a_line() {
    let content = "l0\nl1\nl2\nl3\nl4\nl5\n";
    assert_eq!(extract_context(content, 0), "l0\nl1\nl2");
    assert_eq!(extract_context(content, 1), "l0\nl1\nl2\nl3");
    assert_eq!(extract_context(content, 3), "l1\nl2\nl3\nl4\nl5");
    assert_eq!(extract_context(content, 5), "l3\nl4\nl5");
    assert_eq!(extract_context(content, 7), "l5");
    assert_eq!(extract_context(content, 8), "");
    assert_eq!(extract_context(content, usize::MAX), "");
    assert_eq!(extract_context("", 0), "");
    assert_eq!(extract_context("only", 0), "only");
}

#[test]
fn a_file_is_scanned_line_by_line() {
    let mut scanner = CodeScanner::new(strings(&["src"]));
    assert_eq!(scanner.source_paths(), &strings(&["src"]));
    scanner.scan_file(
        "src/a.rs".to_string(),
        "fn f() {\n    // title: no\n    let a = \"two words\";\n    title: x,\n}\n",
    );
    scanner.scan_file("src/b.rs".to_string(), "");
    scanner.scan_file("src/c.rs".to_string(), "菜单");
    let found: Vec<(&str, usize, &str, &str)> = scanner
        .get_findings()
        .iter()
        .map(|f| (f.file_path.as_str(), f.line_number, f.content.as_str(), f.context.as_str()))
        .collect();
    assert_eq!(
        found,
        vec![
            (
                "src/a.rs",
                3,
                "let a = \"two words\";",
                "fn f() {\n    // title: no\n    let a = \"two words\";\n    title: x,\n}"
            ),
            ("src/a.rs", 4, "title: x,", "    // title: no\n    let a = \"two words\";\n    title: x,\n}"),
            ("src/c.rs", 1, "菜单", "菜单"),
        ]
    );
}

#[test]
fn paths_that_are_passed_over() {
    let scanner = CodeScanner::new(vec![]);
    assert!(scanner.should_ignore("/repo/target/debug/build.rs"));
    assert!(scanner.should_ignore("/repo/.git/config"));
    assert!(scanner.should_ignore("notes.md"));
    assert!(scanner.should_ignore("a/b/data.json"));
    assert!(scanner.should_ignore("a/readme.txt"));
    assert!(!scanner.should_ignore("/repo/src/main.rs"));
    assert!(!scanner.should_ignore("target/debug/build.rs"));
    assert!(!scanner.should_ignore("/repo/xgit/config"));
    assert!(!scanner.should_ignore("a/b/data.json5"));
    assert!(!scanner.should_ignore(""));
}

#[test]
fn hardcoded_texts_are_found_in_the_files() {
    let validator = I18NValidator::new(".".to_string());
    let files = vec![
        SourceFile { path: "/r/src/a.rs".to_string(), content: "label: a\nx\n".to_string() },
        SourceFile { path: "/r/target/a.rs".to_string(), content: "label: b\n".to_string() },
        SourceFile { path: "/r/README.md".to_string(), content: "title: c\n".to_string() },
        SourceFile { path: "/r/src/b.rs".to_string(), content: "x\nError: d".to_string() },
    ];
    let found: Vec<(String, usize, String)> = validator
        .scan_hardcoded(&files)
        .into_iter()
        .map(|f| (f.file_path, f.line_number, f.content))
        .collect();
    assert_eq!(
        found,
        vec![
            ("/r/src/a.rs".to_string(), 1, "label: a".to_string()),
            ("/r/src/b.rs".to_string(), 2, "Error: d".to_string()),
        ]
    );
    let mut scanner = CodeScanner::new(vec![]);
    scanner.scan(&files);
    scanner.scan(&files);
    assert_eq!(scanner.get_findings().len(), 4);
}

#[test]
fn a_section_of_a_translation_file() {
    let mut out = "{\n".to_string();
    write_json_section(&mut out, &pairs(&[("a", "1"), ("b", "2"), ("c", "3")]), 1);
    assert_eq!(out, "{\n    \"a\": \"1\",\n    \"b\": \"2\",\n    \"c\": \"3\"\n");
    let mut out = String::new();
    write_json_section(&mut out, &pairs(&[("a", "1")]), 2);
    assert_eq!(out, "        \"a\": \"1\"\n");
    write_json_section(&mut out, &pairs(&[]), 2);
    assert_eq!(out, "        \"a\": \"1\"\n");
    let mut out = String::new();
    write_json_section(&mut out, &pairs(&[("a", "1"), ("b", "2")]), 0);
    assert_eq!(out, "\"a\": \"1\",\n\"b\": \"2\"\n");
}

#[test]
fn a_translation_file_is_brought_into_order() {
    let mut validator = I18NValidator::new(".".to_string());
    assert_eq!(
        validator.reorganize_translations(&pairs(&[("a", "b")])).err(),
        Some("未加载参考键,请先调用load_reference_keys".to_string())
    );
    for key in [
        "i18n.top_menu_bar.file",
        "i18n.editor.welcome",
        "i18n.dock_panels.git.commit",
        "i18n.dock_panels.project.new",
        "i18n.misc",
        "i18n.top_menu_bar.edit",
        "i18n.dock_panels.unknown.x",
    ] {
        validator.add_reference_key(key.to_string());
    }
    let current = pairs(&[
        ("i18n.top_menu_bar.file", "Fichier"),
        ("i18n.zzz", "extra"),
        ("i18n.aaa", "extra2"),
    ]);
    let file = validator.reorganize_translations(&current).unwrap();
    let expected = "{\n\
\x20   // 顶部菜单翻译\n\
\x20   \"i18n.top_menu_bar.edit\": \"i18n.top_menu_bar.edit\",\n\
\x20   \"i18n.top_menu_bar.file\": \"Fichier\"\n\
\n\
\x20   // 编辑器翻译\n\
\x20   \"i18n.editor.welcome\": \"i18n.editor.welcome\"\n\
\n\
\x20   // 面板翻译\n\
\x20   \"i18n.dock_panels.project.new\": \"i18n.dock_panels.project.new\"\n\
\x20   \"i18n.dock_panels.git.commit\": \"i18n.dock_panels.git.commit\"\n\
\n\
\x20   // 其他翻译\n\
\x20   \"i18n.dock_panels.unknown.x\": \"i18n.dock_panels.unknown.x\",\n\
\x20   \"i18n.misc\": \"i18n.misc\"\n\
\n\
\x20   // 未在defaults.rs中定义的额外键\n\
\x20   \"i18n.aaa\": \"extra2\",\n\
\x20   \"i18n.zzz\": \"extra\"\n\
}\n";
    assert_eq!(file.text, expected);
    assert_eq!(file.extra_keys, strings(&["i18n.aaa", "i18n.zzz"]));
}

#[test]
fn a_file_with_one_category() {
    let mut validator = I18NValidator::new(".".to_string());
    validator.add_reference_key("i18n.extension.install".to_string());
    let file = validator.reorganize_translations(&vec![]).unwrap();
    assert_eq!(
        file.text,
        "{\n\n    // 扩展翻译\n    \"i18n.extension.install\": \"i18n.extension.install\"\n}\n"
    );
    assert!(file.extra_keys.is_empty());
}

#[test]
fn merged_keys_come_in_order_with_their_source() {
    let merger = JsonReorganizer::new(strings(&["m", "a", "z", "a"]), strings(&["z", "b"]));
    let merged: Vec<(String, ValueSource)> = merger.reorganize();
    assert_eq!(
        merged,
        vec![
            ("a".to_string(), ValueSource::Reference),
            ("b".to_string(), ValueSource::Current),
            ("m".to_string(), ValueSource::Reference),
            ("z".to_string(), ValueSource::Current),
        ]
    );
    assert!(JsonReorganizer::new(vec![], vec![]).reorganize().is_empty());
}

#[test]
fn the_template_of_a_language_pack() {
    let template = I18NTemplate::new("/ext/i18n-fr".to_string(), "fr".to_string(), "French".to_string());
    assert_eq!(template.target_dir(), "/ext/i18n-fr");
    assert_eq!(I18NTemplate::directories(), strings(&["", "src", "resources", "resources/translations"]));
    let manifest = template.manifest();
    assert_eq!(manifest.id, "i18n-fr");
    assert_eq!(manifest.name, "i18n: French (FR)");
    assert_eq!(manifest.description, "Zed Editor French language support");
    assert_eq!(manifest.version, "0.1.0");
    assert_eq!(manifest.schema_version, 1);
    assert_eq!(manifest.authors, strings(&["Zed Contributors"]));
    assert_eq!(
        template.cargo_toml(),
        "[package]\nname = \"zed-i18n-fr\"\nversion = \"0.1.0\"\nedition = \"2021\"\npublish = false\n\n[lib]\ncrate-type = [\"cdylib\"]\n\n[dependencies]\nanyhow = \"1.0\"\nasync-trait = \"0.1\"\nserde = { version = \"1.0\", features = [\"derive\"] }\nserde_json = \"1.0\"\nzed-extension-api = { path = \"../../crates/extension_api\" }"
    );
    let source = template.source_code();
    assert!(source.starts_with("use std::{collections::HashMap, path::PathBuf, sync::{Arc, RwLock}};\n"));
    assert!(source.contains("struct TranslationData {\n    #[serde(flatten)]\n"));
    assert!(source.ends_with("    Ok(Box::new(I18nExtension::new()))\n}\n"));
    assert!(!source.contains("{{"));
    let readme = template.readme();
    assert!(readme.starts_with("# Zed Editor French Language Pack\n\nThis extension provides French language support for Zed Editor.\n"));
    assert!(readme.ends_with("This extension is released under the same license as Zed Editor.\n"));
    let keys = I18NTemplate::translation_keys();
    assert_eq!(keys.len(), 10);
    assert_eq!(keys[0], "i18n.top_menu_bar.file");
    assert_eq!(keys[9], "i18n.dock_panels.outline.title");
    let plan = template.generate();
    assert_eq!(plan.directories, I18NTemplate::directories());
    assert_eq!(plan.manifest.id, "i18n-fr");
    let files: Vec<&str> = plan.files.iter().map(|f| f.path.as_str()).collect();
    assert_eq!(files, vec!["Cargo.toml", "src/lib.rs", "README.md"]);
    assert_eq!(plan.files[0].content, template.cargo_toml());
    assert_eq!(plan.files[1].content, source);
    assert_eq!(plan.files[2].content, readme);
    assert_eq!(plan.translation_keys, keys);
}

#[test]
fn the_code_of_a_pack_is_shown_in_upper_case() {
    let template = I18NTemplate::new("d".to_string(), "zh-cn".to_string(), "Chinese".to_string());
    assert_eq!(template.manifest().name, "i18n: Chinese (ZH-CN)");
    assert_eq!(template.cargo_toml().lines().nth(1), Some("name = \"zed-i18n-zh-cn\""));
}
