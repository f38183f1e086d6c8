//! The template of a new language pack: what folders and files a pack for a
//! language begins with.
//!
//! The template is worked out here as a plan; making the folders and writing
//! the files is the business of the caller.

use crate::table::texts_view;
use crate::text::uppercase_of;
use vstd::prelude::*;
use vstd::string::StringExecFns;

verus! {

/// What the manifest of a language pack says.
#[derive(Debug)]
pub struct ExtensionManifest {
    pub id: String,
    pub name: String,
    pub description: String,
    pub version: String,
    pub schema_version: i32,
    pub authors: Vec<String>,
}

/// What an [`ExtensionManifest`] holds, as texts.
pub struct ManifestView {
    pub id: Seq<char>,
    pub name: Seq<char>,
    pub description: Seq<char>,
    pub version: Seq<char>,
    pub schema_version: int,
    pub authors: Seq<Seq<char>>,
}

impl View for ExtensionManifest {
    type V = ManifestView;

    open spec fn view(&self) -> ManifestView {
        ManifestView {
            id: self.id@,
            name: self.name@,
            description: self.description@,
            version: self.version@,
            schema_version: self.schema_version as int,
            authors: texts_view(self.authors@),
        }
    }
}

/// A file of the template: its path below the folder of the pack, and its
/// text.
#[derive(Debug)]
pub struct TemplateFile {
    pub path: String,
    pub content: String,
}

/// The paths and texts of a list of files.
pub open spec fn template_files_view(files: Seq<TemplateFile>) -> Seq<(Seq<char>, Seq<char>)> {
    Seq::new(files.len(), |i: int| (files[i].path@, files[i].content@))
}

/// The plan of a new language pack.
#[derive(Debug)]
pub struct TemplatePlan {
    /// The folders to make, each by its path below the folder of the pack.
    pub directories: Vec<String>,
    /// The manifest of the pack.
    pub manifest: ExtensionManifest,
    /// The files to write.
    pub files: Vec<TemplateFile>,
    /// The keys that the translation file begins with, each with an empty
    /// text.
    pub translation_keys: Vec<String>,
}

/// What a [`TemplatePlan`] holds, as texts.
pub struct PlanView {
    pub directories: Seq<Seq<char>>,
    pub manifest: ManifestView,
    pub files: Seq<(Seq<char>, Seq<char>)>,
    pub translation_keys: Seq<Seq<char>>,
}

impl View for TemplatePlan {
    type V = PlanView;

    open spec fn view(&self) -> PlanView {
        PlanView {
            directories: texts_view(self.directories@),
            manifest: self.manifest@,
            files: template_files_view(self.files@),
            translation_keys: texts_view(self.translation_keys@),
        }
    }
}

/// The folders of a language pack.
pub open spec fn spec_directories() -> Seq<Seq<char>> {
    seq![""@, "src"@, "resources"@, "resources/translations"@]
}

/// The manifest of the pack for the language with the code `lang_id` and the
/// name `lang_name`.
pub open spec fn spec_manifest(lang_id: Seq<char>, lang_name: Seq<char>) -> ManifestView {
    ManifestView {
        id: "i18n-"@ + lang_id,
        name: "i18n: "@ + lang_name + " ("@ + uppercase_of(lang_id) + ")"@,
        description: "Zed Editor "@ + lang_name + " language support"@,
        version: "0.1.0"@,
        schema_version: 1,
        authors: seq!["Zed Contributors"@],
    }
}

/// The package file of the pack for the language with the code `lang_id`.
pub open spec fn spec_cargo_toml(lang_id: Seq<char>) -> Seq<char> {
    "[package]\nname = \"zed-i18n-"@ + lang_id + "\"\nversion = \"0.1.0\"\nedition = \"2021\"\npublish = false\n\n[lib]\ncrate-type = [\"cdylib\"]\n\n[dependencies]\nanyhow = \"1.0\"\nasync-trait = \"0.1\"\nserde = { version = \"1.0\", features = [\"derive\"] }\nserde_json = \"1.0\"\nzed-extension-api = { path = \"../../crates/extension_api\" }"@
}

/// The source file that a pack begins with.
pub open spec fn spec_source_code() -> Seq<char> {
    "use std::{collections::HashMap, path::PathBuf, sync::{Arc, RwLock}};\nuse anyhow::Result;\nuse async_trait::async_trait;\nuse serde::{Deserialize, Serialize};\nuse zed_extension_api as zed;\n\n#[derive(Debug, Clone, Default, Deserialize, Serialize)]\nstruct TranslationData {\n    #[serde(flatten)]\n    translations: HashMap<String, String>,  // 扁平化的键值对存储所有翻译\n}\n\nstruct I18nExtension {\n    translations: RwLock<Option<TranslationData>>,\n    work_dir: PathBuf,\n}\n\nimpl I18nExtension {\n    fn new() -> Self {\n        Self {\n            translations: RwLock::new(None),\n            work_dir: std::env::current_dir().unwrap_or_default(),\n        }\n    }\n}\n\n#[no_mangle]\npub fn init_extension() -> Result<Box<dyn zed::Extension>> {\n    Ok(Box::new(I18nExtension::new()))\n}\n"@
}

/// The introduction of the pack for the language with the name `lang_name`.
pub open spec fn spec_readme(lang_name: Seq<char>) -> Seq<char> {
    "# Zed Editor "@ + lang_name + " Language Pack\n\nThis extension provides "@ + lang_name + " language support for Zed Editor.\n\n## Development\n\n1. Edit translation file `resources/translations/translation.json`.\n   Translation keys follow this format:\n   - Top Menu Bar: `i18n.top_menu_bar.[menu].[item]`\n   - Editor: `i18n.editor.[feature].[element]`\n   - Extension: `i18n.extension.[action]`\n   - Dock Panels: `i18n.dock_panels.[panel].[action]`\n\n2. Build the extension:\n   ```\n   cargo build\n   ```\n\n3. Test the extension:\n   ```\n   cargo test\n   ```\n\n## Contributing\n\nPlease feel free to submit issues and pull requests to improve the translations.\n\n## License\n\nThis extension is released under the same license as Zed Editor.\n"@
}

/// The keys that the translation file of a pack begins with.
pub open spec fn spec_translation_keys() -> Seq<Seq<char>> {
    seq![
        "i18n.top_menu_bar.file"@,
        "i18n.top_menu_bar.file.new"@,
        "i18n.top_menu_bar.file.open"@,
        "i18n.editor.welcome"@,
        "i18n.editor.context_menu.cut"@,
        "i18n.extension.install"@,
        "i18n.extension.uninstall"@,
        "i18n.dock_panels.project.new_folder"@,
        "i18n.dock_panels.git.commit"@,
        "i18n.dock_panels.outline.title"@,
    ]
}

/// The plan of the pack for the language with the code `lang_id` and the
/// name `lang_name`.
pub open spec fn spec_plan(lang_id: Seq<char>, lang_name: Seq<char>) -> PlanView {
    PlanView {
        directories: spec_directories(),
        manifest: spec_manifest(lang_id, lang_name),
        files: seq![
            ("Cargo.toml"@, spec_cargo_toml(lang_id)),
            ("src/lib.rs"@, spec_source_code()),
            ("README.md"@, spec_readme(lang_name)),
        ],
        translation_keys: spec_translation_keys(),
    }
}

/// The maker of the template of a language pack: the folder the pack goes
/// to, and the code and the name of its language.
pub struct I18NTemplate {
    target_dir: String,
    lang_id: String,
    lang_name: String,
}

/// What an [`I18NTemplate`] holds, as texts.
pub struct TemplateView {
    pub target_dir: Seq<char>,
    pub lang_id: Seq<char>,
    pub lang_name: Seq<char>,
}

impl View for I18NTemplate {
    type V = TemplateView;

    closed spec fn view(&self) -> TemplateView {
        TemplateView {
            target_dir: self.target_dir@,
            lang_id: self.lang_id@,
            lang_name: self.lang_name@,
        }
    }
}

impl I18NTemplate {
    /// The maker of the template of the pack for the language with the code
    /// `lang_id` and the name `lang_name`, which goes to `target_dir`.
    pub fn new(target_dir: String, lang_id: String, lang_name: String) -> (template: I18NTemplate)
        ensures
            template@ == (TemplateView {
                target_dir: target_dir@,
                lang_id: lang_id@,
                lang_name: lang_name@,
            }),
    {
        I18NTemplate { target_dir, lang_id, lang_name }
    }

    /// The folder that the pack goes to.
    pub fn target_dir(&self) -> (dir: &String)
        ensures
            dir@ == self@.target_dir,
    {
        &self.target_dir
    }

    /// The folders of the pack.
    pub fn directories() -> (dirs: Vec<String>)
        ensures
            texts_view(dirs@) == spec_directories(),
    {
        let mut dirs: Vec<String> = Vec::new();
        dirs.push("".to_owned());
        dirs.push("src".to_owned());
        dirs.push("resources".to_owned());
        dirs.push("resources/translations".to_owned());
        dirs
    }

    /// The manifest of the pack.
    pub fn manifest(&self) -> (manifest: ExtensionManifest)
        ensures
            manifest@ == spec_manifest(self@.lang_id, self@.lang_name),
    {
        let mut authors: Vec<String> = Vec::new();
        authors.push("Zed Contributors".to_owned());
        assert(texts_view(authors@) =~= seq!["Zed Contributors"@]);
        ExtensionManifest {
            id: "i18n-".to_owned().concat(self.lang_id.as_str()),
            name: "i18n: ".to_owned().concat(self.lang_name.as_str()).concat(" (").concat(
                self.lang_id.as_str().to_uppercase().as_str(),
            ).concat(")"),
            description: "Zed Editor ".to_owned().concat(self.lang_name.as_str()).concat(
                " language support",
            ),
            version: "0.1.0".to_owned(),
            schema_version: 1,
            authors,
        }
    }

    /// The package file of the pack.
    pub fn cargo_toml(&self) -> (text: String)
        ensures
            text@ == spec_cargo_toml(self@.lang_id),
    {
        "[package]\nname = \"zed-i18n-".to_owned().concat(self.lang_id.as_str()).concat(
            "\"\nversion = \"0.1.0\"\nedition = \"2021\"\npublish = false\n\n[lib]\ncrate-type = [\"cdylib\"]\n\n[dependencies]\nanyhow = \"1.0\"\nasync-trait = \"0.1\"\nserde = { version = \"1.0\", features = [\"derive\"] }\nserde_json = \"1.0\"\nzed-extension-api = { path = \"../../crates/extension_api\" }",
        )
    }

    /// The source file that the pack begins with.
    pub fn source_code(&self) -> (text: String)
        ensures
            text@ == spec_source_code(),
    {
        "use std::{collections::HashMap, path::PathBuf, sync::{Arc, RwLock}};\nuse anyhow::Result;\nuse async_trait::async_trait;\nuse serde::{Deserialize, Serialize};\nuse zed_extension_api as zed;\n\n#[derive(Debug, Clone, Default, Deserialize, Serialize)]\nstruct TranslationData {\n    #[serde(flatten)]\n    translations: HashMap<String, String>,  // 扁平化的键值对存储所有翻译\n}\n\nstruct I18nExtension {\n    translations: RwLock<Option<TranslationData>>,\n    work_dir: PathBuf,\n}\n\nimpl I18nExtension {\n    fn new() -> Self {\n        Self {\n            translations: RwLock::new(None),\n            work_dir: std::env::current_dir().unwrap_or_default(),\n        }\n    }\n}\n\n#[no_mangle]\npub fn init_extension() -> Result<Box<dyn zed::Extension>> {\n    Ok(Box::new(I18nExtension::new()))\n}\n".to_owned()
    }

    /// The introduction of the pack.
    pub fn readme(&self) -> (text: String)
        ensures
            text@ == spec_readme(self@.lang_name),
    {
        "# Zed Editor ".to_owned().concat(self.lang_name.as_str()).concat(
            " Language Pack\n\nThis extension provides ",
        ).concat(self.lang_name.as_str()).concat(
            " language support for Zed Editor.\n\n## Development\n\n1. Edit translation file `resources/translations/translation.json`.\n   Translation keys follow this format:\n   - Top Menu Bar: `i18n.top_menu_bar.[menu].[item]`\n   - Editor: `i18n.editor.[feature].[element]`\n   - Extension: `i18n.extension.[action]`\n   - Dock Panels: `i18n.dock_panels.[panel].[action]`\n\n2. Build the extension:\n   ```\n   cargo build\n   ```\n\n3. Test the extension:\n   ```\n   cargo test\n   ```\n\n## Contributing\n\nPlease feel free to submit issues and pull requests to improve the translations.\n\n## License\n\nThis extension is released under the same license as Zed Editor.\n",
        )
    }

    /// The keys that the translation file of the pack begins with.
    pub fn translation_keys() -> (keys: Vec<String>)
        ensures
            texts_view(keys@) == spec_translation_keys(),
    {
        let mut keys: Vec<String> = Vec::new();
        keys.push("i18n.top_menu_bar.file".to_owned());
        keys.push("i18n.top_menu_bar.file.new".to_owned());
        keys.push("i18n.top_menu_bar.file.open".to_owned());
        keys.push("i18n.editor.welcome".to_owned());
        keys.push("i18n.editor.context_menu.cut".to_owned());
        keys.push("i18n.extension.install".to_owned());
        keys.push("i18n.extension.uninstall".to_owned());
        keys.push("i18n.dock_panels.project.new_folder".to_owned());
        keys.push("i18n.dock_panels.git.commit".to_owned());
        keys.push("i18n.dock_panels.outline.title".to_owned());
        keys
    }

    /// The plan of the pack: its folders, its manifest, its files and the
    /// keys that its translation file begins with.
    pub fn generate(&self) -> (plan: TemplatePlan)
        ensures
            plan@ == spec_plan(self@.lang_id, self@.lang_name),
    {
        let mut files: Vec<TemplateFile> = Vec::new();
        files.push(TemplateFile { path: "Cargo.toml".to_owned(), content: self.cargo_toml() });
        files.push(TemplateFile { path: "src/lib.rs".to_owned(), content: self.source_code() });
        files.push(TemplateFile { path: "README.md".to_owned(), content: self.readme() });
        assert(template_files_view(files@) =~= seq![
            ("Cargo.toml"@, spec_cargo_toml(self@.lang_id)),
            ("src/lib.rs"@, spec_source_code()),
            ("README.md"@, spec_readme(self@.lang_name)),
        ]);
        TemplatePlan {
            directories: I18NTemplate::directories(),
            manifest: self.manifest(),
            files,
            translation_keys: I18NTemplate::translation_keys(),
        }
    }
}

} // verus!
