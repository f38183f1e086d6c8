//! Language packs: the translations that one pack brings, and how the packs
//! that are installed are made known to the engine.

use crate::api::TranslationError;
use crate::manager::{I18nManager, I18nState, Texts};
use crate::resources::{first_misfit, json_object_of, spec_texts_of, I18nLangResources};
use crate::settings::{I18nLangMeta, I18nSettings, LangMetaView, SettingsView};
use crate::table::{assoc, assoc_put, list_has, opt_text, texts_view};
use crate::text::same_text;
use vstd::prelude::*;

verus! {

/// What a language pack offers the application.
pub trait ExtensionI18nProxy {
    /// The host is in a state that its own operations leave it in.
    spec fn valid(&self) -> bool;

    /// Makes the language of a pack known by code and name.
    fn register_i18n_lang(&mut self, i18n_lang_id: String, i18n_lang_name: String)
        requires
            old(self).valid(),
        ensures
            final(self).valid(),
    ;

    /// Hands over one text of a language.
    fn provide_translation(&mut self, i18n_lang_id: String, key: String, text: String)
        requires
            old(self).valid(),
        ensures
            final(self).valid(),
    ;

    /// The code of the chosen language.
    fn get_current_i18n_lang(&self) -> Option<String>
        requires
            self.valid(),
    ;
}

/// One language pack at work: the folder it works in and, once they are
/// loaded, its translations.
pub struct I18nExtension {
    translations: Option<I18nLangResources>,
    work_dir: String,
}

impl I18nExtension {
    /// The translations of the pack, once they are loaded.
    pub closed spec fn texts(&self) -> Option<Texts> {
        match self.translations {
            Some(set) => Some(set@),
            None => None,
        }
    }

    /// The folder that the pack works in.
    pub closed spec fn dir(&self) -> Seq<char> {
        self.work_dir@
    }

    /// A pack that works in `work_dir` and has not loaded its translations.
    pub fn new(work_dir: String) -> (extension: I18nExtension)
        ensures
            extension.texts() is None,
            extension.dir() == work_dir@,
    {
        I18nExtension { translations: None, work_dir }
    }

    /// The folder that the pack works in.
    pub fn work_dir(&self) -> (dir: &String)
        ensures
            dir@ == self.dir(),
    {
        &self.work_dir
    }

    /// Where the translation data of a pack lies, folder by folder below the
    /// folder that the pack works in.
    pub fn translation_file() -> (path: Vec<String>)
        ensures
            texts_view(path@) == seq!["resources"@, "translations"@, "translation.json"@],
    {
        let mut path: Vec<String> = Vec::new();
        path.push("resources".to_owned());
        path.push("translations".to_owned());
        path.push("translation.json".to_owned());
        path
    }

    /// Takes the translation data `content`, a flat JSON object from key to
    /// text, as the translations of the pack. Data that cannot be read is
    /// refused, and the pack keeps what it had.
    pub fn load_translations(&mut self, content: &str) -> (loaded: Result<(), TranslationError>)
        ensures
            match loaded {
                Ok(_) => {
                    &&& json_object_of(content@) is Some
                    &&& first_misfit(json_object_of(content@)->0) is None
                    &&& final(self).texts() == Some(spec_texts_of(json_object_of(content@)->0))
                },
                Err(TranslationError::ResourceFormatError(what)) => {
                    &&& match json_object_of(content@) {
                        Some(fields) => {
                            &&& first_misfit(fields) is Some
                            &&& what@ == fields[first_misfit(fields)->0].0
                        },
                        None => true,
                    }
                    &&& final(self).texts() == old(self).texts()
                },
                Err(_) => false,
            },
            final(self).dir() == old(self).dir(),
    {
        match I18nLangResources::from_json(content) {
            Ok(set) => {
                self.translations = Some(set);
                Ok(())
            },
            Err(error) => Err(error),
        }
    }

    /// The text for `key`; `None` where the translations are not loaded or
    /// have no such key.
    pub fn get_translation(&self, key: &str) -> (text: Option<String>)
        ensures
            opt_text(text) == match self.texts() {
                Some(texts) => assoc(texts, key@),
                None => None,
            },
    {
        match &self.translations {
            Some(set) => set.get(key),
            None => None,
        }
    }

    /// The text for `full_key`, or the key itself where there is no text.
    pub fn translation_or_key(&self, full_key: &str) -> (text: String)
        ensures
            text@ == match self.texts() {
                Some(texts) => match assoc(texts, full_key@) {
                    Some(found) => found,
                    None => full_key@,
                },
                None => full_key@,
            },
    {
        match self.get_translation(full_key) {
            Some(found) => found,
            None => full_key.to_owned(),
        }
    }
}

/// The part of the application that language packs talk to: the engine and
/// the settings.
pub struct ExtensionHostProxy {
    /// The engine.
    pub i18n_manager: I18nManager,
    /// The language settings.
    pub settings: I18nSettings,
}

/// The texts of `lang` with `text` put under `key`.
pub open spec fn spec_with_text(s: I18nState, lang: Seq<char>, key: Seq<char>, text: Seq<char>) -> Texts {
    assoc_put(
        match assoc(s.resources, lang) {
            Some(texts) => texts,
            None => Seq::empty(),
        },
        key,
        text,
    )
}

impl ExtensionHostProxy {
    /// Both parts are in a state that their own operations leave them in.
    pub open spec fn wf(&self) -> bool {
        self.i18n_manager.wf() && self.settings.wf()
    }

    /// A host for the given engine and settings.
    pub fn new(i18n_manager: I18nManager, settings: I18nSettings) -> (host: ExtensionHostProxy)
        ensures
            host.i18n_manager == i18n_manager,
            host.settings == settings,
    {
        ExtensionHostProxy { i18n_manager, settings }
    }
}

impl ExtensionI18nProxy for ExtensionHostProxy {
    open spec fn valid(&self) -> bool {
        self.wf()
    }

    /// Puts the language at hand in the settings, as a pack announces it.
    fn register_i18n_lang(&mut self, i18n_lang_id: String, i18n_lang_name: String)
        ensures
            final(self).i18n_manager@ == old(self).i18n_manager@,
            final(self).settings@ == (SettingsView {
                available_i18n_langs: assoc_put(
                    old(self).settings@.available_i18n_langs,
                    i18n_lang_id@,
                    LangMetaView {
                        id: i18n_lang_id@,
                        name: i18n_lang_name@,
                        display_name: i18n_lang_name@ + " ("@ + i18n_lang_id@ + ")"@,
                        extension_id: None,
                        rtl: false,
                    },
                ),
                ..old(self).settings@
            }),
    {
        let meta = I18nLangMeta::announced(i18n_lang_id, i18n_lang_name);
        self.settings.add_available_i18n_lang(meta);
    }

    /// Registers the resource set of the language anew, with `text` under
    /// `key` and every other text as it was.
    fn provide_translation(&mut self, i18n_lang_id: String, key: String, text: String)
        ensures
            final(self).settings@ == old(self).settings@,
            final(self).i18n_manager@ == old(self).i18n_manager@.after_register(
                i18n_lang_id@,
                spec_with_text(old(self).i18n_manager@, i18n_lang_id@, key@, text@),
            ),
    {
        let mut set = match self.i18n_manager.resources_of(i18n_lang_id.as_str()) {
            Some(copy) => copy,
            None => I18nLangResources::new(),
        };
        set.insert(key, text);
        self.i18n_manager.register(i18n_lang_id.as_str(), set);
    }

    fn get_current_i18n_lang(&self) -> (lang: Option<String>)
        ensures
            opt_text(lang) == self.settings@.i18n_lang,
    {
        self.settings.get_active_i18n_lang()
    }
}

/// What the application knows of an installed extension: the categories it
/// names, the locale it declares, and its translation data where that could
/// be read.
#[derive(Debug)]
pub struct InstalledExtension {
    /// The categories that the extension names.
    pub categories: Vec<String>,
    /// The locale that the extension declares.
    pub locale: Option<String>,
    /// The translation data of the extension.
    pub translations: Option<String>,
}

/// What an [`InstalledExtension`] holds, as texts.
pub struct InstalledView {
    pub categories: Seq<Seq<char>>,
    pub locale: Option<Seq<char>>,
    pub translations: Option<Seq<char>>,
}

impl View for InstalledExtension {
    type V = InstalledView;

    open spec fn view(&self) -> InstalledView {
        InstalledView {
            categories: texts_view(self.categories@),
            locale: opt_text(self.locale),
            translations: opt_text(self.translations),
        }
    }
}

/// The views of a list of installed extensions.
pub open spec fn installed_view(extensions: Seq<InstalledExtension>) -> Seq<InstalledView> {
    Seq::new(extensions.len(), |i: int| extensions[i]@)
}

/// The language that a language pack is for: the locale it declares, or
/// `unknown`.
pub open spec fn spec_pack_lang(extension: InstalledView) -> Seq<char> {
    match extension.locale {
        Some(locale) => locale,
        None => "unknown"@,
    }
}

/// The state of the engine after one installed extension was looked at. An
/// extension that does not name the category `i18n` changes nothing. The
/// translation data of a language pack is offered for its language; and where
/// that language is the chosen one, a switch to it is tried.
pub open spec fn spec_after_extension(
    s: I18nState,
    chosen: Option<Seq<char>>,
    extension: InstalledView,
) -> I18nState {
    if !extension.categories.contains("i18n"@) {
        s
    } else {
        let lang = spec_pack_lang(extension);
        let offered = match extension.translations {
            Some(content) => s.after_offer(lang, content),
            None => s,
        };
        if chosen == Some(lang) {
            offered.after_switch_attempt(lang)
        } else {
            offered
        }
    }
}

/// The state of the engine after the first `count` installed extensions were
/// looked at, one after the other.
pub open spec fn spec_after_extensions(
    s: I18nState,
    chosen: Option<Seq<char>>,
    extensions: Seq<InstalledView>,
    count: int,
) -> I18nState
    decreases count,
{
    if count <= 0 {
        s
    } else {
        spec_after_extension(
            spec_after_extensions(s, chosen, extensions, count - 1),
            chosen,
            extensions[count - 1],
        )
    }
}

/// Makes the installed language packs known to the engine, one after the
/// other: the translation data of each is registered for its language, and
/// the pack of the chosen language makes that language the active one. A
/// pack whose data cannot be read, or whose language is not accepted, is
/// passed over.
pub fn register_i18n_extensions(host: &mut ExtensionHostProxy, extensions: &Vec<InstalledExtension>)
    requires
        old(host).wf(),
    ensures
        final(host).wf(),
        final(host).settings@ == old(host).settings@,
        final(host).i18n_manager@ == spec_after_extensions(
            old(host).i18n_manager@,
            old(host).settings@.i18n_lang,
            installed_view(extensions@),
            extensions.len() as int,
        ),
{
    let ghost start = host.i18n_manager@;
    let ghost chosen = host.settings@.i18n_lang;
    let ghost all = installed_view(extensions@);
    let mut i: usize = 0;
    while i < extensions.len()
        invariant
            i <= extensions.len(),
            host.wf(),
            host.settings@ == old(host).settings@,
            chosen == old(host).settings@.i18n_lang,
            start == old(host).i18n_manager@,
            all == installed_view(extensions@),
            host.i18n_manager@ == spec_after_extensions(start, chosen, all, i as int),
        decreases extensions.len() - i,
    {
        let extension = &extensions[i];
        if list_has(&extension.categories, "i18n") {
            let lang = match &extension.locale {
                Some(locale) => locale.clone(),
                None => "unknown".to_owned(),
            };
            match &extension.translations {
                Some(content) => {
                    let _ = host.i18n_manager.register_i18n_lang_extension(
                        lang.as_str(),
                        content.as_str(),
                    );
                },
                None => {},
            }
            let is_chosen = match &host.settings.i18n_lang {
                Some(code) => same_text(code.as_str(), lang.as_str()),
                None => false,
            };
            if is_chosen {
                let _ = host.i18n_manager.switch_language(lang.as_str());
            }
        }
        i = i + 1;
    }
}

} // verus!
