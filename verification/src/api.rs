//! The public vocabulary of the translation engine: its errors, the form in
//! which a resource set is handed over, and the interface of a manager.

use crate::lang_codes::LanguageError;
use vstd::prelude::*;
use vstd::string::StringExecFns;

verus! {

/// The marker that every translation key begins with.
pub open spec fn key_prefix() -> Seq<char> {
    "i18n."@
}

/// The translation key made of the marker and `path`.
pub fn i18n_key(path: &str) -> (key: String)
    ensures
        key@ == key_prefix() + path@,
{
    "i18n.".to_owned().concat(path)
}

/// The resource set of one language as a caller hands it over.
#[derive(Debug, Clone)]
pub struct TranslationResource {
    /// The code of the language.
    pub lang_id: String,
    /// The texts by key. Where a key occurs twice the later text counts.
    pub translations: Vec<(String, String)>,
}

/// What can go wrong with translation resources.
#[derive(Debug, Clone, PartialEq, Eq)]
pub enum TranslationError {
    /// No resource set is registered for the language.
    ResourceNotFound,
    /// The resource set of the language has no text for the key.
    KeyNotFound(String),
    /// The key lacks the marker that every key begins with.
    InvalidKeyFormat(String),
    /// The translation data cannot be read as a resource set.
    ResourceFormatError(String),
}

impl TranslationError {
    /// The message of the error, for display.
    pub fn message(&self) -> (text: String)
        ensures
            match *self {
                TranslationError::ResourceNotFound => text@ == "翻译资源未找到"@,
                TranslationError::KeyNotFound(key) => text@ == "翻译键未找到: "@ + key@,
                TranslationError::InvalidKeyFormat(key) => text@ == "无效的翻译键格式: "@ + key@,
                TranslationError::ResourceFormatError(what) => text@ == "翻译资源格式错误: "@
                    + what@,
            },
    {
        match self {
            TranslationError::ResourceNotFound => "翻译资源未找到".to_owned(),
            TranslationError::KeyNotFound(key) => "翻译键未找到: ".to_owned().concat(key.as_str()),
            TranslationError::InvalidKeyFormat(key) => "无效的翻译键格式: ".to_owned().concat(
                key.as_str(),
            ),
            TranslationError::ResourceFormatError(what) => "翻译资源格式错误: ".to_owned().concat(
                what.as_str(),
            ),
        }
    }
}

/// The interface of a translation manager.
pub trait I18nManagerAPI {
    /// The manager is in a state that its own operations leave it in.
    spec fn valid(&self) -> bool;

    /// The code of the active language.
    fn get_active_lang(&self) -> String
        requires
            self.valid(),
    ;

    /// Makes `lang_id` the active language.
    fn set_lang(&mut self, lang_id: &str) -> (switched: Result<(), LanguageError>)
        requires
            old(self).valid(),
        ensures
            final(self).valid(),
    ;

    /// The text for `key`, or the key itself where no text is found.
    fn translate(&mut self, key: &str) -> (text: String)
        requires
            old(self).valid(),
        ensures
            final(self).valid(),
    ;

    /// Registers the resource set of a language.
    fn add_translation_resource(&mut self, resource: TranslationResource) -> (added: Result<
        (),
        TranslationError,
    >)
        requires
            old(self).valid(),
        ensures
            final(self).valid(),
    ;

    /// Removes the resource set of a language.
    fn remove_translation_resource(&mut self, lang_id: &str) -> (removed: Result<
        (),
        TranslationError,
    >)
        requires
            old(self).valid(),
        ensures
            final(self).valid(),
    ;

    /// The codes of the languages that have a resource set.
    fn get_available_langs(&self) -> Vec<String>
        requires
            self.valid(),
    ;

    /// The native name of a language.
    fn get_lang_name(&self, lang_id: &str) -> Option<String>
        requires
            self.valid(),
    ;
}

} // verus!
