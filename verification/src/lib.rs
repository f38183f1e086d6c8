//! Translation lookup with language fallback, the matching of language
//! packs against canonical language codes, and the tools that translators
//! work with.
//!
//! The engine ([`I18nManager`]) holds the resource sets of the registered
//! languages and answers lookups of a text by its key, from a bounded cache
//! where it can. Language codes ([`normalize`], [`is_extension_match`],
//! [`Language`]) are handled by tables that are plain values
//! ([`LangTables`]). Around them stand the language settings, the language
//! packs and the choice of a language; and for translators the validation of
//! a pack, the scan of source text for texts without a key, the ordering of
//! translation files and the template of a new pack.
//!
//! The library works on values that are in memory. It reads no files, asks
//! no system for its language and keeps no state of its own between calls:
//! a manager is a value that its owner hands to whoever needs it, and where
//! several threads share one, the owner puts it behind a lock.

pub mod api;
pub mod cache;
pub mod defaults;
pub mod defaults_file;
pub mod extension;
pub mod lang_codes;
pub mod lang_tables;
pub mod linked;
pub mod manager;
pub mod menu_scan;
pub mod menus;
pub mod pattern;
pub mod reorganize;
pub mod report;
pub mod resources;
pub mod scan_keys;
pub mod scanner;
pub mod selector;
pub mod settings;
pub mod sorted;
pub mod table;
pub mod template;
pub mod text;
pub mod validator;

pub use crate::api::{i18n_key, I18nManagerAPI, TranslationError, TranslationResource};
pub use crate::defaults::{get_all_default_text_keys, get_default_text};
pub use crate::lang_codes::{is_extension_match, normalize, Language, LanguageError};
pub use crate::lang_tables::LangTables;
pub use crate::manager::{substitute, I18nManager};
pub use crate::resources::{I18nLangResources, JsonField};
