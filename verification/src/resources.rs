//! The resource set of one language: its texts by translation key.
//!
//! A set is built once, by inserting its texts or by reading translation
//! data, and then handed to the engine whole. The translation data is a flat
//! JSON object from key to text, which may carry the flag `rtl`.

use crate::api::TranslationError;
use crate::table::{
    assoc, assoc_put, distinct_keys, find_key, keys_of, lemma_assoc_put, opt_text, pairs_view,
    stored_keys, texts_view,
};
use crate::text::same_text;
use vstd::prelude::*;

verus! {

/// The error of `serde_json`, of which Verus sees nothing inside.
#[verifier::external_type_specification]
#[verifier::external_body]
pub struct ExJsonError(serde_json::Error);

/// One field of a JSON object, as far as translation data is concerned.
#[derive(Debug)]
pub enum JsonField {
    /// A string.
    Text(String),
    /// `true` or `false`.
    Flag(bool),
    /// Any other value.
    Other,
}

/// What a [`JsonField`] holds.
pub enum FieldView {
    Text(Seq<char>),
    Flag(bool),
    Other,
}

impl View for JsonField {
    type V = FieldView;

    open spec fn view(&self) -> FieldView {
        match *self {
            JsonField::Text(text) => FieldView::Text(text@),
            JsonField::Flag(flag) => FieldView::Flag(flag),
            JsonField::Other => FieldView::Other,
        }
    }
}

/// The views of the fields of an object, each with its name.
pub open spec fn fields_view(fields: Seq<(String, JsonField)>) -> Seq<(Seq<char>, FieldView)> {
    Seq::new(fields.len(), |i: int| (fields[i].0@, fields[i].1@))
}

/// The fields of the JSON object that `content` is, as `serde_json` reads
/// it, in the order in which its map hands them out; `None` where `content`
/// is not a JSON object. Reading is a matter of the text alone.
pub uninterp spec fn json_object_of(content: Seq<char>) -> Option<Seq<(Seq<char>, FieldView)>>;

/// Calls `serde_json::from_str` for a JSON object and hands out its fields,
/// each string and each boolean as it is and any other value as `Other`.
/// The call is not proved: the fields are taken to be those that
/// [`json_object_of`] names, and the call is taken to fail exactly where that
/// names none.
#[verifier::external_body]
pub(crate) fn parse_json_object(content: &str) -> (parsed: Result<
    Vec<(String, JsonField)>,
    serde_json::Error,
>)
    ensures
        match parsed {
            Ok(fields) => json_object_of(content@) == Some(fields_view(fields@)),
            Err(_) => json_object_of(content@) is None,
        },
{
    let object: serde_json::Map<String, serde_json::Value> = serde_json::from_str(content)?;
    Ok(
        object.into_iter().map(
            |(name, value)|
                (
                    name,
                    match value {
                        serde_json::Value::String(text) => JsonField::Text(text),
                        serde_json::Value::Bool(flag) => JsonField::Flag(flag),
                        _ => JsonField::Other,
                    },
                ),
        ).collect(),
    )
}

/// Calls `to_string` on an error of `serde_json`. Nothing is claimed of the
/// text.
#[verifier::external_body]
pub(crate) fn json_error_text(error: &serde_json::Error) -> (text: String) {
    error.to_string()
}

/// A field that translation data may hold: a text under any name, or a flag
/// under the name `rtl`.
pub open spec fn field_fits(field: (Seq<char>, FieldView)) -> bool {
    match field.1 {
        FieldView::Text(_) => true,
        FieldView::Flag(_) => field.0 == "rtl"@,
        FieldView::Other => false,
    }
}

/// The position of the first field at or after `from` that translation data
/// may not hold.
pub open spec fn first_misfit_from(fields: Seq<(Seq<char>, FieldView)>, from: int) -> Option<int>
    decreases fields.len() - from,
{
    if from < 0 || from >= fields.len() {
        None
    } else if !field_fits(fields[from]) {
        Some(from)
    } else {
        first_misfit_from(fields, from + 1)
    }
}

/// The position of the first field that translation data may not hold.
pub open spec fn first_misfit(fields: Seq<(Seq<char>, FieldView)>) -> Option<int> {
    first_misfit_from(fields, 0)
}

/// The texts among `fields`, each under its name; a later text replaces an
/// earlier one of the same name.
pub open spec fn spec_texts_of(fields: Seq<(Seq<char>, FieldView)>) -> Seq<(Seq<char>, Seq<char>)>
    decreases fields.len(),
{
    if fields.len() == 0 {
        Seq::empty()
    } else {
        let before = spec_texts_of(fields.drop_last());
        match fields.last().1 {
            FieldView::Text(text) => assoc_put(before, fields.last().0, text),
            _ => before,
        }
    }
}

/// The last flag among `fields`; `false` where there is none.
pub open spec fn spec_flag_of(fields: Seq<(Seq<char>, FieldView)>) -> bool
    decreases fields.len(),
{
    if fields.len() == 0 {
        false
    } else {
        match fields.last().1 {
            FieldView::Flag(flag) => flag,
            _ => spec_flag_of(fields.drop_last()),
        }
    }
}

/// The table that results from putting `pairs` in one after the other: a
/// later text replaces an earlier one of the same key.
pub open spec fn spec_collect(pairs: Seq<(Seq<char>, Seq<char>)>) -> Seq<(Seq<char>, Seq<char>)>
    decreases pairs.len(),
{
    if pairs.len() == 0 {
        Seq::empty()
    } else {
        assoc_put(spec_collect(pairs.drop_last()), pairs.last().0, pairs.last().1)
    }
}

/// The resource set of one language: its texts by translation key, in the
/// order in which the keys first came in, and whether the language is written
/// from right to left.
#[derive(Debug)]
pub struct I18nLangResources {
    translations: Vec<(String, String)>,
    rtl: bool,
}

impl View for I18nLangResources {
    type V = Seq<(Seq<char>, Seq<char>)>;

    closed spec fn view(&self) -> Seq<(Seq<char>, Seq<char>)> {
        pairs_view(self.translations@)
    }
}

impl I18nLangResources {
    /// Whether the set is marked as written from right to left.
    pub closed spec fn rtl(&self) -> bool {
        self.rtl
    }

    /// No key occurs twice.
    pub open spec fn wf(&self) -> bool {
        distinct_keys(keys_of(self@))
    }

    /// The text under `key`.
    pub open spec fn text_of(&self, key: Seq<char>) -> Option<Seq<char>> {
        assoc(self@, key)
    }

    /// The set without texts.
    pub fn new() -> (set: I18nLangResources)
        ensures
            set@ == Seq::<(Seq<char>, Seq<char>)>::empty(),
            !set.rtl(),
            set.wf(),
    {
        I18nLangResources { translations: Vec::new(), rtl: false }
    }

    /// Puts `text` under `key`, in place of the text that was there.
    pub fn insert(&mut self, key: String, text: String)
        requires
            old(self).wf(),
        ensures
            final(self)@ == assoc_put(old(self)@, key@, text@),
            final(self).rtl() == old(self).rtl(),
            final(self).wf(),
    {
        proof {
            assert(keys_of(self@) =~= stored_keys(self.translations@));
            lemma_assoc_put(self@, key@, text@);
        }
        let ghost before = self@;
        let ghost key_text = key@;
        let ghost new_text = text@;
        match find_key(&self.translations, key.as_str()) {
            Some(i) => {
                self.translations.set(i, (key, text));
                assert(self@ =~= before.update(i as int, (key_text, new_text)));
            },
            None => {
                self.translations.push((key, text));
                assert(self@ =~= before.push((key_text, new_text)));
            },
        }
    }

    /// The text under `key`.
    pub fn get(&self, key: &str) -> (text: Option<String>)
        ensures
            opt_text(text) == self.text_of(key@),
    {
        assert(keys_of(self@) =~= stored_keys(self.translations@));
        match find_key(&self.translations, key) {
            Some(i) => Some(self.translations[i].1.clone()),
            None => None,
        }
    }

    /// Whether the set has a text under `key`.
    pub fn contains_key(&self, key: &str) -> (held: bool)
        ensures
            held == self.text_of(key@) is Some,
    {
        assert(keys_of(self@) =~= stored_keys(self.translations@));
        find_key(&self.translations, key).is_some()
    }

    /// The number of texts.
    pub fn len(&self) -> (count: usize)
        ensures
            count == self@.len(),
    {
        self.translations.len()
    }

    /// Whether the set is without texts.
    pub fn is_empty(&self) -> (empty: bool)
        ensures
            empty == (self@.len() == 0),
    {
        self.translations.len() == 0
    }

    /// Whether the set is marked as written from right to left.
    pub fn is_rtl(&self) -> (rtl: bool)
        ensures
            rtl == self.rtl(),
    {
        self.rtl
    }

    /// Marks the set as written from right to left, or not.
    pub fn set_rtl(&mut self, rtl: bool)
        ensures
            final(self)@ == old(self)@,
            final(self).rtl() == rtl,
    {
        self.rtl = rtl;
    }

    /// The keys, in the order in which they first came in.
    pub fn keys(&self) -> (keys: Vec<String>)
        ensures
            texts_view(keys@) == keys_of(self@),
    {
        let mut keys: Vec<String> = Vec::new();
        let mut i: usize = 0;
        while i < self.translations.len()
            invariant
                i <= self.translations.len(),
                keys.len() == i,
                forall|j: int| 0 <= j < i ==> keys@[j]@ == self.translations@[j].0@,
            decreases self.translations.len() - i,
        {
            keys.push(self.translations[i].0.clone());
            i = i + 1;
        }
        keys
    }

    /// The key and the text of the entry at position `at`.
    pub fn entry(&self, at: usize) -> (pair: (&String, &String))
        requires
            at < self@.len(),
        ensures
            pair.0@ == self@[at as int].0,
            pair.1@ == self@[at as int].1,
    {
        (&self.translations[at].0, &self.translations[at].1)
    }

    /// A set with the same texts and the same mark.
    pub fn duplicate(&self) -> (copy: I18nLangResources)
        ensures
            copy@ == self@,
            copy.rtl() == self.rtl(),
    {
        let mut translations: Vec<(String, String)> = Vec::new();
        let mut i: usize = 0;
        while i < self.translations.len()
            invariant
                i <= self.translations.len(),
                translations.len() == i,
                forall|j: int|
                    0 <= j < i ==> translations@[j].0@ == self.translations@[j].0@
                        && translations@[j].1@ == self.translations@[j].1@,
            decreases self.translations.len() - i,
        {
            translations.push((self.translations[i].0.clone(), self.translations[i].1.clone()));
            i = i + 1;
        }
        I18nLangResources { translations, rtl: self.rtl }
    }

    /// The set that results from putting `pairs` in one after the other.
    pub fn from_pairs(pairs: &Vec<(String, String)>) -> (set: I18nLangResources)
        ensures
            set@ == spec_collect(pairs_view(pairs@)),
            !set.rtl(),
            set.wf(),
    {
        let mut set = I18nLangResources::new();
        let ghost all = pairs_view(pairs@);
        let mut i: usize = 0;
        while i < pairs.len()
            invariant
                i <= pairs.len(),
                all == pairs_view(pairs@),
                set@ == spec_collect(all.take(i as int)),
                !set.rtl(),
                set.wf(),
            decreases pairs.len() - i,
        {
            assert(all.take(i + 1).drop_last() =~= all.take(i as int));
            set.insert(pairs[i].0.clone(), pairs[i].1.clone());
            i = i + 1;
        }
        assert(all.take(pairs.len() as int) =~= all);
        set
    }

    /// The set that the fields of a JSON object make: each text under its
    /// name, and the mark by the flag `rtl`. A field that is neither a text
    /// nor the flag makes the data unreadable; the error names the first such
    /// field.
    pub fn from_fields(fields: &Vec<(String, JsonField)>) -> (made: Result<
        I18nLangResources,
        TranslationError,
    >)
        ensures
            match made {
                Ok(set) => {
                    &&& first_misfit(fields_view(fields@)) is None
                    &&& set@ == spec_texts_of(fields_view(fields@))
                    &&& set.rtl() == spec_flag_of(fields_view(fields@))
                    &&& set.wf()
                },
                Err(TranslationError::ResourceFormatError(name)) => {
                    &&& first_misfit(fields_view(fields@)) is Some
                    &&& name@ == fields_view(fields@)[first_misfit(fields_view(fields@))->0].0
                },
                Err(_) => false,
            },
    {
        let mut set = I18nLangResources::new();
        let ghost all = fields_view(fields@);
        let mut i: usize = 0;
        while i < fields.len()
            invariant
                i <= fields.len(),
                all == fields_view(fields@),
                first_misfit(all) == first_misfit_from(all, i as int),
                set@ == spec_texts_of(all.take(i as int)),
                set.rtl() == spec_flag_of(all.take(i as int)),
                set.wf(),
            decreases fields.len() - i,
        {
            assert(all.take(i + 1).drop_last() =~= all.take(i as int));
            match &fields[i].1 {
                JsonField::Text(text) => {
                    set.insert(fields[i].0.clone(), text.clone());
                },
                JsonField::Flag(flag) => {
                    if !same_text(fields[i].0.as_str(), "rtl") {
                        return Err(TranslationError::ResourceFormatError(fields[i].0.clone()));
                    }
                    set.set_rtl(*flag);
                },
                JsonField::Other => {
                    return Err(TranslationError::ResourceFormatError(fields[i].0.clone()));
                },
            }
            i = i + 1;
        }
        assert(all.take(fields.len() as int) =~= all);
        Ok(set)
    }

    /// The set that the translation data `content` holds. Data that is no
    /// JSON object, or that holds a field which is neither a text nor the
    /// flag `rtl`, is refused.
    pub fn from_json(content: &str) -> (made: Result<I18nLangResources, TranslationError>)
        ensures
            match made {
                Ok(set) => {
                    &&& json_object_of(content@) is Some
                    &&& first_misfit(json_object_of(content@)->0) is None
                    &&& set@ == spec_texts_of(json_object_of(content@)->0)
                    &&& set.rtl() == spec_flag_of(json_object_of(content@)->0)
                    &&& set.wf()
                },
                Err(TranslationError::ResourceFormatError(what)) => match json_object_of(
                    content@,
                ) {
                    Some(fields) => {
                        &&& first_misfit(fields) is Some
                        &&& what@ == fields[first_misfit(fields)->0].0
                    },
                    None => true,
                },
                Err(_) => false,
            },
    {
        match parse_json_object(content) {
            Ok(fields) => I18nLangResources::from_fields(&fields),
            Err(error) => Err(TranslationError::ResourceFormatError(json_error_text(&error))),
        }
    }
}

} // verus!
