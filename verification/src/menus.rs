//! The texts of the application menus: finding them in the source of the
//! menus, and giving each its translation key.

use crate::table::texts_view;
use crate::text::{
    chars_of, chars_view, contains, extend, join, lowercase_of, position, replace, slice_of,
    spec_contains, spec_join, spec_position, spec_replace, spec_trim, string_of, trim,
};
use vstd::prelude::*;

verus! {

/// The part of a translation key that the text `text` gives: the text in
/// lower case, without ellipses, apostrophes and ampersands, and with an
/// underscore for each blank and each hyphen.
pub open spec fn spec_normalize_key(text: Seq<char>) -> Seq<char> {
    spec_replace(
        spec_replace(
            spec_replace(
                spec_replace(
                    spec_replace(spec_replace(lowercase_of(text), "…"@, ""@), "..."@, ""@),
                    " "@,
                    "_"@,
                ),
                "-"@,
                "_"@,
            ),
            "'"@,
            ""@,
        ),
        "&"@,
        ""@,
    )
}

/// The part of a translation key that a text in lower case gives.
pub fn normalize_lowered(lowered: &Vec<char>) -> (key: Vec<char>)
    ensures
        key@ == spec_replace(
            spec_replace(
                spec_replace(
                    spec_replace(spec_replace(spec_replace(lowered@, "…"@, ""@), "..."@, ""@), " "@, "_"@),
                    "-"@,
                    "_"@,
                ),
                "'"@,
                ""@,
            ),
            "&"@,
            ""@,
        ),
{
    let none = chars_of("");
    let under = chars_of("_");
    let a = replace(lowered, &chars_of("…"), &none);
    let b = replace(&a, &chars_of("..."), &none);
    let c = replace(&b, &chars_of(" "), &under);
    let d = replace(&c, &chars_of("-"), &under);
    let e = replace(&d, &chars_of("'"), &none);
    replace(&e, &chars_of("&"), &none)
}

/// The part of a translation key that the text `text` gives.
pub fn normalize_key(text: &str) -> (key: String)
    ensures
        key@ == spec_normalize_key(text@),
{
    let lowered = chars_of(text.to_lowercase().as_str());
    string_of(&normalize_lowered(&lowered))
}

/// The way to a menu: the names of the menus that lead to it, each as it
/// stands in a translation key.
#[derive(Debug)]
pub struct MenuPath {
    path: Vec<String>,
}

impl View for MenuPath {
    type V = Seq<Seq<char>>;

    closed spec fn view(&self) -> Seq<Seq<char>> {
        texts_view(self.path@)
    }
}

/// The key of the menu at the end of `path`.
pub open spec fn spec_menu_key(path: Seq<Seq<char>>) -> Seq<char> {
    if path.len() == 0 {
        "i18n.menu"@
    } else {
        "i18n.menu."@ + spec_join(path, "."@, path.len() as int)
    }
}

/// The key of the item `item_name` of the menu at the end of `path`.
pub open spec fn spec_item_key_at(path: Seq<Seq<char>>, item_name: Seq<char>) -> Seq<char> {
    if path.len() == 0 {
        "i18n.menu."@ + spec_normalize_key(item_name)
    } else {
        "i18n.menu."@ + spec_join(path, "."@, path.len() as int) + "."@ + spec_normalize_key(
            item_name,
        )
    }
}

impl MenuPath {
    /// The empty way: that to the menu bar.
    pub fn new() -> (path: MenuPath)
        ensures
            path@ == Seq::<Seq<char>>::empty(),
    {
        MenuPath { path: Vec::new() }
    }

    /// Goes on into the menu `name`.
    pub fn push(&mut self, name: &str)
        ensures
            final(self)@ == old(self)@.push(spec_normalize_key(name@)),
    {
        self.path.push(normalize_key(name));
    }

    /// Goes back out of the last menu, and says which it was.
    pub fn pop(&mut self) -> (last: Option<String>)
        ensures
            match last {
                Some(name) => {
                    &&& old(self)@.len() > 0
                    &&& name@ == old(self)@.last()
                    &&& final(self)@ == old(self)@.drop_last()
                },
                None => old(self)@.len() == 0 && final(self)@ == old(self)@,
            },
    {
        self.path.pop()
    }

    /// Whether the way is the empty one.
    pub fn is_empty(&self) -> (empty: bool)
        ensures
            empty == (self@.len() == 0),
    {
        self.path.len() == 0
    }

    /// The names of the way, joined by dots.
    fn joined(&self) -> (text: Vec<char>)
        ensures
            text@ == spec_join(self@, "."@, self@.len() as int),
    {
        let mut parts: Vec<Vec<char>> = Vec::new();
        let mut i: usize = 0;
        while i < self.path.len()
            invariant
                i <= self.path.len(),
                parts.len() == i,
                forall|j: int| 0 <= j < i ==> parts@[j]@ == self.path@[j]@,
            decreases self.path.len() - i,
        {
            parts.push(chars_of(self.path[i].as_str()));
            i = i + 1;
        }
        assert(chars_view(parts@) =~= self@);
        join(&parts, &chars_of("."))
    }

    /// The key of the item `item_name` of the menu at the end of the way.
    pub fn to_key(&self, item_name: &str) -> (key: String)
        ensures
            key@ == spec_item_key_at(self@, item_name@),
    {
        let mut key = chars_of("i18n.menu.");
        if !self.is_empty() {
            extend(&mut key, &self.joined());
            extend(&mut key, &chars_of("."));
        }
        extend(&mut key, &chars_of(normalize_key(item_name).as_str()));
        string_of(&key)
    }

    /// The key of the menu at the end of the way.
    pub fn to_menu_key(&self) -> (key: String)
        ensures
            key@ == spec_menu_key(self@),
    {
        if self.is_empty() {
            return "i18n.menu".to_owned();
        }
        let mut key = chars_of("i18n.menu.");
        extend(&mut key, &self.joined());
        string_of(&key)
    }

    /// The name of the last menu of the way.
    pub fn last(&self) -> (last: Option<&String>)
        ensures
            match last {
                Some(name) => self@.len() > 0 && name@ == self@.last(),
                None => self@.len() == 0,
            },
    {
        if self.path.len() == 0 {
            None
        } else {
            let name = &self.path[self.path.len() - 1];
            Some(name)
        }
    }
}

/// A text that was found in a line of the source of the menus.
#[derive(Debug)]
pub struct ExtractedText {
    /// The text.
    pub text: String,
    /// Whether the text is the name of a menu.
    pub is_menu: bool,
}

/// The text between the first quotation mark of `line` and the next one.
pub open spec fn spec_quoted(line: Seq<char>) -> Option<Seq<char>> {
    let open = spec_position(line, '"', 0);
    let close = spec_position(line, '"', open + 1);
    if open < line.len() && close < line.len() {
        Some(line.subrange(open + 1, close))
    } else {
        None
    }
}

/// The text that the line of source `line` holds, with what it is: nothing
/// of a line that already asks for a translation; the name of a menu where
/// the line names something; the text of an item where the line makes an
/// item with an action.
pub open spec fn spec_extract_menu_text(line: Seq<char>) -> Option<(Seq<char>, bool)> {
    if spec_contains(line, "t!(cx,"@) {
        None
    } else {
        match spec_quoted(line) {
            Some(text) => if spec_contains(line, "name:"@) {
                Some((text, true))
            } else if spec_contains(line, "MenuItem::action"@) {
                Some((text, false))
            } else {
                None
            },
            None => None,
        }
    }
}

/// The key and the text that the line of source `line` gives at the menu at
/// the end of `path`. Empty lines, lines of conditional compilation and
/// separators give nothing.
pub open spec fn spec_process_menu_text(line: Seq<char>, path: Seq<Seq<char>>) -> Option<
    (Seq<char>, Seq<char>),
> {
    if spec_trim(line).len() == 0 || spec_contains(line, "#[cfg"@) || spec_contains(
        line,
        "separator"@,
    ) {
        None
    } else {
        match spec_extract_menu_text(line) {
            Some((text, is_menu)) => if is_menu {
                Some((spec_menu_key(path), text))
            } else {
                Some((spec_item_key_at(path, text), text))
            },
            None => None,
        }
    }
}

/// The text between the first quotation mark of `line` and the next one.
pub fn quoted(line: &Vec<char>) -> (text: Option<Vec<char>>)
    ensures
        match text {
            Some(found) => spec_quoted(line@) == Some(found@),
            None => spec_quoted(line@) is None,
        },
{
    let open = position(line, '"', 0);
    if open >= line.len() {
        return None;
    }
    let close = position(line, '"', open + 1);
    if close >= line.len() {
        return None;
    }
    Some(slice_of(line, open + 1, close))
}

/// The text that the line of source `line` holds, with what it is.
pub fn extract_menu_text(line: &str) -> (found: Option<ExtractedText>)
    ensures
        match found {
            Some(extracted) => spec_extract_menu_text(line@) == Some(
                (extracted.text@, extracted.is_menu),
            ),
            None => spec_extract_menu_text(line@) is None,
        },
{
    let chars = chars_of(line);
    if contains(&chars, &chars_of("t!(cx,")) {
        return None;
    }
    match quoted(&chars) {
        Some(text) => {
            if contains(&chars, &chars_of("name:")) {
                Some(ExtractedText { text: string_of(&text), is_menu: true })
            } else if contains(&chars, &chars_of("MenuItem::action")) {
                Some(ExtractedText { text: string_of(&text), is_menu: false })
            } else {
                None
            }
        },
        None => None,
    }
}

/// The key and the text that the line of source `line` gives at the menu at
/// the end of `menu_path`.
pub fn process_menu_text(line: &str, menu_path: &MenuPath) -> (found: Option<(String, String)>)
    ensures
        match found {
            Some(pair) => spec_process_menu_text(line@, menu_path@) == Some((pair.0@, pair.1@)),
            None => spec_process_menu_text(line@, menu_path@) is None,
        },
{
    let chars = chars_of(line);
    if trim(&chars).len() == 0 || contains(&chars, &chars_of("#[cfg")) || contains(
        &chars,
        &chars_of("separator"),
    ) {
        return None;
    }
    match extract_menu_text(line) {
        Some(extracted) => {
            let key = if extracted.is_menu {
                menu_path.to_menu_key()
            } else {
                menu_path.to_key(extracted.text.as_str())
            };
            Some((key, extracted.text))
        },
        None => None,
    }
}

} // verus!
