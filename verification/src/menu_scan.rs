//! The scan of the source of the application menus: which texts the menus
//! hold, and under which translation key each of them goes.
//!
//! The scan goes through the source line by line and keeps track of the menu
//! it is in. The texts come out in the order in which they were found; a
//! text that is found again under the same key moves to the end.

use crate::linked::{linked_entries, linked_insert, linked_new, linked_pairs, spec_linked_put};
use crate::menus::{normalize_key, quoted, spec_normalize_key, spec_quoted};
use crate::pattern::{regex_first_groups, regex_first_groups_of};
use crate::table::{key_index, key_index_from, lemma_key_index, pairs_view, texts_view};
use crate::text::{
    chars_of, chars_view, contains, extend, lines_of, same_text, spec_contains, spec_lines,
    spec_starts_with, spec_trim, starts_with, string_of, text_starts_with, trim,
};
use linked_hash_map::LinkedHashMap;
use vstd::prelude::*;
use vstd::string::StringExecFns;

verus! {

/// Texts by key.
pub type Entries = Seq<(Seq<char>, Seq<char>)>;

/// The menus of the menu bar: the name of each as it stands in the source,
/// and as it stands in a translation key.
pub open spec fn spec_menu_table() -> Entries {
    seq![
        ("Zed"@, "zed"@),
        ("File"@, "file"@),
        ("Edit"@, "edit"@),
        ("Selection"@, "selection"@),
        ("View"@, "view"@),
        ("Go"@, "go"@),
        ("Terminal"@, "terminal"@),
        ("Window"@, "window"@),
        ("Help"@, "help"@),
    ]
}

/// The submenus: the name of each as it stands in the source, and its
/// translation key.
pub open spec fn spec_submenu_table() -> Entries {
    seq![
        ("Settings"@, "i18n.menu.zed.settings"@),
        ("Services"@, "i18n.menu.zed.services"@),
        ("Editor Layout"@, "i18n.menu.view.editor_layout"@),
    ]
}

/// The submenus as they stand in a translation key.
pub open spec fn spec_submenu_ids() -> Seq<Seq<char>> {
    seq!["settings"@, "services"@, "editor_layout"@]
}

/// The items of the application menu that belong to its settings.
pub open spec fn spec_settings_items() -> Seq<Seq<char>> {
    seq![
        "Open Settings"@,
        "Open Key Bindings"@,
        "Open Default Settings"@,
        "Open Default Key Bindings"@,
        "Open Project Settings"@,
        "Select Theme..."@,
    ]
}

/// The items of the View menu that belong to the layout of the editor.
pub open spec fn spec_layout_items() -> Seq<Seq<char>> {
    seq!["Split Up"@, "Split Down"@, "Split Left"@, "Split Right"@]
}

/// The menus whose items go under the name of the menu without more ado.
pub open spec fn spec_plain_menus() -> Seq<Seq<char>> {
    seq!["file"@, "edit"@, "selection"@, "go"@, "terminal"@, "window"@, "help"@]
}

/// `text` in quotation marks.
pub open spec fn spec_in_quotes(text: Seq<char>) -> Seq<char> {
    "\""@ + text + "\""@
}

/// The position of the first entry of `table[from..]` whose name `line` holds
/// in quotation marks.
pub open spec fn spec_named_from(table: Entries, line: Seq<char>, from: int) -> Option<int>
    decreases table.len() - from,
{
    if from < 0 || from >= table.len() {
        None
    } else if spec_contains(line, spec_in_quotes(table[from].0)) {
        Some(from)
    } else {
        spec_named_from(table, line, from + 1)
    }
}

/// The text of the item that begins at line `from`: the quoted text of the
/// first line from there on which has one and does not ask for a translation
/// already, each line taken without the white space around it.
pub open spec fn spec_item_text_from(lines: Seq<Seq<char>>, from: int) -> Option<Seq<char>>
    decreases lines.len() - from,
{
    if from < 0 || from >= lines.len() {
        None
    } else if !spec_contains(spec_trim(lines[from]), "t!(cx,"@) && spec_quoted(
        spec_trim(lines[from]),
    ) is Some {
        spec_quoted(spec_trim(lines[from]))
    } else {
        spec_item_text_from(lines, from + 1)
    }
}

/// The translation key of the item `item` of the menu `menu`.
pub open spec fn spec_item_key(menu: Seq<char>, item: Seq<char>) -> Seq<char> {
    let part = spec_normalize_key(item);
    if menu == "zed"@ {
        if spec_settings_items().contains(item) {
            "i18n.menu.zed.settings."@ + part
        } else {
            "i18n.menu.zed."@ + part
        }
    } else if menu == "view"@ {
        if spec_layout_items().contains(item) {
            "i18n.menu.view.editor_layout."@ + part
        } else {
            "i18n.menu.view."@ + part
        }
    } else if spec_plain_menus().contains(menu) {
        "i18n.menu."@ + menu + "."@ + part
    } else {
        "i18n.menu.other."@ + part
    }
}

/// `list` without the first of its texts that is `text`.
pub open spec fn spec_without_first(list: Seq<Seq<char>>, text: Seq<char>) -> Seq<Seq<char>> {
    match key_index(list, text) {
        Some(at) => list.remove(at),
        None => list,
    }
}

/// Whether one of the entries holds the text `text`.
pub open spec fn spec_has_text(entries: Entries, text: Seq<char>) -> bool {
    exists|i: int| 0 <= i < entries.len() && (#[trigger] entries[i]).1 == text
}

/// How far a scan has come.
pub struct MenuScanView {
    /// The menu of the menu bar that the scan is in.
    pub menu: Seq<char>,
    /// The submenu that the scan is in.
    pub submenu: Seq<char>,
    /// Whether the scan is in the submenu of the layout of the editor.
    pub in_editor_layout: bool,
    /// The texts found so far, by key.
    pub texts: Entries,
    /// The quoted texts of the source that no menu has accounted for yet.
    pub pending: Seq<Seq<char>>,
}

/// The scan after the line at position `at` was looked at.
pub open spec fn spec_scan_line(s: MenuScanView, lines: Seq<Seq<char>>, at: int) -> MenuScanView {
    let line = spec_trim(lines[at]);
    if spec_contains(line, "Menu {"@) {
        if at + 1 < lines.len() && spec_contains(lines[at + 1], "name:"@) {
            match spec_named_from(spec_menu_table(), spec_trim(lines[at + 1]), 0) {
                Some(k) => MenuScanView {
                    menu: spec_menu_table()[k].1,
                    texts: spec_linked_put(
                        s.texts,
                        "i18n.menu."@ + spec_menu_table()[k].1,
                        spec_menu_table()[k].0,
                    ),
                    ..s
                },
                None => s,
            }
        } else {
            s
        }
    } else if spec_contains(line, "MenuItem::submenu"@) {
        if at + 2 < lines.len() && spec_contains(lines[at + 2], "name:"@) {
            match spec_named_from(spec_submenu_table(), spec_trim(lines[at + 2]), 0) {
                Some(k) => MenuScanView {
                    submenu: spec_submenu_ids()[k],
                    in_editor_layout: s.in_editor_layout || k == 2,
                    texts: spec_linked_put(
                        s.texts,
                        spec_submenu_table()[k].1,
                        spec_submenu_table()[k].0,
                    ),
                    ..s
                },
                None => s,
            }
        } else {
            s
        }
    } else if spec_contains(line, "}"@) && spec_contains(line, "],"@) {
        MenuScanView { submenu: Seq::empty(), in_editor_layout: false, ..s }
    } else if spec_contains(line, "MenuItem::action"@) || spec_contains(
        line,
        "MenuItem::os_action"@,
    ) {
        match spec_item_text_from(lines, at) {
            Some(item) => if item.len() > 0 && !spec_starts_with(item, "https://"@) {
                MenuScanView {
                    texts: spec_linked_put(s.texts, spec_item_key(s.menu, item), item),
                    pending: spec_without_first(s.pending, item),
                    ..s
                }
            } else {
                s
            },
            None => s,
        }
    } else {
        s
    }
}

/// The scan after the lines `lines[..count]` were looked at.
pub open spec fn spec_scan_lines(s: MenuScanView, lines: Seq<Seq<char>>, count: int) -> MenuScanView
    decreases count,
{
    if count <= 0 {
        s
    } else {
        spec_scan_line(spec_scan_lines(s, lines, count - 1), lines, count - 1)
    }
}

/// Those of the quoted texts `groups[..count]` that may be texts of a menu:
/// not empty, not asking for a translation already, and no address.
pub open spec fn spec_pending(groups: Seq<Seq<char>>, count: int) -> Seq<Seq<char>>
    decreases count,
{
    if count <= 0 {
        Seq::empty()
    } else {
        let before = spec_pending(groups, count - 1);
        let text = groups[count - 1];
        if text.len() > 0 && !spec_contains(text, "t!(cx,"@) && !spec_starts_with(
            text,
            "https://"@,
        ) {
            before.push(text)
        } else {
            before
        }
    }
}

/// `texts` with `text` put under `key` unless some entry holds the text
/// already.
pub open spec fn spec_put_unless_held(texts: Entries, key: Seq<char>, text: Seq<char>) -> Entries {
    if spec_has_text(texts, text) {
        texts
    } else {
        spec_linked_put(texts, key, text)
    }
}

/// The key under which a text goes that no menu has accounted for: the text
/// itself where it is a key of a menu already, else a key among the others.
pub open spec fn spec_leftover_key(text: Seq<char>) -> Seq<char> {
    if spec_starts_with(text, "i18n.menu"@) {
        text
    } else {
        "i18n.menu.other."@ + spec_normalize_key(text)
    }
}

/// `texts` with each of `pending[..count]` put in that no entry holds yet.
pub open spec fn spec_leftovers(texts: Entries, pending: Seq<Seq<char>>, count: int) -> Entries
    decreases count,
{
    if count <= 0 {
        texts
    } else {
        spec_put_unless_held(
            spec_leftovers(texts, pending, count - 1),
            spec_leftover_key(pending[count - 1]),
            pending[count - 1],
        )
    }
}

/// The pattern of a quoted text that is not empty.
pub open spec fn quoted_pattern() -> Seq<char> {
    "\"([^\"]+)\""@
}

/// The texts of the menus in the source `content`, by key: what the scan of
/// the lines finds, then the two items of the application menu that every
/// menu bar has, then the quoted texts that no menu has accounted for.
pub open spec fn spec_scan_app_menus(content: Seq<char>) -> Entries {
    let groups = regex_first_groups_of(quoted_pattern(), content);
    let lines = spec_lines(content);
    let start = MenuScanView {
        menu: Seq::empty(),
        submenu: Seq::empty(),
        in_editor_layout: false,
        texts: Seq::empty(),
        pending: spec_pending(groups, groups.len() as int),
    };
    let scanned = spec_scan_lines(start, lines, lines.len() as int);
    let about = spec_put_unless_held(scanned.texts, "i18n.menu.zed.about_zed"@, "About Zed…"@);
    let check = spec_put_unless_held(about, "i18n.menu.zed.check_for_updates"@, "Check for Updates"@);
    spec_leftovers(check, scanned.pending, scanned.pending.len() as int)
}

/// A scan of the source of the menus as it goes on.
pub struct MenuScan {
    current_menu: String,
    current_submenu: String,
    in_editor_layout: bool,
    texts: LinkedHashMap<String, String>,
    extracted_texts: Vec<String>,
}

impl View for MenuScan {
    type V = MenuScanView;

    closed spec fn view(&self) -> MenuScanView {
        MenuScanView {
            menu: self.current_menu@,
            submenu: self.current_submenu@,
            in_editor_layout: self.in_editor_layout,
            texts: linked_entries(self.texts),
            pending: texts_view(self.extracted_texts@),
        }
    }
}

/// A table of two columns.
fn table_of(rows: &[(&str, &str)]) -> (table: Vec<(Vec<char>, Vec<char>)>)
    ensures
        table.len() == rows.len(),
        forall|i: int|
            0 <= i < rows.len() ==> (#[trigger] table@[i]).0@ == rows@[i].0@ && table@[i].1@
                == rows@[i].1@,
{
    let mut table: Vec<(Vec<char>, Vec<char>)> = Vec::new();
    let mut i: usize = 0;
    while i < rows.len()
        invariant
            i <= rows.len(),
            table.len() == i,
            forall|j: int|
                0 <= j < i ==> (#[trigger] table@[j]).0@ == rows@[j].0@ && table@[j].1@
                    == rows@[j].1@,
        decreases rows.len() - i,
    {
        table.push((chars_of(rows[i].0), chars_of(rows[i].1)));
        i = i + 1;
    }
    table
}

/// The views of a table of two columns.
pub open spec fn table_view(table: Seq<(Vec<char>, Vec<char>)>) -> Entries {
    Seq::new(table.len(), |i: int| (table[i].0@, table[i].1@))
}

/// The position of the first entry of `table` whose name `line` holds in
/// quotation marks.
fn named_in(table: &Vec<(Vec<char>, Vec<char>)>, line: &Vec<char>) -> (found: Option<usize>)
    ensures
        match found {
            Some(k) => k < table.len() && spec_named_from(table_view(table@), line@, 0) == Some(
                k as int,
            ),
            None => spec_named_from(table_view(table@), line@, 0) is None,
        },
{
    let ghost rows = table_view(table@);
    let mut k: usize = 0;
    while k < table.len()
        invariant
            k <= table.len(),
            rows == table_view(table@),
            spec_named_from(rows, line@, 0) == spec_named_from(rows, line@, k as int),
        decreases table.len() - k,
    {
        let mut quoted_name = chars_of("\"");
        extend(&mut quoted_name, &table[k].0);
        extend(&mut quoted_name, &chars_of("\""));
        if contains(line, &quoted_name) {
            return Some(k);
        }
        k = k + 1;
    }
    None
}

/// Whether `list` holds the text `text`.
fn holds(list: &[&str], text: &Vec<char>) -> (held: bool)
    ensures
        held == (exists|i: int| 0 <= i < list.len() && (#[trigger] list@[i])@ == text@),
{
    let mut i: usize = 0;
    while i < list.len()
        invariant
            i <= list.len(),
            forall|j: int| 0 <= j < i ==> (#[trigger] list@[j])@ != text@,
        decreases list.len() - i,
    {
        if crate::text::is_text(text, list[i]) {
            return true;
        }
        i = i + 1;
    }
    false
}

/// The translation key of the item `item` of the menu `menu`.
pub fn item_key(menu: &str, item: &str) -> (key: String)
    ensures
        key@ == spec_item_key(menu@, item@),
{
    let part = normalize_key(item);
    let name = chars_of(item);
    let menu_name = chars_of(menu);
    if same_text(menu, "zed") {
        let settings = [
            "Open Settings",
            "Open Key Bindings",
            "Open Default Settings",
            "Open Default Key Bindings",
            "Open Project Settings",
            "Select Theme...",
        ];
        let held = holds(&settings, &name);
        proof {
            let list = spec_settings_items();
            if held {
                let i = choose|i: int| 0 <= i < settings@.len() && (#[trigger] settings@[i])@ == name@;
            } else {
                assert forall|i: int| 0 <= i < list.len() implies list[i] != item@ by {}
            }
        }
        if held {
            "i18n.menu.zed.settings.".to_owned().concat(part.as_str())
        } else {
            "i18n.menu.zed.".to_owned().concat(part.as_str())
        }
    } else if same_text(menu, "view") {
        let layout = ["Split Up", "Split Down", "Split Left", "Split Right"];
        let held = holds(&layout, &name);
        proof {
            let list = spec_layout_items();
            if held {
                let i = choose|i: int| 0 <= i < layout@.len() && (#[trigger] layout@[i])@ == name@;
            } else {
                assert forall|i: int| 0 <= i < list.len() implies list[i] != item@ by {}
            }
        }
        if held {
            "i18n.menu.view.editor_layout.".to_owned().concat(part.as_str())
        } else {
            "i18n.menu.view.".to_owned().concat(part.as_str())
        }
    } else {
        let plain = ["file", "edit", "selection", "go", "terminal", "window", "help"];
        let held = holds(&plain, &menu_name);
        proof {
            let list = spec_plain_menus();
            if held {
                let i = choose|i: int| 0 <= i < plain@.len() && (#[trigger] plain@[i])@ == menu_name@;
            } else {
                assert forall|i: int| 0 <= i < list.len() implies list[i] != menu@ by {}
            }
        }
        if held {
            "i18n.menu.".to_owned().concat(menu).concat(".").concat(part.as_str())
        } else {
            "i18n.menu.other.".to_owned().concat(part.as_str())
        }
    }
}

/// The text of the item that begins at line `from`.
fn item_text_from(lines: &Vec<Vec<char>>, from: usize) -> (text: Option<Vec<char>>)
    ensures
        match text {
            Some(found) => spec_item_text_from(chars_view(lines@), from as int) == Some(found@),
            None => spec_item_text_from(chars_view(lines@), from as int) is None,
        },
{
    let ghost all = chars_view(lines@);
    let asked = chars_of("t!(cx,");
    let mut j: usize = from;
    while j < lines.len()
        invariant
            from <= j,
            all == chars_view(lines@),
            asked@ == "t!(cx,"@,
            spec_item_text_from(all, from as int) == spec_item_text_from(all, j as int),
        decreases lines.len() - j,
    {
        let line = trim(&lines[j]);
        if !contains(&line, &asked) {
            match quoted(&line) {
                Some(found) => {
                    return Some(found);
                },
                None => {},
            }
        }
        j = j + 1;
    }
    None
}

/// Whether one of the entries of `texts` holds the text `text`.
fn has_text(texts: &LinkedHashMap<String, String>, text: &str) -> (held: bool)
    ensures
        held == spec_has_text(linked_entries(*texts), text@),
{
    let pairs = linked_pairs(texts);
    let ghost entries = linked_entries(*texts);
    let mut i: usize = 0;
    while i < pairs.len()
        invariant
            i <= pairs.len(),
            entries == pairs_view(pairs@),
            entries == linked_entries(*texts),
            forall|j: int| 0 <= j < i ==> (#[trigger] entries[j]).1 != text@,
        decreases pairs.len() - i,
    {
        if same_text(pairs[i].1.as_str(), text) {
            assert(entries[i as int].1 == text@);
            return true;
        }
        i = i + 1;
    }
    false
}

/// Puts `text` under `key` into `texts` unless some entry holds the text
/// already.
fn put_unless_held(texts: &mut LinkedHashMap<String, String>, key: String, text: &str)
    ensures
        linked_entries(*final(texts)) == spec_put_unless_held(
            linked_entries(*old(texts)),
            key@,
            text@,
        ),
{
    if !has_text(texts, text) {
        linked_insert(texts, key, text.to_owned());
    }
}

impl MenuScan {
    /// A scan that has looked at nothing yet and has the quoted texts
    /// `extracted_texts` to account for.
    pub fn new(extracted_texts: Vec<String>) -> (scan: MenuScan)
        ensures
            scan@ == (MenuScanView {
                menu: Seq::empty(),
                submenu: Seq::empty(),
                in_editor_layout: false,
                texts: Seq::empty(),
                pending: texts_view(extracted_texts@),
            }),
    {
        MenuScan {
            current_menu: String::new(),
            current_submenu: String::new(),
            in_editor_layout: false,
            texts: linked_new(),
            extracted_texts,
        }
    }

    /// Takes the first of the pending texts that is `item` from them.
    fn account_for(&mut self, item: &str)
        ensures
            final(self)@ == (MenuScanView {
                pending: spec_without_first(old(self)@.pending, item@),
                ..old(self)@
            }),
    {
        let ghost pending = self@.pending;
        proof {
            lemma_key_index(pending, item@);
        }
        let mut i: usize = 0;
        while i < self.extracted_texts.len()
            invariant
                i <= self.extracted_texts.len(),
                self@ == old(self)@,
                pending == self@.pending,
                key_index(pending, item@) == key_index_from(pending, item@, i as int),
            decreases self.extracted_texts.len() - i,
        {
            if same_text(self.extracted_texts[i].as_str(), item) {
                self.extracted_texts.remove(i);
                assert(self@.pending =~= pending.remove(i as int));
                return ;
            }
            i = i + 1;
        }
    }

    /// Looks at the line at position `at` of `lines`.
    pub fn scan_line(&mut self, lines: &Vec<Vec<char>>, at: usize)
        requires
            at < lines.len(),
        ensures
            final(self)@ == spec_scan_line(old(self)@, chars_view(lines@), at as int),
    {
        let line = trim(&lines[at]);
        if contains(&line, &chars_of("Menu {")) {
            if at + 1 < lines.len() && contains(&lines[at + 1], &chars_of("name:")) {
                let table = table_of(
                    &[
                        ("Zed", "zed"),
                        ("File", "file"),
                        ("Edit", "edit"),
                        ("Selection", "selection"),
                        ("View", "view"),
                        ("Go", "go"),
                        ("Terminal", "terminal"),
                        ("Window", "window"),
                        ("Help", "help"),
                    ],
                );
                assert(table_view(table@) =~= spec_menu_table());
                match named_in(&table, &trim(&lines[at + 1])) {
                    Some(k) => {
                        let id = string_of(&table[k].1);
                        let key = "i18n.menu.".to_owned().concat(id.as_str());
                        linked_insert(&mut self.texts, key, string_of(&table[k].0));
                        self.current_menu = id;
                    },
                    None => {},
                }
            }
        } else if contains(&line, &chars_of("MenuItem::submenu")) {
            if lines.len() - at > 2 && contains(&lines[at + 2], &chars_of("name:")) {
                let table = table_of(
                    &[
                        ("Settings", "i18n.menu.zed.settings"),
                        ("Services", "i18n.menu.zed.services"),
                        ("Editor Layout", "i18n.menu.view.editor_layout"),
                    ],
                );
                assert(table_view(table@) =~= spec_submenu_table());
                match named_in(&table, &trim(&lines[at + 2])) {
                    Some(k) => {
                        linked_insert(
                            &mut self.texts,
                            string_of(&table[k].1),
                            string_of(&table[k].0),
                        );
                        if k == 0 {
                            self.current_submenu = "settings".to_owned();
                        } else if k == 1 {
                            self.current_submenu = "services".to_owned();
                        } else {
                            self.current_submenu = "editor_layout".to_owned();
                            self.in_editor_layout = true;
                        }
                    },
                    None => {},
                }
            }
        } else if contains(&line, &chars_of("}")) && contains(&line, &chars_of("],")) {
            self.in_editor_layout = false;
            self.current_submenu = String::new();
        } else if contains(&line, &chars_of("MenuItem::action")) || contains(
            &line,
            &chars_of("MenuItem::os_action"),
        ) {
            match item_text_from(lines, at) {
                Some(found) => {
                    if found.len() > 0 && !starts_with(&found, &chars_of("https://")) {
                        let item = string_of(&found);
                        let key = item_key(self.current_menu.as_str(), item.as_str());
                        linked_insert(&mut self.texts, key, item.clone());
                        self.account_for(item.as_str());
                    }
                },
                None => {},
            }
        }
    }
}

/// Those of the quoted texts `groups` that may be texts of a menu.
fn pending_of(groups: &Vec<String>) -> (pending: Vec<String>)
    ensures
        texts_view(pending@) == spec_pending(texts_view(groups@), groups.len() as int),
{
    let mut pending: Vec<String> = Vec::new();
    let ghost all = texts_view(groups@);
    let mut i: usize = 0;
    while i < groups.len()
        invariant
            i <= groups.len(),
            all == texts_view(groups@),
            texts_view(pending@) == spec_pending(all, i as int),
        decreases groups.len() - i,
    {
        let text = chars_of(groups[i].as_str());
        if text.len() > 0 && !contains(&text, &chars_of("t!(cx,")) && !starts_with(
            &text,
            &chars_of("https://"),
        ) {
            pending.push(groups[i].clone());
        }
        i = i + 1;
    }
    pending
}

/// The texts of the menus in the source `content`, by key.
pub fn scan_app_menus(content: &str) -> (texts: LinkedHashMap<String, String>)
    ensures
        linked_entries(texts) == spec_scan_app_menus(content@),
{
    let groups = regex_first_groups("\"([^\"]+)\"", content);
    let mut scan = MenuScan::new(pending_of(&groups));
    let lines = lines_of(&chars_of(content));
    let ghost all = spec_lines(content@);
    let ghost start = scan@;
    let mut i: usize = 0;
    while i < lines.len()
        invariant
            i <= lines.len(),
            all == chars_view(lines@),
            scan@ == spec_scan_lines(start, all, i as int),
        decreases lines.len() - i,
    {
        scan.scan_line(&lines, i);
        i = i + 1;
    }
    let MenuScan { texts, extracted_texts, .. } = scan;
    let mut texts = texts;
    put_unless_held(&mut texts, "i18n.menu.zed.about_zed".to_owned(), "About Zed…");
    put_unless_held(&mut texts, "i18n.menu.zed.check_for_updates".to_owned(), "Check for Updates");
    let ghost pending = texts_view(extracted_texts@);
    let ghost checked = linked_entries(texts);
    let mut k: usize = 0;
    while k < extracted_texts.len()
        invariant
            k <= extracted_texts.len(),
            pending == texts_view(extracted_texts@),
            linked_entries(texts) == spec_leftovers(checked, pending, k as int),
        decreases extracted_texts.len() - k,
    {
        let text = &extracted_texts[k];
        let key = if text_starts_with(text.as_str(), "i18n.menu") {
            text.clone()
        } else {
            "i18n.menu.other.".to_owned().concat(normalize_key(text.as_str()).as_str())
        };
        put_unless_held(&mut texts, key, text.as_str());
        k = k + 1;
    }
    texts
}

} // verus!
