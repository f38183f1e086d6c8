//! Bringing a translation file into order: its texts by category and, within
//! a category, by key.

use crate::sorted::{
    lemma_place_from, lemma_text_order_total, sorted_put, spec_ascending, spec_place_from,
    spec_sorted_put, spec_text_lt, text_lt,
};
use crate::table::{assoc, keys_of, list_has, lookup_pair, pairs_view, texts_view};
use crate::text::{chars_of, extend, same_text, string_of};
use crate::validator::{
    get_translation_category, spec_category, DockPanelType, I18NValidator, TranslationCategory,
};
use vstd::prelude::*;

verus! {

/// The texts of a file, by key.
pub type Entries = Seq<(Seq<char>, Seq<char>)>;

/// The white space that a line of depth `depth` begins with: four blanks for
/// each level.
pub open spec fn spec_indent(depth: nat) -> Seq<char>
    decreases depth,
{
    if depth == 0 {
        Seq::empty()
    } else {
        spec_indent((depth - 1) as nat) + "    "@
    }
}

/// The line of one entry: the key and the text in quotation marks with a
/// colon between, a comma behind unless the entry is the last of its
/// section, and a line feed.
pub open spec fn spec_json_line(
    indent: Seq<char>,
    key: Seq<char>,
    value: Seq<char>,
    last: bool,
) -> Seq<char> {
    indent + "\""@ + key + "\": \""@ + value + "\""@ + (if last {
        Seq::empty()
    } else {
        ","@
    }) + "\n"@
}

/// The lines of the entries `entries[..count]`.
pub open spec fn spec_json_section(entries: Entries, indent: Seq<char>, count: int) -> Seq<char>
    decreases count,
{
    if count <= 0 {
        Seq::empty()
    } else {
        spec_json_section(entries, indent, count - 1) + spec_json_line(
            indent,
            entries[count - 1].0,
            entries[count - 1].1,
            count == entries.len(),
        )
    }
}

/// The text that a reference key gets: the text that the file has for it, or
/// the key itself where the file has none.
pub open spec fn spec_text_for(current: Entries, key: Seq<char>) -> Seq<char> {
    match assoc(current, key) {
        Some(text) => text,
        None => key,
    }
}

/// The entries of those of `reference[..count]` that belong to the category
/// `category`, in the order of their keys; `None` stands for the keys that
/// belong to no category.
pub open spec fn spec_group(
    reference: Seq<Seq<char>>,
    current: Entries,
    category: Option<TranslationCategory>,
    count: int,
) -> Entries
    decreases count,
{
    if count <= 0 {
        Seq::empty()
    } else {
        let before = spec_group(reference, current, category, count - 1);
        let key = reference[count - 1];
        if spec_category(key) == category {
            spec_sorted_put(before, key, spec_text_for(current, key))
        } else {
            before
        }
    }
}

/// Those of `current[..count]` whose key is no reference key, in the order of
/// their keys.
pub open spec fn spec_extras(reference: Seq<Seq<char>>, current: Entries, count: int) -> Entries
    decreases count,
{
    if count <= 0 {
        Seq::empty()
    } else {
        let before = spec_extras(reference, current, count - 1);
        if !reference.contains(current[count - 1].0) {
            spec_sorted_put(before, current[count - 1].0, current[count - 1].1)
        } else {
            before
        }
    }
}

/// The panels of the dock, in their order.
pub open spec fn spec_panels() -> Seq<DockPanelType> {
    seq![
        DockPanelType::Project,
        DockPanelType::Git,
        DockPanelType::Outline,
        DockPanelType::Collab,
        DockPanelType::ProjectSearch,
        DockPanelType::ProjectDiagnostics,
        DockPanelType::EditPredictions,
        DockPanelType::Terminal,
        DockPanelType::Agent,
        DockPanelType::Notifications,
    ]
}

/// The section of a group: nothing for an empty group.
pub open spec fn spec_group_section(group: Entries) -> Seq<char> {
    spec_json_section(group, spec_indent(1), group.len() as int)
}

/// The sections of the first `count` panels of the dock, one after the other.
pub open spec fn spec_panel_sections(reference: Seq<Seq<char>>, current: Entries, count: int) -> Seq<
    char,
>
    decreases count,
{
    if count <= 0 || count > spec_panels().len() {
        Seq::empty()
    } else {
        spec_panel_sections(reference, current, count - 1) + spec_group_section(
            spec_group(
                reference,
                current,
                Some(TranslationCategory::DockPanels(spec_panels()[count - 1])),
                reference.len() as int,
            ),
        )
    }
}

/// `section` under `heading`; nothing where the section is empty.
pub open spec fn spec_headed(heading: Seq<char>, section: Seq<char>) -> Seq<char> {
    if section.len() > 0 {
        heading + section
    } else {
        Seq::empty()
    }
}

/// The file in order: between braces, under a heading each and as far as
/// they are not empty, the texts of the top menu bar, of the editor, of the
/// extensions, of the panels of the dock, of the reference keys that belong
/// to no category, and of the keys that are no reference keys.
pub open spec fn spec_reorganized(reference: Seq<Seq<char>>, current: Entries) -> Seq<char> {
    let all = reference.len() as int;
    "{\n"@ + spec_headed(
        "    // 顶部菜单翻译\n"@,
        spec_group_section(
            spec_group(reference, current, Some(TranslationCategory::TopMenuBar), all),
        ),
    ) + spec_headed(
        "\n    // 编辑器翻译\n"@,
        spec_group_section(spec_group(reference, current, Some(TranslationCategory::Editor), all)),
    ) + spec_headed(
        "\n    // 扩展翻译\n"@,
        spec_group_section(
            spec_group(reference, current, Some(TranslationCategory::Extension), all),
        ),
    ) + spec_headed(
        "\n    // 面板翻译\n"@,
        spec_panel_sections(reference, current, spec_panels().len() as int),
    ) + spec_headed(
        "\n    // 其他翻译\n"@,
        spec_group_section(spec_group(reference, current, None, all)),
    ) + spec_headed(
        "\n    // 未在defaults.rs中定义的额外键\n"@,
        spec_group_section(spec_extras(reference, current, current.len() as int)),
    ) + "}\n"@
}

/// A translation file brought into order.
#[derive(Debug)]
pub struct Reorganized {
    /// The text of the file.
    pub text: String,
    /// The keys of the file that are no reference keys, in their order.
    pub extra_keys: Vec<String>,
}

/// The white space that a line of depth `depth` begins with.
fn indent_of(depth: usize) -> (indent: Vec<char>)
    ensures
        indent@ == spec_indent(depth as nat),
{
    let step = chars_of("    ");
    let mut indent: Vec<char> = Vec::new();
    let mut i: usize = 0;
    while i < depth
        invariant
            i <= depth,
            step@ == "    "@,
            indent@ == spec_indent(i as nat),
        decreases depth - i,
    {
        extend(&mut indent, &step);
        i = i + 1;
    }
    indent
}

/// Appends the lines of `translations` to `out`.
fn push_section(out: &mut Vec<char>, translations: &Vec<(String, String)>, depth: usize)
    ensures
        final(out)@ == old(out)@ + spec_json_section(
            pairs_view(translations@),
            spec_indent(depth as nat),
            translations.len() as int,
        ),
{
    let indent = indent_of(depth);
    let ghost entries = pairs_view(translations@);
    let ghost start = out@;
    let mut i: usize = 0;
    while i < translations.len()
        invariant
            i <= translations.len(),
            entries == pairs_view(translations@),
            indent@ == spec_indent(depth as nat),
            out@ == start + spec_json_section(entries, indent@, i as int),
        decreases translations.len() - i,
    {
        let last = i + 1 == translations.len();
        extend(out, &indent);
        extend(out, &chars_of("\""));
        extend(out, &chars_of(translations[i].0.as_str()));
        extend(out, &chars_of("\": \""));
        extend(out, &chars_of(translations[i].1.as_str()));
        extend(out, &chars_of("\""));
        if !last {
            extend(out, &chars_of(","));
        } else {
        }
        extend(out, &chars_of("\n"));
        assert(out@ =~= start + spec_json_section(entries, indent@, i + 1));
        i = i + 1;
    }
}

/// Appends `heading` and the lines of `group` to `out`, or nothing where the
/// group is empty.
fn push_headed(out: &mut Vec<char>, heading: &str, group: &Vec<(String, String)>)
    ensures
        final(out)@ == old(out)@ + spec_headed(heading@, spec_group_section(pairs_view(group@))),
{
    let ghost entries = pairs_view(group@);
    if group.len() > 0 {
        proof {
            lemma_section_not_empty(entries, spec_indent(1));
        }
        extend(out, &chars_of(heading));
        push_section(out, group, 1);
    } else {
    }
}

/// The lines of a group that is not empty are not empty.
pub proof fn lemma_section_not_empty(entries: Entries, indent: Seq<char>)
    requires
        entries.len() > 0,
    ensures
        spec_json_section(entries, indent, entries.len() as int).len() > 0,
{
    reveal_strlit("\n");
}

/// Appends the lines of the strings-only section `translations`, each line
/// as deep as `depth` says, to `result`.
pub fn write_json_section(result: &mut String, translations: &Vec<(String, String)>, depth: usize)
    ensures
        final(result)@ == old(result)@ + spec_json_section(
            pairs_view(translations@),
            spec_indent(depth as nat),
            translations.len() as int,
        ),
{
    let mut out = chars_of(result.as_str());
    push_section(&mut out, translations, depth);
    *result = string_of(&out);
}

/// The panels of the dock, in their order.
pub fn dock_panels() -> (panels: Vec<DockPanelType>)
    ensures
        panels@ == spec_panels(),
{
    let mut panels: Vec<DockPanelType> = Vec::new();
    panels.push(DockPanelType::Project);
    panels.push(DockPanelType::Git);
    panels.push(DockPanelType::Outline);
    panels.push(DockPanelType::Collab);
    panels.push(DockPanelType::ProjectSearch);
    panels.push(DockPanelType::ProjectDiagnostics);
    panels.push(DockPanelType::EditPredictions);
    panels.push(DockPanelType::Terminal);
    panels.push(DockPanelType::Agent);
    panels.push(DockPanelType::Notifications);
    panels
}

impl I18NValidator {
    /// The entries of the reference keys that belong to `category`, in the
    /// order of their keys, with the texts that `current` has for them.
    fn group_of(
        &self,
        current: &Vec<(String, String)>,
        category: Option<TranslationCategory>,
    ) -> (group: Vec<(String, String)>)
        ensures
            pairs_view(group@) == spec_group(
                self@.reference_keys,
                pairs_view(current@),
                category,
                self@.reference_keys.len() as int,
            ),
    {
        let keys = self.reference_keys();
        let ghost reference = self@.reference_keys;
        let ghost texts = pairs_view(current@);
        let mut group: Vec<(String, String)> = Vec::new();
        let mut i: usize = 0;
        while i < keys.len()
            invariant
                i <= keys.len(),
                reference == texts_view(keys@),
                texts == pairs_view(current@),
                pairs_view(group@) == spec_group(reference, texts, category, i as int),
            decreases keys.len() - i,
        {
            let key = &keys[i];
            if get_translation_category(key.as_str()) == category {
                let text = match lookup_pair(current, key.as_str()) {
                    Some(found) => found.clone(),
                    None => key.clone(),
                };
                sorted_put(&mut group, key.clone(), text);
            }
            i = i + 1;
        }
        group
    }

    /// Those entries of `current` whose key is no reference key, in the
    /// order of their keys.
    fn extras_of(&self, current: &Vec<(String, String)>) -> (extras: Vec<(String, String)>)
        ensures
            pairs_view(extras@) == spec_extras(
                self@.reference_keys,
                pairs_view(current@),
                current.len() as int,
            ),
    {
        let keys = self.reference_keys();
        let ghost reference = self@.reference_keys;
        let ghost texts = pairs_view(current@);
        let mut extras: Vec<(String, String)> = Vec::new();
        let mut i: usize = 0;
        while i < current.len()
            invariant
                i <= current.len(),
                reference == texts_view(keys@),
                texts == pairs_view(current@),
                pairs_view(extras@) == spec_extras(reference, texts, i as int),
            decreases current.len() - i,
        {
            if !list_has(keys, current[i].0.as_str()) {
                sorted_put(&mut extras, current[i].0.clone(), current[i].1.clone());
            }
            i = i + 1;
        }
        extras
    }

    /// Brings the translation file with the texts `current` into order: by
    /// category, and within a category by key. A reference key that the file
    /// has no text for gets the key itself as its text; the keys of the file
    /// that are no reference keys come last and are reported. Without
    /// reference keys nothing can be brought into order.
    pub fn reorganize_translations(&self, current: &Vec<(String, String)>) -> (made: Result<
        Reorganized,
        String,
    >)
        ensures
            match made {
                Ok(file) => {
                    &&& self@.reference_keys.len() > 0
                    &&& file.text@ == spec_reorganized(self@.reference_keys, pairs_view(current@))
                    &&& texts_view(file.extra_keys@) == keys_of(
                        spec_extras(
                            self@.reference_keys,
                            pairs_view(current@),
                            current.len() as int,
                        ),
                    )
                },
                Err(message) => {
                    &&& self@.reference_keys.len() == 0
                    &&& message@ == "未加载参考键,请先调用load_reference_keys"@
                },
            },
    {
        if self.reference_keys().len() == 0 {
            return Err("未加载参考键,请先调用load_reference_keys".to_owned());
        }
        let ghost reference = self@.reference_keys;
        let ghost texts = pairs_view(current@);
        let mut out = chars_of("{\n");
        let menu = self.group_of(current, Some(TranslationCategory::TopMenuBar));
        push_headed(&mut out, "    // 顶部菜单翻译\n", &menu);
        let editor = self.group_of(current, Some(TranslationCategory::Editor));
        push_headed(&mut out, "\n    // 编辑器翻译\n", &editor);
        let extension = self.group_of(current, Some(TranslationCategory::Extension));
        push_headed(&mut out, "\n    // 扩展翻译\n", &extension);

        let panels = dock_panels();
        let mut sections: Vec<char> = Vec::new();
        let mut i: usize = 0;
        while i < panels.len()
            invariant
                i <= panels.len(),
                panels@ == spec_panels(),
                reference == self@.reference_keys,
                texts == pairs_view(current@),
                sections@ == spec_panel_sections(reference, texts, i as int),
            decreases panels.len() - i,
        {
            let group = self.group_of(current, Some(TranslationCategory::DockPanels(panels[i])));
            push_section(&mut sections, &group, 1);
            i = i + 1;
        }
        if sections.len() > 0 {
            extend(&mut out, &chars_of("\n    // 面板翻译\n"));
            extend(&mut out, &sections);
        } else {
        }
        let others = self.group_of(current, None);
        push_headed(&mut out, "\n    // 其他翻译\n", &others);
        let extras = self.extras_of(current);
        push_headed(&mut out, "\n    // 未在defaults.rs中定义的额外键\n", &extras);
        extend(&mut out, &chars_of("}\n"));

        let mut extra_keys: Vec<String> = Vec::new();
        let mut k: usize = 0;
        while k < extras.len()
            invariant
                k <= extras.len(),
                extra_keys.len() == k,
                forall|j: int| 0 <= j < k ==> extra_keys@[j]@ == extras@[j].0@,
            decreases extras.len() - k,
        {
            extra_keys.push(extras[k].0.clone());
            k = k + 1;
        }
        Ok(Reorganized { text: string_of(&out), extra_keys })
    }
}

/// Where the value of a key in a merged file comes from.
#[derive(Debug, Clone, Copy, PartialEq, Eq, Structural)]
pub enum ValueSource {
    /// From the current file.
    Current,
    /// From the reference file.
    Reference,
}

/// `keys` with `key` put in at its place, where it is not among them.
pub open spec fn spec_sorted_add(keys: Seq<Seq<char>>, key: Seq<char>) -> Seq<Seq<char>> {
    let at = spec_place_from(keys, key, 0);
    if at < keys.len() && keys[at] == key {
        keys
    } else {
        keys.insert(at, key)
    }
}

/// Each of `more[..count]` put into `keys` at its place.
pub open spec fn spec_sorted_all(keys: Seq<Seq<char>>, more: Seq<Seq<char>>, count: int) -> Seq<
    Seq<char>,
>
    decreases count,
{
    if count <= 0 {
        keys
    } else {
        spec_sorted_add(spec_sorted_all(keys, more, count - 1), more[count - 1])
    }
}

/// The keys of both files, each once, in the order of keys.
pub open spec fn spec_merged_keys(reference: Seq<Seq<char>>, current: Seq<Seq<char>>) -> Seq<
    Seq<char>,
> {
    spec_sorted_all(
        spec_sorted_all(Seq::empty(), reference, reference.len() as int),
        current,
        current.len() as int,
    )
}

/// Where the value of `key` comes from: from the current file where that has
/// the key, else from the reference file.
pub open spec fn spec_source(current: Seq<Seq<char>>, key: Seq<char>) -> ValueSource {
    if current.contains(key) {
        ValueSource::Current
    } else {
        ValueSource::Reference
    }
}

/// Putting a key in at its place keeps ascending keys ascending.
pub proof fn lemma_sorted_add_ascending(keys: Seq<Seq<char>>, key: Seq<char>)
    requires
        spec_ascending(keys),
    ensures
        spec_ascending(spec_sorted_add(keys, key)),
{
    let at = spec_place_from(keys, key, 0);
    lemma_place_from(keys, key, 0);
    let after = spec_sorted_add(keys, key);
    if at < keys.len() && keys[at] == key {
    } else {
        if at < keys.len() {
            lemma_text_order_total(key, keys[at]);
        }
        assert forall|i: int| 0 <= i < after.len() - 1 implies spec_text_lt(
            #[trigger] after[i],
            after[i + 1],
        ) by {
            if i + 1 < at {
            } else if i + 1 == at {
            } else if i == at {
            } else {
            }
        }
    }
}

/// Puts `key` into `keys` at its place, where it is not among them.
fn sorted_add(keys: &mut Vec<String>, key: &String)
    ensures
        texts_view(final(keys)@) == spec_sorted_add(texts_view(old(keys)@), key@),
{
    let wanted = chars_of(key.as_str());
    let ghost before = texts_view(keys@);
    let mut at: usize = 0;
    let mut placed = false;
    while !placed && at < keys.len()
        invariant
            at <= keys.len(),
            wanted@ == key@,
            before == texts_view(keys@),
            spec_place_from(before, key@, 0) == spec_place_from(before, key@, at as int),
            placed ==> at < keys.len() && !spec_text_lt(before[at as int], key@),
        decreases keys.len() - at + (if placed { 0int } else { 1int }),
    {
        let held = chars_of(keys[at].as_str());
        if !text_lt(&held, &wanted) {
            placed = true;
        } else {
            at = at + 1;
        }
    }
    if at < keys.len() && same_text(keys[at].as_str(), key.as_str()) {
    } else {
        keys.insert(at, key.clone());
    }
}

/// The merger of a current file with a reference file, as far as the keys
/// decide it.
pub struct JsonReorganizer {
    reference: Vec<String>,
    current: Vec<String>,
}

impl JsonReorganizer {
    /// The keys of the reference file.
    pub closed spec fn reference_keys(&self) -> Seq<Seq<char>> {
        texts_view(self.reference@)
    }

    /// The keys of the current file.
    pub closed spec fn current_keys(&self) -> Seq<Seq<char>> {
        texts_view(self.current@)
    }

    /// The merger of the files with the given keys.
    pub fn new(reference: Vec<String>, current: Vec<String>) -> (merger: JsonReorganizer)
        ensures
            merger.reference_keys() == texts_view(reference@),
            merger.current_keys() == texts_view(current@),
    {
        JsonReorganizer { reference, current }
    }

    /// The keys of the merged file, in the order of keys, each with the file
    /// that its value comes from: the current file where that has the key,
    /// else the reference file.
    pub fn reorganize(&self) -> (merged: Vec<(String, ValueSource)>)
        ensures
            merged.len() == spec_merged_keys(self.reference_keys(), self.current_keys()).len(),
            forall|i: int|
                0 <= i < merged.len() ==> {
                    &&& (#[trigger] merged@[i]).0@ == spec_merged_keys(
                        self.reference_keys(),
                        self.current_keys(),
                    )[i]
                    &&& merged@[i].1 == spec_source(self.current_keys(), merged@[i].0@)
                },
    {
        let ghost reference = self.reference_keys();
        let ghost current = self.current_keys();
        let mut keys: Vec<String> = Vec::new();
        let mut i: usize = 0;
        while i < self.reference.len()
            invariant
                i <= self.reference.len(),
                reference == texts_view(self.reference@),
                texts_view(keys@) == spec_sorted_all(Seq::empty(), reference, i as int),
            decreases self.reference.len() - i,
        {
            sorted_add(&mut keys, &self.reference[i]);
            i = i + 1;
        }
        let ghost first = texts_view(keys@);
        let mut k: usize = 0;
        while k < self.current.len()
            invariant
                k <= self.current.len(),
                current == texts_view(self.current@),
                texts_view(keys@) == spec_sorted_all(first, current, k as int),
            decreases self.current.len() - k,
        {
            sorted_add(&mut keys, &self.current[k]);
            k = k + 1;
        }
        let ghost all = texts_view(keys@);
        let mut merged: Vec<(String, ValueSource)> = Vec::new();
        let mut m: usize = 0;
        while m < keys.len()
            invariant
                m <= keys.len(),
                merged.len() == m,
                all == texts_view(keys@),
                current == texts_view(self.current@),
                forall|j: int|
                    0 <= j < m ==> {
                        &&& (#[trigger] merged@[j]).0@ == all[j]
                        &&& merged@[j].1 == spec_source(current, merged@[j].0@)
                    },
            decreases keys.len() - m,
        {
            let source = if list_has(&self.current, keys[m].as_str()) {
                ValueSource::Current
            } else {
                ValueSource::Reference
            };
            merged.push((keys[m].clone(), source));
            m = m + 1;
        }
        merged
    }
}

} // verus!
