//! The validation of a language pack against the reference keys: which keys
//! the pack lacks, which it has in excess, and which of its texts do not fit
//! the default text of their key.

use crate::api::TranslationResource;
use crate::defaults::{default_text_table, default_texts};
use crate::pattern::{regex_captures, regex_captures_of};
use crate::report::{FormatError, ReportView, ValidationReport};
use crate::table::{
    assoc, distinct_keys, keys_of, list_has, lookup_pair, opt_text, pairs_view, texts_view,
};
use crate::text::{
    chars_of, chars_view, contains, count_char, decimal, extend, is_text, lines_of, position,
    slice_of,
    spec_contains, spec_count_char, spec_decimal, spec_lines, spec_position, spec_starts_with,
    starts_with, string_of,
};
use vstd::prelude::*;

verus! {

/// A panel of the dock.
#[derive(Debug, Clone, Copy, PartialEq, Eq, PartialOrd, Ord, Structural)]
pub enum DockPanelType {
    Project,
    Git,
    Outline,
    Collab,
    ProjectSearch,
    ProjectDiagnostics,
    EditPredictions,
    Terminal,
    Agent,
    Notifications,
}

/// The part of the application that a translation key belongs to.
#[derive(Debug, Clone, Copy, PartialEq, Eq, PartialOrd, Ord, Structural)]
pub enum TranslationCategory {
    TopMenuBar,
    Editor,
    Extension,
    DockPanels(DockPanelType),
}

impl DockPanelType {
    /// The name of the panel in translation keys.
    pub open spec fn spec_name(self) -> Seq<char> {
        match self {
            DockPanelType::Project => "project"@,
            DockPanelType::Git => "git"@,
            DockPanelType::Outline => "outline"@,
            DockPanelType::Collab => "collab"@,
            DockPanelType::ProjectSearch => "project_search"@,
            DockPanelType::ProjectDiagnostics => "project_diagnostics"@,
            DockPanelType::EditPredictions => "edit_predictions"@,
            DockPanelType::Terminal => "terminal"@,
            DockPanelType::Agent => "agent"@,
            DockPanelType::Notifications => "notifications"@,
        }
    }

    /// The panel with the name `name`.
    pub open spec fn spec_named(name: Seq<char>) -> Option<DockPanelType> {
        if name == "project"@ {
            Some(DockPanelType::Project)
        } else if name == "git"@ {
            Some(DockPanelType::Git)
        } else if name == "outline"@ {
            Some(DockPanelType::Outline)
        } else if name == "collab"@ {
            Some(DockPanelType::Collab)
        } else if name == "project_search"@ {
            Some(DockPanelType::ProjectSearch)
        } else if name == "project_diagnostics"@ {
            Some(DockPanelType::ProjectDiagnostics)
        } else if name == "edit_predictions"@ {
            Some(DockPanelType::EditPredictions)
        } else if name == "terminal"@ {
            Some(DockPanelType::Terminal)
        } else if name == "agent"@ {
            Some(DockPanelType::Agent)
        } else if name == "notifications"@ {
            Some(DockPanelType::Notifications)
        } else {
            None
        }
    }

    /// The panel with the name `s`.
    pub fn from_str(s: &str) -> (panel: Option<DockPanelType>)
        ensures
            panel == DockPanelType::spec_named(s@),
    {
        let name = chars_of(s);
        DockPanelType::named(&name)
    }

    /// The panel with the name `name`.
    pub fn named(name: &Vec<char>) -> (panel: Option<DockPanelType>)
        ensures
            panel == DockPanelType::spec_named(name@),
    {
        if is_text(name, "project") {
            Some(DockPanelType::Project)
        } else if is_text(name, "git") {
            Some(DockPanelType::Git)
        } else if is_text(name, "outline") {
            Some(DockPanelType::Outline)
        } else if is_text(name, "collab") {
            Some(DockPanelType::Collab)
        } else if is_text(name, "project_search") {
            Some(DockPanelType::ProjectSearch)
        } else if is_text(name, "project_diagnostics") {
            Some(DockPanelType::ProjectDiagnostics)
        } else if is_text(name, "edit_predictions") {
            Some(DockPanelType::EditPredictions)
        } else if is_text(name, "terminal") {
            Some(DockPanelType::Terminal)
        } else if is_text(name, "agent") {
            Some(DockPanelType::Agent)
        } else if is_text(name, "notifications") {
            Some(DockPanelType::Notifications)
        } else {
            None
        }
    }

    /// The name of the panel in translation keys.
    pub fn as_str(&self) -> (name: &'static str)
        ensures
            name@ == self.spec_name(),
    {
        match self {
            DockPanelType::Project => "project",
            DockPanelType::Git => "git",
            DockPanelType::Outline => "outline",
            DockPanelType::Collab => "collab",
            DockPanelType::ProjectSearch => "project_search",
            DockPanelType::ProjectDiagnostics => "project_diagnostics",
            DockPanelType::EditPredictions => "edit_predictions",
            DockPanelType::Terminal => "terminal",
            DockPanelType::Agent => "agent",
            DockPanelType::Notifications => "notifications",
        }
    }

    /// The name of a panel leads back to the panel.
    pub proof fn lemma_name_leads_back(panel: DockPanelType)
        ensures
            DockPanelType::spec_named(panel.spec_name()) == Some(panel),
    {
        reveal_strlit("project");
        reveal_strlit("git");
        reveal_strlit("outline");
        reveal_strlit("collab");
        reveal_strlit("project_search");
        reveal_strlit("project_diagnostics");
        reveal_strlit("edit_predictions");
        reveal_strlit("terminal");
        reveal_strlit("agent");
        reveal_strlit("notifications");
        let name = panel.spec_name();
        match panel {
            DockPanelType::Project => {},
            DockPanelType::Git => {
                assert(name.len() != "project"@.len());
            },
            DockPanelType::Outline => {
                assert(name[0] != "project"@[0]);
            },
            DockPanelType::Collab => {
            },
            DockPanelType::ProjectSearch => {
            },
            DockPanelType::ProjectDiagnostics => {
            },
            DockPanelType::EditPredictions => {
            },
            DockPanelType::Terminal => {
                assert(name.len() != "project"@.len());
            },
            DockPanelType::Agent => {
            },
            DockPanelType::Notifications => {
                assert(name.len() != "git"@.len());
                assert(name.len() != "outline"@.len());
                assert(name.len() != "collab"@.len());
                assert(name.len() != "project_search"@.len());
                assert(name.len() != "project_diagnostics"@.len());
                assert(name.len() != "edit_predictions"@.len());
                assert(name.len() != "terminal"@.len());
                assert(name.len() != "agent"@.len());
            },
        }
    }
}

/// Where the part number `n` of `text` begins, the parts being what the dots
/// of the text divide it into and the first part having the number 0. A
/// text with fewer parts gives a position behind its end.
pub open spec fn spec_part_start(text: Seq<char>, n: nat) -> int
    decreases n,
{
    if n == 0 {
        0
    } else {
        let before = spec_part_start(text, (n - 1) as nat);
        if before > text.len() {
            before
        } else {
            spec_position(text, '.', before) + 1
        }
    }
}

/// The part number `n` of `text`.
pub open spec fn spec_part(text: Seq<char>, n: nat) -> Option<Seq<char>> {
    let start = spec_part_start(text, n);
    if 0 <= start <= text.len() {
        Some(text.subrange(start, spec_position(text, '.', start)))
    } else {
        None
    }
}

/// The category that the translation key `key` belongs to, by the way it
/// begins; a key of the dock belongs to the panel that its third part names.
pub open spec fn spec_category(key: Seq<char>) -> Option<TranslationCategory> {
    if spec_starts_with(key, "i18n.top_menu_bar."@) {
        Some(TranslationCategory::TopMenuBar)
    } else if spec_starts_with(key, "i18n.editor."@) {
        Some(TranslationCategory::Editor)
    } else if spec_starts_with(key, "i18n.extension."@) {
        Some(TranslationCategory::Extension)
    } else if spec_starts_with(key, "i18n.dock_panels."@) {
        match spec_part(key, 2) {
            Some(name) => match DockPanelType::spec_named(name) {
                Some(panel) => Some(TranslationCategory::DockPanels(panel)),
                None => None,
            },
            None => None,
        }
    } else {
        None
    }
}

/// The part number `n` of `text`.
pub fn part_of(text: &Vec<char>, n: usize) -> (part: Option<Vec<char>>)
    ensures
        match part {
            Some(found) => spec_part(text@, n as nat) == Some(found@),
            None => spec_part(text@, n as nat) is None,
        },
{
    let mut start: usize = 0;
    let mut k: usize = 0;
    while k < n
        invariant
            k <= n,
            start <= text.len(),
            start == spec_part_start(text@, k as nat),
        decreases n - k,
    {
        let dot = position(text, '.', start);
        if dot >= text.len() {
            proof {
                lemma_no_part_behind(text@, (k + 1) as nat, n as nat);
            }
            return None;
        }
        start = dot + 1;
        k = k + 1;
    }
    let end = position(text, '.', start);
    Some(slice_of(text, start, end))
}

/// Once a part begins behind the end of the text, so does every later one.
pub proof fn lemma_no_part_behind(text: Seq<char>, k: nat, n: nat)
    requires
        k <= n,
        spec_part_start(text, k) > text.len(),
    ensures
        spec_part_start(text, n) > text.len(),
    decreases n - k,
{
    if k < n {
        lemma_no_part_behind(text, k, (n - 1) as nat);
    }
}

/// The category that the translation key `key` belongs to.
pub fn get_translation_category(key: &str) -> (category: Option<TranslationCategory>)
    ensures
        category == spec_category(key@),
{
    let chars = chars_of(key);
    if starts_with(&chars, &chars_of("i18n.top_menu_bar.")) {
        Some(TranslationCategory::TopMenuBar)
    } else if starts_with(&chars, &chars_of("i18n.editor.")) {
        Some(TranslationCategory::Editor)
    } else if starts_with(&chars, &chars_of("i18n.extension.")) {
        Some(TranslationCategory::Extension)
    } else if starts_with(&chars, &chars_of("i18n.dock_panels.")) {
        match part_of(&chars, 2) {
            Some(name) => match DockPanelType::named(&name) {
                Some(panel) => Some(TranslationCategory::DockPanels(panel)),
                None => None,
            },
            None => None,
        }
    } else {
        None
    }
}

/// The number of placeholders in `text`: of its opening braces.
pub open spec fn spec_placeholders(text: Seq<char>) -> nat {
    spec_count_char(text, '{', text.len() as int)
}

/// The number of placeholders in `text`.
pub fn count_placeholders(text: &str) -> (count: usize)
    ensures
        count == spec_placeholders(text@),
{
    let chars = chars_of(text);
    count_char(&chars, '{')
}

/// What is wrong with the text `value` of the key `key`: the key has no
/// default text, or the text has another number of placeholders than the
/// default text. `None` where nothing is wrong.
pub open spec fn spec_format_fault(key: Seq<char>, value: Seq<char>) -> Option<Seq<char>> {
    match assoc(default_texts(), key) {
        None => Some("No default text found for key: "@ + key),
        Some(text) => if spec_placeholders(text) != spec_placeholders(value) {
            Some(
                "Placeholder count mismatch: expected "@ + spec_decimal(spec_placeholders(text))
                    + ", got "@ + spec_decimal(spec_placeholders(value)),
            )
        } else {
            None
        },
    }
}

/// Checks the text `value` of the key `key` against the default text of the
/// key in `defaults`.
fn format_fault(defaults: &Vec<(String, String)>, key: &str, value: &str) -> (fault: Option<String>)
    requires
        pairs_view(defaults@) == default_texts(),
    ensures
        opt_text(fault) == spec_format_fault(key@, value@),
{
    match lookup_pair(defaults, key) {
        None => {
            let mut message = chars_of("No default text found for key: ");
            extend(&mut message, &chars_of(key));
            Some(string_of(&message))
        },
        Some(text) => {
            let expected = count_placeholders(text.as_str());
            let got = count_placeholders(value);
            if expected != got {
                let mut message = chars_of("Placeholder count mismatch: expected ");
                extend(&mut message, &decimal(expected));
                extend(&mut message, &chars_of(", got "));
                extend(&mut message, &decimal(got));
                Some(string_of(&message))
            } else {
                None
            }
        },
    }
}

/// Those of `reference[..count]` that `texts` has no text for.
pub open spec fn spec_missing(
    reference: Seq<Seq<char>>,
    texts: Seq<(Seq<char>, Seq<char>)>,
    count: int,
) -> Seq<Seq<char>>
    decreases count,
{
    if count <= 0 {
        Seq::empty()
    } else {
        let before = spec_missing(reference, texts, count - 1);
        if assoc(texts, reference[count - 1]) is None {
            before.push(reference[count - 1])
        } else {
            before
        }
    }
}

/// Those of `keys[..count]` that are not among `reference`.
pub open spec fn spec_extra(reference: Seq<Seq<char>>, keys: Seq<Seq<char>>, count: int) -> Seq<
    Seq<char>,
>
    decreases count,
{
    if count <= 0 {
        Seq::empty()
    } else {
        let before = spec_extra(reference, keys, count - 1);
        if !reference.contains(keys[count - 1]) {
            before.push(keys[count - 1])
        } else {
            before
        }
    }
}

/// The faults of `texts[..count]`, each with its key.
pub open spec fn spec_format_faults(texts: Seq<(Seq<char>, Seq<char>)>, count: int) -> Seq<
    (Seq<char>, Seq<char>),
>
    decreases count,
{
    if count <= 0 {
        Seq::empty()
    } else {
        let before = spec_format_faults(texts, count - 1);
        match spec_format_fault(texts[count - 1].0, texts[count - 1].1) {
            Some(fault) => before.push((texts[count - 1].0, fault)),
            None => before,
        }
    }
}

/// `keys` with `key` added where it was not among them.
pub open spec fn spec_with_key(keys: Seq<Seq<char>>, key: Seq<char>) -> Seq<Seq<char>> {
    if keys.contains(key) {
        keys
    } else {
        keys.push(key)
    }
}

/// `keys` with each of `more[..count]` added in turn.
pub open spec fn spec_with_keys(keys: Seq<Seq<char>>, more: Seq<Seq<char>>, count: int) -> Seq<
    Seq<char>,
>
    decreases count,
{
    if count <= 0 {
        keys
    } else {
        spec_with_key(spec_with_keys(keys, more, count - 1), more[count - 1])
    }
}

/// The pattern of a line that puts a default text into its table: the key is
/// its first group, the text its second.
pub open spec fn insert_pattern() -> Seq<char> {
    "texts\\.insert\\(\"([^\"]+)\",\\s*\"([^\"]+)\"\\)"@
}

/// The key that a match of the insert pattern names: its first group, where
/// the match has that and the second group.
pub open spec fn spec_key_of_groups(groups: Option<Seq<Option<Seq<char>>>>) -> Option<Seq<char>> {
    match groups {
        Some(list) => if list.len() > 2 && list[1] is Some && list[2] is Some {
            list[1]
        } else {
            None
        },
        None => None,
    }
}

/// The key that the line `line` of a table of default texts names: none
/// where the line does not mention the insertion, or does not match the
/// insert pattern.
pub open spec fn spec_key_of_line(line: Seq<char>) -> Option<Seq<char>> {
    if spec_contains(line, "texts.insert"@) {
        spec_key_of_groups(regex_captures_of(insert_pattern(), line))
    } else {
        None
    }
}

/// The keys that the lines `lines[..count]` name, each once, in the order in
/// which they first occur.
pub open spec fn spec_keys_of_lines(lines: Seq<Seq<char>>, count: int) -> Seq<Seq<char>>
    decreases count,
{
    if count <= 0 {
        Seq::empty()
    } else {
        let before = spec_keys_of_lines(lines, count - 1);
        match spec_key_of_line(lines[count - 1]) {
            Some(key) => spec_with_key(before, key),
            None => before,
        }
    }
}

/// The key that a match of the insert pattern names.
pub fn key_of_groups(groups: &Option<Vec<Option<String>>>) -> (key: Option<String>)
    ensures
        opt_text(key) == spec_key_of_groups(crate::pattern::groups_view(*groups)),
{
    match groups {
        Some(list) => {
            if list.len() > 2 {
                match (&list[1], &list[2]) {
                    (Some(first), Some(_)) => Some(first.clone()),
                    _ => None,
                }
            } else {
                None
            }
        },
        None => None,
    }
}

/// The validator of language packs: the folder it works in and the reference
/// keys.
pub struct I18NValidator {
    base_dir: String,
    reference_keys: Vec<String>,
}

/// What an [`I18NValidator`] holds, as texts.
pub struct ValidatorView {
    pub base_dir: Seq<char>,
    pub reference_keys: Seq<Seq<char>>,
}

impl View for I18NValidator {
    type V = ValidatorView;

    closed spec fn view(&self) -> ValidatorView {
        ValidatorView { base_dir: self.base_dir@, reference_keys: texts_view(self.reference_keys@) }
    }
}

/// Adding a key keeps the keys distinct.
pub proof fn lemma_with_key_distinct(keys: Seq<Seq<char>>, key: Seq<char>)
    requires
        distinct_keys(keys),
    ensures
        distinct_keys(spec_with_key(keys, key)),
{
    if !keys.contains(key) {
        let after = keys.push(key);
        assert forall|i: int, j: int| 0 <= i < j < after.len() implies after[i] != after[j] by {}
    }
}

impl I18NValidator {
    /// No reference key is held twice.
    pub open spec fn wf(&self) -> bool {
        distinct_keys(self@.reference_keys)
    }

    /// A validator that works in `base_dir` and has no reference keys yet.
    pub fn new(base_dir: String) -> (validator: I18NValidator)
        ensures
            validator@ == (ValidatorView { base_dir: base_dir@, reference_keys: Seq::empty() }),
            validator.wf(),
    {
        let validator = I18NValidator { base_dir, reference_keys: Vec::new() };
        assert(validator@.reference_keys =~= Seq::empty());
        validator
    }

    /// The folder that the validator works in.
    pub fn base_dir(&self) -> (dir: &String)
        ensures
            dir@ == self@.base_dir,
    {
        &self.base_dir
    }

    /// The reference keys, in the order in which they came in.
    pub fn reference_keys(&self) -> (keys: &Vec<String>)
        ensures
            texts_view(keys@) == self@.reference_keys,
    {
        &self.reference_keys
    }

    /// Adds `key` to the reference keys where it is not among them.
    pub fn add_reference_key(&mut self, key: String)
        requires
            old(self).wf(),
        ensures
            final(self)@ == (ValidatorView {
                reference_keys: spec_with_key(old(self)@.reference_keys, key@),
                ..old(self)@
            }),
            final(self).wf(),
    {
        proof {
            lemma_with_key_distinct(self@.reference_keys, key@);
        }
        if !list_has(&self.reference_keys, key.as_str()) {
            self.reference_keys.push(key);
            assert(self@.reference_keys =~= old(self)@.reference_keys.push(key@));
        }
    }

    /// Adds the keys of the default texts to the reference keys.
    pub fn load_default_keys(&mut self)
        requires
            old(self).wf(),
        ensures
            final(self)@ == (ValidatorView {
                reference_keys: spec_with_keys(
                    old(self)@.reference_keys,
                    keys_of(default_texts()),
                    default_texts().len() as int,
                ),
                ..old(self)@
            }),
            final(self).wf(),
    {
        let table = default_text_table();
        let ghost more = keys_of(default_texts());
        let mut i: usize = 0;
        while i < table.len()
            invariant
                i <= table.len(),
                pairs_view(table@) == default_texts(),
                more == keys_of(default_texts()),
                self.wf(),
                self@ == (ValidatorView {
                    reference_keys: spec_with_keys(old(self)@.reference_keys, more, i as int),
                    ..old(self)@
                }),
            decreases table.len() - i,
        {
            assert(more[i as int] == table@[i as int].0@) by {}
            self.add_reference_key(table[i].0.clone());
            i = i + 1;
        }
    }

    /// Takes the keys that the text `content` of a table of default texts
    /// names as the reference keys, in place of those held before.
    pub fn load_reference_keys(&mut self, content: &str)
        ensures
            final(self)@ == (ValidatorView {
                reference_keys: spec_keys_of_lines(
                    spec_lines(content@),
                    spec_lines(content@).len() as int,
                ),
                ..old(self)@
            }),
            final(self).wf(),
    {
        let text = chars_of(content);
        let lines = lines_of(&text);
        let marker = chars_of("texts.insert");
        let ghost all = spec_lines(content@);
        let mut found = I18NValidator { base_dir: String::new(), reference_keys: Vec::new() };
        let mut i: usize = 0;
        while i < lines.len()
            invariant
                i <= lines.len(),
                all == chars_view(lines@),
                marker@ == "texts.insert"@,
                found.wf(),
                found@.reference_keys == spec_keys_of_lines(all, i as int),
            decreases lines.len() - i,
        {
            if contains(&lines[i], &marker) {
                let line = string_of(&lines[i]);
                let groups = regex_captures(
                    "texts\\.insert\\(\"([^\"]+)\",\\s*\"([^\"]+)\"\\)",
                    line.as_str(),
                );
                match key_of_groups(&groups) {
                    Some(key) => {
                        found.add_reference_key(key);
                    },
                    None => {},
                }
            }
            i = i + 1;
        }
        self.reference_keys = found.reference_keys;
    }

    /// Those of `wanted` that are not among the reference keys, in their
    /// order.
    pub fn extra_among(&self, wanted: &Vec<String>) -> (extra: Vec<String>)
        ensures
            texts_view(extra@) == spec_extra(
                self@.reference_keys,
                texts_view(wanted@),
                wanted.len() as int,
            ),
    {
        let mut extra: Vec<String> = Vec::new();
        let ghost keys = texts_view(wanted@);
        let mut i: usize = 0;
        while i < wanted.len()
            invariant
                i <= wanted.len(),
                keys == texts_view(wanted@),
                texts_view(extra@) == spec_extra(self@.reference_keys, keys, i as int),
            decreases wanted.len() - i,
        {
            if !list_has(&self.reference_keys, wanted[i].as_str()) {
                extra.push(wanted[i].clone());
            }
            i = i + 1;
        }
        extra
    }

    /// The reference keys that are not among `existing`, in their order: the
    /// keys that a translation file with the keys `existing` still lacks.
    pub fn missing_from(&self, existing: &Vec<String>) -> (missing: Vec<String>)
        ensures
            texts_view(missing@) == spec_extra(
                texts_view(existing@),
                self@.reference_keys,
                self@.reference_keys.len() as int,
            ),
    {
        let mut missing: Vec<String> = Vec::new();
        let ghost keys = self@.reference_keys;
        let mut i: usize = 0;
        while i < self.reference_keys.len()
            invariant
                i <= self.reference_keys.len(),
                keys == self@.reference_keys,
                texts_view(missing@) == spec_extra(texts_view(existing@), keys, i as int),
            decreases self.reference_keys.len() - i,
        {
            if !list_has(existing, self.reference_keys[i].as_str()) {
                missing.push(self.reference_keys[i].clone());
            }
            i = i + 1;
        }
        missing
    }

    /// Checks the text `value` of the key `key` against the default text of
    /// the key: the key must have a default text, and the text must have as
    /// many placeholders as the default text. The error says what is wrong.
    pub fn validate_format(&self, key: &str, value: &str) -> (checked: Result<(), String>)
        ensures
            match checked {
                Ok(_) => spec_format_fault(key@, value@) is None,
                Err(fault) => spec_format_fault(key@, value@) == Some(fault@),
            },
    {
        let defaults = default_text_table();
        match format_fault(&defaults, key, value) {
            Some(fault) => Err(fault),
            None => Ok(()),
        }
    }

    /// Checks a language pack against the reference keys as they are: the
    /// report lists the reference keys that the pack has no text for, the keys
    /// of the pack that are no reference keys, and the texts of the pack that
    /// do not fit the default text of their key, each list in the order of its
    /// source.
    pub fn check(&self, resource: &TranslationResource) -> (report: ValidationReport)
        ensures
            report@ == (ReportView {
                missing_keys: spec_missing(
                    self@.reference_keys,
                    pairs_view(resource.translations@),
                    self@.reference_keys.len() as int,
                ),
                extra_keys: spec_extra(
                    self@.reference_keys,
                    keys_of(pairs_view(resource.translations@)),
                    resource.translations.len() as int,
                ),
                format_errors: spec_format_faults(
                    pairs_view(resource.translations@),
                    resource.translations.len() as int,
                ),
                lang_id: resource.lang_id@,
                errors: Seq::empty(),
                warnings: Seq::empty(),
            }),
    {
        let ghost reference = self@.reference_keys;
        let ghost texts = pairs_view(resource.translations@);
        let mut report = ValidationReport::new();
        report.lang_id = resource.lang_id.clone();
        let mut i: usize = 0;
        while i < self.reference_keys.len()
            invariant
                i <= self.reference_keys.len(),
                reference == self@.reference_keys,
                texts == pairs_view(resource.translations@),
                report@ == (ReportView {
                    missing_keys: spec_missing(reference, texts, i as int),
                    lang_id: resource.lang_id@,
                    ..crate::report::empty_report()
                }),
            decreases self.reference_keys.len() - i,
        {
            let ghost before = report@.missing_keys;
            if lookup_pair(&resource.translations, self.reference_keys[i].as_str()).is_none() {
                report.missing_keys.push(self.reference_keys[i].clone());
                assert(report@.missing_keys =~= before.push(reference[i as int]));
            }
            i = i + 1;
        }
        let defaults = default_text_table();
        let mut k: usize = 0;
        while k < resource.translations.len()
            invariant
                k <= resource.translations.len(),
                reference == self@.reference_keys,
                texts == pairs_view(resource.translations@),
                pairs_view(defaults@) == default_texts(),
                report@ == (ReportView {
                    missing_keys: spec_missing(reference, texts, reference.len() as int),
                    extra_keys: spec_extra(reference, keys_of(texts), k as int),
                    format_errors: spec_format_faults(texts, k as int),
                    lang_id: resource.lang_id@,
                    ..crate::report::empty_report()
                }),
            decreases resource.translations.len() - k,
        {
            let key = &resource.translations[k].0;
            let value = &resource.translations[k].1;
            let ghost extra_before = report@.extra_keys;
            let ghost faults_before = report@.format_errors;
            if !list_has(&self.reference_keys, key.as_str()) {
                report.extra_keys.push(key.clone());
                assert(report@.extra_keys =~= extra_before.push(key@));
            }
            match format_fault(&defaults, key.as_str(), value.as_str()) {
                Some(fault) => {
                    report.format_errors.push(FormatError { key: key.clone(), error: fault });
                    assert(report@.format_errors =~= faults_before.push((key@, fault@)));
                },
                None => {},
            }
            k = k + 1;
        }
        report
    }

    /// Validates a language pack: adds the keys of the default texts to the
    /// reference keys, then checks the pack against them.
    pub fn validate(&mut self, resource: &TranslationResource) -> (report: ValidationReport)
        requires
            old(self).wf(),
        ensures
            final(self).wf(),
            final(self)@ == (ValidatorView {
                reference_keys: spec_with_keys(
                    old(self)@.reference_keys,
                    keys_of(default_texts()),
                    default_texts().len() as int,
                ),
                ..old(self)@
            }),
            report@ == (ReportView {
                missing_keys: spec_missing(
                    final(self)@.reference_keys,
                    pairs_view(resource.translations@),
                    final(self)@.reference_keys.len() as int,
                ),
                extra_keys: spec_extra(
                    final(self)@.reference_keys,
                    keys_of(pairs_view(resource.translations@)),
                    resource.translations.len() as int,
                ),
                format_errors: spec_format_faults(
                    pairs_view(resource.translations@),
                    resource.translations.len() as int,
                ),
                lang_id: resource.lang_id@,
                errors: Seq::empty(),
                warnings: Seq::empty(),
            }),
    {
        self.load_default_keys();
        self.check(resource)
    }

    /// Validates the language pack of `lang_id` with a validator of its own,
    /// which works in `base_dir`: the reference keys are the keys of the
    /// default texts.
    pub fn validate_language_pack(
        lang_id: &str,
        base_dir: String,
        resource: &TranslationResource,
    ) -> (report: ValidationReport)
        ensures
            report@ == (ReportView {
                missing_keys: spec_missing(
                    spec_with_keys(
                        Seq::empty(),
                        keys_of(default_texts()),
                        default_texts().len() as int,
                    ),
                    pairs_view(resource.translations@),
                    spec_with_keys(
                        Seq::empty(),
                        keys_of(default_texts()),
                        default_texts().len() as int,
                    ).len() as int,
                ),
                extra_keys: spec_extra(
                    spec_with_keys(
                        Seq::empty(),
                        keys_of(default_texts()),
                        default_texts().len() as int,
                    ),
                    keys_of(pairs_view(resource.translations@)),
                    resource.translations.len() as int,
                ),
                format_errors: spec_format_faults(
                    pairs_view(resource.translations@),
                    resource.translations.len() as int,
                ),
                lang_id: resource.lang_id@,
                errors: Seq::empty(),
                warnings: Seq::empty(),
            }),
    {
        let mut validator = I18NValidator::new(base_dir);
        validator.validate(resource)
    }
}

} // verus!
