//! The search for texts that are written into the source of the application
//! and have no translation key yet.
//!
//! The scanner looks at source text line by line. Which files there are and
//! what they hold is for the caller to find out; which of them are passed
//! over, and which lines are reported, is decided here.

use crate::pattern::{regex_is_match, regex_matches_of};
use crate::table::texts_view;
use crate::text::{
    chars_of, chars_view, contains, lines_of, position, slice_of, spec_contains, spec_lines,
    spec_position, spec_starts_with, spec_trim, spec_trim_start, spec_word_count, starts_with,
    string_of, trim, trim_start, word_count,
};
use crate::validator::I18NValidator;
use vstd::prelude::*;

verus! {

/// A line of source text that may need a translation key.
#[derive(Debug)]
pub struct HardcodedString {
    /// The file that the line stands in.
    pub file_path: String,
    /// The number of the line, the first line having the number 1.
    pub line_number: usize,
    /// The line without the white space around it.
    pub content: String,
    /// The line with the two lines before it and the two lines behind it.
    pub context: String,
}

/// What a [`HardcodedString`] holds, as texts.
pub struct FindingView {
    pub file_path: Seq<char>,
    pub line_number: nat,
    pub content: Seq<char>,
    pub context: Seq<char>,
}

impl View for HardcodedString {
    type V = FindingView;

    open spec fn view(&self) -> FindingView {
        FindingView {
            file_path: self.file_path@,
            line_number: self.line_number as nat,
            content: self.content@,
            context: self.context@,
        }
    }
}

/// The views of a list of findings.
pub open spec fn findings_view(list: Seq<HardcodedString>) -> Seq<FindingView> {
    Seq::new(list.len(), |i: int| list[i]@)
}

/// A file of source text, as the caller has read it.
#[derive(Debug)]
pub struct SourceFile {
    /// The path of the file.
    pub path: String,
    /// The text of the file.
    pub content: String,
}

/// Whether `c` is a Chinese character: one of the unified ideographs from
/// U+4E00 to U+9FFF.
pub open spec fn spec_is_chinese(c: char) -> bool {
    0x4E00 <= c as u32 <= 0x9FFF
}

/// Whether one of `text[..upto]` is a Chinese character.
pub open spec fn spec_has_chinese(text: Seq<char>, upto: int) -> bool {
    exists|i: int| 0 <= i < upto && i < text.len() && spec_is_chinese(#[trigger] text[i])
}

/// Whether `text` holds the character `ch`.
pub open spec fn spec_has_char(text: Seq<char>, ch: char) -> bool {
    spec_position(text, ch, 0) < text.len()
}

/// Whether the line looks as if it held a text for the user: it holds a
/// Chinese character, or a quotation mark and more than one word, or one of
/// the marks by which texts for the user are known in the source.
pub open spec fn spec_worth_reporting(line: Seq<char>) -> bool {
    ||| spec_has_chinese(line, line.len() as int)
    ||| (spec_has_char(line, '"') && spec_word_count(line, line.len() as int) > 1)
    ||| spec_contains(line, "label:"@)
    ||| spec_contains(line, "title:"@)
    ||| spec_contains(line, "message:"@)
    ||| spec_contains(line, "tooltip:"@)
    ||| spec_contains(line, "Error:"@)
    ||| spec_contains(line, "Warning:"@)
    ||| spec_contains(line, "MenuItem::"@)
    ||| spec_contains(line, "Menu {"@)
}

/// What is reported of the line: nothing of a comment line, nothing of a line
/// that already asks for a translation, and of any other line that is worth
/// reporting the line itself without the white space around it.
pub open spec fn spec_check_line(line: Seq<char>) -> Option<Seq<char>> {
    if spec_starts_with(spec_trim_start(line), "//"@) {
        None
    } else if spec_contains(line, "t!("@) {
        None
    } else if spec_worth_reporting(line) {
        Some(spec_trim(line))
    } else {
        None
    }
}

/// The lines around the line at position `at`, the first line having the
/// position 0: the line with up to two lines before it and up to two lines
/// behind it, each two of them with a line feed between. Nothing where the
/// text has no line at or near `at`.
pub open spec fn spec_context(lines: Seq<Seq<char>>, at: int) -> Seq<char> {
    let start = if at >= 2 {
        at - 2
    } else {
        0
    };
    let end = if at + 3 <= lines.len() {
        at + 3
    } else {
        lines.len() as int
    };
    if start < end {
        crate::text::spec_join(lines.subrange(start, end), seq!['\n'], end - start)
    } else {
        Seq::empty()
    }
}

/// The findings in the lines `lines[..count]` of the file `path`.
pub open spec fn spec_findings(path: Seq<char>, lines: Seq<Seq<char>>, count: int) -> Seq<
    FindingView,
>
    decreases count,
{
    if count <= 0 {
        Seq::empty()
    } else {
        let before = spec_findings(path, lines, count - 1);
        match spec_check_line(lines[count - 1]) {
            Some(content) => before.push(
                FindingView {
                    file_path: path,
                    line_number: count as nat,
                    content,
                    context: spec_context(lines, count - 1),
                },
            ),
            None => before,
        }
    }
}

/// Whether one of the patterns matches the path.
pub open spec fn spec_ignored(patterns: Seq<Seq<char>>, path: Seq<char>) -> bool {
    exists|i: int| 0 <= i < patterns.len() && regex_matches_of(#[trigger] patterns[i], path)
}

/// The patterns of the paths that a scanner passes over: build output, the
/// folder of the version control, and files that hold no source.
pub open spec fn ignore_patterns() -> Seq<Seq<char>> {
    seq!["/target/"@, "/\\.git/"@, ".*\\.(json|md|txt)$"@]
}

/// The findings of the files `files[..count]`, file by file; a file whose
/// path is passed over adds nothing.
pub open spec fn spec_scan(
    patterns: Seq<Seq<char>>,
    files: Seq<(Seq<char>, Seq<char>)>,
    count: int,
) -> Seq<FindingView>
    decreases count,
{
    if count <= 0 {
        Seq::empty()
    } else {
        let before = spec_scan(patterns, files, count - 1);
        let file = files[count - 1];
        if spec_ignored(patterns, file.0) {
            before
        } else {
            before + spec_findings(file.0, spec_lines(file.1), spec_lines(file.1).len() as int)
        }
    }
}

/// The paths and texts of a list of files.
pub open spec fn files_view(files: Seq<SourceFile>) -> Seq<(Seq<char>, Seq<char>)> {
    Seq::new(files.len(), |i: int| (files[i].path@, files[i].content@))
}

/// Whether `text` holds a Chinese character.
pub fn has_chinese(text: &Vec<char>) -> (found: bool)
    ensures
        found == spec_has_chinese(text@, text.len() as int),
{
    let mut i: usize = 0;
    while i < text.len()
        invariant
            i <= text.len(),
            !spec_has_chinese(text@, i as int),
        decreases text.len() - i,
    {
        let u: u32 = text[i] as u32;
        if 0x4E00 <= u && u <= 0x9FFF {
            return true;
        }
        i = i + 1;
    }
    false
}

/// What is reported of the line.
pub fn check_line(line: &Vec<char>) -> (finding: Option<Vec<char>>)
    ensures
        match finding {
            Some(content) => spec_check_line(line@) == Some(content@),
            None => spec_check_line(line@) is None,
        },
{
    if starts_with(&trim_start(line), &chars_of("//")) {
        return None;
    }
    if contains(line, &chars_of("t!(")) {
        return None;
    }
    let worth = has_chinese(line) || (position(line, '"', 0) < line.len() && word_count(line) > 1)
        || contains(line, &chars_of("label:")) || contains(line, &chars_of("title:")) || contains(
        line,
        &chars_of("message:"),
    ) || contains(line, &chars_of("tooltip:")) || contains(line, &chars_of("Error:")) || contains(
        line,
        &chars_of("Warning:"),
    ) || contains(line, &chars_of("MenuItem::")) || contains(line, &chars_of("Menu {"));
    if worth {
        Some(trim(line))
    } else {
        None
    }
}

/// The lines around the line at position `at`.
pub fn context_of(lines: &Vec<Vec<char>>, at: usize) -> (context: Vec<char>)
    ensures
        context@ == spec_context(chars_view(lines@), at as int),
{
    let start: usize = if at >= 2 {
        at - 2
    } else {
        0
    };
    let end: usize = if at <= lines.len() && lines.len() - at >= 3 {
        at + 3
    } else {
        lines.len()
    };
    if start >= end {
        return Vec::new();
    }
    let mut part: Vec<Vec<char>> = Vec::new();
    let mut i: usize = start;
    while i < end
        invariant
            start <= i <= end <= lines.len(),
            part.len() == i - start,
            forall|j: int| 0 <= j < i - start ==> part@[j]@ == lines@[start + j]@,
        decreases end - i,
    {
        part.push(slice_of(&lines[i], 0, lines[i].len()));
        i = i + 1;
    }
    assert(chars_view(part@) =~= chars_view(lines@).subrange(start as int, end as int));
    let mut feed: Vec<char> = Vec::new();
    feed.push('\n');
    crate::text::join(&part, &feed)
}

/// The lines around the line number `line_number` of `content`, the first
/// line having the number 0.
pub fn extract_context(content: &str, line_number: usize) -> (context: String)
    ensures
        context@ == spec_context(spec_lines(content@), line_number as int),
{
    let lines = lines_of(&chars_of(content));
    string_of(&context_of(&lines, line_number))
}

/// The scanner: the paths it was made for, the patterns of the paths it
/// passes over, and what it has found.
pub struct CodeScanner {
    source_paths: Vec<String>,
    ignore_patterns: Vec<String>,
    findings: Vec<HardcodedString>,
}

/// What a [`CodeScanner`] holds, as texts.
pub struct ScannerView {
    pub source_paths: Seq<Seq<char>>,
    pub ignore_patterns: Seq<Seq<char>>,
    pub findings: Seq<FindingView>,
}

impl View for CodeScanner {
    type V = ScannerView;

    closed spec fn view(&self) -> ScannerView {
        ScannerView {
            source_paths: texts_view(self.source_paths@),
            ignore_patterns: texts_view(self.ignore_patterns@),
            findings: findings_view(self.findings@),
        }
    }
}

impl CodeScanner {
    /// A scanner for the given paths that has found nothing yet.
    pub fn new(source_paths: Vec<String>) -> (scanner: CodeScanner)
        ensures
            scanner@ == (ScannerView {
                source_paths: texts_view(source_paths@),
                ignore_patterns: ignore_patterns(),
                findings: Seq::empty(),
            }),
    {
        let mut patterns: Vec<String> = Vec::new();
        patterns.push("/target/".to_owned());
        patterns.push("/\\.git/".to_owned());
        patterns.push(".*\\.(json|md|txt)$".to_owned());
        let scanner = CodeScanner {
            source_paths,
            ignore_patterns: patterns,
            findings: Vec::new(),
        };
        assert(scanner@.ignore_patterns =~= ignore_patterns());
        assert(scanner@.findings =~= Seq::empty());
        scanner
    }

    /// The paths that the scanner was made for.
    pub fn source_paths(&self) -> (paths: &Vec<String>)
        ensures
            texts_view(paths@) == self@.source_paths,
    {
        &self.source_paths
    }

    /// Whether the scanner passes over `path`: one of its patterns matches
    /// the path.
    pub fn should_ignore(&self, path: &str) -> (ignored: bool)
        ensures
            ignored == spec_ignored(self@.ignore_patterns, path@),
    {
        let mut i: usize = 0;
        while i < self.ignore_patterns.len()
            invariant
                i <= self.ignore_patterns.len(),
                forall|j: int|
                    0 <= j < i ==> !regex_matches_of(#[trigger] self@.ignore_patterns[j], path@),
            decreases self.ignore_patterns.len() - i,
        {
            if regex_is_match(self.ignore_patterns[i].as_str(), path) {
                assert(regex_matches_of(self@.ignore_patterns[i as int], path@));
                return true;
            }
            i = i + 1;
        }
        false
    }

    /// Looks at the text `content` of the file `file_path` line by line and
    /// adds what is found to the findings.
    pub fn scan_file(&mut self, file_path: String, content: &str)
        ensures
            final(self)@ == (ScannerView {
                findings: old(self)@.findings + spec_findings(
                    file_path@,
                    spec_lines(content@),
                    spec_lines(content@).len() as int,
                ),
                ..old(self)@
            }),
    {
        let lines = lines_of(&chars_of(content));
        let ghost all = spec_lines(content@);
        let ghost start = self@.findings;
        let mut i: usize = 0;
        while i < lines.len()
            invariant
                i <= lines.len(),
                all == chars_view(lines@),
                self@ == (ScannerView {
                    findings: start + spec_findings(file_path@, all, i as int),
                    ..old(self)@
                }),
            decreases lines.len() - i,
        {
            let ghost before = self@.findings;
            match check_line(&lines[i]) {
                Some(content) => {
                    let finding = HardcodedString {
                        file_path: file_path.clone(),
                        line_number: i + 1,
                        content: string_of(&content),
                        context: string_of(&context_of(&lines, i)),
                    };
                    let ghost found = finding@;
                    self.findings.push(finding);
                    assert(self@.findings =~= before.push(found));
                },
                None => {},
            }
            i = i + 1;
        }
    }

    /// What the scanner has found, in the order in which it was found.
    pub fn get_findings(&self) -> (findings: &Vec<HardcodedString>)
        ensures
            findings_view(findings@) == self@.findings,
    {
        &self.findings
    }

    /// Looks at each of `files` in turn, but for those whose path the scanner
    /// passes over.
    pub fn scan(&mut self, files: &Vec<SourceFile>)
        ensures
            final(self)@ == (ScannerView {
                findings: old(self)@.findings + spec_scan(
                    old(self)@.ignore_patterns,
                    files_view(files@),
                    files.len() as int,
                ),
                ..old(self)@
            }),
    {
        let ghost all = files_view(files@);
        let ghost start = self@.findings;
        let ghost patterns = self@.ignore_patterns;
        let mut i: usize = 0;
        while i < files.len()
            invariant
                i <= files.len(),
                all == files_view(files@),
                patterns == old(self)@.ignore_patterns,
                self@ == (ScannerView {
                    findings: start + spec_scan(patterns, all, i as int),
                    ..old(self)@
                }),
            decreases files.len() - i,
        {
            let ghost before = spec_scan(patterns, all, i as int);
            if !self.should_ignore(files[i].path.as_str()) {
                self.scan_file(files[i].path.clone(), files[i].content.as_str());
                assert(start + (before + spec_findings(
                    all[i as int].0,
                    spec_lines(all[i as int].1),
                    spec_lines(all[i as int].1).len() as int,
                )) =~= (start + before) + spec_findings(
                    all[i as int].0,
                    spec_lines(all[i as int].1),
                    spec_lines(all[i as int].1).len() as int,
                ));
            }
            i = i + 1;
        }
    }
}

impl I18NValidator {
    /// The texts in `files` that may need a translation key.
    pub fn scan_hardcoded(&self, files: &Vec<SourceFile>) -> (findings: Vec<HardcodedString>)
        ensures
            findings_view(findings@) == spec_scan(
                ignore_patterns(),
                files_view(files@),
                files.len() as int,
            ),
    {
        let mut paths: Vec<String> = Vec::new();
        let mut i: usize = 0;
        while i < files.len()
            invariant
                i <= files.len(),
            decreases files.len() - i,
        {
            paths.push(files[i].path.clone());
            i = i + 1;
        }
        let mut scanner = CodeScanner::new(paths);
        scanner.scan(files);
        scanner.findings
    }
}

} // verus!
