//! What the validation of a language pack reports.

use crate::table::texts_view;
use vstd::prelude::*;

verus! {

/// A text of a language pack that does not fit the default text of its key.
#[derive(Debug)]
pub struct FormatError {
    /// The key of the text.
    pub key: String,
    /// What is wrong with the text.
    pub error: String,
}

/// The views of a list of format errors, each a key with what is wrong.
pub open spec fn format_errors_view(list: Seq<FormatError>) -> Seq<(Seq<char>, Seq<char>)> {
    Seq::new(list.len(), |i: int| (list[i].key@, list[i].error@))
}

/// The report of a validation.
#[derive(Debug)]
pub struct ValidationReport {
    /// The keys that the language pack lacks.
    pub missing_keys: Vec<String>,
    /// The keys that the language pack has and the reference has not.
    pub extra_keys: Vec<String>,
    /// The texts that do not fit the default text of their key.
    pub format_errors: Vec<FormatError>,
    /// The code of the language of the pack.
    pub lang_id: String,
    /// The errors that were added to the report.
    pub errors: Vec<String>,
    /// The warnings that were added to the report.
    pub warnings: Vec<String>,
}

/// What a [`ValidationReport`] holds, as texts.
pub struct ReportView {
    pub missing_keys: Seq<Seq<char>>,
    pub extra_keys: Seq<Seq<char>>,
    pub format_errors: Seq<(Seq<char>, Seq<char>)>,
    pub lang_id: Seq<char>,
    pub errors: Seq<Seq<char>>,
    pub warnings: Seq<Seq<char>>,
}

impl View for ValidationReport {
    type V = ReportView;

    open spec fn view(&self) -> ReportView {
        ReportView {
            missing_keys: texts_view(self.missing_keys@),
            extra_keys: texts_view(self.extra_keys@),
            format_errors: format_errors_view(self.format_errors@),
            lang_id: self.lang_id@,
            errors: texts_view(self.errors@),
            warnings: texts_view(self.warnings@),
        }
    }
}

/// The report that holds nothing.
pub open spec fn empty_report() -> ReportView {
    ReportView {
        missing_keys: Seq::empty(),
        extra_keys: Seq::empty(),
        format_errors: Seq::empty(),
        lang_id: Seq::empty(),
        errors: Seq::empty(),
        warnings: Seq::empty(),
    }
}

impl Default for ValidationReport {
    /// The report that holds nothing.
    fn default() -> (report: ValidationReport)
        ensures
            report@ == empty_report(),
    {
        let report = ValidationReport {
            missing_keys: Vec::new(),
            extra_keys: Vec::new(),
            format_errors: Vec::new(),
            lang_id: String::new(),
            errors: Vec::new(),
            warnings: Vec::new(),
        };
        assert(report@.format_errors =~= Seq::empty());
        assert(report@.warnings =~= Seq::empty());
        report
    }
}

impl ValidationReport {
    /// The report that holds nothing.
    pub fn new() -> (report: ValidationReport)
        ensures
            report@ == empty_report(),
    {
        let report = ValidationReport {
            missing_keys: Vec::new(),
            extra_keys: Vec::new(),
            format_errors: Vec::new(),
            lang_id: String::new(),
            errors: Vec::new(),
            warnings: Vec::new(),
        };
        assert(report@.format_errors =~= Seq::empty());
        assert(report@.warnings =~= Seq::empty());
        report
    }

    /// Adds an error at the end of the errors.
    pub fn add_error(&mut self, error: String)
        ensures
            final(self)@ == (ReportView { errors: old(self)@.errors.push(error@), ..old(self)@ }),
    {
        self.errors.push(error);
        assert(texts_view(self.errors@) =~= texts_view(old(self).errors@).push(error@));
    }

    /// Adds a warning at the end of the warnings.
    pub fn add_warning(&mut self, warning: String)
        ensures
            final(self)@ == (ReportView {
                warnings: old(self)@.warnings.push(warning@),
                ..old(self)@
            }),
    {
        self.warnings.push(warning);
        assert(texts_view(self.warnings@) =~= texts_view(old(self).warnings@).push(warning@));
    }

    /// Takes over the errors and the warnings of `other`, behind its own.
    pub fn merge(&mut self, other: ValidationReport)
        ensures
            final(self)@ == (ReportView {
                errors: old(self)@.errors + other@.errors,
                warnings: old(self)@.warnings + other@.warnings,
                ..old(self)@
            }),
    {
        let mut other = other;
        let ghost errors = texts_view(other.errors@);
        let ghost warnings = texts_view(other.warnings@);
        self.errors.append(&mut other.errors);
        self.warnings.append(&mut other.warnings);
        assert(texts_view(self.errors@) =~= texts_view(old(self).errors@) + errors);
        assert(texts_view(self.warnings@) =~= texts_view(old(self).warnings@) + warnings);
    }

    /// Whether the report holds an error.
    pub fn has_errors(&self) -> (any: bool)
        ensures
            any == (self@.errors.len() > 0),
    {
        self.errors.len() > 0
    }

    /// The errors, in the order in which they were added.
    pub fn get_errors(&self) -> (errors: &Vec<String>)
        ensures
            texts_view(errors@) == self@.errors,
    {
        &self.errors
    }

    /// The warnings, in the order in which they were added.
    pub fn get_warnings(&self) -> (warnings: &Vec<String>)
        ensures
            texts_view(warnings@) == self@.warnings,
    {
        &self.warnings
    }
}

} // verus!
