//! The errors that stop generation, and how several of them are reported
//! as one.

use crate::rule::{RuleError, RuleErrorView};
use vstd::prelude::*;

verus! {

/// The ways in which a record definition can be unfit for generation.
#[derive(Debug, Clone, Copy, PartialEq, Eq, Structural)]
pub enum ErrorKind {
    /// The definition is not that of a struct.
    NotARecordType,
    /// No field carries a validation annotation.
    NoAnnotatedFields,
    /// An annotation is not a comma-separated list of rules.
    MalformedRuleList,
    /// A rule does not start with the placeholder.
    InvalidPlaceholder,
    /// A rule uses an operator other than `<`, `<=`, `>=`, `>`.
    UnsupportedOperator,
}

/// One error: its kind, the record or field that it is about, and the
/// identifier or operator that is at fault, where the kind has one.
#[derive(Debug, Clone)]
pub struct Diagnostic {
    pub kind: ErrorKind,
    pub subject: String,
    pub found: String,
}

/// What a `Diagnostic` holds.
pub struct DiagnosticView {
    pub kind: ErrorKind,
    pub subject: Seq<char>,
    pub found: Seq<char>,
}

impl DeepView for Diagnostic {
    type V = DiagnosticView;

    open spec fn deep_view(&self) -> DiagnosticView {
        DiagnosticView { kind: self.kind, subject: self.subject@, found: self.found@ }
    }
}

impl ErrorKind {
    /// The sentence that explains an error of this kind.
    pub open spec fn spec_message(self) -> Seq<char> {
        match self {
            ErrorKind::NotARecordType => "Validator Macros only work on structs yet"@,
            ErrorKind::NoAnnotatedFields => "Use at least one validate_value() attribute helper"@,
            ErrorKind::MalformedRuleList => "is not a list of comma separated rules"@,
            ErrorKind::InvalidPlaceholder => "You are required to call this identifier 'x'"@,
            ErrorKind::UnsupportedOperator => "Only <, <=, >= and > are supported operators"@,
        }
    }

    /// The sentence that explains an error of this kind.
    pub fn message(self) -> (text: &'static str)
        ensures
            text@ == self.spec_message(),
    {
        match self {
            ErrorKind::NotARecordType => "Validator Macros only work on structs yet",
            ErrorKind::NoAnnotatedFields => "Use at least one validate_value() attribute helper",
            ErrorKind::MalformedRuleList => "is not a list of comma separated rules",
            ErrorKind::InvalidPlaceholder => "You are required to call this identifier 'x'",
            ErrorKind::UnsupportedOperator => "Only <, <=, >= and > are supported operators",
        }
    }
}

/// The diagnostic that reports the rule error `e` on the field `subject`.
pub open spec fn rule_diagnostic(subject: Seq<char>, e: RuleErrorView) -> DiagnosticView {
    match e {
        RuleErrorView::MalformedRuleList => DiagnosticView {
            kind: ErrorKind::MalformedRuleList,
            subject,
            found: Seq::empty(),
        },
        RuleErrorView::InvalidPlaceholder { found } => DiagnosticView {
            kind: ErrorKind::InvalidPlaceholder,
            subject,
            found,
        },
        RuleErrorView::UnsupportedOperator { found } => DiagnosticView {
            kind: ErrorKind::UnsupportedOperator,
            subject,
            found: found.spec_text(),
        },
    }
}

impl Diagnostic {
    /// An error of `kind` about `subject`, with nothing named as at fault.
    pub fn new(kind: ErrorKind, subject: &str) -> (d: Diagnostic)
        ensures
            d.deep_view() == (DiagnosticView { kind, subject: subject@, found: Seq::empty() }),
    {
        Diagnostic { kind, subject: subject.to_owned(), found: String::new() }
    }

    /// Reports a rule error on the field `subject`.
    pub fn from_rule_error(subject: &str, e: &RuleError) -> (d: Diagnostic)
        ensures
            d.deep_view() == rule_diagnostic(subject@, e.deep_view()),
    {
        match e {
            RuleError::MalformedRuleList => Diagnostic::new(ErrorKind::MalformedRuleList, subject),
            RuleError::InvalidPlaceholder { found } => Diagnostic {
                kind: ErrorKind::InvalidPlaceholder,
                subject: subject.to_owned(),
                found: found.clone(),
            },
            RuleError::UnsupportedOperator { found } => Diagnostic {
                kind: ErrorKind::UnsupportedOperator,
                subject: subject.to_owned(),
                found: found.text().to_owned(),
            },
        }
    }
}

/// Why generation stopped: the first error that was found, and after it all
/// the others, in the order in which they were found.
#[derive(Debug, Clone)]
pub struct GenerationError {
    pub primary: Diagnostic,
    pub notes: Vec<Diagnostic>,
}

impl GenerationError {
    /// All errors in the order in which they were found.
    pub open spec fn all(&self) -> Seq<DiagnosticView> {
        seq![self.primary.deep_view()] + self.notes.deep_view()
    }

    /// The kinds of all errors, in the order in which they were found.
    pub open spec fn kinds(&self) -> Seq<ErrorKind> {
        self.all().map_values(|d: DiagnosticView| d.kind)
    }

    /// A report of one error.
    pub fn new(primary: Diagnostic) -> (e: GenerationError)
        ensures
            e.all() == seq![primary.deep_view()],
    {
        GenerationError { primary, notes: Vec::new() }
    }

    /// Adds the errors of `other` after those of `self`.
    pub fn combine(&mut self, other: GenerationError)
        ensures
            final(self).all() == old(self).all() + other.all(),
    {
        let GenerationError { primary, notes } = other;
        let ghost before = self.notes.deep_view();
        let ghost first = primary.deep_view();
        let ghost rest = notes.deep_view();
        let mut notes = notes;
        self.notes.push(primary);
        assert(self.notes.deep_view() =~= before.push(first));
        self.notes.append(&mut notes);
        assert(self.notes.deep_view() =~= before.push(first) + rest);
        assert(self.all() =~= old(self).all() + (seq![first] + rest));
    }

    /// The report of the errors `found`, or none if there are none.
    pub fn from_all(found: Vec<Diagnostic>) -> (r: Option<GenerationError>)
        ensures
            match r {
                Some(e) => e.all() == found.deep_view(),
                None => found.len() == 0,
            },
    {
        let ghost all = found.deep_view();
        let mut notes = found;
        if notes.len() == 0 {
            None
        } else {
            let primary = notes.remove(0);
            assert(seq![primary.deep_view()] + notes.deep_view() =~= all);
            Some(GenerationError { primary, notes })
        }
    }
}

} // verus!
