//! The failures of a bundle run, and the messages that report them.

use crate::text::{decimal, decimal_text, lemma_occurs_between, occurs_in};
use vstd::prelude::*;

verus! {

/// A line and a column as they are shown to a reader: both count from 1.
#[derive(Debug, Clone, Copy, PartialEq, Eq, Structural)]
pub struct LineAndColumnDisplay {
    pub line_number: usize,
    pub column_number: usize,
}

/// A stretch of a source text: the byte offsets of its start and of its end.
#[derive(Debug, Clone, Copy, PartialEq, Eq, Structural)]
pub struct SourceRange {
    pub start: usize,
    pub end: usize,
}

/// A fault that the parser found in a module.
#[derive(Debug, Clone, PartialEq, Eq)]
pub struct Diagnostic {
    /// The identity of the module.
    pub specifier: String,
    /// Where the fault lies in the source.
    pub range: SourceRange,
    /// Where the fault starts, for display.
    pub display_position: LineAndColumnDisplay,
    /// What kind of fault it is, in words.
    pub kind: String,
}

/// The text that reports `diagnostic`: its kind, then the module and the
/// position.
pub open spec fn diagnostic_text(diagnostic: Diagnostic) -> Seq<char> {
    diagnostic.kind@ + " at "@ + diagnostic.specifier@ + ":"@ + decimal_text(
        diagnostic.display_position.line_number as nat,
    ) + ":"@ + decimal_text(diagnostic.display_position.column_number as nat)
}

impl Diagnostic {
    /// The text that reports this diagnostic.
    pub fn message(&self) -> (out: String)
        ensures
            out@ == diagnostic_text(*self),
    {
        let mut out = self.kind.clone();
        out.append(" at ");
        out.append(self.specifier.as_str());
        out.append(":");
        out.append(decimal(self.display_position.line_number as u64).as_str());
        out.append(":");
        out.append(decimal(self.display_position.column_number as u64).as_str());
        out
    }
}

/// Why a bundle run failed.
#[derive(Debug, Clone, PartialEq, Eq)]
pub enum BundleError {
    /// The graph names no entry module.
    NoEntry,
    /// The graph holds no module under the identity that was asked for.
    MissingModule { specifier: String },
    /// No import edge of the referrer leads anywhere under the specifier.
    Unresolved { specifier: String, referrer: String },
    /// The source of a module does not parse.
    Parse(Diagnostic),
    /// A module could not be lowered to plain script.
    Lower { cause: String },
    /// The modules could not be merged into one.
    Merge { cause: String },
    /// The merge gave no module back.
    NoBundle,
    /// The merged module could not be rendered as text.
    Emit { cause: String },
    /// The rendered code is not valid UTF-8.
    InvalidCode,
    /// The source map could not be built or written.
    SourceMap { cause: String },
    /// The source map that was written is not valid UTF-8.
    InvalidSourceMap,
    /// The output could not be wrapped into its final shape.
    Template { cause: String },
    /// A run was handed the result of work that it was not waiting for.
    OutOfTurn,
}

/// The message of `error`.
pub open spec fn error_text(error: BundleError) -> Seq<char> {
    match error {
        BundleError::NoEntry => "The module graph has no entry module."@,
        BundleError::MissingModule { specifier } => "Module \""@ + specifier@
            + "\" unexpectedly missing when bundling."@,
        BundleError::Unresolved { specifier, referrer } => "Cannot resolve \""@ + specifier@
            + "\" from \""@ + referrer@ + "\"."@,
        BundleError::Parse(diagnostic) => diagnostic_text(diagnostic),
        BundleError::Lower { cause } => cause@,
        BundleError::Merge { cause } => "Unable to output during bundling."@,
        BundleError::NoBundle => "The merge produced no bundle."@,
        BundleError::Emit { cause } => "Unable to emit during bundling."@,
        BundleError::InvalidCode => "Emitted code is an invalid string."@,
        BundleError::SourceMap { cause } => "Unable to write the source map."@,
        BundleError::InvalidSourceMap => "The source map is an invalid string."@,
        BundleError::Template { cause } => "Unable to render the bundle."@,
        BundleError::OutOfTurn => "The bundle run was not waiting for this result."@,
    }
}

impl BundleError {
    /// The message of this error. An error that wraps a failure of a later
    /// stage names the stage; the failure itself is kept as its cause.
    pub fn message(&self) -> (out: String)
        ensures
            out@ == error_text(*self),
    {
        match self {
            BundleError::NoEntry => String::from_str("The module graph has no entry module."),
            BundleError::MissingModule { specifier } => {
                let mut out = String::from_str("Module \"");
                out.append(specifier.as_str());
                out.append("\" unexpectedly missing when bundling.");
                out
            },
            BundleError::Unresolved { specifier, referrer } => {
                let mut out = String::from_str("Cannot resolve \"");
                out.append(specifier.as_str());
                out.append("\" from \"");
                out.append(referrer.as_str());
                out.append("\".");
                out
            },
            BundleError::Parse(diagnostic) => diagnostic.message(),
            BundleError::Lower { cause } => cause.clone(),
            BundleError::Merge { cause } => String::from_str("Unable to output during bundling."),
            BundleError::NoBundle => String::from_str("The merge produced no bundle."),
            BundleError::Emit { cause } => String::from_str("Unable to emit during bundling."),
            BundleError::InvalidCode => String::from_str("Emitted code is an invalid string."),
            BundleError::SourceMap { cause } => String::from_str(
                "Unable to write the source map.",
            ),
            BundleError::InvalidSourceMap => String::from_str(
                "The source map is an invalid string.",
            ),
            BundleError::Template { cause } => String::from_str("Unable to render the bundle."),
            BundleError::OutOfTurn => String::from_str(
                "The bundle run was not waiting for this result.",
            ),
        }
    }
}

/// The message of a failed resolution holds the specifier as it was
/// written and the identity of the referrer.
pub proof fn lemma_unresolved_message_names_both(specifier: String, referrer: String)
    ensures
        occurs_in(specifier@, error_text(BundleError::Unresolved { specifier, referrer })),
        occurs_in(referrer@, error_text(BundleError::Unresolved { specifier, referrer })),
{
    let text = error_text(BundleError::Unresolved { specifier, referrer });
    lemma_occurs_between(
        "Cannot resolve \""@,
        specifier@,
        "\" from \""@ + referrer@ + "\"."@,
    );
    assert(text =~= "Cannot resolve \""@ + specifier@ + ("\" from \""@ + referrer@ + "\"."@));
    lemma_occurs_between("Cannot resolve \""@ + specifier@ + "\" from \""@, referrer@, "\"."@);
}

/// The message of a missing module holds the identity that was asked for.
pub proof fn lemma_missing_message_names_module(specifier: String)
    ensures
        occurs_in(specifier@, error_text(BundleError::MissingModule { specifier })),
{
    lemma_occurs_between("Module \""@, specifier@, "\" unexpectedly missing when bundling."@);
}

/// The failure of a later stage that `error` wraps, where it wraps one.
pub open spec fn cause_text(error: BundleError) -> Option<Seq<char>> {
    match error {
        BundleError::Merge { cause } => Some(cause@),
        BundleError::Emit { cause } => Some(cause@),
        BundleError::SourceMap { cause } => Some(cause@),
        BundleError::Template { cause } => Some(cause@),
        _ => None,
    }
}

/// The message of `error` with what caused it: the message, and after a
/// colon the failure that it wraps, where it wraps one.
pub open spec fn report_text(error: BundleError) -> Seq<char> {
    match cause_text(error) {
        Some(cause) => error_text(error) + ": "@ + cause,
        None => error_text(error),
    }
}

impl BundleError {
    /// The message of this error together with its cause.
    pub fn report(&self) -> (out: String)
        ensures
            out@ == report_text(*self),
    {
        let mut out = self.message();
        match self {
            BundleError::Merge { cause }
            | BundleError::Emit { cause }
            | BundleError::SourceMap { cause }
            | BundleError::Template { cause } => {
                out.append(": ");
                out.append(cause.as_str());
            },
            _ => {},
        }
        out
    }
}

/// What stands in a text stands in every text that is built round it.
pub proof fn lemma_occurs_within(
    before: Seq<char>,
    hay: Seq<char>,
    after: Seq<char>,
    needle: Seq<char>,
)
    requires
        occurs_in(needle, hay),
    ensures
        occurs_in(needle, before + hay + after),
{
    let i = choose|i: int|
        0 <= i && i + needle.len() <= hay.len() && #[trigger] hay.subrange(i, i + needle.len())
            == needle;
    let whole = before + hay + after;
    let j = before.len() + i;
    assert(whole.subrange(j, j + needle.len()) =~= hay.subrange(i, i + needle.len()));
}

/// What the cause of an error names, the report of the error names: a run
/// that fails because an import did not resolve reports the specifier and
/// the referrer that the failure of the merge names.
pub proof fn lemma_report_names_what_the_cause_names(error: BundleError, needle: Seq<char>)
    requires
        cause_text(error) matches Some(cause) && occurs_in(needle, cause),
    ensures
        occurs_in(needle, report_text(error)),
{
    let cause = cause_text(error)->Some_0;
    lemma_occurs_within(error_text(error) + ": "@, cause, Seq::empty(), needle);
    assert(error_text(error) + ": "@ + cause + Seq::<char>::empty() =~= report_text(error));
}

} // verus!
