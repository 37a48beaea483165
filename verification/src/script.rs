//! Plain data model of the remote server's view of a script and of the
//! result of executing or linting script code.
//!
//! The remote API client hands these values to the library as plain strings,
//! booleans and integers; every decision the library makes is stated over
//! them.

use vstd::prelude::*;

verus! {

/// Whether a script is an ordinary script or a device driver.
#[derive(Clone, Copy, PartialEq, Eq, Structural, Debug)]
pub enum ScriptKind {
    Normal,
    Driver,
}

/// The server's full record of one script. The client only ever reads a
/// complete copy or submits a complete replacement; it never patches single
/// fields.
#[derive(Clone, Debug, PartialEq)]
pub struct HomescriptData {
    pub id: String,
    pub name: String,
    pub description: String,
    pub quick_actions_enabled: bool,
    pub scheduler_enabled: bool,
    pub is_widget: bool,
    pub code: String,
    pub md_icon: String,
    pub kind: ScriptKind,
    pub workspace: String,
}

/// A position inside a source file, one-based as reported by the server.
#[derive(Clone, Copy, PartialEq, Eq, Structural, Debug)]
pub struct SourceLocation {
    pub line: usize,
    pub column: usize,
}

/// The region of source text a diagnostic refers to.
#[derive(Clone, Debug, PartialEq)]
pub struct SourceSpan {
    pub filename: String,
    pub start: SourceLocation,
    pub end: SourceLocation,
}

/// How severe a diagnostic is. Diagnostic levels run from hints (level 0)
/// upwards; [`ERROR_LEVEL`] and above mean the script is in error.
#[derive(Clone, Copy, PartialEq, Eq, Structural, Debug)]
pub enum Severity {
    /// The code could not be parsed at all.
    Syntax,
    /// A static-analysis finding with a numeric level.
    Diagnostic { level: u8 },
    /// The script faulted while running.
    Runtime,
}

/// The diagnostic level at which a finding counts as an error.
pub const ERROR_LEVEL: u8 = 2;

/// One issue reported by a lint or run, in the order the server returned it.
#[derive(Clone, Debug, PartialEq)]
pub struct Diagnostic {
    pub span: SourceSpan,
    pub severity: Severity,
    pub message: String,
}

/// The source text of one file involved in an execution, keyed by filename.
#[derive(Clone, Debug, PartialEq)]
pub struct FileContent {
    pub filename: String,
    pub content: String,
}

/// The complete result of one remote execution or lint request.
#[derive(Clone, Debug, PartialEq)]
pub struct ExecutionResult {
    pub success: bool,
    pub exit_code: i32,
    pub output: String,
    pub diagnostics: Vec<Diagnostic>,
    pub file_contents: Vec<FileContent>,
}

impl Severity {
    /// Whether a diagnostic of this severity means the script is broken:
    /// either a syntax error or a finding at or above [`ERROR_LEVEL`].
    pub open spec fn is_severe_spec(self) -> bool {
        match self {
            Severity::Syntax => true,
            Severity::Diagnostic { level } => level >= ERROR_LEVEL,
            Severity::Runtime => false,
        }
    }

    /// Executable counterpart of [`Self::is_severe_spec`].
    pub fn is_severe(&self) -> (r: bool)
        ensures
            r == self.is_severe_spec(),
    {
        match self {
            Severity::Syntax => true,
            Severity::Diagnostic { level } => *level >= ERROR_LEVEL,
            Severity::Runtime => false,
        }
    }
}

} // verus!
