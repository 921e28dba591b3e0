//! Validation errors and the state that accumulates them. Every validator
//! appends to one [`ValidationState`] and none aborts the run: a single pass
//! reports every problem it can find. An error is immutable once created.

use vstd::prelude::*;
use crate::config::ActionType;

verus! {

/// Stable machine-readable identifier of one kind of validation error.
#[derive(Copy, Clone, Debug, PartialEq, Eq, Structural)]
pub enum ErrorCode {
    /// A `uses:` string matches no known reference grammar.
    InvalidUses,
    /// A classified action or path reference could not be confirmed to exist.
    ActionNotFound,
    /// A classified container reference's registry responded "not found".
    DockerActionNotFound,
    /// A remote probe failed at the transport level or returned a status
    /// this crate does not recognize.
    UnexpectedServerResponse,
    /// A `needs` entry names a job identifier the document does not declare.
    UnresolvedJob,
    /// A glob pattern fails to compile.
    InvalidGlob,
    /// A glob pattern compiles but matches no files.
    GlobNotMatched,
}

impl ErrorCode {
    /// The identifier under which this code is reported.
    pub open spec fn spec_str(self) -> Seq<char> {
        match self {
            ErrorCode::InvalidUses => "invalid_uses"@,
            ErrorCode::ActionNotFound => "action_not_found"@,
            ErrorCode::DockerActionNotFound => "docker_action_not_found"@,
            ErrorCode::UnexpectedServerResponse => "unexpected_server_response"@,
            ErrorCode::UnresolvedJob => "unresolved_job"@,
            ErrorCode::InvalidGlob => "invalid_glob"@,
            ErrorCode::GlobNotMatched => "glob_not_matched"@,
        }
    }

    /// Renders the identifier.
    pub fn as_str(&self) -> (r: &'static str)
        ensures
            r@ == self.spec_str(),
    {
        match self {
            ErrorCode::InvalidUses => "invalid_uses",
            ErrorCode::ActionNotFound => "action_not_found",
            ErrorCode::DockerActionNotFound => "docker_action_not_found",
            ErrorCode::UnexpectedServerResponse => "unexpected_server_response",
            ErrorCode::UnresolvedJob => "unresolved_job",
            ErrorCode::InvalidGlob => "invalid_glob",
            ErrorCode::GlobNotMatched => "glob_not_matched",
        }
    }
}

/// One validation finding: a stable code, a human-readable title, an
/// optional detail message, and the locator of the document position the
/// finding is about.
#[derive(Debug)]
pub struct ValidationError {
    pub code: ErrorCode,
    pub title: String,
    pub detail: Option<String>,
    pub origin: String,
}

/// The mathematical value of a [`ValidationError`]: the same fields with
/// strings read as character sequences.
#[verifier::ext_equal]
pub ghost struct ErrorView {
    pub code: ErrorCode,
    pub title: Seq<char>,
    pub detail: Option<Seq<char>>,
    pub origin: Seq<char>,
}

impl View for ValidationError {
    type V = ErrorView;

    open spec fn view(&self) -> ErrorView {
        ErrorView {
            code: self.code,
            title: self.title@,
            detail: match self.detail {
                Some(d) => Some(d@),
                None => None,
            },
            origin: self.origin@,
        }
    }
}

/// The views of a list of errors, in order.
pub open spec fn errors_view(errors: Seq<ValidationError>) -> Seq<ErrorView> {
    errors.map_values(|e: ValidationError| e@)
}

/// The outcome of validating one document: the errors found, in the order
/// they were found, plus metadata the driver sets once after all validators
/// ran.
#[derive(Debug)]
pub struct ValidationState {
    pub errors: Vec<ValidationError>,
    pub action_type: Option<ActionType>,
    pub file_path: Option<String>,
}

impl ValidationState {
    /// A fresh state: no errors, no metadata.
    pub fn new() -> (r: ValidationState)
        ensures
            r.errors@.len() == 0,
            r.action_type is None,
            r.file_path is None,
    {
        ValidationState { errors: Vec::new(), action_type: None, file_path: None }
    }

    /// Appends one error; nothing is ever removed or reordered.
    pub fn push(&mut self, error: ValidationError)
        ensures
            final(self).errors@ == old(self).errors@.push(error),
            final(self).action_type == old(self).action_type,
            final(self).file_path == old(self).file_path,
    {
        self.errors.push(error);
    }

    /// A document is valid exactly when no validator found an error.
    pub fn is_valid(&self) -> (r: bool)
        ensures
            r == (self.errors@.len() == 0),
    {
        self.errors.len() == 0
    }
}

} // verus!
