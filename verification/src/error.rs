//! The failures of loading, checking and running a node.

use vstd::prelude::*;

verus! {

/// An error of the library.
#[derive(Debug)]
pub enum VesperError {
    /// The description of a node could not be parsed.
    ParseError(String),
    /// A node is not valid; `path` says where.
    ValidationError { path: String, message: String },
    /// A precondition does not hold; the condition is given.
    PreconditionFailed(String),
    /// A postcondition does not hold; the condition is given.
    PostconditionFailed(String),
    /// An invariant does not hold; the condition is given.
    InvariantViolated(String),
    /// A value is of the wrong kind.
    TypeError { expected: String, actual: String },
    /// A step names an operation that is not known.
    UnknownOperation(String),
    /// A required input is missing; its name is given.
    MissingInput(String),
    /// A node could not be run.
    ExecutionError(String),
    /// Reading or writing failed; the message of the failure is given.
    IoError(String),
    /// A YAML text is not well formed; the message of the parser is given.
    YamlError(String),
    /// A JSON text is not well formed; the message of the parser is given.
    JsonError(String),
}

/// What an error is, mathematically: its view.
pub enum ErrorModel {
    ParseError(Seq<char>),
    ValidationError { path: Seq<char>, message: Seq<char> },
    PreconditionFailed(Seq<char>),
    PostconditionFailed(Seq<char>),
    InvariantViolated(Seq<char>),
    TypeError { expected: Seq<char>, actual: Seq<char> },
    UnknownOperation(Seq<char>),
    MissingInput(Seq<char>),
    ExecutionError(Seq<char>),
    IoError(Seq<char>),
    YamlError(Seq<char>),
    JsonError(Seq<char>),
}

impl View for VesperError {
    type V = ErrorModel;

    open spec fn view(&self) -> ErrorModel {
        match self {
            VesperError::ParseError(s) => ErrorModel::ParseError(s@),
            VesperError::ValidationError { path, message } => ErrorModel::ValidationError {
                path: path@,
                message: message@,
            },
            VesperError::PreconditionFailed(s) => ErrorModel::PreconditionFailed(s@),
            VesperError::PostconditionFailed(s) => ErrorModel::PostconditionFailed(s@),
            VesperError::InvariantViolated(s) => ErrorModel::InvariantViolated(s@),
            VesperError::TypeError { expected, actual } => ErrorModel::TypeError {
                expected: expected@,
                actual: actual@,
            },
            VesperError::UnknownOperation(s) => ErrorModel::UnknownOperation(s@),
            VesperError::MissingInput(s) => ErrorModel::MissingInput(s@),
            VesperError::ExecutionError(s) => ErrorModel::ExecutionError(s@),
            VesperError::IoError(s) => ErrorModel::IoError(s@),
            VesperError::YamlError(s) => ErrorModel::YamlError(s@),
            VesperError::JsonError(s) => ErrorModel::JsonError(s@),
        }
    }
}

/// The views of a row of errors.
pub open spec fn error_views(errors: Seq<VesperError>) -> Seq<ErrorModel> {
    Seq::new(errors.len(), |i: int| errors[i]@)
}

/// The message of an error: what kind it is, then what it carries.
pub open spec fn message_text(e: ErrorModel) -> Seq<char> {
    match e {
        ErrorModel::ParseError(s) => "Parse error: "@ + s,
        ErrorModel::ValidationError { path, message } => "Validation error at "@ + path + ": "@
            + message,
        ErrorModel::PreconditionFailed(s) => "Precondition failed: "@ + s,
        ErrorModel::PostconditionFailed(s) => "Postcondition failed: "@ + s,
        ErrorModel::InvariantViolated(s) => "Invariant violated: "@ + s,
        ErrorModel::TypeError { expected, actual } => "Type error: expected "@ + expected
            + ", got "@ + actual,
        ErrorModel::UnknownOperation(s) => "Unknown operation: "@ + s,
        ErrorModel::MissingInput(s) => "Missing required input: "@ + s,
        ErrorModel::ExecutionError(s) => "Execution error: "@ + s,
        ErrorModel::IoError(s) => "IO error: "@ + s,
        ErrorModel::YamlError(s) => "YAML error: "@ + s,
        ErrorModel::JsonError(s) => "JSON error: "@ + s,
    }
}

/// `head` followed by `tail`.
pub fn join(head: &str, tail: &str) -> (r: String)
    ensures
        r@ == head@ + tail@,
{
    let mut r = String::from_str(head);
    r.append(tail);
    r
}

impl VesperError {
    /// The message of the error.
    pub fn message(&self) -> (r: String)
        ensures
            r@ == message_text(self@),
    {
        match self {
            VesperError::ParseError(s) => join("Parse error: ", s.as_str()),
            VesperError::ValidationError { path, message } => {
                let mut r = join("Validation error at ", path.as_str());
                r.append(": ");
                r.append(message.as_str());
                r
            },
            VesperError::PreconditionFailed(s) => join("Precondition failed: ", s.as_str()),
            VesperError::PostconditionFailed(s) => join("Postcondition failed: ", s.as_str()),
            VesperError::InvariantViolated(s) => join("Invariant violated: ", s.as_str()),
            VesperError::TypeError { expected, actual } => {
                let mut r = join("Type error: expected ", expected.as_str());
                r.append(", got ");
                r.append(actual.as_str());
                r
            },
            VesperError::UnknownOperation(s) => join("Unknown operation: ", s.as_str()),
            VesperError::MissingInput(s) => join("Missing required input: ", s.as_str()),
            VesperError::ExecutionError(s) => join("Execution error: ", s.as_str()),
            VesperError::IoError(s) => join("IO error: ", s.as_str()),
            VesperError::YamlError(s) => join("YAML error: ", s.as_str()),
            VesperError::JsonError(s) => join("JSON error: ", s.as_str()),
        }
    }
}

} // verus!
