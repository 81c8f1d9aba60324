//! The failures a build can end in.

use crate::text::texts;
use vstd::prelude::*;

verus! {

/// Why a build did not produce an assembly.
#[derive(Clone, Debug, PartialEq, Eq)]
pub enum BuildErrorKind {
    /// The command is not installed; `hint` tells how to get it.
    CommandNotFound { command: String, hint: String },
    /// The command ran and exited with a non-zero code.
    CommandFailed { command: String, code: i32, stderr: String },
    /// The command is installed in a version outside the required range.
    CommandVersionNotFulfilled { command: String, current: String, required: String, hint: String },
    /// No manifest file stands directly under the given path.
    InvalidCratePath(String),
    /// The compiler rejected the crate; the lines are its report.
    BuildFailed(Vec<String>),
    /// The requested crate type is not one the crate can be built as.
    InvalidCrateType(String),
    /// The crate has both a library and a binary, and no type was requested.
    MissingCrateType,
    /// Something that should not happen did.
    InternalError(String),
    /// Reading or decoding a file failed.
    OtherError,
}

/// A `BuildErrorKind` with its strings as character sequences.
pub enum BuildErrorModel {
    CommandNotFound { command: Seq<char>, hint: Seq<char> },
    CommandFailed { command: Seq<char>, code: i32, stderr: Seq<char> },
    CommandVersionNotFulfilled {
        command: Seq<char>,
        current: Seq<char>,
        required: Seq<char>,
        hint: Seq<char>,
    },
    InvalidCratePath(Seq<char>),
    BuildFailed(Seq<Seq<char>>),
    InvalidCrateType(Seq<char>),
    MissingCrateType,
    InternalError(Seq<char>),
    OtherError,
}

impl View for BuildErrorKind {
    type V = BuildErrorModel;

    open spec fn view(&self) -> BuildErrorModel {
        match *self {
            BuildErrorKind::CommandNotFound { command, hint } => BuildErrorModel::CommandNotFound {
                command: command@,
                hint: hint@,
            },
            BuildErrorKind::CommandFailed { command, code, stderr } => {
                BuildErrorModel::CommandFailed { command: command@, code, stderr: stderr@ }
            },
            BuildErrorKind::CommandVersionNotFulfilled { command, current, required, hint } => {
                BuildErrorModel::CommandVersionNotFulfilled {
                    command: command@,
                    current: current@,
                    required: required@,
                    hint: hint@,
                }
            },
            BuildErrorKind::InvalidCratePath(path) => BuildErrorModel::InvalidCratePath(path@),
            BuildErrorKind::BuildFailed(lines) => BuildErrorModel::BuildFailed(texts(lines@)),
            BuildErrorKind::InvalidCrateType(name) => BuildErrorModel::InvalidCrateType(name@),
            BuildErrorKind::MissingCrateType => BuildErrorModel::MissingCrateType,
            BuildErrorKind::InternalError(message) => BuildErrorModel::InternalError(message@),
            BuildErrorKind::OtherError => BuildErrorModel::OtherError,
        }
    }
}

/// The model of a result: the model of the value, or of the error.
pub open spec fn outcome<T: View>(r: Result<T, BuildErrorKind>) -> Result<T::V, BuildErrorModel> {
    match r {
        Ok(value) => Ok(value@),
        Err(error) => Err(error@),
    }
}

} // verus!
