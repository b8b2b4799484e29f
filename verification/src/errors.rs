//! The errors that a tool call ends with.

use crate::context::{clone_strings};
use crate::encoding::{decimal, push_decimal_str};
use crate::inspection::InspectionLimits;
use crate::lines::strs;
use crate::runner::RunResult;
use crate::symbol::{kind_label, SymbolIdentity, SymbolKind};
use vstd::prelude::*;
use vstd::string::StringExecFns;

verus! {

/// The kind of an error, as the tool protocol codes it.
#[derive(Debug, Clone, Copy, PartialEq, Eq, Structural)]
pub enum ErrorCode {
    /// The request is wrong or says too little.
    InvalidParams,
    /// What was asked for is not there.
    ResourceNotFound,
    /// The work could not be done.
    InternalError,
}

/// What an error carries besides its message.
#[derive(Debug)]
pub enum ErrorData {
    Nothing,
    /// The position at which no symbol was found.
    Position { file_path: String, line: u32, character: u32 },
    /// The kind of the item that is no function.
    Kind { kind: SymbolKind },
    /// The time in seconds that the compiler was allowed.
    Timeout { timeout_seconds: u64 },
    /// The file that could not be read.
    Artifact { artifact: String },
    /// The file that is too large, the limit and its size, in bytes.
    ArtifactLimit { artifact: String, limit_bytes: usize, observed_bytes: usize },
    /// How the compiler failed.
    CompilerFailure { status: Option<i32>, stdout: String, stderr: String, command: Vec<String> },
}

/// What an [`ErrorData`] holds, as plain values.
pub enum DataModel {
    Nothing,
    Position { file_path: Seq<char>, line: u32, character: u32 },
    Kind { kind: SymbolKind },
    Timeout { timeout_seconds: u64 },
    Artifact { artifact: Seq<char> },
    ArtifactLimit { artifact: Seq<char>, limit_bytes: usize, observed_bytes: usize },
    CompilerFailure {
        status: Option<i32>,
        stdout: Seq<char>,
        stderr: Seq<char>,
        command: Seq<Seq<char>>,
    },
}

impl View for ErrorData {
    type V = DataModel;

    open spec fn view(&self) -> DataModel {
        match self {
            ErrorData::Nothing => DataModel::Nothing,
            ErrorData::Position { file_path, line, character } => DataModel::Position {
                file_path: file_path@,
                line: *line,
                character: *character,
            },
            ErrorData::Kind { kind } => DataModel::Kind { kind: *kind },
            ErrorData::Timeout { timeout_seconds } => DataModel::Timeout {
                timeout_seconds: *timeout_seconds,
            },
            ErrorData::Artifact { artifact } => DataModel::Artifact { artifact: artifact@ },
            ErrorData::ArtifactLimit { artifact, limit_bytes, observed_bytes } => {
                DataModel::ArtifactLimit {
                    artifact: artifact@,
                    limit_bytes: *limit_bytes,
                    observed_bytes: *observed_bytes,
                }
            },
            ErrorData::CompilerFailure { status, stdout, stderr, command } => {
                DataModel::CompilerFailure {
                    status: *status,
                    stdout: stdout@,
                    stderr: stderr@,
                    command: strs(command@),
                }
            },
        }
    }
}

/// An error of a tool call: its code, its message, and what it carries.
#[derive(Debug)]
pub struct ToolError {
    pub code: ErrorCode,
    pub message: String,
    pub data: ErrorData,
}

/// What a [`ToolError`] holds, as plain values.
pub struct ErrorModel {
    pub code: ErrorCode,
    pub message: Seq<char>,
    pub data: DataModel,
}

impl View for ToolError {
    type V = ErrorModel;

    open spec fn view(&self) -> ErrorModel {
        ErrorModel { code: self.code, message: self.message@, data: self.data@ }
    }
}

/// The error with `code` and `message` that carries nothing else.
pub open spec fn plain_error(code: ErrorCode, message: Seq<char>) -> ErrorModel {
    ErrorModel { code, message, data: DataModel::Nothing }
}

/// The error with `code` and `message` that carries nothing else.
pub fn mcp_error(code: ErrorCode, message: String) -> (error: ToolError)
    ensures
        error@ == plain_error(code, message@),
{
    ToolError { code, message, data: ErrorData::Nothing }
}

/// The error for a position at which there is no symbol.
pub open spec fn symbol_not_found(file_path: Seq<char>, line: u32, character: u32) -> ErrorModel {
    ErrorModel {
        code: ErrorCode::ResourceNotFound,
        message: "No symbol found at "@ + file_path + ":"@ + decimal(line as nat) + ":"@ + decimal(
            character as nat,
        ),
        data: DataModel::Position { file_path, line, character },
    }
}

/// The error for a position at which there is no symbol.
pub fn symbol_not_found_error(file_path: &str, line: u32, character: u32) -> (error: ToolError)
    ensures
        error@ == symbol_not_found(file_path@, line, character),
{
    let mut message = String::from_str("No symbol found at ");
    message.append(file_path);
    message.append(":");
    push_decimal_str(&mut message, line as u64);
    message.append(":");
    push_decimal_str(&mut message, character as u64);
    ToolError {
        code: ErrorCode::ResourceNotFound,
        message,
        data: ErrorData::Position { file_path: String::from_str(file_path), line, character },
    }
}

/// The error for an item of `kind` where a function is needed.
pub open spec fn non_function(kind: SymbolKind) -> ErrorModel {
    ErrorModel {
        code: ErrorCode::InvalidParams,
        message: "Item at position is not a function (found "@ + kind_label(kind) + ")"@,
        data: DataModel::Kind { kind },
    }
}

/// The error for an item that is no function where a function is needed.
pub fn non_function_error(identity: &SymbolIdentity) -> (error: ToolError)
    ensures
        error@ == non_function(identity.kind),
{
    let mut message = String::from_str("Item at position is not a function (found ");
    message.append(identity.kind.label());
    message.append(")");
    ToolError {
        code: ErrorCode::InvalidParams,
        message,
        data: ErrorData::Kind { kind: identity.kind },
    }
}

/// The error for a compiler that ended without success.
pub open spec fn compiler_failure(
    status: Option<i32>,
    stdout: Seq<char>,
    stderr: Seq<char>,
    command: Seq<Seq<char>>,
) -> ErrorModel {
    ErrorModel {
        code: ErrorCode::InternalError,
        message: "Compiler run failed"@,
        data: DataModel::CompilerFailure { status, stdout, stderr, command },
    }
}

/// The error for a compiler that ended without success. It carries the
/// status, the output and the command of the run.
pub fn compiler_failure_error(result: &RunResult) -> (error: ToolError)
    ensures
        error@ == compiler_failure(
            result.status,
            result.stdout@,
            result.stderr@,
            strs(result.command@),
        ),
{
    ToolError {
        code: ErrorCode::InternalError,
        message: String::from_str("Compiler run failed"),
        data: ErrorData::CompilerFailure {
            status: result.status,
            stdout: result.stdout.clone(),
            stderr: result.stderr.clone(),
            command: clone_strings(&result.command),
        },
    }
}

/// The error for a compiler that ran longer than `seconds`.
pub open spec fn compiler_timeout(seconds: u64) -> ErrorModel {
    ErrorModel {
        code: ErrorCode::InternalError,
        message: "Compiler run timed out after "@ + decimal(seconds as nat)
            + " seconds. Try narrowing the request or limiting emitted artifacts."@,
        data: DataModel::Timeout { timeout_seconds: seconds },
    }
}

/// The error for a compiler that ran longer than `seconds`.
pub fn compiler_timeout_error(seconds: u64) -> (error: ToolError)
    ensures
        error@ == compiler_timeout(seconds),
{
    let mut message = String::from_str("Compiler run timed out after ");
    push_decimal_str(&mut message, seconds);
    message.append(" seconds. Try narrowing the request or limiting emitted artifacts.");
    ToolError {
        code: ErrorCode::InternalError,
        message,
        data: ErrorData::Timeout { timeout_seconds: seconds },
    }
}

/// The error for the file at `path`, of `size` bytes, where `limit` is the
/// most a file may have.
pub open spec fn artifact_too_large(path: Seq<char>, size: usize, limit: usize) -> ErrorModel {
    ErrorModel {
        code: ErrorCode::InternalError,
        message: "Artifact "@ + path + " exceeded the size limit ("@ + decimal(size as nat)
            + " bytes > "@ + decimal(limit as nat)
            + " bytes). Request a smaller output (e.g., a single symbol or target)."@,
        data: DataModel::ArtifactLimit { artifact: path, limit_bytes: limit, observed_bytes: size },
    }
}

/// Holds the file at `path`, of `size` bytes, to the limit on output: a
/// file larger than `limits.max_output_bytes` is an error that names the
/// file, its size and the limit.
pub fn enforce_artifact_limit(path: &str, size: usize, limits: &InspectionLimits) -> (result:
    Result<(), ToolError>)
    ensures
        size <= limits.max_output_bytes ==> result is Ok,
        size > limits.max_output_bytes ==> result is Err && result->Err_0@ == artifact_too_large(
            path@,
            size,
            limits.max_output_bytes,
        ),
{
    if size > limits.max_output_bytes {
        let mut message = String::from_str("Artifact ");
        message.append(path);
        message.append(" exceeded the size limit (");
        push_decimal_str(&mut message, size as u64);
        message.append(" bytes > ");
        push_decimal_str(&mut message, limits.max_output_bytes as u64);
        message.append(" bytes). Request a smaller output (e.g., a single symbol or target).");
        return Err(
            ToolError {
                code: ErrorCode::InternalError,
                message,
                data: ErrorData::ArtifactLimit {
                    artifact: String::from_str(path),
                    limit_bytes: limits.max_output_bytes,
                    observed_bytes: size,
                },
            },
        );
    }
    Ok(())
}

/// The error for the file at `path` that could not be read; `what` names
/// the kind of file and `reason` says why.
pub open spec fn artifact_unreadable(what: Seq<char>, path: Seq<char>, reason: Seq<char>)
    -> ErrorModel {
    ErrorModel {
        code: ErrorCode::InternalError,
        message: "Failed to read "@ + what + " "@ + path + ": "@ + reason,
        data: DataModel::Artifact { artifact: path },
    }
}

/// The error for the file at `path` that could not be read.
pub fn artifact_unreadable_error(what: &str, path: &str, reason: &str) -> (error: ToolError)
    ensures
        error@ == artifact_unreadable(what@, path@, reason@),
{
    let mut message = String::from_str("Failed to read ");
    message.append(what);
    message.append(" ");
    message.append(path);
    message.append(": ");
    message.append(reason);
    ToolError {
        code: ErrorCode::InternalError,
        message,
        data: ErrorData::Artifact { artifact: String::from_str(path) },
    }
}

/// The error with `code` whose message is `prefix` and then `detail`.
pub fn prefixed_error(code: ErrorCode, prefix: &str, detail: &str) -> (error: ToolError)
    ensures
        error@ == plain_error(code, prefix@ + detail@),
{
    let mut message = String::from_str(prefix);
    message.append(detail);
    mcp_error(code, message)
}

} // verus!
