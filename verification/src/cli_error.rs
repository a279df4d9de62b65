//! Failures of the command-line tool.

use crate::text::{signed_decimal, signed_decimal_seq};
use vstd::prelude::*;

verus! {

/// Why a command failed.
#[derive(Debug)]
pub enum CliError {
    Message(String),
    InvalidContractName { name: String, reason: String },
    PathAlreadyExists(String),
    NotAForgeProject(String),
    MissingTool { tool: String, hint: String },
    CommandFailed { program: String, code: i32 },
    Io(String),
    CargoMetadata(String),
    Toml(String),
}

/// The text of a failure.
pub open spec fn cli_error_text(e: CliError) -> Seq<char> {
    match e {
        CliError::Message(text) => text@,
        CliError::InvalidContractName { name, reason } => "invalid contract name '"@ + name@
            + "': "@ + reason@,
        CliError::PathAlreadyExists(path) => "path already exists: "@ + path@,
        CliError::NotAForgeProject(path) => "expected a Dusk Forge contract project at "@ + path@,
        CliError::MissingTool { tool, hint } => "required tool not found: "@ + tool@ + ". "@
            + hint@,
        CliError::CommandFailed { program, code } => "command failed: "@ + program@
            + " (exit code "@ + signed_decimal_seq(code as int) + ")"@,
        CliError::Io(detail) => "I/O error: "@ + detail@,
        CliError::CargoMetadata(detail) => "cargo metadata error: "@ + detail@,
        CliError::Toml(detail) => "TOML parse error: "@ + detail@,
    }
}

impl CliError {
    /// The text of the failure.
    pub fn message(&self) -> (r: String)
        ensures
            r@ == cli_error_text(*self),
    {
        match self {
            CliError::Message(text) => text.clone(),
            CliError::InvalidContractName { name, reason } => {
                let mut out = String::from_str("invalid contract name '");
                out.append(name.as_str());
                out.append("': ");
                out.append(reason.as_str());
                out
            },
            CliError::PathAlreadyExists(path) => {
                let mut out = String::from_str("path already exists: ");
                out.append(path.as_str());
                out
            },
            CliError::NotAForgeProject(path) => {
                let mut out = String::from_str("expected a Dusk Forge contract project at ");
                out.append(path.as_str());
                out
            },
            CliError::MissingTool { tool, hint } => {
                let mut out = String::from_str("required tool not found: ");
                out.append(tool.as_str());
                out.append(". ");
                out.append(hint.as_str());
                out
            },
            CliError::CommandFailed { program, code } => {
                let mut out = String::from_str("command failed: ");
                out.append(program.as_str());
                out.append(" (exit code ");
                out.append(signed_decimal(*code).as_str());
                out.append(")");
                out
            },
            CliError::Io(detail) => {
                let mut out = String::from_str("I/O error: ");
                out.append(detail.as_str());
                out
            },
            CliError::CargoMetadata(detail) => {
                let mut out = String::from_str("cargo metadata error: ");
                out.append(detail.as_str());
                out
            },
            CliError::Toml(detail) => {
                let mut out = String::from_str("TOML parse error: ");
                out.append(detail.as_str());
                out
            },
        }
    }
}

} // verus!
