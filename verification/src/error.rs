//! Error types of the storage, command-line and execution layers.

use vstd::prelude::*;
use crate::text::{copy_str, decimal, push_decimal, push_signed_decimal, push_str, signed_decimal};

verus! {

/// Storage-layer errors (load/corruption/save).
#[derive(Debug, Clone, PartialEq, Eq)]
pub enum StorageError {
    Io(String),
    CreateDir(String),
    Corrupted { path: String, backup: String, detail: String },
    ReadFailed(String),
    Serde(String),
}

/// Command-line parsing and resolution errors.
#[derive(Debug, Clone, PartialEq, Eq)]
pub enum CliError {
    InvalidUuid(String),
    SetNotFound(String),
    SetByGroupNotFound { group: String, set: String },
    Ambiguous { count: usize, detail: String },
    InvalidVar(String),
    MissingArgs,
    ExportWriteFailed(String),
    Storage(StorageError),
    Execution(ExecuteError),
}

/// Execution-layer errors (command spawn/fail). `idx` counts from 1.
#[derive(Debug, Clone, PartialEq, Eq)]
pub enum ExecuteError {
    SpawnFailed { idx: usize, detail: String },
    CommandFailed { idx: usize, code: Option<i32> },
}

/// `{:?}` of an optional exit code.
pub open spec fn code_text(code: Option<i32>) -> Seq<char> {
    match code {
        Some(c) => "Some("@ + signed_decimal(c as int) + ")"@,
        None => "None"@,
    }
}

/// The message of an execution error.
pub open spec fn execute_error_text(e: ExecuteError) -> Seq<char> {
    match e {
        ExecuteError::SpawnFailed { idx, detail } => "Command "@ + decimal(idx as nat) + " failed to spawn: "@ + detail@,
        ExecuteError::CommandFailed { idx, code } => "Command "@ + decimal(idx as nat) + " failed with exit code "@ + code_text(code),
    }
}

/// The message of a storage error.
pub open spec fn storage_error_text(e: StorageError) -> Seq<char> {
    match e {
        StorageError::Io(d) => "I/O error: "@ + d@,
        StorageError::CreateDir(d) => "Failed to create config directory: "@ + d@,
        StorageError::Corrupted { path, backup, detail } => "Corrupted data file `"@ + path@ + "`, backed up to `"@
            + backup@ + "`: "@ + detail@,
        StorageError::ReadFailed(d) => "Failed to read data file: "@ + d@,
        StorageError::Serde(d) => "Serialization error: "@ + d@,
    }
}

/// The message of a command-line error.
pub open spec fn cli_error_text(e: CliError) -> Seq<char> {
    match e {
        CliError::InvalidUuid(s) => "Invalid UUID: "@ + s@,
        CliError::SetNotFound(s) => "No command set with UUID "@ + s@,
        CliError::SetByGroupNotFound { group, set } => "No command set found for group '"@ + group@ + "' set '"@ + set@
            + "'"@,
        CliError::Ambiguous { count, detail } => "Ambiguous: found "@ + decimal(count as nat) + " matches:\n"@ + detail@,
        CliError::InvalidVar(s) => "Invalid --var format '"@ + s@ + "' (expected key=value)"@,
        CliError::MissingArgs => "Missing argument: specify --id or --group --set"@,
        CliError::ExportWriteFailed(s) => "Failed to write export file: "@ + s@,
        CliError::Storage(e) => storage_error_text(e),
        CliError::Execution(e) => execute_error_text(e),
    }
}

/// Appends the `{:?}` form of an optional exit code.
fn push_code(s: &mut String, code: Option<i32>)
    ensures
        final(s)@ == old(s)@ + code_text(code),
{
    match code {
        Some(c) => {
            push_str(s, "Some(");
            let ghost a = s@;
            push_signed_decimal(s, c as i64);
            push_str(s, ")");
            assert(old(s)@ + ("Some("@ + signed_decimal(c as int) + ")"@) =~= s@);
        },
        None => push_str(s, "None"),
    }
}

impl ExecuteError {
    /// The error's message.
    pub fn message(&self) -> (res: String)
        ensures
            res@ == execute_error_text(*self),
    {
        match self {
            ExecuteError::SpawnFailed { idx, detail } => {
                let mut s = copy_str("Command ");
                push_decimal(&mut s, *idx as u128);
                push_str(&mut s, " failed to spawn: ");
                push_str(&mut s, detail.as_str());
                assert(s@ =~= execute_error_text(*self));
                s
            },
            ExecuteError::CommandFailed { idx, code } => {
                let mut s = copy_str("Command ");
                push_decimal(&mut s, *idx as u128);
                push_str(&mut s, " failed with exit code ");
                push_code(&mut s, *code);
                assert(s@ =~= execute_error_text(*self));
                s
            },
        }
    }
}

impl StorageError {
    /// The error's message.
    pub fn message(&self) -> (res: String)
        ensures
            res@ == storage_error_text(*self),
    {
        let mut s;
        match self {
            StorageError::Io(d) => {
                s = copy_str("I/O error: ");
                push_str(&mut s, d.as_str());
            },
            StorageError::CreateDir(d) => {
                s = copy_str("Failed to create config directory: ");
                push_str(&mut s, d.as_str());
            },
            StorageError::Corrupted { path, backup, detail } => {
                s = copy_str("Corrupted data file `");
                push_str(&mut s, path.as_str());
                push_str(&mut s, "`, backed up to `");
                push_str(&mut s, backup.as_str());
                push_str(&mut s, "`: ");
                push_str(&mut s, detail.as_str());
            },
            StorageError::ReadFailed(d) => {
                s = copy_str("Failed to read data file: ");
                push_str(&mut s, d.as_str());
            },
            StorageError::Serde(d) => {
                s = copy_str("Serialization error: ");
                push_str(&mut s, d.as_str());
            },
        }
        assert(s@ =~= storage_error_text(*self));
        s
    }
}

impl CliError {
    /// The error's message.
    pub fn message(&self) -> (res: String)
        ensures
            res@ == cli_error_text(*self),
    {
        let mut s;
        match self {
            CliError::InvalidUuid(d) => {
                s = copy_str("Invalid UUID: ");
                push_str(&mut s, d.as_str());
            },
            CliError::SetNotFound(d) => {
                s = copy_str("No command set with UUID ");
                push_str(&mut s, d.as_str());
            },
            CliError::SetByGroupNotFound { group, set } => {
                s = copy_str("No command set found for group '");
                push_str(&mut s, group.as_str());
                push_str(&mut s, "' set '");
                push_str(&mut s, set.as_str());
                push_str(&mut s, "'");
            },
            CliError::Ambiguous { count, detail } => {
                s = copy_str("Ambiguous: found ");
                push_decimal(&mut s, *count as u128);
                push_str(&mut s, " matches:\n");
                push_str(&mut s, detail.as_str());
            },
            CliError::InvalidVar(d) => {
                s = copy_str("Invalid --var format '");
                push_str(&mut s, d.as_str());
                push_str(&mut s, "' (expected key=value)");
            },
            CliError::MissingArgs => {
                s = copy_str("Missing argument: specify --id or --group --set");
            },
            CliError::ExportWriteFailed(d) => {
                s = copy_str("Failed to write export file: ");
                push_str(&mut s, d.as_str());
            },
            CliError::Storage(e) => {
                s = e.message();
            },
            CliError::Execution(e) => {
                s = e.message();
            },
        }
        assert(s@ =~= cli_error_text(*self));
        s
    }
}

} // verus!
