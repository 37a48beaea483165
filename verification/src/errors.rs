//! The error taxonomy shared by the sync engine, the execution service and
//! the REPL: one flat classification, each variant carrying the plain values
//! needed to report it.

use vstd::prelude::*;

use crate::script::{Diagnostic, FileContent};
use crate::text::dec_digits;

verus! {

/// Everything a script operation can fail with.
#[derive(Debug, PartialEq)]
pub enum Error {
    /// The current directory is missing the manifest or the code file.
    NotAWorkspace,
    /// The manifest file exists but cannot be parsed; the workspace must be
    /// cloned again.
    CorruptManifest,
    /// A local workspace directory for this id already exists.
    WorkspaceAlreadyExists { id: String },
    /// The remote already has a script with this id.
    ScriptAlreadyExists { id: String },
    /// The requested script is not in the caller's script list.
    ScriptDoesNotExist { id: String },
    /// The manifest names a script that the remote no longer shows to the
    /// caller.
    ScriptNoLongerAccessible { id: String },
    /// The remote refused to delete the script because automations depend on
    /// it.
    HasDependentAutomations { id: String },
    /// Local validation rejected the input before any remote call was made.
    InvalidInput { message: String },
    /// A lint found problems; carries everything needed to render them.
    LintErrors { diagnostics: Vec<Diagnostic>, code: String, file_contents: Vec<FileContent> },
    /// The script itself faulted while running remotely.
    RunErrors { diagnostics: Vec<Diagnostic>, code: String, file_contents: Vec<FileContent> },
    /// The remote denied access to the resource.
    PermissionDenied,
    /// The remote is currently unable to respond properly.
    ServerUnavailable,
    /// Any other failure of a remote call, with its description.
    Unknown { message: String },
    /// A local read or write failed, with the underlying cause.
    Io { message: String },
}

/// How a remote call failed, as plain values: either the server answered
/// with an unexpected status code, or the request itself did not go through.
#[derive(Debug, PartialEq)]
pub enum RemoteFailure {
    Status { code: u16 },
    Transport { message: String },
}

/// The HTTP status the remote uses for a rejected entity (an id collision on
/// create, an unknown id on delete).
pub const STATUS_UNPROCESSABLE: u16 = 422;

/// The HTTP status the remote uses when referential integrity blocks an
/// action.
pub const STATUS_CONFLICT: u16 = 409;

/// The HTTP status for a permission failure.
pub const STATUS_FORBIDDEN: u16 = 403;

/// The HTTP status for an unavailable server.
pub const STATUS_UNAVAILABLE: u16 = 503;

/// The message reported for a status code no classification expects.
pub open spec fn unexpected_status_message(code: u16) -> Seq<char> {
    "unexpected server status "@ + dec_digits(code as nat)
}

/// The catch-all classification of a failed remote call: a permission
/// failure, an unavailable server, or an unknown error carrying its
/// description.
pub open spec fn is_fallback_error(f: RemoteFailure, e: Error) -> bool {
    match f {
        RemoteFailure::Status { code } => match e {
            Error::PermissionDenied => code == STATUS_FORBIDDEN,
            Error::ServerUnavailable => code == STATUS_UNAVAILABLE,
            Error::Unknown { message } => code != STATUS_FORBIDDEN && code != STATUS_UNAVAILABLE
                && message@ == unexpected_status_message(code),
            _ => false,
        },
        RemoteFailure::Transport { message: cause } => match e {
            Error::Unknown { message } => message == cause,
            _ => false,
        },
    }
}

/// Classifies a failed remote call when no operation-specific status applies.
pub fn fallback_error(f: RemoteFailure) -> (e: Error)
    ensures
        is_fallback_error(f, e),
{
    match f {
        RemoteFailure::Status { code } => {
            if code == STATUS_FORBIDDEN {
                Error::PermissionDenied
            } else if code == STATUS_UNAVAILABLE {
                Error::ServerUnavailable
            } else {
                let mut message = String::new();
                message.append("unexpected server status ");
                message.append(crate::text::u64_to_string(code as u64).as_str());
                proof {
                    reveal_strlit("unexpected server status ");
                    assert(message@ =~= unexpected_status_message(code));
                }
                Error::Unknown { message }
            }
        },
        RemoteFailure::Transport { message } => Error::Unknown { message },
    }
}

/// The text each error is reported with.
pub open spec fn error_message(e: Error) -> Seq<char> {
    match e {
        Error::NotAWorkspace => "Not a valid Homescript directory: (missing files?)"@,
        Error::CorruptManifest => "Invalid Homescript manifest (at `.hms.toml`)\n => Clone this script again"@,
        Error::WorkspaceAlreadyExists { id } => "Cannot clone: directory at `./"@ + id@
            + "` already exists."@,
        Error::ScriptAlreadyExists { id } => "Script `"@ + id@ + "` already exists"@,
        Error::ScriptDoesNotExist { id } => "Script `"@ + id@
            + "` does not exist or is inaccessible"@,
        Error::ScriptNoLongerAccessible { id } => "Cannot perform action on script `"@ + id@
            + "`: script does not exist or is inaccessible"@,
        Error::HasDependentAutomations { id } => "Automations depend on script `"@ + id@ + "`"@,
        Error::InvalidInput { message } => "Invalid data: "@ + message@,
        Error::LintErrors { diagnostics, code, file_contents } => "Linting discovered problems:\n"@
            + crate::render::render_all(diagnostics@, code@, file_contents@, "\n\n"@),
        Error::RunErrors { diagnostics, code, file_contents } =>
            "Homescript terminated with errors:\n"@
            + crate::render::render_all(diagnostics@, code@, file_contents@, "\n\n"@),
        Error::PermissionDenied => "Access to this resource has been denied"@,
        Error::ServerUnavailable => "Smarthome is currently unavailable"@,
        Error::Unknown { message } => "Smarthome Error: "@ + message@,
        Error::Io { message } => "Could not perform IO operation: "@ + message@,
    }
}

impl Error {
    /// Renders this error for the user.
    pub fn message(&self) -> (r: String)
        ensures
            r@ == error_message(*self),
    {
        let mut s = String::new();
        match self {
            Error::NotAWorkspace => {
                s.append("Not a valid Homescript directory: (missing files?)");
            },
            Error::CorruptManifest => {
                s.append("Invalid Homescript manifest (at `.hms.toml`)\n => Clone this script again");
            },
            Error::WorkspaceAlreadyExists { id } => {
                s.append("Cannot clone: directory at `./");
                s.append(id.as_str());
                s.append("` already exists.");
            },
            Error::ScriptAlreadyExists { id } => {
                s.append("Script `");
                s.append(id.as_str());
                s.append("` already exists");
            },
            Error::ScriptDoesNotExist { id } => {
                s.append("Script `");
                s.append(id.as_str());
                s.append("` does not exist or is inaccessible");
            },
            Error::ScriptNoLongerAccessible { id } => {
                s.append("Cannot perform action on script `");
                s.append(id.as_str());
                s.append("`: script does not exist or is inaccessible");
            },
            Error::HasDependentAutomations { id } => {
                s.append("Automations depend on script `");
                s.append(id.as_str());
                s.append("`");
            },
            Error::InvalidInput { message } => {
                s.append("Invalid data: ");
                s.append(message.as_str());
            },
            Error::LintErrors { diagnostics, code, file_contents } => {
                s.append("Linting discovered problems:\n");
                s.append(crate::render::render(diagnostics, code, file_contents, "\n\n").as_str());
            },
            Error::RunErrors { diagnostics, code, file_contents } => {
                s.append("Homescript terminated with errors:\n");
                s.append(crate::render::render(diagnostics, code, file_contents, "\n\n").as_str());
            },
            Error::PermissionDenied => {
                s.append("Access to this resource has been denied");
            },
            Error::ServerUnavailable => {
                s.append("Smarthome is currently unavailable");
            },
            Error::Unknown { message } => {
                s.append("Smarthome Error: ");
                s.append(message.as_str());
            },
            Error::Io { message } => {
                s.append("Could not perform IO operation: ");
                s.append(message.as_str());
            },
        }
        proof {
            assert(s@ =~= error_message(*self));
        }
        s
    }
}

} // verus!
