//! The failures a command can report.

use vstd::prelude::*;
use vstd::string::*;

verus! {

/// The kinds of failure. Every failure ends the command that met it.
#[derive(Clone, Copy, Debug, PartialEq, Eq)]
pub enum ErrorKind {
    /// The path was blank or the buffer empty.
    InvalidInput,
    /// The path names nothing on disk.
    NotFound,
    /// The operating system refused a file operation or could not start a process.
    IoError,
    /// The bytes are not an image that can be decoded.
    DecodeError,
    /// The system clipboard could not be opened.
    ClipboardUnavailable,
    /// The system clipboard refused the image.
    ClipboardWriteError,
    /// The file manager ran and reported failure.
    ExternalProcessError,
    /// No way of revealing a file is known for this platform.
    UnsupportedPlatform,
}

/// A failure: its kind, and the message shown to the caller.
#[derive(Debug, PartialEq, Eq)]
pub struct CommandError {
    pub kind: ErrorKind,
    pub message: String,
}

/// What a `CommandError` stands for in contracts.
pub struct ErrorView {
    pub kind: ErrorKind,
    pub message: Seq<char>,
}

impl View for CommandError {
    type V = ErrorView;

    open spec fn view(&self) -> ErrorView {
        ErrorView { kind: self.kind, message: self.message@ }
    }
}

impl Clone for CommandError {
    /// A copy with the same kind and message.
    fn clone(&self) -> (copy: CommandError)
        ensures
            copy@ == self@,
    {
        CommandError { kind: self.kind, message: self.message.clone() }
    }
}

/// What the result of a command stands for in contracts.
pub open spec fn result_view<T: View>(result: Result<T, CommandError>) -> Result<T::V, ErrorView> {
    match result {
        Ok(value) => Ok(value@),
        Err(error) => Err(error@),
    }
}

/// Whether a result is the failure of the given kind with the given message.
pub open spec fn fails_with<T>(
    result: Result<T, ErrorView>,
    kind: ErrorKind,
    message: Seq<char>,
) -> bool {
    result matches Err(error) && error.kind == kind && error.message == message
}

/// The message for a blank path handed to the metadata or trash command.
pub open spec fn empty_target_message() -> Seq<char> {
    "Target path was empty."@
}

/// The message for a blank path handed to the reveal command.
pub open spec fn empty_path_message() -> Seq<char> {
    "Path was empty."@
}

/// The message for an empty image buffer.
pub open spec fn empty_image_message() -> Seq<char> {
    "Image data was empty."@
}

/// The message for a path that names nothing on disk.
pub open spec fn missing_path_message(path: Seq<char>) -> Seq<char> {
    "Path does not exist: "@ + path
}

/// The message for a file manager that reported failure. `invocation` is the
/// command line as the user would type it, `status` the exit status as text.
pub open spec fn exit_status_message(invocation: Seq<char>, status: Seq<char>) -> Seq<char> {
    invocation + " exited with status: "@ + status
}

/// The message for a platform without a reveal strategy.
pub open spec fn unsupported_platform_message() -> Seq<char> {
    "Reveal in file manager is not supported on this platform."@
}

impl CommandError {
    /// A failure of the given kind that carries `message` unchanged.
    pub fn new(kind: ErrorKind, message: String) -> (e: CommandError)
        ensures
            e@ == (ErrorView { kind, message: message@ }),
    {
        CommandError { kind, message }
    }

    /// The input was blank or empty; `message` says which input.
    pub fn invalid_input(message: &str) -> (e: CommandError)
        ensures
            e@ == (ErrorView { kind: ErrorKind::InvalidInput, message: message@ }),
    {
        CommandError { kind: ErrorKind::InvalidInput, message: String::from_str(message) }
    }

    /// `path` names nothing on disk.
    pub fn not_found(path: &str) -> (e: CommandError)
        ensures
            e@ == (ErrorView {
                kind: ErrorKind::NotFound,
                message: missing_path_message(path@),
            }),
    {
        let message = String::from_str("Path does not exist: ").concat(path);
        CommandError { kind: ErrorKind::NotFound, message }
    }

    /// The file manager started as `invocation` ended with the failure `status`.
    pub fn external_process(invocation: &str, status: &str) -> (e: CommandError)
        ensures
            e@ == (ErrorView {
                kind: ErrorKind::ExternalProcessError,
                message: exit_status_message(invocation@, status@),
            }),
    {
        let message = String::from_str(invocation).concat(" exited with status: ").concat(status);
        CommandError { kind: ErrorKind::ExternalProcessError, message }
    }

    /// No reveal strategy exists for the platform.
    pub fn unsupported_platform() -> (e: CommandError)
        ensures
            e@ == (ErrorView {
                kind: ErrorKind::UnsupportedPlatform,
                message: unsupported_platform_message(),
            }),
    {
        CommandError {
            kind: ErrorKind::UnsupportedPlatform,
            message: String::from_str("Reveal in file manager is not supported on this platform."),
        }
    }
}

} // verus!
