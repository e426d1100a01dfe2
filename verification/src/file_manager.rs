//! The reveal command: showing a file in the platform's file manager.
//!
//! The command itself starts no process. It says which program is to be
//! started with which arguments, and turns the way that program ended into the
//! command's result.

use crate::error::{
    empty_path_message, exit_status_message, missing_path_message, result_view,
    unsupported_platform_message, CommandError, ErrorKind, ErrorView,
};
use crate::paths::{owned_text_of, parent, parent_of, target, target_of};
use vstd::prelude::*;
use vstd::string::*;

verus! {

/// The ways of revealing a file. A build of the desktop shell has at most one.
#[derive(Clone, Copy, Debug, PartialEq, Eq)]
pub enum RevealStrategy {
    /// A file manager that is handed the path itself and selects the entry in
    /// the window of its folder.
    PathSelecting,
    /// A file manager that opens a folder, or selects a file when the path
    /// follows its select flag without a space between them.
    ExplorerStyle,
    /// A desktop opener that can open a folder and cannot select a file in it.
    GenericOpener,
}

/// What a look at the file system found at a path.
#[derive(Clone, Copy, Debug, PartialEq, Eq)]
pub struct PathProbe {
    pub exists: bool,
    pub is_dir: bool,
}

/// A program to start, with its arguments in order, and the strategy that
/// chose it.
#[derive(Debug, PartialEq, Eq)]
pub struct RevealCommand {
    pub strategy: RevealStrategy,
    pub program: String,
    pub arguments: Vec<String>,
}

/// What a `RevealCommand` stands for in contracts.
pub struct RevealCommandView {
    pub strategy: RevealStrategy,
    pub program: Seq<char>,
    pub arguments: Seq<Seq<char>>,
}

impl View for RevealCommand {
    type V = RevealCommandView;

    open spec fn view(&self) -> RevealCommandView {
        RevealCommandView {
            strategy: self.strategy,
            program: self.program@,
            arguments: self.arguments.deep_view(),
        }
    }
}

/// How the program of a `RevealCommand` ended.
#[derive(Debug)]
pub enum ProcessOutcome {
    /// The program could not be started; the operating system's message.
    SpawnFailed(String),
    /// The program ran and ended; whether it reported success, and its exit
    /// status as text.
    Exited { success: bool, status: String },
}

/// What a `ProcessOutcome` stands for in contracts.
pub enum ProcessOutcomeView {
    SpawnFailed(Seq<char>),
    Exited { success: bool, status: Seq<char> },
}

impl View for ProcessOutcome {
    type V = ProcessOutcomeView;

    open spec fn view(&self) -> ProcessOutcomeView {
        match self {
            ProcessOutcome::SpawnFailed(message) => ProcessOutcomeView::SpawnFailed(message@),
            ProcessOutcome::Exited { success, status } => ProcessOutcomeView::Exited {
                success: *success,
                status: status@,
            },
        }
    }
}

/// The path-selecting file manager is handed its reveal flag and the path,
/// whether the path names a file or a folder.
pub open spec fn path_selecting_command(path: Seq<char>) -> RevealCommandView {
    RevealCommandView {
        strategy: RevealStrategy::PathSelecting,
        program: "open"@,
        arguments: seq!["-R"@, path],
    }
}

/// The explorer-style file manager is handed a folder as it is, and a file
/// behind the select flag, in one argument.
pub open spec fn explorer_command(path: Seq<char>, is_dir: bool) -> RevealCommandView {
    RevealCommandView {
        strategy: RevealStrategy::ExplorerStyle,
        program: "explorer"@,
        arguments: if is_dir {
            seq![path]
        } else {
            seq!["/select,"@ + path]
        },
    }
}

/// The folder that the generic opener shows for a path whose parent is
/// `parent`: a folder itself, the parent of a file, and the root for a file
/// without parent.
pub open spec fn folder_for(path: Seq<char>, is_dir: bool, parent: Option<Seq<char>>) -> Seq<
    char,
> {
    if is_dir {
        path
    } else {
        match parent {
            Some(folder) => folder,
            None => "/"@,
        }
    }
}

/// The folder that the generic opener shows for `path`.
pub open spec fn containing_folder(path: Seq<char>, is_dir: bool) -> Seq<char> {
    folder_for(path, is_dir, parent_of(path))
}

/// The generic opener is handed the folder that contains the entry.
pub open spec fn generic_opener_command(path: Seq<char>, is_dir: bool) -> RevealCommandView {
    RevealCommandView {
        strategy: RevealStrategy::GenericOpener,
        program: "xdg-open"@,
        arguments: seq![containing_folder(path, is_dir)],
    }
}

/// The program that reveals the entry at `path` under `strategy`.
pub open spec fn reveal_command(
    strategy: RevealStrategy,
    path: Seq<char>,
    is_dir: bool,
) -> RevealCommandView {
    match strategy {
        RevealStrategy::PathSelecting => path_selecting_command(path),
        RevealStrategy::ExplorerStyle => explorer_command(path, is_dir),
        RevealStrategy::GenericOpener => generic_opener_command(path, is_dir),
    }
}

/// What the reveal command decides for the text it was handed, the strategy
/// of the platform and what the file system holds at the path in the text.
pub open spec fn reveal_decision(
    target_path: Seq<char>,
    strategy: Option<RevealStrategy>,
    probe: PathProbe,
) -> Result<RevealCommandView, ErrorView> {
    match target(target_path) {
        None => Err(ErrorView { kind: ErrorKind::InvalidInput, message: empty_path_message() }),
        Some(path) => if !probe.exists {
            Err(ErrorView { kind: ErrorKind::NotFound, message: missing_path_message(path) })
        } else {
            match strategy {
                None => Err(
                    ErrorView {
                        kind: ErrorKind::UnsupportedPlatform,
                        message: unsupported_platform_message(),
                    },
                ),
                Some(strategy) => Ok(reveal_command(strategy, path, probe.is_dir)),
            }
        },
    }
}

/// The command line by which a file manager is named in messages.
pub open spec fn invocation_of(strategy: RevealStrategy) -> Seq<char> {
    match strategy {
        RevealStrategy::PathSelecting => "open -R"@,
        RevealStrategy::ExplorerStyle => "explorer"@,
        RevealStrategy::GenericOpener => "xdg-open"@,
    }
}

/// What the reveal command answers once the file manager of `strategy` ended
/// as `outcome` says.
pub open spec fn reveal_answer(strategy: RevealStrategy, outcome: ProcessOutcomeView) -> Result<
    (),
    ErrorView,
> {
    match outcome {
        ProcessOutcomeView::SpawnFailed(message) => Err(
            ErrorView { kind: ErrorKind::IoError, message },
        ),
        ProcessOutcomeView::Exited { success, status } => if success {
            Ok(())
        } else {
            Err(
                ErrorView {
                    kind: ErrorKind::ExternalProcessError,
                    message: exit_status_message(invocation_of(strategy), status),
                },
            )
        },
    }
}

/// A command of one program and one argument.
fn single_argument(strategy: RevealStrategy, program: &str, argument: String) -> (command:
    RevealCommand)
    ensures
        command@ == (RevealCommandView {
            strategy,
            program: program@,
            arguments: seq![argument@],
        }),
{
    let mut arguments: Vec<String> = Vec::new();
    arguments.push(argument);
    assert(arguments.deep_view() =~= seq![argument@]);
    RevealCommand { strategy, program: String::from_str(program), arguments }
}

/// The program that reveals `path` with the path-selecting file manager.
pub fn reveal_on_macos(path: &str) -> (command: RevealCommand)
    ensures
        command@ == path_selecting_command(path@),
{
    let mut arguments: Vec<String> = Vec::new();
    arguments.push(String::from_str("-R"));
    arguments.push(String::from_str(path));
    assert(arguments.deep_view() =~= seq!["-R"@, path@]);
    RevealCommand {
        strategy: RevealStrategy::PathSelecting,
        program: String::from_str("open"),
        arguments,
    }
}

/// The program that reveals `path` with the explorer-style file manager.
pub fn reveal_on_windows(path: &str, is_dir: bool) -> (command: RevealCommand)
    ensures
        command@ == explorer_command(path@, is_dir),
{
    if is_dir {
        single_argument(RevealStrategy::ExplorerStyle, "explorer", String::from_str(path))
    } else {
        let selector = String::from_str("/select,").concat(path);
        single_argument(RevealStrategy::ExplorerStyle, "explorer", selector)
    }
}

/// The folder that the generic opener shows for a path whose parent is `parent`.
pub fn folder_to_open(path: &str, is_dir: bool, parent: Option<String>) -> (folder: String)
    ensures
        folder@ == folder_for(path@, is_dir, owned_text_of(parent)),
{
    if is_dir {
        String::from_str(path)
    } else {
        match parent {
            Some(folder) => folder,
            None => String::from_str("/"),
        }
    }
}

/// The program that shows the folder of `path` with the generic opener.
pub fn reveal_on_unix(path: &str, is_dir: bool) -> (command: RevealCommand)
    ensures
        command@ == generic_opener_command(path@, is_dir),
{
    let folder = folder_to_open(path, is_dir, parent(path));
    single_argument(RevealStrategy::GenericOpener, "xdg-open", folder)
}

/// The reveal command. `strategy` is the strategy of the platform, if it has
/// one. `probe` is what the file system holds at the path that `target_of`
/// finds in `target_path`; it is not looked at where that text is blank.
pub fn reveal_in_file_manager(
    target_path: &str,
    strategy: Option<RevealStrategy>,
    probe: PathProbe,
) -> (decision: Result<RevealCommand, CommandError>)
    ensures
        result_view(decision) == reveal_decision(target_path@, strategy, probe),
{
    let path = match target_of(target_path) {
        Some(path) => path,
        None => {
            return Err(CommandError::invalid_input("Path was empty."));
        },
    };
    if !probe.exists {
        return Err(CommandError::not_found(path));
    }
    match strategy {
        Some(RevealStrategy::PathSelecting) => Ok(reveal_on_macos(path)),
        Some(RevealStrategy::ExplorerStyle) => Ok(reveal_on_windows(path, probe.is_dir)),
        Some(RevealStrategy::GenericOpener) => Ok(reveal_on_unix(path, probe.is_dir)),
        None => Err(CommandError::unsupported_platform()),
    }
}

/// The answer of the reveal command, once the file manager has ended.
pub fn reveal_result(strategy: RevealStrategy, outcome: ProcessOutcome) -> (answer: Result<
    (),
    CommandError,
>)
    ensures
        result_view(answer) == reveal_answer(strategy, outcome@),
{
    match outcome {
        ProcessOutcome::SpawnFailed(message) => Err(CommandError::new(ErrorKind::IoError, message)),
        ProcessOutcome::Exited { success, status } => {
            if success {
                Ok(())
            } else {
                let invocation = match strategy {
                    RevealStrategy::PathSelecting => "open -R",
                    RevealStrategy::ExplorerStyle => "explorer",
                    RevealStrategy::GenericOpener => "xdg-open",
                };
                Err(CommandError::external_process(invocation, status.as_str()))
            }
        },
    }
}

} // verus!
