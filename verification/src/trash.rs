//! The trash command: moving an entry to the trash or recycle bin.
//!
//! The command itself moves nothing. It says which path is to be handed to the
//! operating system's trash, and turns what the trash answered into the
//! command's result.

use crate::error::{
    empty_target_message, missing_path_message, result_view, CommandError, ErrorKind, ErrorView,
};
use crate::paths::{owned_text_of, target, target_of};
use vstd::prelude::*;
use vstd::string::*;

verus! {

/// What the trash command decides for the text it was handed and whether the
/// path in it names anything: the path to move to the trash, or a failure.
pub open spec fn trash_decision(target_path: Seq<char>, exists: bool) -> Result<
    Seq<char>,
    ErrorView,
> {
    match target(target_path) {
        None => Err(ErrorView { kind: ErrorKind::InvalidInput, message: empty_target_message() }),
        Some(path) => if exists {
            Ok(path)
        } else {
            Err(ErrorView { kind: ErrorKind::NotFound, message: missing_path_message(path) })
        },
    }
}

/// What the trash command answers once the trash took the entry (`None`) or
/// refused it with a message.
pub open spec fn trash_answer(refusal: Option<Seq<char>>) -> Result<(), ErrorView> {
    match refusal {
        None => Ok(()),
        Some(message) => Err(ErrorView { kind: ErrorKind::IoError, message }),
    }
}

/// The trash command. `exists` says whether the path that `target_of` finds
/// in `target_path` names anything; it is not looked at where that text is
/// blank.
pub fn move_to_trash(target_path: &str, exists: bool) -> (decision: Result<String, CommandError>)
    ensures
        result_view(decision) == trash_decision(target_path@, exists),
{
    let path = match target_of(target_path) {
        Some(path) => path,
        None => {
            return Err(CommandError::invalid_input("Target path was empty."));
        },
    };
    if !exists {
        return Err(CommandError::not_found(path));
    }
    Ok(String::from_str(path))
}

/// The answer of the trash command, once the trash took the entry (`None`) or
/// refused it with a message.
pub fn trash_result(refusal: Option<String>) -> (answer: Result<(), CommandError>)
    ensures
        result_view(answer) == trash_answer(owned_text_of(refusal)),
{
    match refusal {
        None => Ok(()),
        Some(message) => Err(CommandError::new(ErrorKind::IoError, message)),
    }
}

} // verus!
