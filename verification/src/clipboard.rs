//! The clipboard command: placing an encoded image on the system clipboard as
//! pixels.
//!
//! The command itself writes nothing. It decodes the image to the pixels that
//! are to be written, and turns what the clipboard answered into the command's
//! result.

use crate::error::{empty_image_message, result_view, CommandError, ErrorKind, ErrorView};
use crate::imaging::{decode_pixels, RgbaPixels};
use vstd::prelude::*;
use vstd::string::*;

verus! {

/// What became of the pixels handed to the system clipboard.
#[derive(Debug)]
pub enum ClipboardOutcome {
    /// The clipboard could not be opened; the operating system's message.
    Unavailable(String),
    /// The clipboard refused the image; the operating system's message.
    Rejected(String),
    /// The clipboard holds the image.
    Written,
}

/// What a `ClipboardOutcome` stands for in contracts.
pub enum ClipboardOutcomeView {
    Unavailable(Seq<char>),
    Rejected(Seq<char>),
    Written,
}

impl View for ClipboardOutcome {
    type V = ClipboardOutcomeView;

    open spec fn view(&self) -> ClipboardOutcomeView {
        match self {
            ClipboardOutcome::Unavailable(message) => ClipboardOutcomeView::Unavailable(message@),
            ClipboardOutcome::Rejected(message) => ClipboardOutcomeView::Rejected(message@),
            ClipboardOutcome::Written => ClipboardOutcomeView::Written,
        }
    }
}

/// What the clipboard command answers once the clipboard was written to, or
/// could not be.
pub open spec fn clipboard_answer(outcome: ClipboardOutcomeView) -> Result<(), ErrorView> {
    match outcome {
        ClipboardOutcomeView::Unavailable(message) => Err(
            ErrorView { kind: ErrorKind::ClipboardUnavailable, message },
        ),
        ClipboardOutcomeView::Rejected(message) => Err(
            ErrorView { kind: ErrorKind::ClipboardWriteError, message },
        ),
        ClipboardOutcomeView::Written => Ok(()),
    }
}

/// The clipboard command: the pixels to write to the clipboard. An empty
/// buffer is refused before anything is decoded. A buffer that cannot be
/// decoded gives a decode error and no pixels, so that nothing is written.
pub fn copy_image_to_clipboard(image_data: &[u8]) -> (decision: Result<RgbaPixels, CommandError>)
    ensures
        image_data@.len() == 0 ==> decision is Err && decision->Err_0@ == (ErrorView {
            kind: ErrorKind::InvalidInput,
            message: empty_image_message(),
        }),
        image_data@.len() > 0 ==> (decision matches Err(error) ==> error.kind
            == ErrorKind::DecodeError),
        decision matches Ok(pixels) ==> pixels.well_formed(),
{
    if image_data.is_empty() {
        return Err(CommandError::invalid_input("Image data was empty."));
    }
    decode_pixels(image_data)
}

/// The answer of the clipboard command, once the clipboard was written to, or
/// could not be.
pub fn clipboard_result(outcome: ClipboardOutcome) -> (answer: Result<(), CommandError>)
    ensures
        result_view(answer) == clipboard_answer(outcome@),
{
    match outcome {
        ClipboardOutcome::Unavailable(message) => Err(
            CommandError::new(ErrorKind::ClipboardUnavailable, message),
        ),
        ClipboardOutcome::Rejected(message) => Err(
            CommandError::new(ErrorKind::ClipboardWriteError, message),
        ),
        ClipboardOutcome::Written => Ok(()),
    }
}

} // verus!
