//! What holds of the commands taken together.

use crate::error::{
    empty_path_message, empty_target_message, fails_with, missing_path_message, result_view,
    CommandError, ErrorKind,
};
use crate::file_manager::{reveal_decision, PathProbe, RevealStrategy};
use crate::file_type::{has_own_label, raster_format_of};
use crate::metadata::{
    classifying_extension, metadata_of, metadata_outcome, FileFactsView, FileMetadataResult,
    FileProbeView,
};
use crate::paths::parent_of;
use crate::text::{is_blank, trimmed, uppercase_of};
use crate::trash::trash_decision;
use vstd::prelude::*;

verus! {

/// A blank path is refused as invalid input by every command that takes a
/// path, whatever the file system holds and whatever the platform is.
pub proof fn lemma_blank_path_is_invalid_input(
    target_path: Seq<char>,
    file: FileProbeView,
    exists: bool,
    strategy: Option<RevealStrategy>,
    probe: PathProbe,
)
    requires
        is_blank(target_path),
    ensures
        fails_with(
            metadata_outcome(target_path, file),
            ErrorKind::InvalidInput,
            empty_target_message(),
        ),
        fails_with(
            trash_decision(target_path, exists),
            ErrorKind::InvalidInput,
            empty_target_message(),
        ),
        fails_with(
            reveal_decision(target_path, strategy, probe),
            ErrorKind::InvalidInput,
            empty_path_message(),
        ),
{
}

/// A path that is not blank and names nothing on disk is reported as not
/// found by every command that takes a path, whatever the platform is. The
/// message names the path without the whitespace around it.
pub proof fn lemma_missing_path_is_not_found(
    target_path: Seq<char>,
    strategy: Option<RevealStrategy>,
    is_dir: bool,
)
    requires
        !is_blank(target_path),
    ensures
        fails_with(
            metadata_outcome(target_path, FileProbeView::Missing),
            ErrorKind::NotFound,
            missing_path_message(trimmed(target_path)),
        ),
        fails_with(
            trash_decision(target_path, false),
            ErrorKind::NotFound,
            missing_path_message(trimmed(target_path)),
        ),
        fails_with(
            reveal_decision(target_path, strategy, PathProbe { exists: false, is_dir }),
            ErrorKind::NotFound,
            missing_path_message(trimmed(target_path)),
        ),
{
}

/// The metadata of an entry whose extension names no raster format has no
/// pixel dimensions, whatever the entry holds.
pub proof fn lemma_dimensions_need_raster_extension(path: Seq<char>, facts: FileFactsView)
    requires
        raster_format_of(classifying_extension(path)) is None,
    ensures
        metadata_of(path, facts).width is None,
        metadata_of(path, facts).height is None,
{
}

/// The metadata of an entry whose extension has no label of its own shows the
/// extension in uppercase, followed by " File", and has no pixel dimensions.
pub proof fn lemma_metadata_of_plain_file(path: Seq<char>, facts: FileFactsView)
    requires
        !has_own_label(classifying_extension(path)),
    ensures
        metadata_of(path, facts).file_type == uppercase_of(classifying_extension(path))
            + " File"@,
        metadata_of(path, facts).width is None,
        metadata_of(path, facts).height is None,
{
}

/// For a file, the generic opener is handed the file's parent folder and not
/// the file; the root stands in for a parent only where the path has none.
pub proof fn lemma_generic_opener_shows_parent(target_path: Seq<char>, probe: PathProbe)
    requires
        !is_blank(target_path),
        probe.exists,
        !probe.is_dir,
    ensures
        reveal_decision(target_path, Some(RevealStrategy::GenericOpener), probe) matches Ok(
            command,
        ) && command.program == "xdg-open"@ && command.arguments == seq![
            match parent_of(trimmed(target_path)) {
                Some(folder) => folder,
                None => "/"@,
            },
        ],
{
}

/// Two runs of the metadata command on the same text, with the file system
/// holding the same at the path, answer the same.
pub proof fn lemma_metadata_is_repeatable(
    target_path: Seq<char>,
    probe: FileProbeView,
    first: Result<FileMetadataResult, CommandError>,
    second: Result<FileMetadataResult, CommandError>,
)
    requires
        result_view(first) == metadata_outcome(target_path, probe),
        result_view(second) == metadata_outcome(target_path, probe),
    ensures
        result_view(first) == result_view(second),
{
}

} // verus!
