//! The metadata command: what is shown of a file.

use crate::error::{
    empty_target_message, missing_path_message, result_view, CommandError, ErrorKind, ErrorView,
};
use crate::file_type::{describe_file_type, file_type_label, raster_format, raster_format_of};
use crate::imaging::{header_dimensions, read_dimensions};
use crate::paths::{
    display_name_of, extension, extension_of, file_name, target, target_of, text_of,
};
use crate::text::lowercase_of;
use vstd::prelude::*;
use vstd::string::*;

verus! {

/// A point in time, as the time that has passed since the Unix epoch.
#[derive(Clone, Copy, Debug, PartialEq, Eq)]
pub struct Timestamp {
    pub secs: u64,
    pub subsec_nanos: u32,
}

/// What the file system holds of an entry that exists.
#[derive(Debug)]
pub struct FileFacts {
    /// When the entry was last modified, where the file system can tell and
    /// the time is not before the Unix epoch.
    pub modified: Option<Timestamp>,
    /// The bytes of the file, where they were asked for and could be read.
    pub contents: Option<Vec<u8>>,
}

/// What a look at the file system found at a path.
#[derive(Debug)]
pub enum FileProbe {
    /// The path names nothing.
    Missing,
    /// The entry's metadata could not be read; the operating system's message.
    Unreadable(String),
    /// The entry exists.
    Found(FileFacts),
}

/// What is shown of a file.
#[derive(Debug, PartialEq, Eq)]
pub struct FileMetadataResult {
    pub file_name: String,
    pub file_type: String,
    pub width: Option<u32>,
    pub height: Option<u32>,
    pub modified_ms: Option<u64>,
}

/// What `FileFacts` stands for in contracts.
pub struct FileFactsView {
    pub modified: Option<Timestamp>,
    pub contents: Option<Seq<u8>>,
}

/// What a `FileProbe` stands for in contracts.
pub enum FileProbeView {
    Missing,
    Unreadable(Seq<char>),
    Found(FileFactsView),
}

/// What a `FileMetadataResult` stands for in contracts.
pub struct FileMetadataView {
    pub file_name: Seq<char>,
    pub file_type: Seq<char>,
    pub width: Option<u32>,
    pub height: Option<u32>,
    pub modified_ms: Option<u64>,
}

impl View for FileFacts {
    type V = FileFactsView;

    open spec fn view(&self) -> FileFactsView {
        FileFactsView {
            modified: self.modified,
            contents: match self.contents {
                Some(bytes) => Some(bytes@),
                None => None,
            },
        }
    }
}

impl View for FileProbe {
    type V = FileProbeView;

    open spec fn view(&self) -> FileProbeView {
        match self {
            FileProbe::Missing => FileProbeView::Missing,
            FileProbe::Unreadable(message) => FileProbeView::Unreadable(message@),
            FileProbe::Found(facts) => FileProbeView::Found(facts@),
        }
    }
}

impl View for FileMetadataResult {
    type V = FileMetadataView;

    open spec fn view(&self) -> FileMetadataView {
        FileMetadataView {
            file_name: self.file_name@,
            file_type: self.file_type@,
            width: self.width,
            height: self.height,
            modified_ms: self.modified_ms,
        }
    }
}

/// The whole milliseconds in a time span.
pub open spec fn millis_of(time: Timestamp) -> int {
    time.secs * 1000 + time.subsec_nanos / 1_000_000
}

/// The whole milliseconds in a time span, or the largest `u64` where they do
/// not fit.
pub open spec fn clamped_millis(time: Timestamp) -> u64 {
    if millis_of(time) > u64::MAX {
        u64::MAX
    } else {
        millis_of(time) as u64
    }
}

/// The lowercase extension by which the entry at `path` is classified.
pub open spec fn classifying_extension(path: Seq<char>) -> Seq<char> {
    lowercase_of(extension_of(path))
}

/// The pixel dimensions reported for an entry with the given lowercase
/// extension and contents: those in the header of a raster image, nothing for
/// any other file and for contents that were not read or cannot be decoded.
pub open spec fn dimensions_of(extension: Seq<char>, contents: Option<Seq<u8>>) -> Option<
    (u32, u32),
> {
    match (raster_format_of(extension), contents) {
        (Some(format), Some(bytes)) => header_dimensions(format, bytes),
        _ => None,
    }
}

/// The record for an entry with the given name, type label, pixel dimensions
/// and time of last modification.
pub open spec fn record_of(
    file_name: Seq<char>,
    file_type: Seq<char>,
    dimensions: Option<(u32, u32)>,
    modified: Option<Timestamp>,
) -> FileMetadataView {
    FileMetadataView {
        file_name,
        file_type,
        width: match dimensions {
            Some(d) => Some(d.0),
            None => None,
        },
        height: match dimensions {
            Some(d) => Some(d.1),
            None => None,
        },
        modified_ms: match modified {
            Some(time) => Some(clamped_millis(time)),
            None => None,
        },
    }
}

/// The metadata of the entry at `path`, given what the file system holds of it.
pub open spec fn metadata_of(path: Seq<char>, facts: FileFactsView) -> FileMetadataView {
    let extension = classifying_extension(path);
    record_of(
        display_name_of(path),
        file_type_label(extension),
        dimensions_of(extension, facts.contents),
        facts.modified,
    )
}

/// What the metadata command answers for the text it was handed and what the
/// file system holds at the path in it.
pub open spec fn metadata_outcome(target_path: Seq<char>, probe: FileProbeView) -> Result<
    FileMetadataView,
    ErrorView,
> {
    match target(target_path) {
        None => Err(ErrorView { kind: ErrorKind::InvalidInput, message: empty_target_message() }),
        Some(path) => match probe {
            FileProbeView::Missing => Err(
                ErrorView { kind: ErrorKind::NotFound, message: missing_path_message(path) },
            ),
            FileProbeView::Unreadable(message) => Err(
                ErrorView { kind: ErrorKind::IoError, message },
            ),
            FileProbeView::Found(facts) => Ok(metadata_of(path, facts)),
        },
    }
}

/// The whole milliseconds since the Unix epoch, clamped to the largest `u64`.
pub fn millis_since_epoch(time: Timestamp) -> (millis: u64)
    ensures
        millis == clamped_millis(time),
{
    let whole: u128 = (time.secs as u128) * 1000 + ((time.subsec_nanos / 1_000_000) as u128);
    if whole > u64::MAX as u128 {
        u64::MAX
    } else {
        whole as u64
    }
}

/// The name shown for the entry at `path`, given the file name found in the
/// path, if any: the file name, or else the whole path.
pub fn display_name(path: &str, file_name: Option<&str>) -> (name: String)
    ensures
        name@ == match text_of(file_name) {
            Some(found) => found,
            None => path@,
        },
{
    match file_name {
        Some(found) => String::from_str(found),
        None => String::from_str(path),
    }
}

/// The record for an entry with the given name, type label, pixel dimensions
/// and time of last modification.
pub fn record(
    file_name: String,
    file_type: String,
    dimensions: Option<(u32, u32)>,
    modified: Option<Timestamp>,
) -> (result: FileMetadataResult)
    ensures
        result@ == record_of(file_name@, file_type@, dimensions, modified),
{
    let (width, height) = match dimensions {
        Some((width, height)) => (Some(width), Some(height)),
        None => (None, None),
    };
    let modified_ms = match modified {
        Some(time) => Some(millis_since_epoch(time)),
        None => None,
    };
    FileMetadataResult { file_name, file_type, width, height, modified_ms }
}

/// The lowercase extension by which the entry at `path` is classified.
pub fn lowercase_extension(path: &str) -> (lowercase: String)
    ensures
        lowercase@ == classifying_extension(path@),
{
    let found = match file_name(path) {
        Some(name) => extension(name),
        None => None,
    };
    let raw = match found {
        Some(extension) => extension,
        None => "",
    };
    proof {
        reveal_strlit("");
        assert(""@ =~= Seq::<char>::empty());
    }
    raw.to_lowercase()
}

/// Whether the metadata of the entry at `path` includes pixel dimensions, so
/// that the file's contents are needed.
pub fn reads_dimensions(path: &str) -> (wanted: bool)
    ensures
        wanted == raster_format_of(classifying_extension(path@)) is Some,
{
    let extension = lowercase_extension(path);
    raster_format(extension.as_str()).is_some()
}

/// The metadata command. `probe` is what the file system holds at the path
/// that `target_of` finds in `target_path`; it is not looked at where that
/// text is blank.
pub fn get_file_metadata(target_path: &str, probe: FileProbe) -> (result: Result<
    FileMetadataResult,
    CommandError,
>)
    ensures
        result_view(result) == metadata_outcome(target_path@, probe@),
{
    let path = match target_of(target_path) {
        Some(path) => path,
        None => {
            return Err(CommandError::invalid_input("Target path was empty."));
        },
    };
    let facts = match probe {
        FileProbe::Missing => {
            return Err(CommandError::not_found(path));
        },
        FileProbe::Unreadable(message) => {
            return Err(CommandError::new(ErrorKind::IoError, message));
        },
        FileProbe::Found(facts) => facts,
    };
    let file_name = display_name(path, file_name(path));
    let extension = lowercase_extension(path);
    let file_type = describe_file_type(extension.as_str());
    let dimensions = match (raster_format(extension.as_str()), &facts.contents) {
        (Some(format), Some(bytes)) => read_dimensions(format, bytes.as_slice()),
        _ => None,
    };
    Ok(record(file_name, file_type, dimensions, facts.modified))
}

} // verus!
