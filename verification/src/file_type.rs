//! The label shown for a file's type, chosen by its extension.

use crate::text::{same_text, uppercase_of};
use vstd::prelude::*;
use vstd::string::*;

verus! {

/// The raster image formats whose pixel dimensions are reported.
#[derive(Clone, Copy, Debug, PartialEq, Eq)]
pub enum RasterFormat {
    Png,
    Jpeg,
    Gif,
    Bmp,
    WebP,
    Tiff,
}

/// The label for a lowercase extension. Known extensions have a label of their
/// own, a file without extension is a plain "File", and any other extension is
/// shown in uppercase.
pub open spec fn file_type_label(extension: Seq<char>) -> Seq<char> {
    if extension == "png"@ {
        "PNG Image"@
    } else if extension == "jpg"@ || extension == "jpeg"@ {
        "JPEG Image"@
    } else if extension == "gif"@ {
        "GIF Image"@
    } else if extension == "bmp"@ {
        "Bitmap Image"@
    } else if extension == "webp"@ {
        "WebP Image"@
    } else if extension == "tiff"@ || extension == "tif"@ {
        "TIFF Image"@
    } else if extension == "plib"@ {
        "Prompt Library File"@
    } else if extension == "aoe"@ {
        "Art Official Elements File"@
    } else if extension.len() == 0 {
        "File"@
    } else {
        generic_label(uppercase_of(extension))
    }
}

/// The label for an extension without a label of its own, given the
/// extension in uppercase.
pub open spec fn generic_label(uppercase_extension: Seq<char>) -> Seq<char> {
    uppercase_extension + " File"@
}

/// The raster format that a lowercase extension stands for, if any.
pub open spec fn raster_format_of(extension: Seq<char>) -> Option<RasterFormat> {
    if extension == "png"@ {
        Some(RasterFormat::Png)
    } else if extension == "jpg"@ || extension == "jpeg"@ {
        Some(RasterFormat::Jpeg)
    } else if extension == "gif"@ {
        Some(RasterFormat::Gif)
    } else if extension == "bmp"@ {
        Some(RasterFormat::Bmp)
    } else if extension == "webp"@ {
        Some(RasterFormat::WebP)
    } else if extension == "tiff"@ || extension == "tif"@ {
        Some(RasterFormat::Tiff)
    } else {
        None
    }
}

/// Whether a lowercase extension has a label of its own.
pub open spec fn has_own_label(extension: Seq<char>) -> bool {
    ||| raster_format_of(extension) is Some
    ||| extension == "plib"@
    ||| extension == "aoe"@
    ||| extension.len() == 0
}

/// The label for an extension without a label of its own, given the
/// extension in uppercase.
pub fn generic_type_label(uppercase_extension: &str) -> (label: String)
    ensures
        label@ == generic_label(uppercase_extension@),
{
    String::from_str(uppercase_extension).concat(" File")
}

/// The label for a lowercase extension.
pub fn describe_file_type(extension: &str) -> (label: String)
    ensures
        label@ == file_type_label(extension@),
{
    if same_text(extension, "png") {
        String::from_str("PNG Image")
    } else if same_text(extension, "jpg") || same_text(extension, "jpeg") {
        String::from_str("JPEG Image")
    } else if same_text(extension, "gif") {
        String::from_str("GIF Image")
    } else if same_text(extension, "bmp") {
        String::from_str("Bitmap Image")
    } else if same_text(extension, "webp") {
        String::from_str("WebP Image")
    } else if same_text(extension, "tiff") || same_text(extension, "tif") {
        String::from_str("TIFF Image")
    } else if same_text(extension, "plib") {
        String::from_str("Prompt Library File")
    } else if same_text(extension, "aoe") {
        String::from_str("Art Official Elements File")
    } else if extension.is_empty() {
        String::from_str("File")
    } else {
        let uppercase = extension.to_uppercase();
        generic_type_label(uppercase.as_str())
    }
}

/// The raster format that a lowercase extension stands for, if any.
pub fn raster_format(extension: &str) -> (format: Option<RasterFormat>)
    ensures
        format == raster_format_of(extension@),
{
    if same_text(extension, "png") {
        Some(RasterFormat::Png)
    } else if same_text(extension, "jpg") || same_text(extension, "jpeg") {
        Some(RasterFormat::Jpeg)
    } else if same_text(extension, "gif") {
        Some(RasterFormat::Gif)
    } else if same_text(extension, "bmp") {
        Some(RasterFormat::Bmp)
    } else if same_text(extension, "webp") {
        Some(RasterFormat::WebP)
    } else if same_text(extension, "tiff") || same_text(extension, "tif") {
        Some(RasterFormat::Tiff)
    } else {
        None
    }
}

/// An extension without a label of its own is shown in uppercase, followed by
/// " File", and stands for no raster format.
pub proof fn lemma_unlabelled_extension(extension: Seq<char>)
    requires
        !has_own_label(extension),
    ensures
        file_type_label(extension) == uppercase_of(extension) + " File"@,
        raster_format_of(extension) is None,
{
}

} // verus!
