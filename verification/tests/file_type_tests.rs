use native_commands::file_type::{
    describe_file_type, generic_type_label, raster_format, RasterFormat,
};

#[test]
fn png_is_a_png_image() {
    assert_eq!(describe_file_type("png"), "PNG Image");
}

#[test]
fn jpg_and_jpeg_are_jpeg_images() {
    assert_eq!(describe_file_type("jpg"), "JPEG Image");
    assert_eq!(describe_file_type("jpeg"), "JPEG Image");
}

#[test]
fn other_raster_extensions_have_their_labels() {
    assert_eq!(describe_file_type("gif"), "GIF Image");
    assert_eq!(describe_file_type("bmp"), "Bitmap Image");
    assert_eq!(describe_file_type("webp"), "WebP Image");
    assert_eq!(describe_file_type("tiff"), "TIFF Image");
    assert_eq!(describe_file_type("tif"), "TIFF Image");
}

#[test]
fn plib_is_a_prompt_library_file() {
    assert_eq!(describe_file_type("plib"), "Prompt Library File");
}

#[test]
fn aoe_is_an_art_official_elements_file() {
    assert_eq!(describe_file_type("aoe"), "Art Official Elements File");
}

#[test]
fn no_extension_is_a_plain_file() {
    assert_eq!(describe_file_type(""), "File");
}

#[test]
fn unknown_extension_is_shown_in_uppercase() {
    assert_eq!(describe_file_type("xyz"), "XYZ File");
    assert_eq!(describe_file_type("txt"), "TXT File");
    assert_eq!(describe_file_type("tar"), "TAR File");
    assert_eq!(describe_file_type("7z"), "7Z File");
}

#[test]
fn unknown_extension_is_uppercased_as_unicode() {
    assert_eq!(describe_file_type("straße"), "STRASSE File");
    assert_eq!(describe_file_type("ñ"), "Ñ File");
}

#[test]
fn labels_are_chosen_by_the_lowercase_extension_only() {
    assert_eq!(describe_file_type("PNG"), "PNG File");
    assert_eq!(describe_file_type("Jpg"), "JPG File");
    assert_eq!(describe_file_type("png "), "PNG  File");
}

#[test]
fn generic_label_appends_file() {
    assert_eq!(generic_type_label("XYZ"), "XYZ File");
    assert_eq!(generic_type_label(""), " File");
}

#[test]
fn raster_formats_are_known_by_extension() {
    assert_eq!(raster_format("png"), Some(RasterFormat::Png));
    assert_eq!(raster_format("jpg"), Some(RasterFormat::Jpeg));
    assert_eq!(raster_format("jpeg"), Some(RasterFormat::Jpeg));
    assert_eq!(raster_format("gif"), Some(RasterFormat::Gif));
    assert_eq!(raster_format("bmp"), Some(RasterFormat::Bmp));
    assert_eq!(raster_format("webp"), Some(RasterFormat::WebP));
    assert_eq!(raster_format("tiff"), Some(RasterFormat::Tiff));
    assert_eq!(raster_format("tif"), Some(RasterFormat::Tiff));
}

#[test]
fn other_extensions_are_no_raster_formats() {
    assert_eq!(raster_format(""), None);
    assert_eq!(raster_format("txt"), None);
    assert_eq!(raster_format("plib"), None);
    assert_eq!(raster_format("aoe"), None);
    assert_eq!(raster_format("PNG"), None);
    assert_eq!(raster_format("ico"), None);
    assert_eq!(raster_format("svg"), None);
}
