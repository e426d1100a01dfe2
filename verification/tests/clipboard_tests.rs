use native_commands::clipboard::{clipboard_result, copy_image_to_clipboard, ClipboardOutcome};
use native_commands::error::{CommandError, ErrorKind};
use native_commands::imaging::{decode_pixels, RgbaPixels};

fn png_of(picture: image::DynamicImage) -> Vec<u8> {
    let mut bytes = Vec::new();
    picture.write_to(&mut std::io::Cursor::new(&mut bytes), image::ImageFormat::Png).unwrap();
    bytes
}

#[test]
fn clipboard_refuses_an_empty_buffer() {
    let error = copy_image_to_clipboard(&[]).unwrap_err();
    assert_eq!(error.kind, ErrorKind::InvalidInput);
    assert_eq!(error.message, "Image data was empty.");
}

#[test]
fn clipboard_reports_malformed_bytes_as_decode_error() {
    let garbage = b"definitely not an image";
    let error = copy_image_to_clipboard(garbage).unwrap_err();
    assert_eq!(error.kind, ErrorKind::DecodeError);
    assert_eq!(error.message, image::load_from_memory(garbage).unwrap_err().to_string());
    assert!(!error.message.is_empty());
}

#[test]
fn clipboard_reports_a_truncated_image_as_decode_error() {
    let whole = png_of(image::DynamicImage::new_rgba8(8, 8));
    let error = copy_image_to_clipboard(&whole[..whole.len() / 2]).unwrap_err();
    assert_eq!(error.kind, ErrorKind::DecodeError);
}

#[test]
fn clipboard_whitespace_bytes_are_not_empty() {
    let error = copy_image_to_clipboard(b" ").unwrap_err();
    assert_eq!(error.kind, ErrorKind::DecodeError);
}

#[test]
fn clipboard_pixels_are_rgba_rows() {
    let mut picture = image::RgbaImage::new(2, 3);
    for (x, y, pixel) in picture.enumerate_pixels_mut() {
        *pixel = image::Rgba([x as u8, y as u8, 7, 200 + (x + 2 * y) as u8]);
    }
    let pixels = copy_image_to_clipboard(&png_of(picture.into())).unwrap();
    assert_eq!(pixels.width, 2);
    assert_eq!(pixels.height, 3);
    assert_eq!(
        pixels.bytes,
        vec![
            0, 0, 7, 200, 1, 0, 7, 201, //
            0, 1, 7, 202, 1, 1, 7, 203, //
            0, 2, 7, 204, 1, 2, 7, 205,
        ]
    );
}

#[test]
fn clipboard_pixels_of_an_opaque_image_get_full_alpha() {
    let mut picture = image::RgbImage::new(2, 1);
    picture.put_pixel(0, 0, image::Rgb([10, 20, 30]));
    picture.put_pixel(1, 0, image::Rgb([40, 50, 60]));
    let pixels = copy_image_to_clipboard(&png_of(picture.into())).unwrap();
    assert_eq!(pixels.width, 2);
    assert_eq!(pixels.height, 1);
    assert_eq!(pixels.bytes, vec![10, 20, 30, 255, 40, 50, 60, 255]);
}

#[test]
fn clipboard_pixels_of_a_grey_image_repeat_the_grey() {
    let picture = image::GrayImage::from_pixel(3, 2, image::Luma([90]));
    let pixels = decode_pixels(&png_of(picture.into())).unwrap();
    assert_eq!(pixels.width, 3);
    assert_eq!(pixels.height, 2);
    assert_eq!(pixels.bytes.len(), 24);
    assert!(pixels.bytes.chunks(4).all(|pixel| pixel == [90, 90, 90, 255]));
}

#[test]
fn clipboard_buffer_holds_four_bytes_a_pixel() {
    for (width, height) in [(1u32, 1u32), (5, 7), (16, 1), (1, 16)] {
        let pixels = copy_image_to_clipboard(&png_of(image::DynamicImage::new_rgb8(width, height)))
            .unwrap();
        assert_eq!(pixels.width, width);
        assert_eq!(pixels.height, height);
        assert_eq!(pixels.bytes.len(), (4 * width * height) as usize);
    }
}

#[test]
fn clipboard_decodes_other_formats_by_their_content() {
    let picture = image::RgbImage::from_pixel(4, 2, image::Rgb([1, 2, 3]));
    let mut bytes = Vec::new();
    picture.write_to(&mut std::io::Cursor::new(&mut bytes), image::ImageFormat::Bmp).unwrap();
    let pixels = copy_image_to_clipboard(&bytes).unwrap();
    assert_eq!((pixels.width, pixels.height), (4, 2));
    assert_eq!(&pixels.bytes[..4], &[1, 2, 3, 255]);
}

#[test]
fn pixels_from_raw_keep_the_pixels_and_drop_the_rest() {
    let pixels = RgbaPixels::from_raw(1, 2, vec![1, 2, 3, 4, 5, 6, 7, 8, 9, 10]).unwrap();
    assert_eq!(pixels.width, 1);
    assert_eq!(pixels.height, 2);
    assert_eq!(pixels.bytes, vec![1, 2, 3, 4, 5, 6, 7, 8]);
    let exact = RgbaPixels::from_raw(2, 1, vec![1, 2, 3, 4, 5, 6, 7, 8]).unwrap();
    assert_eq!(exact.bytes, vec![1, 2, 3, 4, 5, 6, 7, 8]);
    let none = RgbaPixels::from_raw(0, 9, vec![1, 2, 3]).unwrap();
    assert_eq!(none.bytes, Vec::<u8>::new());
}

#[test]
fn pixels_from_raw_refuse_a_short_buffer() {
    assert!(RgbaPixels::from_raw(1, 2, vec![0; 7]).is_none());
    assert!(RgbaPixels::from_raw(1, 1, vec![]).is_none());
    assert!(RgbaPixels::from_raw(u32::MAX, u32::MAX, vec![0; 16]).is_none());
}

#[test]
fn clipboard_succeeds_when_the_image_was_written() {
    assert_eq!(clipboard_result(ClipboardOutcome::Written), Ok(()));
}

#[test]
fn clipboard_reports_a_clipboard_that_cannot_be_opened() {
    let outcome = ClipboardOutcome::Unavailable("no display".to_string());
    assert_eq!(
        clipboard_result(outcome),
        Err(CommandError { kind: ErrorKind::ClipboardUnavailable, message: "no display".to_string() })
    );
}

#[test]
fn clipboard_reports_a_refused_image() {
    let outcome = ClipboardOutcome::Rejected("conversion failure".to_string());
    let error = clipboard_result(outcome).unwrap_err();
    assert_eq!(error.kind, ErrorKind::ClipboardWriteError);
    assert_eq!(error.message, "conversion failure");
}

#[test]
fn errors_are_built_with_their_messages() {
    assert_eq!(
        CommandError::not_found("/x"),
        CommandError { kind: ErrorKind::NotFound, message: "Path does not exist: /x".to_string() }
    );
    assert_eq!(
        CommandError::invalid_input("Path was empty."),
        CommandError { kind: ErrorKind::InvalidInput, message: "Path was empty.".to_string() }
    );
    assert_eq!(
        CommandError::external_process("explorer", "exit code: 1"),
        CommandError {
            kind: ErrorKind::ExternalProcessError,
            message: "explorer exited with status: exit code: 1".to_string(),
        }
    );
    assert_eq!(
        CommandError::unsupported_platform().message,
        "Reveal in file manager is not supported on this platform."
    );
    let error = CommandError::new(ErrorKind::IoError, "disk on fire".to_string());
    assert_eq!(error.clone(), error);
}
