use otp_scanner::frame::{decode_frame, Frame, ImageHandler};
use otp_scanner::metadata::{StreamConfiguration, FORMAT_JPEG};
use otp_scanner::resources::ReleaseCall;
use otp_scanner::rotation::ImageRotation;
use otp_scanner::status::{CameraError, Handle, NativeReply};

/// A picture whose pixel at column `x` of row `y` is `(x, y, 7, 255)`.
fn picture(width: u32, height: u32) -> Frame {
    let mut pixels = Vec::new();
    for y in 0..height {
        for x in 0..width {
            pixels.push(x as u8);
            pixels.push(y as u8);
            pixels.push(7);
            pixels.push(255);
        }
    }
    Frame::new(width, height, pixels).unwrap()
}

fn pixel(frame: &Frame, x: u32, y: u32) -> (u8, u8) {
    let at = 4 * (y * frame.width() + x) as usize;
    assert_eq!(frame.pixels()[at + 2], 7);
    assert_eq!(frame.pixels()[at + 3], 255);
    (frame.pixels()[at], frame.pixels()[at + 1])
}

fn encoded(frame: &Frame, format: image::ImageFormat) -> Vec<u8> {
    let buffer = image::RgbaImage::from_raw(frame.width(), frame.height(), frame.pixels().clone()).unwrap();
    let mut bytes = std::io::Cursor::new(Vec::new());
    if format == image::ImageFormat::Jpeg {
        image::DynamicImage::ImageRgba8(buffer).to_rgb8().write_to(&mut bytes, format).unwrap();
    } else {
        image::DynamicImage::ImageRgba8(buffer).write_to(&mut bytes, format).unwrap();
    }
    bytes.into_inner()
}

fn handler(width: i32, height: i32, rotation: ImageRotation) -> ImageHandler {
    ImageHandler::new(StreamConfiguration::new(FORMAT_JPEG, width, height), rotation)
}

#[test]
fn quarter_turn_of_a_640_by_480_frame() {
    let bytes = encoded(&picture(640, 480), image::ImageFormat::Jpeg);
    let turned = handler(640, 480, ImageRotation::Deg90).create_image(&bytes).unwrap();
    assert_eq!((turned.width(), turned.height()), (480, 640));
    assert_eq!(turned.pixels().len(), 4 * 480 * 640);
}

#[test]
fn unrotated_frame_keeps_its_size() {
    let bytes = encoded(&picture(640, 480), image::ImageFormat::Jpeg);
    let same = handler(640, 480, ImageRotation::Deg0).create_image(&bytes).unwrap();
    assert_eq!((same.width(), same.height()), (640, 480));
    assert_eq!(same.pixels().len(), 4 * 640 * 480);
}

#[test]
fn decoded_pixels_are_kept() {
    let source = picture(5, 3);
    let decoded = decode_frame(&encoded(&source, image::ImageFormat::Png)).unwrap();
    assert_eq!((decoded.width(), decoded.height()), (5, 3));
    assert_eq!(decoded.pixels(), source.pixels());
}

#[test]
fn quarter_turn_moves_each_pixel() {
    let bytes = encoded(&picture(5, 3), image::ImageFormat::Png);
    let turned = handler(5, 3, ImageRotation::Deg90).create_image(&bytes).unwrap();
    assert_eq!((turned.width(), turned.height()), (3, 5));
    for y in 0..3 {
        for x in 0..5 {
            assert_eq!(pixel(&turned, 3 - 1 - y, x), (x as u8, y as u8));
        }
    }
    // The top left corner goes to the top right.
    assert_eq!(pixel(&turned, 2, 0), (0, 0));
}

#[test]
fn half_turn_moves_each_pixel() {
    let turned = handler(5, 3, ImageRotation::Deg180).orient(picture(5, 3)).unwrap();
    assert_eq!((turned.width(), turned.height()), (5, 3));
    for y in 0..3 {
        for x in 0..5 {
            assert_eq!(pixel(&turned, 5 - 1 - x, 3 - 1 - y), (x as u8, y as u8));
        }
    }
}

#[test]
fn three_quarter_turns_move_each_pixel() {
    let turned = handler(5, 3, ImageRotation::Deg270).orient(picture(5, 3)).unwrap();
    assert_eq!((turned.width(), turned.height()), (3, 5));
    for y in 0..3 {
        for x in 0..5 {
            assert_eq!(pixel(&turned, y, 5 - 1 - x), (x as u8, y as u8));
        }
    }
    // The top left corner goes to the bottom left.
    assert_eq!(pixel(&turned, 0, 4), (0, 0));
}

#[test]
fn no_turn_hands_the_frame_on() {
    let same = handler(5, 3, ImageRotation::Deg0).orient(picture(5, 3)).unwrap();
    assert_eq!((same.width(), same.height()), (5, 3));
    assert_eq!(same.pixels(), picture(5, 3).pixels());
}

#[test]
fn four_quarter_turns_give_the_frame_back() {
    let once = handler(5, 3, ImageRotation::Deg90).orient(picture(5, 3)).unwrap();
    let twice = handler(3, 5, ImageRotation::Deg90).orient(once).unwrap();
    assert_eq!(twice.pixels(), handler(5, 3, ImageRotation::Deg180).orient(picture(5, 3)).unwrap().pixels());
    let thrice = handler(5, 3, ImageRotation::Deg90).orient(twice).unwrap();
    assert_eq!(thrice.pixels(), handler(5, 3, ImageRotation::Deg270).orient(picture(5, 3)).unwrap().pixels());
    let back = handler(3, 5, ImageRotation::Deg90).orient(thrice).unwrap();
    assert_eq!(back.pixels(), picture(5, 3).pixels());
}

#[test]
fn frame_of_another_size_is_refused() {
    let result = handler(640, 480, ImageRotation::Deg90).orient(picture(5, 3));
    assert_eq!(result.err(), Some(CameraError::FrameAcquireFailed));
    let swapped = handler(3, 5, ImageRotation::Deg0).orient(picture(5, 3));
    assert_eq!(swapped.err(), Some(CameraError::FrameAcquireFailed));
    let negative = handler(-5, 3, ImageRotation::Deg0).orient(picture(5, 3));
    assert_eq!(negative.err(), Some(CameraError::FrameAcquireFailed));
}

#[test]
fn bytes_that_are_no_picture_are_refused() {
    assert_eq!(decode_frame(&[]).err(), Some(CameraError::FrameAcquireFailed));
    assert_eq!(decode_frame(&[1, 2, 3, 4, 5]).err(), Some(CameraError::FrameAcquireFailed));
    let result = handler(5, 3, ImageRotation::Deg0).create_image(b"not a picture");
    assert_eq!(result.err(), Some(CameraError::FrameAcquireFailed));
}

#[test]
fn truncated_picture_is_refused() {
    let bytes = encoded(&picture(5, 3), image::ImageFormat::Png);
    assert_eq!(decode_frame(&bytes[..bytes.len() / 2]).err(), Some(CameraError::FrameAcquireFailed));
}

#[test]
fn acquired_frame_is_owned_until_given_back() {
    let handler = handler(5, 3, ImageRotation::Deg0);
    let image = handler.on_image_available(&NativeReply::of_handle(0, 900)).unwrap();
    assert_eq!(image.image, Handle { raw: 900 });
    assert_eq!(image.release(), ReleaseCall::DeleteImage { image: Handle { raw: 900 } });
}

#[test]
fn frame_that_cannot_be_acquired() {
    let handler = handler(5, 3, ImageRotation::Deg0);
    assert_eq!(
        handler.on_image_available(&NativeReply::of_handle(-10000, 900)).err(),
        Some(CameraError::FrameAcquireFailed)
    );
    assert_eq!(
        handler.on_image_available(&NativeReply::of_handle(0, 0)).err(),
        Some(CameraError::FrameAcquireFailed)
    );
}

#[test]
fn pictures_of_many_sizes_are_turned_a_quarter() {
    for (width, height) in [(1, 1), (1, 6), (6, 1), (16, 9), (31, 2)] {
        let turned = handler(width as i32, height as i32, ImageRotation::Deg90)
            .orient(picture(width, height))
            .unwrap();
        assert_eq!((turned.width(), turned.height()), (height, width));
        for y in 0..height {
            for x in 0..width {
                assert_eq!(pixel(&turned, height - 1 - y, x), (x as u8, y as u8));
            }
        }
    }
}

#[test]
fn empty_picture_stays_empty() {
    let empty = Frame::new(0, 0, Vec::new()).unwrap();
    let turned = handler(0, 0, ImageRotation::Deg90).orient(empty).unwrap();
    assert_eq!((turned.width(), turned.height(), turned.pixels().len()), (0, 0, 0));
    let flat = Frame::new(3, 0, Vec::new()).unwrap();
    let turned = handler(3, 0, ImageRotation::Deg270).orient(flat).unwrap();
    assert_eq!((turned.width(), turned.height(), turned.pixels().len()), (0, 3, 0));
}

#[test]
fn picture_in_greys_is_decoded_to_four_channels() {
    let grey = image::GrayImage::from_raw(3, 2, vec![0, 50, 100, 150, 200, 250]).unwrap();
    let mut bytes = std::io::Cursor::new(Vec::new());
    image::DynamicImage::ImageLuma8(grey).write_to(&mut bytes, image::ImageFormat::Png).unwrap();
    let decoded = decode_frame(&bytes.into_inner()).unwrap();
    assert_eq!((decoded.width(), decoded.height()), (3, 2));
    assert_eq!(decoded.pixels()[..8], [0, 0, 0, 255, 50, 50, 50, 255]);
    assert_eq!(decoded.pixels().len(), 24);
}

#[test]
fn picture_holds_four_bytes_for_each_pixel() {
    assert!(Frame::new(2, 3, vec![0; 24]).is_some());
    assert!(Frame::new(2, 3, vec![0; 23]).is_none());
    assert!(Frame::new(2, 3, vec![0; 25]).is_none());
    assert!(Frame::new(0, 3, vec![0; 1]).is_none());
    assert!(Frame::new(u32::MAX, u32::MAX, Vec::new()).is_none());
    let frame = Frame::new(2, 1, vec![1, 2, 3, 4, 5, 6, 7, 8]).unwrap();
    assert_eq!((frame.width(), frame.height()), (2, 1));
    assert_eq!(frame.into_pixels(), vec![1, 2, 3, 4, 5, 6, 7, 8]);
}

#[test]
fn bytes_after_the_pixels_are_dropped() {
    let frame = Frame::from_buffer(2, 1, vec![1, 2, 3, 4, 5, 6, 7, 8, 9, 10]).unwrap();
    assert_eq!((frame.width(), frame.height()), (2, 1));
    assert_eq!(frame.pixels(), &vec![1, 2, 3, 4, 5, 6, 7, 8]);
    let exact = Frame::from_buffer(1, 2, vec![9, 8, 7, 6, 5, 4, 3, 2]).unwrap();
    assert_eq!(exact.into_pixels(), vec![9, 8, 7, 6, 5, 4, 3, 2]);
    let empty = Frame::from_buffer(0, 7, vec![1, 2, 3]).unwrap();
    assert_eq!((empty.width(), empty.height(), empty.pixels().len()), (0, 7, 0));
}

#[test]
fn buffer_that_is_too_short_makes_no_picture() {
    assert!(Frame::from_buffer(2, 1, vec![1, 2, 3, 4, 5, 6, 7]).is_none());
    assert!(Frame::from_buffer(1, 1, Vec::new()).is_none());
    assert!(Frame::from_buffer(u32::MAX, u32::MAX, vec![0; 16]).is_none());
}
