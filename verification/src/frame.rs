//! From a delivered frame to pixels for the display: the compressed picture
//! is decoded to RGBA and turned by the rotation that was resolved when the
//! pipeline started.

use vstd::prelude::*;
use crate::metadata::StreamConfiguration;
use crate::resources::Image;
use crate::rotation::{ImageRotation, area, turned};
use crate::status::{CameraError, NativeReply};

verus! {

/// The number of bytes of one RGBA pixel.
pub const RGBA_CHANNELS: usize = 4;

/// A picture of packed RGBA pixels, stored row by row. It holds four bytes
/// for each of its pixels.
#[derive(Debug)]
pub struct Frame {
    width: u32,
    height: u32,
    pixels: Vec<u8>,
}

/// A picture as contracts see it.
pub struct FrameView {
    pub width: u32,
    pub height: u32,
    pub pixels: Seq<u8>,
}

impl View for Frame {
    type V = FrameView;

    closed spec fn view(&self) -> FrameView {
        FrameView { width: self.width, height: self.height, pixels: self.pixels@ }
    }
}

impl Frame {
    /// The picture holds four bytes for each of its pixels.
    #[verifier::type_invariant]
    pub open spec fn wf(&self) -> bool {
        self@.pixels.len() == 4 * (self@.width * self@.height)
    }

    /// The picture of the given size and bytes, where the bytes are four for
    /// each pixel.
    pub fn new(width: u32, height: u32, pixels: Vec<u8>) -> (r: Option<Frame>)
        ensures
            match r {
                Some(frame) => frame@ == (FrameView { width, height, pixels: pixels@ })
                    && frame.wf(),
                None => pixels@.len() != 4 * (width * height),
            },
    {
        let count: u128 = 4 * (area(width, height) as u128);
        if pixels.len() as u128 == count {
            Some(Frame { width, height, pixels })
        } else {
            None
        }
    }

    /// The picture of the given size whose pixels are the first bytes of a
    /// buffer, four for each pixel: what stands in the buffer after them is
    /// dropped. There is no picture where the buffer holds fewer bytes.
    pub fn from_buffer(width: u32, height: u32, buffer: Vec<u8>) -> (r: Option<Frame>)
        ensures
            match r {
                Some(frame) => {
                    &&& 4 * (width * height) <= buffer@.len()
                    &&& frame@ == (FrameView {
                        width,
                        height,
                        pixels: buffer@.take(4 * (width * height)),
                    })
                    &&& frame.wf()
                },
                None => buffer@.len() < 4 * (width * height),
            },
    {
        let needed: u128 = 4 * (area(width, height) as u128);
        if (buffer.len() as u128) < needed {
            return None;
        }
        let mut pixels = buffer;
        pixels.truncate(needed as usize);
        Some(Frame { width, height, pixels })
    }

    /// The number of pixels in a row.
    pub fn width(&self) -> (w: u32)
        ensures
            w == self@.width,
    {
        self.width
    }

    /// The number of rows.
    pub fn height(&self) -> (h: u32)
        ensures
            h == self@.height,
    {
        self.height
    }

    /// The bytes of the pixels, row by row.
    pub fn pixels(&self) -> (p: &Vec<u8>)
        ensures
            p@ == self@.pixels,
    {
        &self.pixels
    }

    /// The bytes of the picture.
    pub fn into_pixels(self) -> (p: Vec<u8>)
        ensures
            p@ == self@.pixels,
    {
        self.pixels
    }
}

/// What decoding a compressed picture gives, where the bytes are a picture
/// in a format that is read: its width, its height, and the buffer that
/// holds its pixels as RGBA, row by row.
pub uninterp spec fn rgba8_picture(encoded: Seq<u8>) -> Option<(u32, u32, Seq<u8>)>;

/// `image::load_from_memory`, which guesses the format from the bytes, and
/// `image::DynamicImage::into_rgba8` on what it decodes, taken apart into
/// width, height and raw buffer; nothing for bytes that cannot be decoded.
/// The buffer of an image holds at least four bytes for each pixel.
#[verifier::external_body]
fn load_rgba8(encoded: &[u8]) -> (r: Option<(u32, u32, Vec<u8>)>)
    ensures
        rgba8_picture(encoded@) == (match r {
            Some(p) => Some((p.0, p.1, p.2@)),
            None => None,
        }),
        r matches Some(p) ==> 4 * (p.0 * p.1) <= p.2@.len(),
{
    let rgba = image::load_from_memory(encoded).ok()?.into_rgba8();
    Some((rgba.width(), rgba.height(), rgba.into_raw()))
}

/// `image::DynamicImage::rotate90` on an RGBA picture: a quarter turn
/// clockwise. The pixel at column `x` of row `y` goes to column
/// `height - 1 - y` of row `x`.
#[verifier::external_body]
fn rotate90(frame: &Frame) -> (r: Frame)
    requires
        frame.wf(),
    ensures
        r@.width == frame@.height,
        r@.height == frame@.width,
        r@.pixels == turned(frame@.pixels, frame@.width as int, frame@.height as int, 4, 1),
{
    let source = image::RgbaImage::from_raw(frame.width, frame.height, frame.pixels.clone()).unwrap();
    let rotated = image::DynamicImage::ImageRgba8(source).rotate90().into_rgba8();
    Frame { width: rotated.width(), height: rotated.height(), pixels: rotated.into_raw() }
}

/// `image::DynamicImage::rotate180` on an RGBA picture: a half turn. The
/// pixel at column `x` of row `y` goes to column `width - 1 - x` of row
/// `height - 1 - y`.
#[verifier::external_body]
fn rotate180(frame: &Frame) -> (r: Frame)
    requires
        frame.wf(),
    ensures
        r@.width == frame@.width,
        r@.height == frame@.height,
        r@.pixels == turned(frame@.pixels, frame@.width as int, frame@.height as int, 4, 2),
{
    let source = image::RgbaImage::from_raw(frame.width, frame.height, frame.pixels.clone()).unwrap();
    let rotated = image::DynamicImage::ImageRgba8(source).rotate180().into_rgba8();
    Frame { width: rotated.width(), height: rotated.height(), pixels: rotated.into_raw() }
}

/// `image::DynamicImage::rotate270` on an RGBA picture: three quarter turns
/// clockwise. The pixel at column `x` of row `y` goes to column `y` of row
/// `width - 1 - x`.
#[verifier::external_body]
fn rotate270(frame: &Frame) -> (r: Frame)
    requires
        frame.wf(),
    ensures
        r@.width == frame@.height,
        r@.height == frame@.width,
        r@.pixels == turned(frame@.pixels, frame@.width as int, frame@.height as int, 4, 3),
{
    let source = image::RgbaImage::from_raw(frame.width, frame.height, frame.pixels.clone()).unwrap();
    let rotated = image::DynamicImage::ImageRgba8(source).rotate270().into_rgba8();
    Frame { width: rotated.width(), height: rotated.height(), pixels: rotated.into_raw() }
}

/// The picture that compressed bytes hold, as RGBA: the pixels are the
/// first bytes of the decoded buffer, four for each pixel.
pub open spec fn decoded_picture(encoded: Seq<u8>) -> Option<FrameView> {
    match rgba8_picture(encoded) {
        Some(p) => if 4 * (p.0 * p.1) <= p.2.len() {
            Some(FrameView { width: p.0, height: p.1, pixels: p.2.take(4 * (p.0 * p.1)) })
        } else {
            None
        },
        None => None,
    }
}

/// Decodes a compressed picture to RGBA. Fails with `FrameAcquireFailed`
/// exactly when the bytes are no picture that can be decoded.
pub fn decode_frame(encoded: &[u8]) -> (r: Result<Frame, CameraError>)
    ensures
        match decoded_picture(encoded@) {
            Some(picture) => r is Ok && r->Ok_0@ == picture && r->Ok_0.wf(),
            None => r == Err::<Frame, CameraError>(CameraError::FrameAcquireFailed),
        },
{
    match load_rgba8(encoded) {
        Some((width, height, buffer)) => {
            match Frame::from_buffer(width, height, buffer) {
                Some(frame) => Ok(frame),
                None => Err(CameraError::FrameAcquireFailed),
            }
        },
        None => Err(CameraError::FrameAcquireFailed),
    }
}

/// Turns frames into pixels for the display, for one stream configuration
/// and one rotation, both fixed when the pipeline starts.
#[derive(Debug)]
pub struct ImageHandler {
    pub stream_configuration: StreamConfiguration,
    pub rotation: ImageRotation,
}

impl ImageHandler {
    /// A handler for frames of the given configuration, shown at the given
    /// rotation.
    pub fn new(stream_configuration: StreamConfiguration, rotation: ImageRotation) -> (h: Self)
        ensures
            h.stream_configuration == stream_configuration,
            h.rotation == rotation,
    {
        ImageHandler { stream_configuration, rotation }
    }

    /// Whether a decoded picture has the size of the stream configuration.
    pub open spec fn fits(&self, decoded: FrameView) -> bool {
        decoded.width == self.stream_configuration.width && decoded.height
            == self.stream_configuration.height
    }

    /// The picture for the display, from a decoded picture of the size of
    /// the stream configuration: the picture turned by the rotation, so that
    /// a quarter turn either way exchanges width and height. There is none
    /// for a picture of another size.
    pub open spec fn oriented(&self, decoded: FrameView) -> Option<FrameView> {
        if self.fits(decoded) {
            Some(
                FrameView {
                    width: if self.rotation.swaps_sides() {
                        decoded.height
                    } else {
                        decoded.width
                    },
                    height: if self.rotation.swaps_sides() {
                        decoded.width
                    } else {
                        decoded.height
                    },
                    pixels: if self.rotation == ImageRotation::Deg0 {
                        decoded.pixels
                    } else {
                        turned(
                            decoded.pixels,
                            decoded.width as int,
                            decoded.height as int,
                            4,
                            self.rotation.quarter_turns(),
                        )
                    },
                },
            )
        } else {
            None
        }
    }

    /// Takes the reply to the call that acquires the newest frame. Fails
    /// with `FrameAcquireFailed` when no frame was handed out.
    pub fn on_image_available(&self, reply: &NativeReply) -> (r: Result<Image, CameraError>)
        ensures
            match reply.granted() {
                Some(h) => r is Ok && r->Ok_0.image == h,
                None => r == Err::<Image, CameraError>(CameraError::FrameAcquireFailed),
            },
    {
        match reply.handle() {
            Some(h) => Ok(Image::new(h)),
            None => Err(CameraError::FrameAcquireFailed),
        }
    }

    /// The picture for the display, from a decoded frame: the frame turned by
    /// the rotation, so that a quarter turn either way exchanges width and
    /// height. Fails with `FrameAcquireFailed` exactly when the frame has not
    /// the size of the stream configuration.
    pub fn orient(&self, decoded: Frame) -> (r: Result<Frame, CameraError>)
        ensures
            match self.oriented(decoded@) {
                Some(picture) => r is Ok && r->Ok_0@ == picture && r->Ok_0.wf(),
                None => r == Err::<Frame, CameraError>(CameraError::FrameAcquireFailed),
            },
    {
        proof {
            use_type_invariant(&decoded);
        }
        if decoded.width as i64 != self.stream_configuration.width as i64 || decoded.height as i64
            != self.stream_configuration.height as i64 {
            return Err(CameraError::FrameAcquireFailed);
        }
        let frame = match self.rotation {
            ImageRotation::Deg0 => decoded,
            ImageRotation::Deg90 => rotate90(&decoded),
            ImageRotation::Deg180 => rotate180(&decoded),
            ImageRotation::Deg270 => rotate270(&decoded),
        };
        proof {
            use_type_invariant(&frame);
        }
        Ok(frame)
    }

    /// The picture for the display, from the compressed bytes of a frame:
    /// the picture that the bytes hold, turned by the rotation. Fails with
    /// `FrameAcquireFailed` exactly when the bytes cannot be decoded or hold
    /// a picture that has not the size of the stream configuration.
    pub fn create_image(&self, encoded: &[u8]) -> (r: Result<Frame, CameraError>)
        ensures
            r is Ok <==> decoded_picture(encoded@) is Some && self.fits(
                decoded_picture(encoded@).unwrap(),
            ),
            r is Ok ==> Some(r->Ok_0@) == self.oriented(decoded_picture(encoded@).unwrap())
                && r->Ok_0.wf(),
            r is Err ==> r->Err_0 == CameraError::FrameAcquireFailed,
    {
        match decode_frame(encoded) {
            Ok(decoded) => self.orient(decoded),
            Err(e) => Err(e),
        }
    }
}

} // verus!
