//! The frames of the scanner: planar YUV pictures are converted to RGB and
//! turned upright for the display. The search of their luminance plane for
//! a QR code is made outside this library; what is decided before and after
//! it is here: whether the plane can be searched, what a point of it holds,
//! and which of the readings is the text that was found.

use vstd::prelude::*;
use crate::rotation::{ImageRotation, area, bucket_of, turned};
use crate::status::CameraError;

verus! {

/// What to do when the user opens the scanner.
#[derive(Clone, Copy, Debug, PartialEq, Eq, Structural)]
pub enum ScannerAction {
    /// The camera runs already.
    KeepRunning,
    /// Ask for access to the camera; the scanner is not started.
    RequestPermission,
    /// Start the camera.
    Start,
}

impl ScannerAction {
    /// Whether the scanner is running once the action was taken. After a
    /// request for permission it is not: the user opens it again.
    pub fn is_running(&self) -> (b: bool)
        ensures
            b == (*self != ScannerAction::RequestPermission),
    {
        match self {
            ScannerAction::RequestPermission => false,
            _ => true,
        }
    }
}

/// What to do when the user opens the scanner: a running camera is left
/// alone, whatever the permission; without the permission it is asked for;
/// else the camera is started.
pub fn start_qr_scanner(is_camera_running: bool, has_permission: bool) -> (action: ScannerAction)
    ensures
        action == (if is_camera_running {
            ScannerAction::KeepRunning
        } else if !has_permission {
            ScannerAction::RequestPermission
        } else {
            ScannerAction::Start
        }),
{
    if is_camera_running {
        ScannerAction::KeepRunning
    } else if !has_permission {
        ScannerAction::RequestPermission
    } else {
        ScannerAction::Start
    }
}

/// Whether the camera is to be stopped when the user leaves the scanner:
/// only a running camera is.
pub fn stop_qr_scanner(is_camera_running: bool) -> (stop: bool)
    ensures
        stop == is_camera_running,
{
    is_camera_running
}

/// A rotation by a number of degrees counter-clockwise.
#[derive(Clone, Copy, Debug, PartialEq, Eq, Structural)]
pub enum RotationMode {
    Rotate90,
    Rotate180,
    Rotate270,
}

impl RotationMode {
    /// The same rotation in quarter turns clockwise.
    pub open spec fn clockwise_turns(self) -> int {
        match self {
            RotationMode::Rotate90 => 3,
            RotationMode::Rotate180 => 2,
            RotationMode::Rotate270 => 1,
        }
    }
}

/// The counter-clockwise rotation that turns a picture clockwise by
/// `rotation`; none where the picture stays as it is.
pub open spec fn mode_of(rotation: ImageRotation) -> Option<RotationMode> {
    match rotation {
        ImageRotation::Deg0 => None,
        ImageRotation::Deg90 => Some(RotationMode::Rotate270),
        ImageRotation::Deg180 => Some(RotationMode::Rotate180),
        ImageRotation::Deg270 => Some(RotationMode::Rotate90),
    }
}

/// How a picture of `width` by `height` that the sensor delivers at
/// `rotation` degrees is turned upright, and the width and height it has
/// then: a quarter turn either way exchanges them.
pub fn rotation_mode(rotation: i32, width: i32, height: i32) -> (r: (Option<RotationMode>, i32, i32))
    ensures
        r.0 == mode_of(bucket_of(rotation as int)),
        r.1 == (if bucket_of(rotation as int).swaps_sides() {
            height
        } else {
            width
        }),
        r.2 == (if bucket_of(rotation as int).swaps_sides() {
            width
        } else {
            height
        }),
{
    match ImageRotation::from_deg(rotation) {
        ImageRotation::Deg90 => (Some(RotationMode::Rotate270), height, width),
        ImageRotation::Deg180 => (Some(RotationMode::Rotate180), width, height),
        ImageRotation::Deg270 => (Some(RotationMode::Rotate90), height, width),
        ImageRotation::Deg0 => (None, width, height),
    }
}

/// A picture in planar YUV with the chroma planes at half resolution. A
/// stride is the number of bytes from one row of a plane to the next.
#[derive(Debug)]
pub struct YuvFrame {
    pub y_plane: Vec<u8>,
    pub y_stride: u32,
    pub u_plane: Vec<u8>,
    pub u_stride: u32,
    pub v_plane: Vec<u8>,
    pub v_stride: u32,
    pub width: u32,
    pub height: u32,
}

/// Whether a plane of `len` bytes holds `rows` rows of `columns` bytes, one
/// every `stride` bytes, within what can be addressed.
pub open spec fn plane_holds(len: int, stride: int, columns: int, rows: int) -> bool {
    &&& stride * rows <= isize::MAX
    &&& columns <= stride
    &&& len >= stride * (rows - 1) + columns
}

impl YuvFrame {
    /// Whether the picture is not empty and each plane holds its rows.
    pub open spec fn layout_ok(&self) -> bool {
        let w = self.width as int;
        let h = self.height as int;
        &&& w > 0
        &&& h > 0
        &&& 3 * w <= u32::MAX
        &&& 3 * (w * h) <= isize::MAX
        &&& plane_holds(self.y_plane@.len() as int, self.y_stride as int, w, h)
        &&& plane_holds(self.u_plane@.len() as int, self.u_stride as int, (w + 1) / 2, (h + 1) / 2)
        &&& plane_holds(self.v_plane@.len() as int, self.v_stride as int, (w + 1) / 2, (h + 1) / 2)
    }

    /// Whether the picture is not empty and each plane holds its rows.
    pub fn check_layout(&self) -> (ok: bool)
        ensures
            ok == self.layout_ok(),
    {
        if self.width == 0 || self.height == 0 {
            return false;
        }
        let half_width: u32 = (self.width - 1) / 2 + 1;
        let half_height: u32 = (self.height - 1) / 2 + 1;
        let pixels: u64 = area(self.width, self.height);
        self.width <= u32::MAX / 3 && 3 * (pixels as u128) <= isize::MAX as u128 && check_plane(
            self.y_plane.len(),
            self.y_stride,
            self.width,
            self.height,
        ) && check_plane(self.u_plane.len(), self.u_stride, half_width, half_height) && check_plane(
            self.v_plane.len(),
            self.v_stride,
            half_width,
            half_height,
        )
    }
}

/// Whether a plane of `len` bytes holds its rows.
fn check_plane(len: usize, stride: u32, columns: u32, rows: u32) -> (ok: bool)
    requires
        rows > 0,
    ensures
        ok == plane_holds(len as int, stride as int, columns as int, rows as int),
{
    let rows_before: u32 = rows - 1;
    let before: u64 = area(stride, rows_before);
    assert(stride * rows == stride * (rows - 1) + stride) by (nonlinear_arith);
    area(stride, rows) as u128 <= isize::MAX as u128 && columns <= stride && len as u128
        >= before as u128 + columns as u128
}

/// A picture of packed RGB pixels, stored row by row. It is not empty and
/// holds three bytes for each of its pixels.
#[derive(Debug)]
pub struct RgbFrame {
    width: u32,
    height: u32,
    pixels: Vec<u8>,
}

/// A picture as contracts see it.
pub struct RgbFrameView {
    pub width: u32,
    pub height: u32,
    pub pixels: Seq<u8>,
}

impl View for RgbFrame {
    type V = RgbFrameView;

    closed spec fn view(&self) -> RgbFrameView {
        RgbFrameView { width: self.width, height: self.height, pixels: self.pixels@ }
    }
}

/// Whether `count` bytes make up a picture of `width` by `height` that is
/// not empty.
pub open spec fn is_rgb_picture(width: u32, height: u32, count: nat) -> bool {
    width > 0 && height > 0 && count == 3 * (width * height)
}

impl RgbFrame {
    /// The picture is not empty and holds three bytes for each of its pixels.
    #[verifier::type_invariant]
    pub open spec fn wf(&self) -> bool {
        is_rgb_picture(self@.width, self@.height, self@.pixels.len())
    }

    /// The picture of the given size and bytes, where it is not empty and the
    /// bytes are three for each pixel.
    pub fn new(width: u32, height: u32, pixels: Vec<u8>) -> (r: Option<RgbFrame>)
        ensures
            match r {
                Some(frame) => frame@ == (RgbFrameView { width, height, pixels: pixels@ })
                    && frame.wf(),
                None => !is_rgb_picture(width, height, pixels@.len()),
            },
    {
        let count: u128 = 3 * (area(width, height) as u128);
        if width > 0 && height > 0 && pixels.len() as u128 == count {
            Some(RgbFrame { width, height, pixels })
        } else {
            None
        }
    }

    /// The number of pixels in a row.
    pub fn width(&self) -> (w: u32)
        ensures
            w == self@.width,
    {
        self.width
    }

    /// The number of rows.
    pub fn height(&self) -> (h: u32)
        ensures
            h == self@.height,
    {
        self.height
    }

    /// The bytes of the pixels, row by row.
    pub fn pixels(&self) -> (p: &Vec<u8>)
        ensures
            p@ == self@.pixels,
    {
        &self.pixels
    }

    /// The bytes of the picture.
    pub fn into_pixels(self) -> (p: Vec<u8>)
        ensures
            p@ == self@.pixels,
    {
        self.pixels
    }
}

/// `yuv::YuvError`: why a picture could not be converted or turned. It is
/// handed on without being looked into.
#[verifier::external_type_specification]
#[verifier::external_body]
pub struct ExYuvError(yuv::YuvError);

/// The range of the values of a YUV picture.
#[derive(Clone, Copy, Debug, PartialEq, Eq, Structural)]
pub enum ColorRange {
    /// Luminance from 16 to 235, as in broadcast video.
    Limited,
    /// Luminance from 0 to 255, as in still pictures.
    Full,
}

/// The standard whose weights relate YUV to RGB.
#[derive(Clone, Copy, Debug, PartialEq, Eq, Structural)]
pub enum ColorMatrix {
    Bt601,
    Bt709,
    Bt2020,
}

/// `yuv::yuv420_to_rgb`: fills `rgb` with the picture converted to packed
/// RGB, rows `rgb_stride` bytes apart. It is called only for a layout that
/// passes its checks of sizes, which are all that it fails on, so it
/// succeeds. Nothing is claimed of the bytes written: the arithmetic that
/// writes them is chosen by what the processor offers.
#[verifier::external_body]
fn yuv420_to_rgb(
    image: &YuvFrame,
    rgb: &mut Vec<u8>,
    rgb_stride: u32,
    range: ColorRange,
    matrix: ColorMatrix,
) -> (r: Result<(), yuv::YuvError>)
    requires
        image.layout_ok(),
        rgb_stride == 3 * image.width,
        old(rgb)@.len() == 3 * (image.width * image.height),
    ensures
        r is Ok,
        final(rgb)@.len() == old(rgb)@.len(),
{
    let (y_plane, u_plane, v_plane) = (&image.y_plane[..], &image.u_plane[..], &image.v_plane[..]);
    let (y_stride, u_stride, v_stride) = (image.y_stride, image.u_stride, image.v_stride);
    let (width, height) = (image.width, image.height);
    let planar = yuv::YuvPlanarImage { y_plane, y_stride, u_plane, u_stride, v_plane, v_stride, width, height };
    let range = match range {
        ColorRange::Limited => yuv::YuvRange::Limited,
        ColorRange::Full => yuv::YuvRange::Full,
    };
    let matrix = match matrix {
        ColorMatrix::Bt601 => yuv::YuvStandardMatrix::Bt601,
        ColorMatrix::Bt709 => yuv::YuvStandardMatrix::Bt709,
        ColorMatrix::Bt2020 => yuv::YuvStandardMatrix::Bt2020,
    };
    yuv::yuv420_to_rgb(&planar, rgb, rgb_stride, range, matrix)
}

/// `yuv::rotate_rgb` on pictures without padding between rows. It fails
/// only on sizes that do not fit, which the call rules out, so it succeeds:
/// `turned` holds the `width` by `height` picture of `source` turned
/// counter-clockwise by `mode`, so that the pixel at column `x` of row `y`
/// stands, after 90 degrees, at column `y` of row `width - 1 - x`; after
/// 180, at column `width - 1 - x` of row `height - 1 - y`; after 270, at
/// column `height - 1 - y` of row `x`.
#[verifier::external_body]
fn rotate_rgb(
    source: &[u8],
    source_stride: usize,
    turned: &mut Vec<u8>,
    turned_stride: usize,
    width: usize,
    height: usize,
    mode: RotationMode,
) -> (r: Result<(), yuv::YuvError>)
    requires
        width > 0,
        height > 0,
        source@.len() == 3 * (width * height),
        old(turned)@.len() == source@.len(),
        source_stride == 3 * width,
        turned_stride == 3 * (if mode == RotationMode::Rotate180 {
            width
        } else {
            height
        }),
    ensures
        r is Ok,
        final(turned)@.len() == old(turned)@.len(),
        final(turned)@ == crate::rotation::turned(
            source@,
            width as int,
            height as int,
            3,
            mode.clockwise_turns(),
        ),
{
    let mode = match mode {
        RotationMode::Rotate90 => yuv::RotationMode::Rotate90,
        RotationMode::Rotate180 => yuv::RotationMode::Rotate180,
        RotationMode::Rotate270 => yuv::RotationMode::Rotate270,
    };
    yuv::rotate_rgb(source, source_stride, turned, turned_stride, width, height, mode)
}

/// The picture turned upright for a sensor that delivers it at `rotation`
/// degrees: turned clockwise by the bucket of `rotation`, so that a quarter
/// turn either way exchanges width and height. It always succeeds.
pub fn turn_upright(frame: RgbFrame, rotation: i32) -> (r: Result<RgbFrame, CameraError>)
    ensures
        r is Ok,
        r->Ok_0.wf(),
        r->Ok_0@.width == (if bucket_of(rotation as int).swaps_sides() {
            frame@.height
        } else {
            frame@.width
        }),
        r->Ok_0@.height == (if bucket_of(rotation as int).swaps_sides() {
            frame@.width
        } else {
            frame@.height
        }),
        r->Ok_0@.pixels == (if bucket_of(rotation as int) == ImageRotation::Deg0 {
            frame@.pixels
        } else {
            turned(
                frame@.pixels,
                frame@.width as int,
                frame@.height as int,
                3,
                bucket_of(rotation as int).quarter_turns(),
            )
        }),
{
    proof {
        use_type_invariant(&frame);
    }
    let bucket = ImageRotation::from_deg(rotation);
    let mode = match bucket {
        ImageRotation::Deg0 => {
            return Ok(frame);
        },
        ImageRotation::Deg90 => RotationMode::Rotate270,
        ImageRotation::Deg180 => RotationMode::Rotate180,
        ImageRotation::Deg270 => RotationMode::Rotate90,
    };
    let (width, height) = bucket.rotated_size(frame.width, frame.height);
    let count: usize = frame.pixels.len();
    assert(3 * frame.width <= count && 3 * frame.height <= count) by (nonlinear_arith)
        requires
            frame.width > 0,
            frame.height > 0,
            count == 3 * (frame.width * frame.height),
    ;
    let mut pixels: Vec<u8> = vec![0u8; count];
    let turned_stride: usize = 3 * (width as usize);
    let outcome = rotate_rgb(
        frame.pixels.as_slice(),
        3 * (frame.width as usize),
        &mut pixels,
        turned_stride,
        frame.width as usize,
        frame.height as usize,
        mode,
    );
    match outcome {
        Ok(()) => {
            assert(width * height == frame.width * frame.height) by (nonlinear_arith)
                requires
                    (width == frame.width && height == frame.height) || (width == frame.height
                        && height == frame.width),
            ;
            Ok(RgbFrame { width, height, pixels })
        },
        Err(_) => Err(CameraError::FrameAcquireFailed),
    }
}

/// The picture of a planar YUV frame in packed RGB, turned upright for a
/// sensor that delivers it at `rotation` degrees. The values have the full
/// range and the weights of BT.601, as in JPEG. A picture comes out exactly
/// for a frame whose layout is valid; any other fails with
/// `FrameAcquireFailed`. The picture has the size of the frame, with width
/// and height exchanged by a quarter turn either way.
pub fn android_yuv_to_rgb(image: &YuvFrame, rotation: i32) -> (r: Result<RgbFrame, CameraError>)
    ensures
        r is Ok <==> image.layout_ok(),
        match r {
            Ok(upright) => {
                let bucket = bucket_of(rotation as int);
                &&& upright.wf()
                &&& upright@.width == (if bucket.swaps_sides() {
                    image.height
                } else {
                    image.width
                })
                &&& upright@.height == (if bucket.swaps_sides() {
                    image.width
                } else {
                    image.height
                })
            },
            Err(e) => e == CameraError::FrameAcquireFailed,
        },
{
    if !image.check_layout() {
        return Err(CameraError::FrameAcquireFailed);
    }
    let pixels: u64 = area(image.width, image.height);
    assert(3 * image.width <= 3 * (image.width * image.height)) by (nonlinear_arith)
        requires
            image.width > 0,
            image.height > 0,
    ;
    let count: usize = 3 * (pixels as usize);
    let mut rgb: Vec<u8> = vec![0u8; count];
    let converted = yuv420_to_rgb(
        image,
        &mut rgb,
        3 * image.width,
        ColorRange::Full,
        ColorMatrix::Bt601,
    );
    match converted {
        Ok(()) => {
            let frame = RgbFrame { width: image.width, height: image.height, pixels: rgb };
            turn_upright(frame, rotation)
        },
        Err(_) => Err(CameraError::FrameAcquireFailed),
    }
}

/// The luminance at column `x` of row `y` of a picture `width` wide; zero
/// outside the plane.
pub fn luma_at(y_plane: &[u8], width: usize, x: usize, y: usize) -> (l: u8)
    ensures
        l == (if x + y * width < y_plane@.len() {
            y_plane@[x + y * width]
        } else {
            0u8
        }),
{
    let bound: usize = y_plane.len();
    match y.checked_mul(width) {
        Some(row) => match row.checked_add(x) {
            Some(at) => if at < bound {
                y_plane[at]
            } else {
                0
            },
            None => 0,
        },
        None => 0,
    }
}

/// Whether reading `i` is the first that holds a text.
pub open spec fn is_first_text(readings: Seq<Option<Seq<char>>>, i: int) -> bool {
    &&& 0 <= i < readings.len()
    &&& readings[i] is Some
    &&& forall|j: int| 0 <= j < i ==> readings[j] is None
}

/// Whether `text` is what a search that gave `readings` found: the first
/// text among them, or nothing where none holds a text.
pub open spec fn is_found(readings: Seq<Option<Seq<char>>>, text: Option<Seq<char>>) -> bool {
    match text {
        Some(t) => exists|i: int| is_first_text(readings, i) && readings[i] == Some(t),
        None => forall|i: int| 0 <= i < readings.len() ==> readings[i] is None,
    }
}

/// The first text among the readings of a search.
pub fn first_text(readings: &Vec<Option<String>>) -> (r: Option<String>)
    ensures
        is_found(readings.deep_view(), r.deep_view()),
{
    let mut i: usize = 0;
    while i < readings.len()
        invariant
            i <= readings@.len(),
            forall|j: int| 0 <= j < i ==> readings.deep_view()[j] is None,
        decreases readings@.len() - i,
    {
        match &readings[i] {
            Some(text) => {
                let found = text.clone();
                assert(is_first_text(readings.deep_view(), i as int));
                assert(readings.deep_view()[i as int] == Some(found@));
                return Some(found);
            },
            None => {},
        }
        i = i + 1;
    }
    None
}

/// Whether a plane of `len` bytes holds a picture of `width` by `height`
/// that is not empty.
pub open spec fn holds_picture(len: int, width: int, height: int) -> bool {
    width > 0 && height > 0 && width * height <= len
}

/// Whether the luminance plane of a frame holds the picture that its size
/// announces, so that a search for QR codes reads nothing but the plane.
pub fn can_search(y_plane: &[u8], width: usize, height: usize) -> (ok: bool)
    ensures
        ok == holds_picture(y_plane@.len() as int, width as int, height as int),
{
    let bound: usize = y_plane.len();
    if width == 0 || height == 0 {
        return false;
    }
    match width.checked_mul(height) {
        Some(count) => count <= bound,
        None => {
            assert(width * height > bound);
            false
        },
    }
}

/// A search of a plane that holds its picture reads the plane alone: each
/// point of the picture lies in it.
pub proof fn lemma_search_stays_in_the_plane(len: int, width: int, height: int, x: int, y: int)
    requires
        holds_picture(len, width, height),
        0 <= x < width,
        0 <= y < height,
    ensures
        0 <= x + y * width < len,
{
    assert(y * width <= (height - 1) * width) by (nonlinear_arith)
        requires
            0 <= y <= height - 1,
            width > 0,
    ;
    assert((height - 1) * width == height * width - width) by (nonlinear_arith);
    assert(width * height == height * width) by (nonlinear_arith);
    assert(0 <= y * width) by (nonlinear_arith)
        requires
            0 <= y,
            width > 0,
    ;
}

} // verus!
