//! Compensation angle between the camera sensor and the display.

use vstd::prelude::*;

verus! {

/// The angle, in quarter turns, by which a frame is rotated before display.
#[derive(Clone, Copy, Debug, PartialEq, Eq, Structural)]
pub enum ImageRotation {
    Deg0,
    Deg90,
    Deg180,
    Deg270,
}

/// The quarter turn nearest to `rotation` degrees: the four ranges are 90
/// degrees wide, centred on 0, 90, 180 and 270, and each lower limit (45,
/// 135, 225, 315) belongs to the range above it. Angles outside `0..360`
/// fall to `Deg0`.
pub open spec fn bucket_of(rotation: int) -> ImageRotation {
    if 45 <= rotation < 135 {
        ImageRotation::Deg90
    } else if 135 <= rotation < 225 {
        ImageRotation::Deg180
    } else if 225 <= rotation < 315 {
        ImageRotation::Deg270
    } else {
        ImageRotation::Deg0
    }
}

/// The angle in `0..360` by which the sensor is ahead of the display.
pub open spec fn compensation_angle(sensor_orientation_deg: int, device_rotation_deg: int) -> int {
    (sensor_orientation_deg - device_rotation_deg + 360) % 360
}

/// The rotation that brings a frame of a back-facing sensor upright.
pub open spec fn resolved_rotation(sensor_orientation_deg: int, device_rotation_deg: int)
    -> ImageRotation {
    bucket_of(compensation_angle(sensor_orientation_deg, device_rotation_deg))
}

impl ImageRotation {
    /// The quarter turn nearest to `rotation` degrees; `Deg0` for an angle
    /// outside `0..360`.
    pub fn from_deg(rotation: i32) -> (r: Self)
        ensures
            r == bucket_of(rotation as int),
    {
        if 45 <= rotation && rotation < 135 {
            ImageRotation::Deg90
        } else if 135 <= rotation && rotation < 225 {
            ImageRotation::Deg180
        } else if 225 <= rotation && rotation < 315 {
            ImageRotation::Deg270
        } else {
            ImageRotation::Deg0
        }
    }

    /// Whether the rotation exchanges width and height.
    pub open spec fn swaps_sides(self) -> bool {
        self == ImageRotation::Deg90 || self == ImageRotation::Deg270
    }

    /// The number of clockwise quarter turns, from 0 to 3.
    pub open spec fn quarter_turns(self) -> int {
        match self {
            ImageRotation::Deg0 => 0,
            ImageRotation::Deg90 => 1,
            ImageRotation::Deg180 => 2,
            ImageRotation::Deg270 => 3,
        }
    }

    /// The width and height of a `width` by `height` frame after the rotation.
    pub fn rotated_size(self, width: u32, height: u32) -> (r: (u32, u32))
        ensures
            r == (if self.swaps_sides() {
                (height, width)
            } else {
                (width, height)
            }),
    {
        match self {
            ImageRotation::Deg0 | ImageRotation::Deg180 => (width, height),
            ImageRotation::Deg90 | ImageRotation::Deg270 => (height, width),
        }
    }
}

/// The rotation for a sensor mounted at `sensor_orientation_deg` on a display
/// turned by `device_rotation_deg`: the bucket of their difference, taken
/// into `0..360`.
pub fn resolve_rotation(sensor_orientation_deg: i32, device_rotation_deg: i32) -> (r: ImageRotation)
    ensures
        r == resolved_rotation(sensor_orientation_deg as int, device_rotation_deg as int),
{
    let difference: i64 = sensor_orientation_deg as i64 - device_rotation_deg as i64 + 360;
    let angle: i64 = if difference >= 0 {
        difference % 360
    } else {
        let below: i64 = (-difference) % 360;
        if below == 0 {
            0
        } else {
            360 - below
        }
    };
    assert(angle == compensation_angle(sensor_orientation_deg as int, device_rotation_deg as int))
        by {
        lemma_angle_of_negative(difference as int);
    }
    ImageRotation::from_deg(angle as i32)
}

/// The remainder of a negative angle, from the remainder of its opposite.
proof fn lemma_angle_of_negative(d: int)
    ensures
        d < 0 && (-d) % 360 == 0 ==> d % 360 == 0,
        d < 0 && (-d) % 360 != 0 ==> d % 360 == 360 - (-d) % 360,
{
    if d < 0 {
        let q = (-d) / 360;
        let m = (-d) % 360;
        assert(-d == 360 * q + m) by (nonlinear_arith)
            requires
                q == (-d) / 360,
                m == (-d) % 360,
        ;
        if m == 0 {
            assert(d % 360 == 0) by (nonlinear_arith)
                requires
                    d == 360 * (-q),
            ;
        } else {
            assert(d % 360 == 360 - m) by (nonlinear_arith)
                requires
                    d == 360 * (-q - 1) + (360 - m),
                    0 < m < 360,
            ;
        }
    }
}

/// The rotation depends only on how far the sensor is ahead of the display:
/// turning both by the same angle, or either by whole turns, gives the same
/// bucket.
pub proof fn lemma_rotation_depends_on_difference(
    sensor_orientation_deg: int,
    device_rotation_deg: int,
    turned_by: int,
    whole_turns: int,
)
    ensures
        resolved_rotation(sensor_orientation_deg + turned_by, device_rotation_deg + turned_by)
            == resolved_rotation(sensor_orientation_deg, device_rotation_deg),
        resolved_rotation(sensor_orientation_deg + 360 * whole_turns, device_rotation_deg)
            == resolved_rotation(sensor_orientation_deg, device_rotation_deg),
        resolved_rotation(sensor_orientation_deg, device_rotation_deg + 360 * whole_turns)
            == resolved_rotation(sensor_orientation_deg, device_rotation_deg),
{
    let d = sensor_orientation_deg - device_rotation_deg + 360;
    assert((d + 360 * whole_turns) % 360 == d % 360) by (nonlinear_arith);
    assert((d - 360 * whole_turns) % 360 == d % 360) by (nonlinear_arith);
}

/// Every angle falls into exactly the bucket whose centre is nearest: for an
/// angle in `0..360` the bucket's centre is at most 45 degrees away, counted
/// round the circle.
pub proof fn lemma_bucket_is_nearest(sensor_orientation_deg: int, device_rotation_deg: int)
    ensures
        ({
            let angle = compensation_angle(sensor_orientation_deg, device_rotation_deg);
            let centre = 90 * resolved_rotation(sensor_orientation_deg, device_rotation_deg)
                .quarter_turns();
            &&& 0 <= angle < 360
            &&& (-45 <= angle - centre < 45 || -45 <= angle - 360 - centre < 45)
        }),
{
}

/// Where, in a picture of `width` by `height` pixels of `channels` bytes
/// each, stored row by row, the byte comes from that stands at position `k`
/// after the picture was turned clockwise by `turns` quarter turns.
pub open spec fn source_index(k: int, width: int, height: int, channels: int, turns: int) -> int {
    let channel = k % channels;
    let pixel = k / channels;
    let turned_width = if turns == 1 || turns == 3 {
        height
    } else {
        width
    };
    let column = pixel % turned_width;
    let row = pixel / turned_width;
    let x = if turns == 1 {
        row
    } else if turns == 2 {
        width - 1 - column
    } else if turns == 3 {
        width - 1 - row
    } else {
        column
    };
    let y = if turns == 1 {
        height - 1 - column
    } else if turns == 2 {
        height - 1 - row
    } else if turns == 3 {
        column
    } else {
        row
    };
    (y * width + x) * channels + channel
}

/// The bytes of a picture turned clockwise by `turns` quarter turns. After
/// one or three quarter turns the picture is `height` wide and `width` high.
pub open spec fn turned(pixels: Seq<u8>, width: int, height: int, channels: int, turns: int) -> Seq<
    u8,
> {
    Seq::new(pixels.len(), |k: int| pixels[source_index(k, width, height, channels, turns)])
}

/// A quotient and a remainder within bounds: for `0 <= k < a * b` with `a`
/// positive, `k % a` lies in `0..a` and `k / a` in `0..b`.
proof fn lemma_split(k: int, a: int, b: int)
    requires
        a > 0,
        b >= 0,
        0 <= k < a * b,
    ensures
        0 <= k % a < a,
        0 <= k / a < b,
        k == a * (k / a) + k % a,
{
    assert(k == a * (k / a) + k % a && 0 <= k % a < a) by (nonlinear_arith)
        requires
            a > 0,
    ;
    let q = k / a;
    let r = k % a;
    assert(0 <= q < b) by (nonlinear_arith)
        requires
            a > 0,
            0 <= k < a * b,
            k == a * q + r,
            0 <= r < a,
    ;
}

/// Every byte of a turned picture comes from a byte of the picture: the
/// position that `source_index` names lies within it.
pub proof fn lemma_source_is_in_picture(k: int, width: int, height: int, channels: int, turns: int)
    requires
        width > 0,
        height > 0,
        channels > 0,
        0 <= turns <= 3,
        0 <= k < width * height * channels,
    ensures
        0 <= source_index(k, width, height, channels, turns) < width * height * channels,
{
    let pixels = width * height;
    assert(pixels > 0) by (nonlinear_arith)
        requires
            pixels == width * height,
            width > 0,
            height > 0,
    ;
    assert(width * height * channels == channels * pixels) by (nonlinear_arith)
        requires
            pixels == width * height,
    ;
    lemma_split(k, channels, pixels);
    let channel = k % channels;
    let pixel = k / channels;
    let turned_width = if turns == 1 || turns == 3 {
        height
    } else {
        width
    };
    let turned_height = if turns == 1 || turns == 3 {
        width
    } else {
        height
    };
    assert(turned_width * turned_height == pixels) by (nonlinear_arith)
        requires
            pixels == width * height,
            (turned_width == width && turned_height == height) || (turned_width == height
                && turned_height == width),
    ;
    lemma_split(pixel, turned_width, turned_height);
    let column = pixel % turned_width;
    let row = pixel / turned_width;
    let x = if turns == 1 {
        row
    } else if turns == 2 {
        width - 1 - column
    } else if turns == 3 {
        width - 1 - row
    } else {
        column
    };
    let y = if turns == 1 {
        height - 1 - column
    } else if turns == 2 {
        height - 1 - row
    } else if turns == 3 {
        column
    } else {
        row
    };
    assert(0 <= x < width && 0 <= y < height);
    assert(0 <= (y * width + x) * channels + channel < width * height * channels)
        by (nonlinear_arith)
        requires
            0 <= x < width,
            0 <= y < height,
            0 <= channel < channels,
    ;
}

/// A quotient and a remainder put together again: for `0 <= r < a`, the
/// number `a * q + r` has quotient `q` and remainder `r`.
proof fn lemma_join(q: int, r: int, a: int)
    requires
        0 <= r < a,
    ensures
        (a * q + r) / a == q,
        (a * q + r) % a == r,
{
    let n = a * q + r;
    assert(n == a * (n / a) + n % a && 0 <= n % a < a) by (nonlinear_arith)
        requires
            a > 0,
    ;
    assert(n / a == q) by (nonlinear_arith)
        requires
            n == a * q + r,
            n == a * (n / a) + n % a,
            0 <= r < a,
            0 <= n % a < a,
    ;
}

/// The turns that undo `turns` quarter turns.
pub open spec fn turns_back(turns: int) -> int {
    if turns == 0 {
        0
    } else {
        4 - turns
    }
}

/// Where a byte of a picture ends up and where it is taken from agree: the
/// byte at `k` of a picture that is turned and turned back comes from `k`.
proof fn lemma_source_of_source(k: int, width: int, height: int, channels: int, turns: int)
    requires
        width > 0,
        height > 0,
        channels > 0,
        0 <= turns <= 3,
        0 <= k < width * height * channels,
    ensures
        ({
            let turned_width = if turns == 1 || turns == 3 {
                height
            } else {
                width
            };
            let turned_height = if turns == 1 || turns == 3 {
                width
            } else {
                height
            };
            let back = source_index(k, turned_width, turned_height, channels, turns_back(turns));
            &&& 0 <= back < width * height * channels
            &&& source_index(back, width, height, channels, turns) == k
        }),
{
    let tw = if turns == 1 || turns == 3 {
        height
    } else {
        width
    };
    let th = if turns == 1 || turns == 3 {
        width
    } else {
        height
    };
    let pixels = width * height;
    assert(pixels > 0 && tw * th == pixels) by (nonlinear_arith)
        requires
            pixels == width * height,
            width > 0,
            height > 0,
            (tw == width && th == height) || (tw == height && th == width),
    ;
    assert(width * height * channels == channels * pixels && tw * th * channels == channels
        * pixels) by (nonlinear_arith)
        requires
            pixels == width * height,
            tw * th == pixels,
    ;
    lemma_source_is_in_picture(k, tw, th, channels, turns_back(turns));
    lemma_split(k, channels, pixels);
    let channel = k % channels;
    let pixel = k / channels;
    // The picture that was turned back is `width` wide again.
    lemma_split(pixel, width, height);
    let col = pixel % width;
    let row = pixel / width;
    let back_turns = turns_back(turns);
    let x1 = if back_turns == 1 {
        row
    } else if back_turns == 2 {
        tw - 1 - col
    } else if back_turns == 3 {
        tw - 1 - row
    } else {
        col
    };
    let y1 = if back_turns == 1 {
        th - 1 - col
    } else if back_turns == 2 {
        th - 1 - row
    } else if back_turns == 3 {
        col
    } else {
        row
    };
    let back = (y1 * tw + x1) * channels + channel;
    assert(back == source_index(k, tw, th, channels, back_turns));
    assert(0 <= x1 < tw && 0 <= y1 < th);
    assert(back == channels * (y1 * tw + x1) + channel) by (nonlinear_arith)
        requires
            back == (y1 * tw + x1) * channels + channel,
    ;
    lemma_join(y1 * tw + x1, channel, channels);
    assert(y1 * tw + x1 == tw * y1 + x1) by (nonlinear_arith);
    lemma_join(y1, x1, tw);
    assert(k == (row * width + col) * channels + channel) by (nonlinear_arith)
        requires
            k == channels * pixel + channel,
            pixel == width * row + col,
    ;
}

/// Turning a picture and turning it back gives the picture: a quarter turn
/// is undone by three, a half turn by another, and no turn changes nothing.
pub proof fn lemma_turning_back(pixels: Seq<u8>, width: int, height: int, channels: int, turns: int)
    requires
        width > 0,
        height > 0,
        channels > 0,
        0 <= turns <= 3,
        pixels.len() == width * height * channels,
    ensures
        ({
            let turned_width = if turns == 1 || turns == 3 {
                height
            } else {
                width
            };
            let turned_height = if turns == 1 || turns == 3 {
                width
            } else {
                height
            };
            turned(
                turned(pixels, width, height, channels, turns),
                turned_width,
                turned_height,
                channels,
                turns_back(turns),
            ) == pixels
        }),
{
    let tw = if turns == 1 || turns == 3 {
        height
    } else {
        width
    };
    let th = if turns == 1 || turns == 3 {
        width
    } else {
        height
    };
    let once = turned(pixels, width, height, channels, turns);
    let twice = turned(once, tw, th, channels, turns_back(turns));
    assert forall|k: int| 0 <= k < pixels.len() implies twice[k] == pixels[k] by {
        lemma_source_of_source(k, width, height, channels, turns);
    }
    assert(twice =~= pixels);
}

/// The number of pixels of a picture of `width` by `height`.
pub fn area(width: u32, height: u32) -> (pixels: u64)
    ensures
        pixels == width * height,
{
    assert(0 <= width * height <= 0xffff_ffff * 0xffff_ffff) by (nonlinear_arith)
        requires
            0 <= width <= 0xffff_ffff,
            0 <= height <= 0xffff_ffff,
    ;
    (width as u64) * (height as u64)
}

} // verus!
