use otp_scanner::qr::{
    android_yuv_to_rgb, can_search, first_text, luma_at, rotation_mode, start_qr_scanner,
    stop_qr_scanner, turn_upright, RgbFrame, RotationMode, ScannerAction, YuvFrame,
};
use otp_scanner::status::CameraError;

/// The text found in a luminance plane: the plane is tested, searched for
/// grids point by point, and the first reading that holds a text is taken.
fn parse_qr_code(y_plane: &[u8], width: usize, height: usize) -> Option<String> {
    if !can_search(y_plane, width, height) {
        return None;
    }
    let mut prepared = rqrr::PreparedImage::prepare_from_greyscale(width, height, |x, y| {
        luma_at(y_plane, width, x, y)
    });
    let readings: Vec<Option<String>> = prepared
        .detect_grids()
        .into_iter()
        .map(|grid| grid.decode().ok().map(|(_, text)| text))
        .collect();
    first_text(&readings)
}

/// The modules of the QR code that reads `otpauth://totp/a`.
const MODULES: [&str; 21] = [
    "#######...#...#######",
    "#.....#.......#.....#",
    "#.###.#.#.##..#.###.#",
    "#.###.#..#..#.#.###.#",
    "#.###.#..#....#.###.#",
    "#.....#..###..#.....#",
    "#######.#.#.#.#######",
    "........#.##.........",
    "###.#####.#.###...#..",
    "#.####..#...###.#...#",
    "###..###.####...#.###",
    "####....##.#.#.#....#",
    ".#.#..#....##....#.#.",
    "........###.#.####.##",
    "#######.#..###.##.###",
    "#.....#.###.##.#...#.",
    "#.###.#.####...##...#",
    "#.###.#..#.##.#.##...",
    "#.###.#.#..###.####.#",
    "#.....#.#..#.......#.",
    "#######.#..###.###.##",
];

/// The luminance plane of the code, each module `scale` pixels wide, with a
/// white margin of four modules, and `padding` white columns to its right.
fn luminance(scale: usize, padding: usize) -> (Vec<u8>, usize, usize) {
    let side = (21 + 8) * scale;
    let width = side + padding;
    let mut plane = vec![255u8; width * side];
    for (row, line) in MODULES.iter().enumerate() {
        for (column, module) in line.bytes().enumerate() {
            if module == b'#' {
                for y in 0..scale {
                    for x in 0..scale {
                        plane[((row + 4) * scale + y) * width + (column + 4) * scale + x] = 0;
                    }
                }
            }
        }
    }
    (plane, width, side)
}

/// The plane turned a quarter turn clockwise.
fn quarter_turn(plane: &[u8], width: usize, height: usize) -> Vec<u8> {
    let mut turned = vec![0u8; plane.len()];
    for y in 0..height {
        for x in 0..width {
            turned[x * height + (height - 1 - y)] = plane[y * width + x];
        }
    }
    turned
}

#[test]
fn code_in_a_frame_is_read() {
    let (plane, width, height) = luminance(6, 0);
    assert_eq!(parse_qr_code(&plane, width, height), Some("otpauth://totp/a".to_string()));
}

#[test]
fn code_is_read_in_a_frame_that_is_wider_than_high() {
    let (plane, width, height) = luminance(5, 40);
    assert_eq!(parse_qr_code(&plane, width, height), Some("otpauth://totp/a".to_string()));
}

#[test]
fn code_is_read_in_every_orientation() {
    let (plane, width, height) = luminance(6, 12);
    let once = quarter_turn(&plane, width, height);
    assert_eq!(parse_qr_code(&once, height, width), Some("otpauth://totp/a".to_string()));
    let twice = quarter_turn(&once, height, width);
    assert_eq!(parse_qr_code(&twice, width, height), Some("otpauth://totp/a".to_string()));
    let thrice = quarter_turn(&twice, width, height);
    assert_eq!(parse_qr_code(&thrice, height, width), Some("otpauth://totp/a".to_string()));
}

#[test]
fn frame_without_a_code_reads_nothing() {
    assert_eq!(parse_qr_code(&vec![255u8; 64 * 48], 64, 48), None);
    assert_eq!(parse_qr_code(&vec![0u8; 64 * 48], 64, 48), None);
    let mut stripes = vec![0u8; 64 * 48];
    for (at, luma) in stripes.iter_mut().enumerate() {
        *luma = if (at / 4) % 2 == 0 { 255 } else { 0 };
    }
    assert_eq!(parse_qr_code(&stripes, 64, 48), None);
}

#[test]
fn plane_that_does_not_hold_the_picture_is_not_searched() {
    let (plane, width, height) = luminance(6, 0);
    assert_eq!(parse_qr_code(&plane[..plane.len() - 1], width, height), None);
    assert_eq!(parse_qr_code(&plane, 0, height), None);
    assert_eq!(parse_qr_code(&plane, width, 0), None);
    assert_eq!(parse_qr_code(&plane, usize::MAX, 2), None);
    assert_eq!(parse_qr_code(&[], 0, 0), None);
}

#[test]
fn plane_is_searched_where_it_holds_the_picture() {
    let plane = vec![0u8; 12];
    assert!(can_search(&plane, 3, 4));
    assert!(can_search(&plane, 4, 3));
    assert!(can_search(&plane, 12, 1));
    assert!(can_search(&plane, 1, 1));
    assert!(can_search(&plane, 2, 5));
    assert!(!can_search(&plane, 13, 1));
    assert!(!can_search(&plane, 4, 4));
    assert!(!can_search(&plane, 0, 4));
    assert!(!can_search(&plane, 3, 0));
    assert!(!can_search(&plane, 0, 0));
    assert!(!can_search(&plane, usize::MAX, usize::MAX));
    assert!(!can_search(&plane, usize::MAX / 2 + 1, 2));
    assert!(!can_search(&[], 1, 1));
}

#[test]
fn every_point_of_a_searched_picture_is_read_from_the_plane() {
    let plane: Vec<u8> = (1..=12).collect();
    assert!(can_search(&plane, 4, 3));
    for y in 0..3 {
        for x in 0..4 {
            assert_eq!(luma_at(&plane, 4, x, y), plane[x + y * 4]);
            assert_ne!(luma_at(&plane, 4, x, y), 0);
        }
    }
}

#[test]
fn bytes_after_the_picture_are_not_read() {
    let (mut plane, width, height) = luminance(6, 0);
    plane.extend_from_slice(&[0, 255, 0, 255, 17]);
    assert_eq!(parse_qr_code(&plane, width, height), Some("otpauth://totp/a".to_string()));
}

#[test]
fn first_text_among_readings() {
    assert_eq!(first_text(&vec![]), None);
    assert_eq!(first_text(&vec![None, None]), None);
    assert_eq!(
        first_text(&vec![None, Some("one".to_string()), Some("two".to_string()), None]),
        Some("one".to_string())
    );
    assert_eq!(first_text(&vec![Some(String::new()), Some("two".to_string())]), Some(String::new()));
}

#[test]
fn luminance_by_column_and_row() {
    let plane = [10u8, 11, 12, 20, 21, 22];
    assert_eq!(luma_at(&plane, 3, 0, 0), 10);
    assert_eq!(luma_at(&plane, 3, 2, 0), 12);
    assert_eq!(luma_at(&plane, 3, 1, 1), 21);
    assert_eq!(luma_at(&plane, 3, 0, 2), 0);
    assert_eq!(luma_at(&plane, usize::MAX, 1, 2), 0);
    assert_eq!(luma_at(&plane, 1, usize::MAX, 1), 0);
}

#[test]
fn scanner_is_started_only_with_permission() {
    assert_eq!(start_qr_scanner(true, true), ScannerAction::KeepRunning);
    assert_eq!(start_qr_scanner(true, false), ScannerAction::KeepRunning);
    assert_eq!(start_qr_scanner(false, false), ScannerAction::RequestPermission);
    assert_eq!(start_qr_scanner(false, true), ScannerAction::Start);
    assert!(ScannerAction::KeepRunning.is_running());
    assert!(ScannerAction::Start.is_running());
    assert!(!ScannerAction::RequestPermission.is_running());
}

#[test]
fn only_a_running_scanner_is_stopped() {
    assert!(stop_qr_scanner(true));
    assert!(!stop_qr_scanner(false));
}

#[test]
fn rotation_mode_by_bucket() {
    assert_eq!(rotation_mode(0, 640, 480), (None, 640, 480));
    assert_eq!(rotation_mode(44, 640, 480), (None, 640, 480));
    assert_eq!(rotation_mode(45, 640, 480), (Some(RotationMode::Rotate270), 480, 640));
    assert_eq!(rotation_mode(90, 640, 480), (Some(RotationMode::Rotate270), 480, 640));
    assert_eq!(rotation_mode(134, 640, 480), (Some(RotationMode::Rotate270), 480, 640));
    assert_eq!(rotation_mode(135, 640, 480), (Some(RotationMode::Rotate180), 640, 480));
    assert_eq!(rotation_mode(180, 640, 480), (Some(RotationMode::Rotate180), 640, 480));
    assert_eq!(rotation_mode(225, 640, 480), (Some(RotationMode::Rotate90), 480, 640));
    assert_eq!(rotation_mode(270, 640, 480), (Some(RotationMode::Rotate90), 480, 640));
    assert_eq!(rotation_mode(314, 640, 480), (Some(RotationMode::Rotate90), 480, 640));
    assert_eq!(rotation_mode(315, 640, 480), (None, 640, 480));
    assert_eq!(rotation_mode(-90, 640, 480), (None, 640, 480));
    assert_eq!(rotation_mode(360, 640, 480), (None, 640, 480));
}

/// A picture whose pixel at column `x` of row `y` is `(x, y, 9)`.
fn picture(width: u32, height: u32) -> RgbFrame {
    let mut pixels = Vec::new();
    for y in 0..height {
        for x in 0..width {
            pixels.push(x as u8);
            pixels.push(y as u8);
            pixels.push(9);
        }
    }
    RgbFrame::new(width, height, pixels).unwrap()
}

fn pixel(frame: &RgbFrame, x: u32, y: u32) -> (u8, u8) {
    let at = 3 * (y * frame.width() + x) as usize;
    assert_eq!(frame.pixels()[at + 2], 9);
    (frame.pixels()[at], frame.pixels()[at + 1])
}

#[test]
fn upright_after_a_quarter_turn() {
    let upright = turn_upright(picture(4, 3), 90).unwrap();
    assert_eq!((upright.width(), upright.height()), (3, 4));
    for y in 0..3 {
        for x in 0..4 {
            assert_eq!(pixel(&upright, 3 - 1 - y, x), (x as u8, y as u8));
        }
    }
}

#[test]
fn upright_after_a_half_turn() {
    let upright = turn_upright(picture(4, 3), 180).unwrap();
    assert_eq!((upright.width(), upright.height()), (4, 3));
    for y in 0..3 {
        for x in 0..4 {
            assert_eq!(pixel(&upright, 4 - 1 - x, 3 - 1 - y), (x as u8, y as u8));
        }
    }
}

#[test]
fn upright_after_three_quarter_turns() {
    let upright = turn_upright(picture(4, 3), 270).unwrap();
    assert_eq!((upright.width(), upright.height()), (3, 4));
    for y in 0..3 {
        for x in 0..4 {
            assert_eq!(pixel(&upright, y, 4 - 1 - x), (x as u8, y as u8));
        }
    }
}

#[test]
fn upright_already() {
    let upright = turn_upright(picture(4, 3), 10).unwrap();
    assert_eq!((upright.width(), upright.height()), (4, 3));
    assert_eq!(upright.pixels(), picture(4, 3).pixels());
}

#[test]
fn large_picture_is_turned_like_a_small_one() {
    let upright = turn_upright(picture(200, 150), 90).unwrap();
    assert_eq!((upright.width(), upright.height()), (150, 200));
    for (x, y) in [(0, 0), (199, 0), (0, 149), (199, 149), (17, 101), (128, 64)] {
        assert_eq!(pixel(&upright, 150 - 1 - y, x), (x as u8, y as u8));
    }
}

fn grey(width: u32, height: u32, luma: u8) -> YuvFrame {
    let half_width = (width + 1) / 2;
    let half_height = (height + 1) / 2;
    YuvFrame {
        y_plane: vec![luma; (width * height) as usize],
        y_stride: width,
        u_plane: vec![128; (half_width * half_height) as usize],
        u_stride: half_width,
        v_plane: vec![128; (half_width * half_height) as usize],
        v_stride: half_width,
        width,
        height,
    }
}

#[test]
fn grey_frame_becomes_grey_pixels() {
    let rgb = android_yuv_to_rgb(&grey(8, 6, 200), 0).unwrap();
    assert_eq!((rgb.width(), rgb.height()), (8, 6));
    assert_eq!(rgb.pixels().len(), 3 * 8 * 6);
    for value in rgb.pixels() {
        assert!((199..=201).contains(value), "{} is not grey", value);
    }
}

#[test]
fn luminance_decides_the_brightness() {
    let mut frame = grey(4, 2, 0);
    frame.y_plane[0] = 255;
    let rgb = android_yuv_to_rgb(&frame, 0).unwrap();
    assert!(rgb.pixels()[0] >= 254 && rgb.pixels()[1] >= 254 && rgb.pixels()[2] >= 254);
    assert!(rgb.pixels()[3] <= 1 && rgb.pixels()[4] <= 1 && rgb.pixels()[5] <= 1);
}

#[test]
fn converted_frame_is_turned_upright() {
    let mut frame = grey(8, 6, 0);
    frame.y_plane[0] = 255;
    let rgb = android_yuv_to_rgb(&frame, 90).unwrap();
    assert_eq!((rgb.width(), rgb.height()), (6, 8));
    assert_eq!(rgb.pixels().len(), 3 * 8 * 6);
    // The top left corner goes to the top right.
    assert!(rgb.pixels()[3 * 5] >= 254);
    assert!(rgb.pixels()[0] <= 1);
    let rgb = android_yuv_to_rgb(&frame, 270).unwrap();
    assert_eq!((rgb.width(), rgb.height()), (6, 8));
    // The top left corner goes to the bottom left.
    assert!(rgb.pixels()[3 * 6 * 7] >= 254);
    let rgb = android_yuv_to_rgb(&frame, 180).unwrap();
    assert_eq!((rgb.width(), rgb.height()), (8, 6));
    assert!(rgb.pixels()[3 * (8 * 6 - 1)] >= 254);
}

#[test]
fn odd_sizes_round_the_chroma_planes_up() {
    let rgb = android_yuv_to_rgb(&grey(7, 5, 90), 90).unwrap();
    assert_eq!((rgb.width(), rgb.height()), (5, 7));
    assert_eq!(rgb.pixels().len(), 3 * 7 * 5);
}

#[test]
fn padded_rows_are_accepted() {
    let mut frame = grey(8, 6, 100);
    frame.y_stride = 16;
    frame.y_plane = vec![100; 16 * 5 + 8];
    assert!(frame.check_layout());
    let rgb = android_yuv_to_rgb(&frame, 0).unwrap();
    assert_eq!(rgb.pixels().len(), 3 * 8 * 6);
}

#[test]
fn frame_with_a_wrong_layout_is_refused() {
    let mut empty = grey(8, 6, 0);
    empty.width = 0;
    assert!(!empty.check_layout());
    assert_eq!(android_yuv_to_rgb(&empty, 0).err(), Some(CameraError::FrameAcquireFailed));
    let mut flat = grey(8, 6, 0);
    flat.height = 0;
    assert_eq!(android_yuv_to_rgb(&flat, 0).err(), Some(CameraError::FrameAcquireFailed));
    let mut short = grey(8, 6, 0);
    short.y_plane.pop();
    assert!(!short.check_layout());
    assert_eq!(android_yuv_to_rgb(&short, 0).err(), Some(CameraError::FrameAcquireFailed));
    let mut narrow = grey(8, 6, 0);
    narrow.u_stride = 3;
    assert_eq!(android_yuv_to_rgb(&narrow, 0).err(), Some(CameraError::FrameAcquireFailed));
    let mut chroma = grey(8, 6, 0);
    chroma.v_plane.truncate(11);
    assert_eq!(android_yuv_to_rgb(&chroma, 0).err(), Some(CameraError::FrameAcquireFailed));
    let mut negative = grey(8, 6, 0);
    negative.y_stride = -8i32 as u32;
    assert_eq!(android_yuv_to_rgb(&negative, 0).err(), Some(CameraError::FrameAcquireFailed));
    let mut huge = grey(8, 6, 0);
    huge.width = u32::MAX;
    huge.height = u32::MAX;
    assert_eq!(android_yuv_to_rgb(&huge, 0).err(), Some(CameraError::FrameAcquireFailed));
}

/// Numbers that look random, the same on every run.
fn noise(count: usize, seed: u64) -> Vec<u8> {
    let mut state = seed;
    let mut bytes = Vec::with_capacity(count);
    for _ in 0..count {
        state = state.wrapping_mul(6364136223846793005).wrapping_add(1442695040888963407);
        bytes.push((state >> 56) as u8);
    }
    bytes
}

#[test]
fn noise_of_any_size_is_searched() {
    for (width, height) in [(1, 1), (1, 9), (9, 1), (2, 3), (7, 7), (33, 17), (120, 90), (251, 3)] {
        for seed in 0..4 {
            let plane = noise(width * height, seed);
            let found = parse_qr_code(&plane, width, height);
            assert!(found.is_none() || found.is_some());
        }
    }
}

#[test]
fn code_is_read_under_noise_around_it() {
    let (mut plane, width, height) = luminance(6, 30);
    let speckles = noise(height * 30, 7);
    for y in 0..height {
        for x in 0..20 {
            plane[y * width + width - 20 + x] = speckles[y * 30 + x];
        }
    }
    assert_eq!(parse_qr_code(&plane, width, height), Some("otpauth://totp/a".to_string()));
}

#[test]
fn code_with_a_damaged_module_is_still_read() {
    let (mut plane, width, _height) = luminance(6, 0);
    // The module at column 12 of row 12 is painted over.
    for y in 0..6 {
        for x in 0..6 {
            let at = ((12 + 4) * 6 + y) * width + (12 + 4) * 6 + x;
            plane[at] = 255 - plane[at];
        }
    }
    assert_eq!(parse_qr_code(&plane, width, width), Some("otpauth://totp/a".to_string()));
}

#[test]
fn code_without_a_corner_is_not_read() {
    let (mut plane, width, height) = luminance(6, 0);
    for y in 0..12 * 6 {
        for x in 0..12 * 6 {
            plane[y * width + x] = 255;
        }
    }
    assert_eq!(parse_qr_code(&plane, width, height), None);
}

#[test]
fn smallest_frames_are_converted() {
    for (width, height) in [(1, 1), (2, 1), (1, 2), (3, 3), (2, 2), (17, 1), (1, 17), (16, 16)] {
        for rotation in [0, 90, 180, 270] {
            let rgb = android_yuv_to_rgb(&grey(width, height, 77), rotation).unwrap();
            let swapped = rotation == 90 || rotation == 270;
            let expected = if swapped { (height, width) } else { (width, height) };
            assert_eq!((rgb.width(), rgb.height()), expected);
            assert_eq!(rgb.pixels().len(), (3 * width * height) as usize);
            for value in rgb.pixels() {
                assert!((76..=78).contains(value));
            }
        }
    }
}

#[test]
fn pictures_of_many_sizes_are_turned() {
    for (width, height) in [(1, 1), (1, 5), (5, 1), (16, 16), (17, 33), (130, 140), (129, 2), (2, 129)] {
        let quarter = turn_upright(picture(width, height), 90).unwrap();
        let half = turn_upright(picture(width, height), 180).unwrap();
        let three = turn_upright(picture(width, height), 270).unwrap();
        assert_eq!((quarter.width(), quarter.height()), (height, width));
        assert_eq!((half.width(), half.height()), (width, height));
        assert_eq!((three.width(), three.height()), (height, width));
        for y in 0..height {
            for x in 0..width {
                assert_eq!(pixel(&quarter, height - 1 - y, x), (x as u8, y as u8));
                assert_eq!(pixel(&half, width - 1 - x, height - 1 - y), (x as u8, y as u8));
                assert_eq!(pixel(&three, y, width - 1 - x), (x as u8, y as u8));
            }
        }
    }
}

#[test]
fn picture_holds_three_bytes_for_each_pixel() {
    assert!(RgbFrame::new(2, 3, vec![0; 18]).is_some());
    assert!(RgbFrame::new(2, 3, vec![0; 17]).is_none());
    assert!(RgbFrame::new(0, 3, Vec::new()).is_none());
    assert!(RgbFrame::new(3, 0, Vec::new()).is_none());
    assert!(RgbFrame::new(u32::MAX, u32::MAX, Vec::new()).is_none());
    let frame = RgbFrame::new(1, 2, vec![1, 2, 3, 4, 5, 6]).unwrap();
    assert_eq!((frame.width(), frame.height()), (1, 2));
    assert_eq!(frame.into_pixels(), vec![1, 2, 3, 4, 5, 6]);
}

#[test]
fn quarter_turn_of_a_640_by_480_yuv_frame() {
    let rgb = android_yuv_to_rgb(&grey(640, 480, 0), 90).unwrap();
    assert_eq!((rgb.width(), rgb.height()), (480, 640));
    assert_eq!(rgb.pixels().len(), 3 * 640 * 480);
    let same = android_yuv_to_rgb(&grey(640, 480, 0), 0).unwrap();
    assert_eq!((same.width(), same.height()), (640, 480));
}

#[test]
fn every_valid_frame_gives_a_picture_at_every_rotation() {
    for (width, height) in [(1, 1), (5, 3), (64, 48), (33, 17)] {
        let frame = grey(width, height, 10);
        assert!(frame.check_layout());
        for rotation in [-720, -90, 0, 44, 45, 90, 134, 135, 180, 225, 270, 315, 359, 360, 1000] {
            let rgb = android_yuv_to_rgb(&frame, rotation).unwrap();
            assert_eq!(rgb.width() * rgb.height(), width * height);
            assert_eq!(rgb.pixels().len(), (3 * width * height) as usize);
        }
    }
}
