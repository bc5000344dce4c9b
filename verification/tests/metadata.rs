use otp_scanner::metadata::{
    select_camera, select_stream_configuration, FacingPolicy, StreamConfiguration, FACING_BACK,
    FACING_EXTERNAL, FACING_FRONT, FORMAT_JPEG,
};
use otp_scanner::status::{CameraError, Handle, NativeReply};

const RAW: i32 = 32;

#[test]
fn smallest_width_among_jpeg_entries() {
    let entries = [FORMAT_JPEG, 1920, 1080, 0, FORMAT_JPEG, 640, 480, 0, RAW, 4000, 3000, 0];
    assert_eq!(
        select_stream_configuration(&entries),
        Ok(StreamConfiguration { format: FORMAT_JPEG, width: 640, height: 480 })
    );
}

#[test]
fn narrower_entries_of_other_formats_are_ignored() {
    let entries = [RAW, 320, 240, 0, FORMAT_JPEG, 1920, 1080, 0, RAW, 160, 120, 1];
    assert_eq!(
        select_stream_configuration(&entries),
        Ok(StreamConfiguration::new(FORMAT_JPEG, 1920, 1080))
    );
}

#[test]
fn entries_of_other_formats_may_come_and_go() {
    let plain = [FORMAT_JPEG, 1920, 1080, 0, FORMAT_JPEG, 640, 480, 0];
    let chosen = Ok(StreamConfiguration::new(FORMAT_JPEG, 640, 480));
    assert_eq!(select_stream_configuration(&plain), chosen);
    let after = [FORMAT_JPEG, 1920, 1080, 0, FORMAT_JPEG, 640, 480, 0, RAW, 320, 240, 0];
    assert_eq!(select_stream_configuration(&after), chosen);
    let before = [RAW, 320, 240, 1, FORMAT_JPEG, 1920, 1080, 0, FORMAT_JPEG, 640, 480, 0];
    assert_eq!(select_stream_configuration(&before), chosen);
    let between = [FORMAT_JPEG, 1920, 1080, 0, RAW, 1, 1, 0, 35, 2, 2, 0, FORMAT_JPEG, 640, 480, 0];
    assert_eq!(select_stream_configuration(&between), chosen);
}

#[test]
fn absent_format_is_unsupported() {
    let entries = [RAW, 4000, 3000, 0, 35, 640, 480, 0];
    assert_eq!(select_stream_configuration(&entries), Err(CameraError::UnsupportedConfiguration));
    assert_eq!(select_stream_configuration(&[]), Err(CameraError::UnsupportedConfiguration));
}

#[test]
fn first_of_equal_widths_is_kept() {
    let entries = [FORMAT_JPEG, 640, 480, 0, FORMAT_JPEG, 640, 360, 0, FORMAT_JPEG, 800, 600, 0];
    assert_eq!(
        select_stream_configuration(&entries),
        Ok(StreamConfiguration::new(FORMAT_JPEG, 640, 480))
    );
}

#[test]
fn incomplete_last_entry_is_not_read() {
    let entries = [FORMAT_JPEG, 640, 480, 0, FORMAT_JPEG, 320, 240];
    assert_eq!(
        select_stream_configuration(&entries),
        Ok(StreamConfiguration::new(FORMAT_JPEG, 640, 480))
    );
    assert_eq!(
        select_stream_configuration(&[FORMAT_JPEG, 320, 240]),
        Err(CameraError::UnsupportedConfiguration)
    );
}

#[test]
fn first_camera_that_faces_back() {
    let facings = [FACING_FRONT, FACING_BACK, FACING_EXTERNAL, FACING_BACK];
    assert_eq!(select_camera(&facings, FacingPolicy::Back), Ok(1));
    assert_eq!(select_camera(&facings, FacingPolicy::Front), Ok(0));
    assert_eq!(select_camera(&facings, FacingPolicy::External), Ok(2));
}

#[test]
fn no_camera_faces_the_wanted_way() {
    assert_eq!(
        select_camera(&[FACING_FRONT, FACING_EXTERNAL], FacingPolicy::Back),
        Err(CameraError::NoMatchingCamera)
    );
    assert_eq!(select_camera(&[], FacingPolicy::Back), Err(CameraError::NoMatchingCamera));
}

#[test]
fn back_facing_by_default() {
    assert_eq!(FacingPolicy::default(), FacingPolicy::Back);
    assert!(FacingPolicy::default().accepts(FACING_BACK));
    assert!(!FacingPolicy::default().accepts(FACING_FRONT));
}

#[test]
fn status_zero_is_success() {
    assert_eq!(NativeReply::of_status(0).check(), Ok(()));
    assert_eq!(NativeReply::of_status(-10002).check(), Err(-10002));
    assert_eq!(NativeReply::of_status(1).check(), Err(1));
}

#[test]
fn handle_needs_success_and_a_pointer() {
    assert_eq!(NativeReply::of_handle(0, 4096).handle(), Some(Handle { raw: 4096 }));
    assert_eq!(NativeReply::of_handle(0, 0).handle(), None);
    assert_eq!(NativeReply::of_handle(-10001, 4096).handle(), None);
    assert_eq!(NativeReply::of_values(0, vec![1, 2]).handle(), None);
    assert_eq!(Handle::new(0), None);
    assert_eq!(Handle::new(7), Some(Handle { raw: 7 }));
}
