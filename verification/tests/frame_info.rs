use screencapturekit::cm_sample_buffer::{CMSampleBuffer, CVPixelBuffer};
use screencapturekit::sc_stream_frame_info::{SCFrameStatus, SCStreamFrameInfo};

#[test]
fn absent_status_key_decodes_to_idle() {
    let info = SCStreamFrameInfo { status_code: None };
    assert_eq!(info.status(), SCFrameStatus::Idle);
}

#[test]
fn each_known_code_decodes_to_its_enumerant() {
    let expected = [
        (0, SCFrameStatus::Complete),
        (1, SCFrameStatus::Idle),
        (2, SCFrameStatus::Blank),
        (3, SCFrameStatus::Suspended),
        (4, SCFrameStatus::Started),
        (5, SCFrameStatus::Stopped),
    ];
    for (code, status) in expected {
        let info = SCStreamFrameInfo { status_code: Some(code) };
        assert_eq!(info.status(), status);
    }
}

#[test]
fn unrecognized_codes_take_the_defined_fallback() {
    for code in [6, 7, 100, -1, i64::MIN, i64::MAX] {
        let info = SCStreamFrameInfo { status_code: Some(code) };
        assert_eq!(info.status(), SCFrameStatus::Idle);
    }
}

#[test]
fn sample_buffer_derives_status_and_pixel_view() {
    let info = SCStreamFrameInfo { status_code: Some(0) };
    let sample = CMSampleBuffer::new(11, Some(info), Some(12));
    assert_eq!(sample.sys_ref, 11);
    assert_eq!(sample.frame_status, SCFrameStatus::Complete);
    assert_eq!(sample.image_buf_ref, Some(12));
    assert_eq!(sample.pixel_buffer, Some(CVPixelBuffer { handle: 12 }));
}

#[test]
fn sample_buffer_without_image_has_no_pixel_view() {
    let sample = CMSampleBuffer::new(11, None, None);
    assert_eq!(sample.frame_status, SCFrameStatus::Idle);
    assert_eq!(sample.image_buf_ref, None);
    assert_eq!(sample.pixel_buffer, None);
}
