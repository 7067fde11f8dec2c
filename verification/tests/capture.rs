use azusa_lens::capture::{
    detected_backend, primary_monitor_index, CaptureBackendKind, CaptureError, CaptureRect,
    CapturedFrame,
};
use azusa_lens::capture_session::{CaptureOrigin, CaptureSession};
use azusa_lens::dialogs::{
    dialog_output_path, png_extension_for, suggested_png_name, suggested_png_name_at,
};
use azusa_lens::platform::Platform;

#[test]
fn backend_name_is_not_empty() {
    for platform in [Platform::Windows, Platform::MacOs, Platform::Linux, Platform::Other] {
        assert!(!detected_backend(platform, false, true).name().is_empty());
    }
}

#[test]
fn frame_rejects_wrong_rgba_length() {
    let error = CapturedFrame::new(2, 2, vec![0; 15]).expect_err("frame must be rejected");
    assert!(matches!(error, CaptureError::InvalidFrame { .. }));
    assert_eq!(error.message(), "invalid RGBA frame 2x2: got 15 bytes, expected 16");
}

#[test]
fn frame_accepts_rgba_length() {
    let frame = CapturedFrame::new(2, 2, vec![0; 16]).expect("frame must be valid");
    assert_eq!(frame.width(), 2);
    assert_eq!(frame.height(), 2);
    assert_eq!(frame.rgba().len(), 16);
}

#[test]
fn region_is_clamped_to_frame() {
    let rect = CaptureRect::new(2, 1, 4, 4).clamped_to(4, 3).expect("region should overlap frame");
    assert_eq!(rect, CaptureRect::new(2, 1, 2, 2));
}

#[test]
fn crop_preserves_expected_pixels() {
    let mut rgba = Vec::new();
    for pixel in 0_u8..16 {
        rgba.extend_from_slice(&[pixel, pixel, pixel, 255]);
    }
    let frame = CapturedFrame::new(4, 4, rgba).expect("valid frame");
    let cropped = frame.crop(CaptureRect::new(1, 1, 2, 2)).expect("valid crop");

    assert_eq!(cropped.width(), 2);
    assert_eq!(cropped.height(), 2);
    assert_eq!(cropped.rgba()[0], 5);
    assert_eq!(cropped.rgba()[4], 6);
    assert_eq!(cropped.rgba()[8], 9);
    assert_eq!(cropped.rgba()[12], 10);
}

#[test]
fn crop_outside_the_frame_is_refused() {
    let frame = CapturedFrame::new(2, 2, vec![0; 16]).unwrap();
    let error = frame.crop(CaptureRect::new(5, 5, 2, 2)).unwrap_err();
    assert_eq!(error.message(), "invalid capture region 5,5 2x2");
    assert_eq!(CaptureRect::new(u32::MAX, 0, u32::MAX, 3).clamped_to(4, 3), None);
}

#[test]
fn backend_follows_the_session() {
    assert_eq!(detected_backend(Platform::Linux, true, true), CaptureBackendKind::WaylandPortal);
    assert_eq!(detected_backend(Platform::Linux, false, true), CaptureBackendKind::X11);
    assert_eq!(detected_backend(Platform::Linux, false, false), CaptureBackendKind::Unsupported);
    assert_eq!(detected_backend(Platform::Windows, true, true).name(), "Windows / WGC");
}

#[test]
fn the_primary_monitor_is_preferred() {
    assert_eq!(primary_monitor_index(&[false, true, true]).unwrap(), 1);
    assert_eq!(primary_monitor_index(&[false, false]).unwrap(), 0);
    assert!(matches!(primary_monitor_index(&[]), Err(CaptureError::NoMonitor)));
}

#[test]
fn suggested_name_is_stable_for_unix_epoch() {
    assert_eq!(suggested_png_name_at(0), "AzusaLens_19700101_000000Z.png");
}

#[test]
fn suggested_name_handles_leap_day() {
    assert_eq!(suggested_png_name_at(1_709_210_096), "AzusaLens_20240229_123456Z.png");
}

#[test]
fn suggested_name_crosses_years_and_centuries() {
    assert_eq!(suggested_png_name_at(86_399), "AzusaLens_19700101_235959Z.png");
    assert_eq!(suggested_png_name_at(951_782_400), "AzusaLens_20000229_000000Z.png");
    assert_eq!(suggested_png_name_at(4_107_542_399), "AzusaLens_21000228_235959Z.png");
    assert_eq!(suggested_png_name_at(4_107_542_400), "AzusaLens_21000301_000000Z.png");
    assert!(suggested_png_name().starts_with("AzusaLens_"));
}

#[test]
fn png_extension_is_preserved_or_added() {
    assert_eq!(png_extension_for("capture.PNG", '/'), "capture.PNG");
    assert_eq!(png_extension_for("capture", '/'), "capture.png");
    assert_eq!(png_extension_for("capture.jpg", '/'), "capture.png");
}

#[test]
fn png_extension_handles_directories_and_dots() {
    assert_eq!(png_extension_for("/tmp/shots/a.b.jpeg", '/'), "/tmp/shots/a.b.png");
    assert_eq!(png_extension_for("/tmp/.hidden", '/'), "/tmp/.hidden.png");
    assert_eq!(png_extension_for("/tmp/shot/", '/'), "/tmp/shot.png");
    assert_eq!(png_extension_for("/tmp/..", '/'), "/tmp/..");
    assert_eq!(png_extension_for("C:\\shots\\a.gif", '\\'), "C:\\shots\\a.png");
}

#[test]
fn selection_state_round_trips_and_preserves_origin_until_session_cancel() {
    let mut session = CaptureSession::default();
    assert!(session.start(CaptureOrigin::Background));
    session.store_selection(
        CaptureOrigin::Background,
        CapturedFrame::new(1, 1, vec![0, 0, 0, 255]).unwrap(),
    );

    let (origin, frame) = session.take_selection().unwrap();
    assert_eq!(origin, CaptureOrigin::Background);
    assert_eq!((frame.width(), frame.height()), (1, 1));
    assert!(!session.is_active());
    assert!(session.take_selection().is_none());
    assert_eq!(session.cancel_selection(), Some(CaptureOrigin::Background));
}

#[test]
fn a_running_capture_is_not_started_twice() {
    let mut session = CaptureSession::new();
    assert!(session.start(CaptureOrigin::MainWindow));
    assert!(!session.start(CaptureOrigin::Background));
    assert!(session.is_active());
    session.capture_ended();
    assert!(!session.is_active());
    assert_eq!(session.cancel_selection(), Some(CaptureOrigin::MainWindow));
    assert_eq!(session.cancel_selection(), None);
    assert!(session.start(CaptureOrigin::Background));
    session.reset();
    assert!(!session.is_active());
    assert!(session.take_selection().is_none());
}

#[test]
fn dialog_helpers_report_paths_cancellations_and_failures() {
    assert_eq!(
        dialog_output_path("macOS file dialog", true, "0", "", Ok("  /tmp/a.png\n")),
        Ok(Some("/tmp/a.png".to_owned()))
    );
    assert_eq!(dialog_output_path("macOS file dialog", true, "0", "", Ok("\n")), Ok(None));
    assert_eq!(
        dialog_output_path("Windows file dialog", false, "exit code: 1", " denied \n", Ok("")),
        Err("Windows file dialog failed: denied".to_owned())
    );
    assert_eq!(
        dialog_output_path("Windows file dialog", false, "exit code: 1", "  ", Ok("")),
        Err("Windows file dialog exited with status exit code: 1".to_owned())
    );
    assert_eq!(
        dialog_output_path("macOS file dialog", true, "0", "", Err("invalid utf-8")),
        Err("macOS file dialog returned non-UTF-8 output: invalid utf-8".to_owned())
    );
}
