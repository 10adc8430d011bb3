use std::io::Write;

use uto::archive::{extract_chromedriver_from_zip, ExtractError};
use uto::mobile_setup::{command_failure_message, emulator_launch_args, emulator_start_failure};
use uto::platform::HostOs;
use uto::session_logic::{
    first_non_empty, non_empty, scroll_failure_message, scroll_swipe, select_failure_message,
    session_failure_message, session_retry_url, start_activity_command, wait_step, web_candidate,
    ElementAttributes, WaitKind, WaitStep,
};
use uto::vision::{clamp_bbox_to_image, load_screenshot};

fn zip_with(entries: &[(&str, &[u8])]) -> Vec<u8> {
    let mut buf = std::io::Cursor::new(Vec::new());
    {
        let mut w = zip::ZipWriter::new(&mut buf);
        let opts = zip::write::SimpleFileOptions::default()
            .compression_method(zip::CompressionMethod::Stored);
        for (name, data) in entries {
            w.start_file(*name, opts).expect("start");
            w.write_all(data).expect("write");
        }
        w.finish().expect("finish");
    }
    buf.into_inner()
}

#[test]
fn extracts_chromedriver_by_file_name() {
    let bytes = zip_with(&[
        ("chromedriver-linux64/LICENSE.chromedriver", b"license"),
        ("chromedriver-linux64/chromedriver", b"BINARY"),
    ]);
    assert_eq!(extract_chromedriver_from_zip(&bytes, HostOs::Linux), Ok(b"BINARY".to_vec()));
    assert_eq!(
        extract_chromedriver_from_zip(&bytes, HostOs::Windows),
        Err(ExtractError::Internal(
            "'chromedriver.exe' not found inside the downloaded archive".to_string()
        ))
    );
}

#[test]
fn rejects_bytes_that_are_not_a_zip() {
    match extract_chromedriver_from_zip(b"not a zip", HostOs::Linux) {
        Err(ExtractError::Internal(m)) => assert!(m.starts_with("Failed to open ZIP archive: ")),
        other => panic!("unexpected {:?}", other),
    }
}

#[test]
fn screenshots_decode_or_explain() {
    let err = load_screenshot(&[1, 2, 3]).unwrap_err();
    assert!(err.starts_with("Failed to load screenshot: "));
    let img = image::RgbaImage::new(2, 3);
    let mut png = std::io::Cursor::new(Vec::new());
    image::DynamicImage::ImageRgba8(img)
        .write_to(&mut png, image::ImageFormat::Png)
        .expect("encode");
    let loaded = load_screenshot(png.get_ref()).expect("decode");
    assert_eq!(loaded.width(), 2);
    assert_eq!(loaded.height(), 3);
}

#[test]
fn boxes_are_clamped_to_the_image() {
    assert_eq!(clamp_bbox_to_image((0, 0, 500, 500), (320, 240)), (0, 0, 320, 240));
    assert_eq!(clamp_bbox_to_image((400, 300, 10, 10), (320, 240)), (319, 239, 1, 1));
    assert_eq!(clamp_bbox_to_image((10, 20, 30, 40), (320, 240)), (10, 20, 30, 40));
}

#[test]
fn web_candidates_from_attributes() {
    let attrs = ElementAttributes {
        tag: "button".to_string(),
        role: None,
        text: "  Submit  ".to_string(),
        aria_label: Some("   ".to_string()),
        placeholder: None,
        value: None,
        id: None,
    };
    let c = web_candidate(&attrs, 3);
    assert_eq!(c.label, Some("Submit".to_string()));
    assert_eq!(c.element_type, "button");
    assert_eq!(c.selector, "button:nth-match(3)");
    let attrs = ElementAttributes {
        tag: "input".to_string(),
        role: Some("textbox".to_string()),
        text: String::new(),
        aria_label: None,
        placeholder: Some(" Email ".to_string()),
        value: Some("x".to_string()),
        id: Some("email".to_string()),
    };
    let c = web_candidate(&attrs, 0);
    assert_eq!(c.label, Some("Email".to_string()));
    assert_eq!(c.element_type, "textbox");
    assert_eq!(c.selector, "#email");
    assert_eq!(non_empty(" ".to_string()), None);
    assert_eq!(first_non_empty(&vec![None, Some(" ".to_string())]), None);
}

#[test]
fn mobile_selection_scrolling_and_waiting() {
    let xpaths = vec!["//a".to_string(), "//b".to_string()];
    assert_eq!(
        select_failure_message("OK", &xpaths, None),
        "select('OK') failed on mobile after 2 xpath strategies: [//a | //b]. Last error: <none>"
    );
    assert_eq!(scroll_swipe(0).end_y, 600);
    assert_eq!(scroll_swipe(1).end_y, 1200);
    assert_eq!(scroll_swipe(1).start_y, 900);
    assert_eq!(
        scroll_failure_message("Wi-Fi", 3),
        "scroll_intent(Wi-Fi): not found after 3 scroll attempts"
    );
    assert_eq!(wait_step(WaitKind::Element, "//x", 100, 100), WaitStep::PollAgainAfterMs(50));
    assert_eq!(wait_step(WaitKind::Intent, "Go", 100, 50), WaitStep::PollAgainAfterMs(200));
    assert_eq!(
        wait_step(WaitKind::Element, "//x", 100, 101),
        WaitStep::GiveUp("wait_for_element(//x): timeout after 100ms".to_string())
    );
    assert_eq!(
        wait_step(WaitKind::Intent, "Go", 100, 101),
        WaitStep::GiveUp("wait_for_intent(Go): not found after 100ms".to_string())
    );
}

#[test]
fn appium_session_retry_decisions() {
    assert_eq!(
        session_retry_url("http://h:4723", "Unknown Command ... status 404"),
        Some("http://h:4723/wd/hub".to_string())
    );
    assert_eq!(session_retry_url("http://h:4723", "connection refused"), None);
    assert_eq!(
        session_failure_message("u", "p", Some(("a", "s"))),
        "Appium at u (retry at a) failed: primary error: p; retry error: s"
    );
    assert_eq!(session_failure_message("u", "p", None), "Appium at u: p");
    let cmd = start_activity_command("com.android.settings", ".Settings");
    assert_eq!(
        cmd,
        "{\"action\":\"android.intent.action.MAIN\",\"flags\":270532608,\"component\":\"com.android.settings/.Settings\"}"
    );
}

#[test]
fn setup_command_messages() {
    assert_eq!(command_failure_message("start adb server", " no ", ""), "Failed to start adb server: no");
    assert_eq!(emulator_launch_args("Pixel"), vec!["-avd", "Pixel", "-no-snapshot-save"]);
    assert_eq!(emulator_start_failure("Pixel", "boom"), "Failed to start emulator 'Pixel': boom");
}
