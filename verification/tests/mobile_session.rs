use uto::mobile_session::{
    appium_alternate_base_url, appium_base_url, appium_probe_outcome, appium_session_id, endpoint_url,
    is_appium_base_path_mismatch_error, AppiumProbe, MobileCapabilities, MobilePlatform,
};

#[test]
fn test_probe_structure() {
    let probe = AppiumProbe {
        status_endpoint_ok: true,
        session_endpoint_ok: true,
        appium_version: Some("2.0.0".to_string()),
        available_drivers: vec!["uiautomator2".to_string()],
    };

    assert!(probe.status_endpoint_ok);
    assert_eq!(probe.appium_version.as_deref(), Some("2.0.0"));
}

#[test]
fn alternate_base_url_removes_wd_hub_suffix() {
    let alt = appium_alternate_base_url("http://localhost:4723/wd/hub");
    assert_eq!(alt.as_deref(), Some("http://localhost:4723"));
}

#[test]
fn alternate_base_url_adds_wd_hub_suffix() {
    let alt = appium_alternate_base_url("http://localhost:4723");
    assert_eq!(alt.as_deref(), Some("http://localhost:4723/wd/hub"));
}

#[test]
fn base_path_mismatch_detector_matches_unknown_command_404() {
    let msg = "Unknown command:\nStatus: 404";
    assert!(is_appium_base_path_mismatch_error(msg));
}

#[test]
fn base_path_mismatch_detector_ignores_non_404_failures() {
    let msg = "Could not find a connected Android device";
    assert!(!is_appium_base_path_mismatch_error(msg));
}

#[test]
fn mobile_platform_names_and_automation() {
    assert_eq!(MobilePlatform::Android.platform_name(), "Android");
    assert_eq!(MobilePlatform::Android.automation_name(), "UiAutomator2");
    assert_eq!(MobilePlatform::Ios.platform_name(), "iOS");
    assert_eq!(MobilePlatform::Ios.automation_name(), "XCUITest");
}

fn parse(text: &str) -> serde_json::Value {
    serde_json::from_str(text).expect("capabilities are JSON")
}

#[test]
fn mobile_capabilities_android_minimal() {
    let caps = MobileCapabilities::android("emulator-5554");
    let json = parse(&caps.to_json_pub());

    assert_eq!(json["platformName"], "Android");
    assert_eq!(json["appium:deviceName"], "emulator-5554");
    assert_eq!(json["appium:automationName"], "UiAutomator2");
    assert!(json.get("appium:platformVersion").is_none());
    assert!(json.get("appium:app").is_none());
}

#[test]
fn mobile_capabilities_ios_minimal() {
    let caps = MobileCapabilities::ios("iPhone 14");
    let json = parse(&caps.to_json_pub());

    assert_eq!(json["platformName"], "iOS");
    assert_eq!(json["appium:deviceName"], "iPhone 14");
    assert_eq!(json["appium:automationName"], "XCUITest");
}

#[test]
fn mobile_capabilities_with_platform_version() {
    let caps = MobileCapabilities::android("emulator-5554").with_platform_version("13.0");
    let json = parse(&caps.to_json_pub());

    assert_eq!(json["appium:platformVersion"], "13.0");
}

#[test]
fn mobile_capabilities_with_app() {
    let caps = MobileCapabilities::android("emulator-5554").with_app("/data/app.apk");
    let json = parse(&caps.to_json_pub());

    assert_eq!(json["appium:app"], "/data/app.apk");
}

#[test]
fn mobile_capabilities_with_extra() {
    let caps = MobileCapabilities::android("emulator-5554")
        .with_extra("appium:noReset", serde_json::Value::Bool(true).to_string());
    let json = parse(&caps.to_json_pub());

    assert_eq!(json["appium:noReset"], true);
}

#[test]
fn capabilities_text_is_exact_and_extras_override_in_place() {
    let caps = MobileCapabilities::android("dev \"1\"")
        .with_extra("platformName", "\"Custom\"".to_string())
        .with_extra("k", "1".to_string())
        .with_extra("k", "2".to_string());
    assert_eq!(
        caps.to_json_pub(),
        "{\"platformName\":\"Custom\",\"appium:deviceName\":\"dev \\\"1\\\"\",\"appium:automationName\":\"UiAutomator2\",\"k\":2}"
    );
    assert_eq!(caps.extra.len(), 2);
}

#[test]
fn alternate_base_url_edge_cases() {
    assert_eq!(appium_alternate_base_url("http://h/wd/hub///"), Some("http://h".to_string()));
    assert_eq!(appium_alternate_base_url("///"), None);
    assert_eq!(appium_alternate_base_url(""), None);
}

#[test]
fn endpoint_urls_drop_trailing_slashes() {
    assert_eq!(endpoint_url("http://h:1//", "status"), "http://h:1/status");
}

#[test]
fn session_id_prefers_top_level_then_nested() {
    let url = "http://h:4723";
    assert_eq!(
        appium_session_id(url, true, "{}", Ok(("top".to_string(), "nested".to_string()))),
        Ok("top".to_string())
    );
    assert_eq!(
        appium_session_id(url, true, "{}", Ok((String::new(), "nested".to_string()))),
        Ok("nested".to_string())
    );
    assert_eq!(
        appium_session_id(url, true, "{}", Ok((String::new(), String::new()))),
        Err("Appium at http://h:4723 returned a successful new-session response without a session id".to_string())
    );
    assert_eq!(
        appium_session_id(url, false, "oops", Ok(("x".to_string(), String::new()))),
        Err("Appium at http://h:4723: oops".to_string())
    );
    assert_eq!(
        appium_session_id(url, true, "nope", Err("bad json".to_string())),
        Err("Failed to parse Appium new-session response from http://h:4723/session: bad json; body: nope".to_string())
    );
}

#[test]
fn probe_outcome_decisions() {
    let err = appium_probe_outcome("http://h/", false, None, vec![], None).unwrap_err();
    assert_eq!(
        err,
        "Appium status endpoint not reachable at http://h/status. Verify Appium is running and the URL is correct."
    );
    let p = appium_probe_outcome("http://h", true, Some("2.5".to_string()), vec!["x".to_string()], Some(500))
        .expect("probe");
    assert!(p.status_endpoint_ok && p.session_endpoint_ok);
    let q = appium_probe_outcome("http://h", true, None, vec![], Some(405)).expect("probe");
    assert!(!q.session_endpoint_ok);
    let r = appium_probe_outcome("http://h", true, None, vec![], None).expect("probe");
    assert!(!r.session_endpoint_ok);
}

#[test]
fn appium_base_url_drops_trailing_slashes() {
    assert_eq!(appium_base_url("http://127.0.0.1:4723//"), "http://127.0.0.1:4723");
    assert_eq!(appium_base_url("http://127.0.0.1:4723/wd/hub"), "http://127.0.0.1:4723/wd/hub");
    assert_eq!(appium_base_url("/"), "");
}
