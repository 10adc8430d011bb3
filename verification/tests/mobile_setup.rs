use uto::mobile_setup::{
    appium_driver_listed, appium_install_decision, check_online_device, choose_avd_name,
    combined_output, driver_update_plan, emulator_binary_path, emulator_outcome, find_driver,
    first_online_device, installed_only, parse_adb_devices, parse_avd_list, parse_doctor_summary,
    uiautomator2_doctor_verdict, uiautomator2_verified_message, AppiumDriver, AppiumSetupError,
    DriverDoctorSummary, DriverUpdatePlan, EmulatorVerdict, MobileSetupOptions,
};
use uto::platform::{AndroidSdk, HostOs};

#[test]
fn parse_adb_devices_extracts_serial_and_state() {
    let out = "List of devices attached\nemulator-5554\tdevice\n0123456789ABCDEF\toffline\n";
    let devices = parse_adb_devices(out);

    assert_eq!(devices.len(), 2);
    assert_eq!(devices[0].0, "emulator-5554");
    assert_eq!(devices[0].1, "device");
    assert_eq!(devices[1].0, "0123456789ABCDEF");
    assert_eq!(devices[1].1, "offline");
}

#[test]
fn parse_avd_list_returns_non_empty_lines() {
    let out = "Pixel_7_API_34\n\nsmall_phone_api_31\n";
    let avds = parse_avd_list(out);

    assert_eq!(avds, vec!["Pixel_7_API_34", "small_phone_api_31"]);
}

#[test]
fn parse_doctor_summary_extracts_required_and_optional_fix_counts() {
    let output = "info Doctor ### Diagnostic completed, 0 required fixes needed, 2 optional fixes possible. ###";
    let summary = parse_doctor_summary(output).expect("summary should parse");

    assert_eq!(summary.required_fixes, 0);
    assert_eq!(summary.optional_fixes, 2);
}

#[test]
fn parse_adb_devices_skips_header_blank_and_single_word_lines() {
    let out = "List of devices attached\n\n  lonely  \nabc device extra\r\n";
    let devices = parse_adb_devices(out);
    assert_eq!(devices, vec![("abc".to_string(), "device".to_string())]);
    assert!(parse_adb_devices("").is_empty());
}

#[test]
fn parse_doctor_summary_needs_both_counts() {
    assert_eq!(parse_doctor_summary("no summary here"), None);
    assert_eq!(
        parse_doctor_summary("Diagnostic completed, x required fixes needed, 1 optional fixes possible"),
        None
    );
    assert_eq!(
        parse_doctor_summary("line one\nDiagnostic completed, 3 required fixes needed, 12 optional fixes possible."),
        Some(DriverDoctorSummary { required_fixes: 3, optional_fixes: 12 })
    );
}

#[test]
fn doctor_verdict_messages() {
    let ok = "Diagnostic completed, 0 required fixes needed, 2 optional fixes possible.";
    assert_eq!(
        uiautomator2_doctor_verdict(ok),
        Ok("UiAutomator2 doctor passed with 0 required fix(es) and 2 optional fix(es)".to_string())
    );
    let bad = "Diagnostic completed, 1 required fixes needed, 0 optional fixes possible.";
    assert_eq!(
        uiautomator2_doctor_verdict(bad).unwrap_err(),
        format!("Appium UiAutomator2 doctor reported 1 required fix(es): {bad}")
    );
    assert_eq!(
        uiautomator2_doctor_verdict("garbage").unwrap_err(),
        "Appium UiAutomator2 doctor ran, but its summary could not be parsed: garbage"
    );
}

#[test]
fn combined_output_variants() {
    assert_eq!(combined_output("  ", "\n"), "no command output");
    assert_eq!(combined_output(" out ", ""), "out");
    assert_eq!(combined_output("", " err "), "err");
    assert_eq!(combined_output("out\n", "err\n"), "out | err");
}

#[test]
fn first_online_device_skips_offline() {
    let devices = parse_adb_devices("List\nA\toffline\nB\tdevice\nC\tdevice\n");
    assert_eq!(first_online_device(&devices), Some("B".to_string()));
    let none = parse_adb_devices("List\nA\tunauthorized\n");
    assert_eq!(first_online_device(&none), None);
}

#[test]
fn choose_avd_prefers_listed_preference() {
    let avds = vec!["a".to_string(), "b".to_string()];
    assert_eq!(choose_avd_name(&avds, Some("b")), Some("b".to_string()));
    assert_eq!(choose_avd_name(&avds, Some("z")), Some("a".to_string()));
    assert_eq!(choose_avd_name(&avds, None), Some("a".to_string()));
    assert_eq!(choose_avd_name(&vec![], Some("a")), None);
}

#[test]
fn emulator_path_per_host() {
    let sdk = AndroidSdk { root: "/sdk".to_string(), adb_path: "/sdk/platform-tools/adb".to_string() };
    assert_eq!(emulator_binary_path(HostOs::Linux, &sdk), "/sdk/emulator/emulator");
    let win = AndroidSdk { root: "C:\\sdk".to_string(), adb_path: String::new() };
    assert_eq!(emulator_binary_path(HostOs::Windows, &win), "C:\\sdk\\emulator\\emulator.exe");
}

#[test]
fn emulator_outcome_records_actions() {
    let mut options = MobileSetupOptions::default();
    let mut actions = Vec::new();
    assert_eq!(
        emulator_outcome(&options, Ok(Some("emulator-5554".to_string())), &mut actions),
        EmulatorVerdict::Online("emulator-5554".to_string())
    );
    assert_eq!(actions, vec!["Android device online after emulator start: emulator-5554"]);
    assert_eq!(emulator_outcome(&options, Ok(None), &mut actions), EmulatorVerdict::NotOnline);
    assert_eq!(
        emulator_outcome(&options, Err("boom".to_string()), &mut actions),
        EmulatorVerdict::Skipped
    );
    assert_eq!(actions[1], "Emulator auto-start skipped: boom");
    options.require_online_device = true;
    assert_eq!(
        emulator_outcome(&options, Err("boom".to_string()), &mut actions),
        EmulatorVerdict::Abort
    );
    assert_eq!(actions.len(), 2);
}

#[test]
fn online_device_requirement() {
    let mut options = MobileSetupOptions::default();
    assert!(check_online_device(&options, &None).is_ok());
    options.require_online_device = true;
    assert!(check_online_device(&options, &Some("x".to_string())).is_ok());
    assert!(check_online_device(&options, &None)
        .unwrap_err()
        .starts_with("No online Android device/emulator found after setup."));
}

#[test]
fn default_options() {
    let o = MobileSetupOptions::default();
    assert!(o.preferred_avd.is_none());
    assert!(o.auto_start_emulator);
    assert!(!o.require_online_device);
    assert!(o.auto_install_appium);
    assert!(o.auto_install_uiautomator2);
    assert_eq!(o.emulator_boot_timeout_secs, 120);
}

#[test]
fn appium_install_decisions() {
    let mut o = MobileSetupOptions::default();
    assert_eq!(appium_install_decision(&o, true), Ok(()));
    match appium_install_decision(&o, false) {
        Err(AppiumSetupError::NpmMissing(m)) => assert!(m.contains("npm was not found")),
        other => panic!("unexpected {:?}", other),
    }
    o.auto_install_appium = false;
    assert_eq!(appium_install_decision(&o, true), Err(AppiumSetupError::NotFound));
}

fn driver(name: &str, installed: bool) -> AppiumDriver {
    AppiumDriver {
        name: name.to_string(),
        version: Some("6.9.3".to_string()),
        automation_name: Some("UiAutomator2".to_string()),
        installed,
        update_version: None,
        unsafe_update_version: None,
        up_to_date: true,
        appium_version: Some("^3.0.0-rc.2".to_string()),
    }
}

#[test]
fn installed_drivers_are_kept_and_found() {
    let drivers = installed_only(vec![driver("uiautomator2", true), driver("mac2", false)]);
    assert_eq!(drivers.len(), 1);
    assert!(find_driver(&drivers, "uiautomator2").is_some());
    assert!(find_driver(&drivers, "mac2").is_none());
    assert_eq!(
        uiautomator2_verified_message(&drivers[0]),
        "UiAutomator2 driver verified: UiAutomator2 6.9.3"
    );
    let mut bare = driver("uiautomator2", true);
    bare.automation_name = None;
    bare.version = None;
    assert_eq!(uiautomator2_verified_message(&bare), "UiAutomator2 driver verified: uiautomator2");
}

#[test]
fn driver_update_plans() {
    let mut d = driver("uiautomator2", true);
    assert_eq!(driver_update_plan(&d), DriverUpdatePlan::Current);
    d.up_to_date = false;
    d.unsafe_update_version = Some("7.0.0".to_string());
    assert_eq!(
        driver_update_plan(&d),
        DriverUpdatePlan::KeepMajor(
            "UiAutomator2 driver 6.9.3 has only a major update available; keeping the installed version for compatibility"
                .to_string()
        )
    );
    d.update_version = Some("6.9.4".to_string());
    assert_eq!(
        driver_update_plan(&d),
        DriverUpdatePlan::Update("Updated Appium UiAutomator2 driver to 6.9.4".to_string())
    );
}

#[test]
fn driver_listing_is_case_insensitive() {
    assert!(appium_driver_listed("- UIAUTOMATOR2@6.9.3 [installed]", "uiautomator2"));
    assert!(!appium_driver_listed("- xcuitest@1.0", "uiautomator2"));
}
