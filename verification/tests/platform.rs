use uto::platform::os_join_exec;
use uto::platform::{
    adb_binary_name, adb_path_for, android_sdk_candidates, cft_platform, chrome_binary_candidates,
    chromedriver_binary_name, chromedriver_cache_path, find_android_sdk_from_candidates,
    major_version, parse_version_from_output, select_chromedriver_download, CftDownload,
    CftVersion, HostArch, HostOs, SdkCandidate,
};

#[test]
fn parse_version_number_from_chrome_output() {
    let line = "Google Chrome 124.0.6367.60";
    assert_eq!(parse_version_from_output(line), Some("124.0.6367.60".to_string()));
}

#[test]
fn parse_version_number_from_chromium_output() {
    let line = "Chromium 120.0.6099.109 built on Debian 12, running on Debian 12";
    assert_eq!(parse_version_from_output(line), Some("120.0.6099.109".to_string()));
}

#[test]
fn parse_version_returns_none_for_empty_string() {
    assert_eq!(parse_version_from_output(""), None);
}

#[test]
fn find_android_sdk_returns_none_for_empty_candidates() {
    assert!(find_android_sdk_from_candidates(HostOs::Linux, vec![]).is_none());
}

#[test]
fn major_version_extraction() {
    assert_eq!(major_version("124.0.6367.60"), "124");
    assert_eq!(major_version("120"), "120");
    assert_eq!(major_version(""), "");
}

#[test]
fn find_android_sdk_picks_first_root_with_adb() {
    let candidates = vec![
        SdkCandidate { root: "/a".to_string(), adb_present: false },
        SdkCandidate { root: "/b/".to_string(), adb_present: true },
        SdkCandidate { root: "/c".to_string(), adb_present: true },
    ];
    let sdk = find_android_sdk_from_candidates(HostOs::Linux, candidates).expect("sdk");
    assert_eq!(sdk.root, "/b/");
    assert_eq!(sdk.adb_path, "/b/platform-tools/adb");
}

#[test]
fn adb_names_and_paths() {
    assert_eq!(adb_binary_name(HostOs::Windows), "adb.exe");
    assert_eq!(adb_binary_name(HostOs::MacOs), "adb");
    assert_eq!(adb_path_for(HostOs::Windows, "C:\\sdk"), "C:\\sdk\\platform-tools\\adb.exe");
}

#[test]
fn sdk_candidates_follow_env_then_default() {
    let c = android_sdk_candidates(
        HostOs::Linux,
        Some("/env/home".to_string()),
        None,
        "/home/me",
        "/ignored",
    );
    assert_eq!(c, vec!["/env/home".to_string(), "/home/me/Android/Sdk".to_string()]);
    let m = android_sdk_candidates(HostOs::MacOs, None, Some("/root".to_string()), "", "");
    assert_eq!(m, vec!["/root".to_string(), "Library/Android/sdk".to_string()]);
    let w = android_sdk_candidates(HostOs::Windows, None, None, "", "C:\\Local");
    assert_eq!(w, vec!["C:\\Local\\Android\\Sdk".to_string()]);
    assert!(android_sdk_candidates(HostOs::Other, None, None, "/h", "/d").is_empty());
}

#[test]
fn parse_version_skips_words_not_starting_with_digits() {
    assert_eq!(parse_version_from_output("Chrome v1 2.0"), Some("2.0".to_string()));
    assert_eq!(parse_version_from_output("no version"), None);
}

#[test]
fn chrome_candidates_per_host() {
    assert_eq!(chrome_binary_candidates(HostOs::Linux, "", "", "").len(), 5);
    assert_eq!(
        chrome_binary_candidates(HostOs::Windows, "C:\\PF", "", "D:\\L\\"),
        vec![
            "C:\\PF\\Google\\Chrome\\Application\\chrome.exe".to_string(),
            "D:\\L\\Google\\Chrome\\Application\\chrome.exe".to_string()
        ]
    );
    assert!(chrome_binary_candidates(HostOs::Other, "a", "b", "c").is_empty());
}

#[test]
fn chromedriver_names_platforms_and_cache() {
    assert_eq!(chromedriver_binary_name(HostOs::Windows), "chromedriver.exe");
    assert_eq!(chromedriver_binary_name(HostOs::Linux), "chromedriver");
    assert_eq!(cft_platform(HostOs::Linux, HostArch::X86_64), "linux64");
    assert_eq!(cft_platform(HostOs::MacOs, HostArch::Aarch64), "mac-arm64");
    assert_eq!(cft_platform(HostOs::MacOs, HostArch::X86_64), "mac-x64");
    assert_eq!(cft_platform(HostOs::Windows, HostArch::X86), "win32");
    assert_eq!(cft_platform(HostOs::Windows, HostArch::X86_64), "win64");
    assert_eq!(cft_platform(HostOs::Other, HostArch::Aarch64), "linux64");
    assert_eq!(
        chromedriver_cache_path(HostOs::Linux, Some("/home/u"), "124.0.1"),
        Ok("/home/u/.uto/cache/chromedriver/124/chromedriver".to_string())
    );
    assert_eq!(
        chromedriver_cache_path(HostOs::Linux, None, "124"),
        Err("Could not determine home directory".to_string())
    );
}

fn download(platform: &str, url: &str) -> CftDownload {
    CftDownload { platform: platform.to_string(), url: url.to_string() }
}

#[test]
fn chromedriver_download_matches_major_and_platform() {
    let versions = vec![
        CftVersion { version: "123.0.1".to_string(), chromedriver: Some(vec![download("linux64", "u123")]) },
        CftVersion { version: "124.0.1".to_string(), chromedriver: None },
        CftVersion {
            version: "124.0.2".to_string(),
            chromedriver: Some(vec![download("win64", "w124"), download("linux64", "l124")]),
        },
        CftVersion { version: "124.0.3".to_string(), chromedriver: Some(vec![download("linux64", "later")]) },
    ];
    assert_eq!(
        select_chromedriver_download(&versions, "124.0.6367.60", "linux64"),
        Ok("l124".to_string())
    );
    assert_eq!(
        select_chromedriver_download(&versions, "125.1", "linux64"),
        Err("No chromedriver download found for Chrome 125.1 on linux64".to_string())
    );
}

#[test]
fn windows_joins_follow_path_join() {
    let w = HostOs::Windows;
    assert_eq!(os_join_exec(w, "C:\\p", "tests"), "C:\\p\\tests");
    assert_eq!(os_join_exec(w, "C:\\p\\", "tests"), "C:\\p\\tests");
    assert_eq!(os_join_exec(w, "p/", "tests"), "p/tests");
    assert_eq!(os_join_exec(w, "", "tests"), "tests");
    assert_eq!(os_join_exec(w, "C:", "tests"), "C:tests");
    assert_eq!(os_join_exec(w, "C:\\p", "D:\\reports"), "D:\\reports");
    assert_eq!(os_join_exec(w, "C:\\p", "D:reports"), "D:reports");
    assert_eq!(os_join_exec(w, "C:\\p", "\\\\srv\\share\\r"), "\\\\srv\\share\\r");
    assert_eq!(os_join_exec(w, "C:\\p\\q", "\\reports"), "C:\\reports");
    assert_eq!(os_join_exec(w, "\\\\srv\\share\\p", "\\x"), "\\\\srv\\share\\x");
    assert_eq!(os_join_exec(w, "p\\q", "\\x"), "\\x");
    assert_eq!(os_join_exec(HostOs::Linux, "/p", "tests"), "/p/tests");
    assert_eq!(os_join_exec(HostOs::Linux, "/p", "/abs"), "/abs");
}
