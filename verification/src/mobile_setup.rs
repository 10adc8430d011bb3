//! Android/Appium environment preparation: reading what `adb`, the emulator
//! and Appium print, and the decisions of the discover-or-deploy flow
//! (which device, which AVD, whether to install or update, whether the
//! driver doctor's verdict is acceptable).  The program runs the commands
//! and feeds their output to these functions.
use vstd::prelude::*;

use crate::platform::{os_join, os_join_exec, AndroidSdk, HostOs};
use crate::text::{
    chars_of, contains_text, eq_chars, find_text, lemma_find_text, lines, lower_chars, lower_seq,
    parse_unsigned, parse_unsigned_exec, push_str, slice_chars, split_lines, split_words,
    string_from, string_of, trim, trim_bounds, views, words, contains_chars, find_str, decimal,
    decimal_string,
};

verus! {

// ---------------------------------------------------------------------------
// Options and result
// ---------------------------------------------------------------------------

/// Configuration for Android/Appium environment preparation.
#[derive(Debug, Clone)]
pub struct MobileSetupOptions {
    /// Optional preferred Android Virtual Device (AVD) name.
    pub preferred_avd: Option<String>,
    /// If true, attempt to boot an emulator when no device is connected.
    pub auto_start_emulator: bool,
    /// If true, return an error when no online Android device is available.
    pub require_online_device: bool,
    /// If true, install Appium via npm when not found in PATH.
    pub auto_install_appium: bool,
    /// If true, install the Appium UiAutomator2 driver when missing.
    pub auto_install_uiautomator2: bool,
    /// Maximum time, in seconds, to wait for an emulator/device to come online.
    pub emulator_boot_timeout_secs: u64,
}

impl Default for MobileSetupOptions {
    fn default() -> (r: Self)
        ensures
            r.preferred_avd is None,
            r.auto_start_emulator,
            !r.require_online_device,
            r.auto_install_appium,
            r.auto_install_uiautomator2,
            r.emulator_boot_timeout_secs == 120,
    {
        MobileSetupOptions {
            preferred_avd: None,
            auto_start_emulator: true,
            require_online_device: false,
            auto_install_appium: true,
            auto_install_uiautomator2: true,
            emulator_boot_timeout_secs: 120,
        }
    }
}

/// The result of preparing Android/Appium prerequisites.
#[derive(Debug, Clone)]
pub struct MobileSetupResult {
    /// Discovered Android SDK location.
    pub android_sdk: AndroidSdk,
    /// Resolved Appium binary path.
    pub appium_path: String,
    /// Connected device serial (for example `emulator-5554`) if available.
    pub device_serial: Option<String>,
    /// Human-readable list of setup actions taken.
    pub actions: Vec<String>,
}

// ---------------------------------------------------------------------------
// Command output
// ---------------------------------------------------------------------------

pub open spec fn combined_output_spec(stdout: Seq<char>, stderr: Seq<char>) -> Seq<char> {
    let o = trim(stdout);
    let e = trim(stderr);
    if o.len() == 0 && e.len() == 0 {
        "no command output"@
    } else if e.len() == 0 {
        o
    } else if o.len() == 0 {
        e
    } else {
        o + " | "@ + e
    }
}

/// A command's trimmed stdout and stderr together, for messages.
pub fn combined_output(stdout: &str, stderr: &str) -> (r: String)
    ensures
        r@ == combined_output_spec(stdout@, stderr@),
{
    let o = chars_of(stdout);
    let (olo, ohi) = trim_bounds(&o);
    let e = chars_of(stderr);
    let (elo, ehi) = trim_bounds(&e);
    if olo == ohi && elo == ehi {
        string_from("no command output")
    } else if elo == ehi {
        crate::text::string_of_range(&o, olo, ohi)
    } else if olo == ohi {
        crate::text::string_of_range(&e, elo, ehi)
    } else {
        let mut s = crate::text::string_of_range(&o, olo, ohi);
        push_str(&mut s, " | ");
        crate::text::push_chars(&mut s, &e, elo, ehi);
        s
    }
}

/// The failure of a setup command that exited unsuccessfully.
pub fn command_failure_message(label: &str, stdout: &str, stderr: &str) -> (r: String)
    ensures
        r@ == "Failed to "@ + label@ + ": "@ + combined_output_spec(stdout@, stderr@),
{
    let mut m = string_from("Failed to ");
    push_str(&mut m, label);
    push_str(&mut m, ": ");
    push_str(&mut m, combined_output(stdout, stderr).as_str());
    m
}

// ---------------------------------------------------------------------------
// adb and the emulator
// ---------------------------------------------------------------------------

/// The (serial, state) pairs of `adb devices` lines: every line after the
/// header with at least two words.
pub open spec fn adb_entries(ls: Seq<Seq<char>>) -> Seq<(Seq<char>, Seq<char>)>
    decreases ls.len(),
{
    if ls.len() == 0 {
        seq![]
    } else {
        let ws = words(ls[0]);
        let rest = adb_entries(ls.drop_first());
        if ws.len() >= 2 {
            seq![(ws[0], ws[1])] + rest
        } else {
            rest
        }
    }
}

pub open spec fn adb_devices_spec(output: Seq<char>) -> Seq<(Seq<char>, Seq<char>)> {
    let ls = lines(output);
    if ls.len() == 0 {
        seq![]
    } else {
        adb_entries(ls.drop_first())
    }
}

pub open spec fn pairs_view(p: Seq<(String, String)>) -> Seq<(Seq<char>, Seq<char>)> {
    p.map_values(|e: (String, String)| (e.0@, e.1@))
}

/// Parses `adb devices` output into (serial, state) pairs.
pub fn parse_adb_devices(output: &str) -> (r: Vec<(String, String)>)
    ensures
        pairs_view(r@) == adb_devices_spec(output@),
{
    let v = chars_of(output);
    let ls = split_lines(&v);
    let ghost lv = views(ls@);
    let mut r: Vec<(String, String)> = Vec::new();
    if ls.len() == 0 {
        assert(pairs_view(r@) =~= seq![]);
        return r;
    }
    assert(lv.drop_first() =~= lv.skip(1));
    let mut i: usize = 1;
    while i < ls.len()
        invariant
            1 <= i <= ls.len(),
            lv == views(ls@),
            lv == lines(output@),
            lv.len() >= 1,
            adb_entries(lv.drop_first()) == pairs_view(r@) + adb_entries(lv.skip(i as int)),
        decreases ls.len() - i,
    {
        let ghost rest = lv.skip(i as int);
        assert(rest[0] == ls@[i as int]@);
        assert(rest.drop_first() =~= lv.skip(i + 1));
        let ws = split_words(&ls[i]);
        if ws.len() >= 2 {
            let ghost before = pairs_view(r@);
            let serial = string_of(&ws[0]);
            let state = string_of(&ws[1]);
            r.push((serial, state));
            proof {
                assert(views(ws@)[0] == ws@[0]@);
                assert(views(ws@)[1] == ws@[1]@);
                assert(pairs_view(r@) =~= before + seq![(ws@[0]@, ws@[1]@)]);
                assert(before + (seq![(ws@[0]@, ws@[1]@)] + adb_entries(lv.skip(i + 1))) =~= pairs_view(
                    r@,
                ) + adb_entries(lv.skip(i + 1)));
            }
        }
        i = i + 1;
    }
    assert(lv.skip(ls.len() as int) =~= seq![]);
    assert(pairs_view(r@) + seq![] =~= pairs_view(r@));
    r
}

/// The trimmed non-blank lines.
pub open spec fn nonblank_lines(ls: Seq<Seq<char>>) -> Seq<Seq<char>>
    decreases ls.len(),
{
    if ls.len() == 0 {
        seq![]
    } else {
        let t = trim(ls[0]);
        let rest = nonblank_lines(ls.drop_first());
        if t.len() > 0 {
            seq![t] + rest
        } else {
            rest
        }
    }
}

/// Parses `emulator -list-avds` output: its trimmed, non-empty lines.
pub fn parse_avd_list(output: &str) -> (r: Vec<String>)
    ensures
        crate::text::strs(r@) == nonblank_lines(lines(output@)),
{
    let v = chars_of(output);
    let ls = split_lines(&v);
    let ghost lv = views(ls@);
    let mut r: Vec<String> = Vec::new();
    let mut i: usize = 0;
    assert(lv.skip(0) =~= lv);
    while i < ls.len()
        invariant
            i <= ls.len(),
            lv == views(ls@),
            lv == lines(output@),
            nonblank_lines(lv) == crate::text::strs(r@) + nonblank_lines(lv.skip(i as int)),
        decreases ls.len() - i,
    {
        let ghost rest = lv.skip(i as int);
        assert(rest[0] == ls@[i as int]@);
        assert(rest.drop_first() =~= lv.skip(i + 1));
        let (lo, hi) = trim_bounds(&ls[i]);
        if lo < hi {
            let ghost before = crate::text::strs(r@);
            let t = crate::text::string_of_range(&ls[i], lo, hi);
            r.push(t);
            proof {
                assert(crate::text::strs(r@) =~= before.push(t@));
                assert(before + (seq![t@] + nonblank_lines(lv.skip(i + 1))) =~= crate::text::strs(r@)
                    + nonblank_lines(lv.skip(i + 1)));
            }
        }
        i = i + 1;
    }
    assert(lv.skip(ls.len() as int) =~= seq![]);
    assert(crate::text::strs(r@) + seq![] =~= crate::text::strs(r@));
    r
}

/// The serial of the first device in state `device` (online).
pub open spec fn first_online_spec(devices: Seq<(Seq<char>, Seq<char>)>) -> Option<Seq<char>>
    decreases devices.len(),
{
    if devices.len() == 0 {
        None
    } else if devices[0].1 == "device"@ {
        Some(devices[0].0)
    } else {
        first_online_spec(devices.drop_first())
    }
}

/// The first online device of an `adb devices` listing.
pub fn first_online_device(devices: &Vec<(String, String)>) -> (r: Option<String>)
    ensures
        crate::text::opt_str(r) == first_online_spec(pairs_view(devices@)),
{
    let ghost dv = pairs_view(devices@);
    assert(dv.skip(0) =~= dv);
    let mut i: usize = 0;
    while i < devices.len()
        invariant
            i <= devices.len(),
            dv == pairs_view(devices@),
            first_online_spec(dv) == first_online_spec(dv.skip(i as int)),
        decreases devices.len() - i,
    {
        assert(dv.skip(i as int)[0] == (devices@[i as int].0@, devices@[i as int].1@));
        if crate::text::eq_str(&chars_of(devices[i].1.as_str()), "device") {
            return Some(devices[i].0.clone());
        }
        assert(dv.skip(i as int).drop_first() =~= dv.skip(i + 1));
        i = i + 1;
    }
    None
}

/// The AVD to boot: the preferred one when it is listed, else the first
/// listed; none when no AVD exists.
pub open spec fn choose_avd_spec(avds: Seq<Seq<char>>, preferred: Option<Seq<char>>) -> Option<
    Seq<char>,
> {
    if avds.len() == 0 {
        None
    } else {
        match preferred {
            Some(p) => if avds.contains(p) {
                Some(p)
            } else {
                Some(avds[0])
            },
            None => Some(avds[0]),
        }
    }
}

/// Chooses the AVD to boot among those listed.
pub fn choose_avd_name(avds: &Vec<String>, preferred: Option<&str>) -> (r: Option<String>)
    ensures
        crate::text::opt_str(r) == choose_avd_spec(
            crate::text::strs(avds@),
            match preferred {
                Some(p) => Some(p@),
                None => None,
            },
        ),
{
    if avds.len() == 0 {
        return None;
    }
    let ghost av = crate::text::strs(avds@);
    if let Some(p) = preferred {
        let pv = chars_of(p);
        let mut i: usize = 0;
        while i < avds.len()
            invariant
                i <= avds.len(),
                av == crate::text::strs(avds@),
                pv@ == p@,
                preferred == Some(p),
                avds.len() > 0,
                forall|j: int| 0 <= j < i ==> av[j] != p@,
            decreases avds.len() - i,
        {
            if eq_chars(&chars_of(avds[i].as_str()), &pv) {
                assert(av[i as int] == p@);
                assert(av.contains(p@));
                return Some(string_from(p));
            }
            i = i + 1;
        }
        assert(!av.contains(p@));
    }
    Some(avds[0].clone())
}

pub open spec fn emulator_name_spec(os: HostOs) -> Seq<char> {
    match os {
        HostOs::Windows => "emulator.exe"@,
        _ => "emulator"@,
    }
}

/// `<sdk root>/emulator/<emulator binary>`.
pub open spec fn emulator_path_spec(os: HostOs, root: Seq<char>) -> Seq<char> {
    os_join(os, os_join(os, root, "emulator"@), emulator_name_spec(os))
}

/// Where the emulator binary lies inside the SDK.
pub fn emulator_binary_path(os: HostOs, sdk: &AndroidSdk) -> (r: String)
    ensures
        r@ == emulator_path_spec(os, sdk.root@),
{
    let dir = os_join_exec(os, sdk.root.as_str(), "emulator");
    let name = match os {
        HostOs::Windows => "emulator.exe",
        _ => "emulator",
    };
    os_join_exec(os, dir.as_str(), name)
}

/// Arguments that boot an AVD without saving a snapshot on exit.
pub fn emulator_launch_args(avd_name: &str) -> (r: Vec<String>)
    ensures
        crate::text::strs(r@) == seq!["-avd"@, avd_name@, "-no-snapshot-save"@],
{
    let mut r: Vec<String> = Vec::new();
    r.push(string_from("-avd"));
    r.push(string_from(avd_name));
    r.push(string_from("-no-snapshot-save"));
    assert(crate::text::strs(r@) =~= seq!["-avd"@, avd_name@, "-no-snapshot-save"@]);
    r
}

/// The failure of spawning the emulator.
pub fn emulator_start_failure(avd_name: &str, error: &str) -> (r: String)
    ensures
        r@ == "Failed to start emulator '"@ + avd_name@ + "': "@ + error@,
{
    let mut m = string_from("Failed to start emulator '");
    push_str(&mut m, avd_name);
    push_str(&mut m, "': ");
    push_str(&mut m, error);
    m
}

/// What the emulator attempt gave for the flow.
#[derive(Debug, PartialEq, Eq)]
pub enum EmulatorVerdict {
    /// A device came online with this serial.
    Online(String),
    /// No emulator was started (no AVD) or none came online in time.
    NotOnline,
    /// The attempt failed and the failure is only noted.
    Skipped,
    /// The attempt failed and an online device is required: the flow stops
    /// with that failure.
    Abort,
}

/// Interprets the emulator attempt (`Ok(serial)` or the failure's message)
/// and records it among the actions.
pub fn emulator_outcome(
    options: &MobileSetupOptions,
    outcome: Result<Option<String>, String>,
    actions: &mut Vec<String>,
) -> (v: EmulatorVerdict)
    ensures
        match outcome {
            Ok(Some(serial)) => v == EmulatorVerdict::Online(serial) && final(actions)@.len()
                == old(actions)@.len() + 1 && final(actions)@.last()@
                == "Android device online after emulator start: "@ + serial@ && final(actions)@.drop_last()
                == old(actions)@,
            Ok(None) => v == EmulatorVerdict::NotOnline && final(actions)@ == old(actions)@,
            Err(e) => if options.require_online_device {
                v == EmulatorVerdict::Abort && final(actions)@ == old(actions)@
            } else {
                v == EmulatorVerdict::Skipped && final(actions)@.len() == old(actions)@.len() + 1
                    && final(actions)@.last()@ == "Emulator auto-start skipped: "@ + e@
                    && final(actions)@.drop_last() == old(actions)@
            },
        },
{
    match outcome {
        Ok(Some(serial)) => {
            let mut m = string_from("Android device online after emulator start: ");
            push_str(&mut m, serial.as_str());
            actions.push(m);
            EmulatorVerdict::Online(serial)
        },
        Ok(None) => EmulatorVerdict::NotOnline,
        Err(e) => {
            if options.require_online_device {
                EmulatorVerdict::Abort
            } else {
                let mut m = string_from("Emulator auto-start skipped: ");
                push_str(&mut m, e.as_str());
                actions.push(m);
                EmulatorVerdict::Skipped
            }
        },
    }
}

/// Fails when an online device is required and none is available.
pub fn check_online_device(options: &MobileSetupOptions, device_serial: &Option<String>) -> (r: Result<
    (),
    String,
>)
    ensures
        r is Err <==> (options.require_online_device && device_serial is None),
        r matches Err(e) ==> e@
            == "No online Android device/emulator found after setup. Start an emulator manually or connect a device with USB debugging enabled."@,
{
    if options.require_online_device && device_serial.is_none() {
        Err(
            string_from(
                "No online Android device/emulator found after setup. Start an emulator manually or connect a device with USB debugging enabled.",
            ),
        )
    } else {
        Ok(())
    }
}

// ---------------------------------------------------------------------------
// Appium
// ---------------------------------------------------------------------------

/// Why Appium could not be made available.
#[derive(Debug, PartialEq, Eq)]
pub enum AppiumSetupError {
    /// Not installed, and installing was not allowed or did not help.
    NotFound,
    /// Installing needs npm, which is missing; the message says so.
    NpmMissing(String),
}

/// Whether to install Appium with npm when it is not in PATH: only when
/// auto-install is on and npm is present.
pub fn appium_install_decision(options: &MobileSetupOptions, npm_found: bool) -> (r: Result<
    (),
    AppiumSetupError,
>)
    ensures
        !options.auto_install_appium ==> r == Err::<(), AppiumSetupError>(
            AppiumSetupError::NotFound,
        ),
        options.auto_install_appium && npm_found ==> r is Ok,
        options.auto_install_appium && !npm_found ==> (r matches Err(AppiumSetupError::NpmMissing(m))
            && m@
            == "Appium is not installed and npm was not found in PATH. Install Node.js/npm, then rerun setup."@),
{
    if !options.auto_install_appium {
        return Err(AppiumSetupError::NotFound);
    }
    if !npm_found {
        return Err(
            AppiumSetupError::NpmMissing(
                string_from(
                    "Appium is not installed and npm was not found in PATH. Install Node.js/npm, then rerun setup.",
                ),
            ),
        );
    }
    Ok(())
}

/// An installed Appium driver with the metadata Appium reports for it.
#[derive(Debug, Clone)]
pub struct AppiumDriver {
    /// The driver's key in Appium's inventory, e.g. `uiautomator2`.
    pub name: String,
    pub version: Option<String>,
    pub automation_name: Option<String>,
    pub installed: bool,
    pub update_version: Option<String>,
    pub unsafe_update_version: Option<String>,
    pub up_to_date: bool,
    pub appium_version: Option<String>,
}

/// Keeps the drivers Appium reports as installed, in order.
pub fn installed_only(drivers: Vec<AppiumDriver>) -> (r: Vec<AppiumDriver>)
    ensures
        r@ == drivers@.filter(|d: AppiumDriver| d.installed),
{
    let ghost all = drivers@;
    let mut rest = drivers;
    let mut r: Vec<AppiumDriver> = Vec::new();
    let ghost mut done: int = 0;
    while rest.len() > 0
        invariant
            0 <= done <= all.len(),
            rest@ == all.skip(done),
            r@ == all.take(done).filter(|d: AppiumDriver| d.installed),
        decreases rest.len(),
    {
        let d = rest.remove(0);
        proof {
            reveal(Seq::filter);
            assert(all.take(done + 1).drop_last() =~= all.take(done));
            assert(all.take(done + 1).last() == d);
            assert(all.skip(done + 1) =~= all.skip(done).drop_first());
        }
        if d.installed {
            r.push(d);
        }
        proof {
            done = done + 1;
        }
    }
    assert(all.take(done) =~= all);
    r
}

/// The first driver with the given name.
pub open spec fn driver_named(drivers: Seq<AppiumDriver>, name: Seq<char>) -> Option<AppiumDriver>
    decreases drivers.len(),
{
    if drivers.len() == 0 {
        None
    } else if drivers[0].name@ == name {
        Some(drivers[0])
    } else {
        driver_named(drivers.drop_first(), name)
    }
}

/// No two drivers share a name, as in Appium's inventory, which is keyed by name.
pub open spec fn distinct_driver_names(s: Seq<AppiumDriver>) -> bool {
    forall|i: int, j: int| 0 <= i < j < s.len() ==> (#[trigger] s[i]).name@ != (#[trigger] s[j]).name@
}

/// Law: a driver is found by name exactly when one has that name; with
/// distinct names, as Appium's inventory has them, it is the one driver of
/// that name.
pub proof fn lemma_driver_named(drivers: Seq<AppiumDriver>, name: Seq<char>)
    ensures
        driver_named(drivers, name) is None <==> forall|i: int|
            0 <= i < drivers.len() ==> (#[trigger] drivers[i]).name@ != name,
        distinct_driver_names(drivers) ==> forall|i: int|
            0 <= i < drivers.len() && (#[trigger] drivers[i]).name@ == name ==> driver_named(
                drivers,
                name,
            ) == Some(drivers[i]),
    decreases drivers.len(),
{
    if drivers.len() > 0 {
        let rest = drivers.drop_first();
        lemma_driver_named(rest, name);
        assert forall|i: int| 0 < i < drivers.len() implies drivers[i] == rest[i - 1] by {}
        if distinct_driver_names(drivers) {
            assert forall|i: int, j: int| 0 <= i < j < rest.len() implies (#[trigger] rest[i]).name@
                != (#[trigger] rest[j]).name@ by {
                assert(rest[i] == drivers[i + 1] && rest[j] == drivers[j + 1]);
            }
        }
        if forall|i: int| 0 <= i < rest.len() ==> (#[trigger] rest[i]).name@ != name {
            assert forall|i: int| 0 < i < drivers.len() implies (#[trigger] drivers[i]).name@ != name by {
                assert(drivers[i] == rest[i - 1]);
            }
        }
    }
}

/// Law: keeping the installed drivers keeps their names distinct.
pub proof fn lemma_installed_only_distinct(drivers: Seq<AppiumDriver>)
    requires
        distinct_driver_names(drivers),
    ensures
        distinct_driver_names(drivers.filter(|d: AppiumDriver| d.installed)),
    decreases drivers.len(),
{
    reveal(Seq::filter);
    if drivers.len() > 0 {
        let init = drivers.drop_last();
        assert forall|i: int, j: int| 0 <= i < j < init.len() implies (#[trigger] init[i]).name@
            != (#[trigger] init[j]).name@ by {
            assert(init[i] == drivers[i] && init[j] == drivers[j]);
        }
        lemma_installed_only_distinct(init);
        let f = init.filter(|d: AppiumDriver| d.installed);
        let last = drivers.last();
        if last.installed {
            let g = drivers.filter(|d: AppiumDriver| d.installed);
            assert(g == f.push(last));
            assert forall|i: int| 0 <= i < f.len() implies (#[trigger] f[i]).name@ != last.name@ by {
                assert(f.contains(f[i]));
                init.lemma_filter_contains_rev(|d: AppiumDriver| d.installed, f[i]);
                let k = choose|k: int| 0 <= k < init.len() && init[k] == f[i];
                assert(drivers[k] == f[i]);
            }
            assert forall|i: int, j: int| 0 <= i < j < g.len() implies (#[trigger] g[i]).name@
                != (#[trigger] g[j]).name@ by {
                if j == g.len() - 1 {
                    assert(g[i] == f[i]);
                } else {
                    assert(g[i] == f[i] && g[j] == f[j]);
                }
            }
        }
    }
}

/// Looks a driver up by name.
pub fn find_driver<'a>(drivers: &'a Vec<AppiumDriver>, name: &str) -> (r: Option<&'a AppiumDriver>)
    ensures
        match r {
            Some(d) => driver_named(drivers@, name@) == Some(*d),
            None => driver_named(drivers@, name@) is None,
        },
{
    let n = chars_of(name);
    assert(drivers@.skip(0) =~= drivers@);
    let mut i: usize = 0;
    while i < drivers.len()
        invariant
            i <= drivers.len(),
            n@ == name@,
            driver_named(drivers@, name@) == driver_named(drivers@.skip(i as int), name@),
        decreases drivers.len() - i,
    {
        assert(drivers@.skip(i as int)[0] == drivers@[i as int]);
        if eq_chars(&chars_of(drivers[i].name.as_str()), &n) {
            return Some(&drivers[i]);
        }
        assert(drivers@.skip(i as int).drop_first() =~= drivers@.skip(i + 1));
        i = i + 1;
    }
    None
}

pub open spec fn verified_message_spec(d: AppiumDriver) -> Seq<char> {
    "UiAutomator2 driver verified: "@ + match d.automation_name {
        Some(a) => a@,
        None => "uiautomator2"@,
    } + match d.version {
        Some(v) => " "@ + v@,
        None => seq![],
    }
}

/// The action noted when the UiAutomator2 driver is already installed.
pub fn uiautomator2_verified_message(driver: &AppiumDriver) -> (r: String)
    ensures
        r@ == verified_message_spec(*driver),
{
    let mut m = string_from("UiAutomator2 driver verified: ");
    match &driver.automation_name {
        Some(a) => push_str(&mut m, a.as_str()),
        None => push_str(&mut m, "uiautomator2"),
    }
    match &driver.version {
        Some(v) => {
            push_str(&mut m, " ");
            push_str(&mut m, v.as_str());
        },
        None => {},
    }
    assert(m@ =~= verified_message_spec(*driver));
    m
}

pub open spec fn driver_listed_spec(listing: Seq<char>, driver_name: Seq<char>) -> bool {
    contains_text(lower_seq(listing), lower_seq(driver_name))
}

/// Whether `appium driver list --installed` output names the driver, in any
/// letter case.
pub fn appium_driver_listed(listing: &str, driver_name: &str) -> (b: bool)
    ensures
        b == driver_listed_spec(listing@, driver_name@),
{
    let l = lower_chars(&chars_of(listing));
    let n = lower_chars(&chars_of(driver_name));
    contains_chars(&l, &n)
}

/// What the health check does about an installed UiAutomator2 driver.
#[derive(Debug, PartialEq, Eq)]
pub enum DriverUpdatePlan {
    /// Run `appium driver update uiautomator2`, then note this action.
    Update(String),
    /// Only a major update exists: keep the driver and note this action.
    KeepMajor(String),
    /// Nothing to do.
    Current,
}

/// A safe update is applied; a major-only update is declined with a note.
pub fn driver_update_plan(driver: &AppiumDriver) -> (r: DriverUpdatePlan)
    ensures
        match driver.update_version {
            Some(u) => r == DriverUpdatePlan::Update(r->Update_0) && r->Update_0@
                == "Updated Appium UiAutomator2 driver to "@ + u@,
            None => if !driver.up_to_date && driver.unsafe_update_version is Some {
                r == DriverUpdatePlan::KeepMajor(r->KeepMajor_0) && r->KeepMajor_0@
                    == "UiAutomator2 driver "@ + match driver.version {
                    Some(v) => v@,
                    None => "unknown"@,
                }
                    + " has only a major update available; keeping the installed version for compatibility"@
            } else {
                r == DriverUpdatePlan::Current
            },
        },
{
    match &driver.update_version {
        Some(u) => {
            let mut m = string_from("Updated Appium UiAutomator2 driver to ");
            push_str(&mut m, u.as_str());
            DriverUpdatePlan::Update(m)
        },
        None => {
            if !driver.up_to_date && driver.unsafe_update_version.is_some() {
                let mut m = string_from("UiAutomator2 driver ");
                match &driver.version {
                    Some(v) => push_str(&mut m, v.as_str()),
                    None => push_str(&mut m, "unknown"),
                }
                push_str(
                    &mut m,
                    " has only a major update available; keeping the installed version for compatibility",
                );
                DriverUpdatePlan::KeepMajor(m)
            } else {
                DriverUpdatePlan::Current
            }
        },
    }
}

// ---------------------------------------------------------------------------
// Driver doctor
// ---------------------------------------------------------------------------

/// Fix counts from `appium driver doctor` output.
#[derive(Debug, Clone, Copy, PartialEq, Eq)]
pub struct DriverDoctorSummary {
    pub required_fixes: u32,
    pub optional_fixes: u32,
}

/// `s.split(p).next()`: the text before the first `p` (all of `s` without one).
pub open spec fn before_first(s: Seq<char>, p: Seq<char>) -> Seq<char> {
    match find_text(s, p) {
        Some(i) => s.take(i),
        None => s,
    }
}

/// `s.split(p).nth(1)`: the text between the first and second `p`.
pub open spec fn second_piece(s: Seq<char>, p: Seq<char>) -> Option<Seq<char>> {
    match find_text(s, p) {
        Some(i) => Some(before_first(s.skip(i + p.len()), p)),
        None => None,
    }
}

/// The last whitespace-separated word.
pub open spec fn last_word(s: Seq<char>) -> Option<Seq<char>> {
    let ws = words(s);
    if ws.len() == 0 {
        None
    } else {
        Some(ws.last())
    }
}

/// The number written last before `before`, in the piece after `after`.
pub open spec fn count_between(line: Seq<char>, after: Seq<char>, before: Seq<char>) -> Option<nat> {
    match second_piece(line, after) {
        None => None,
        Some(piece) => match last_word(before_first(piece, before)) {
            None => None,
            Some(w) => parse_unsigned(w, 0xffff_ffff),
        },
    }
}

/// The first line containing `p`.
pub open spec fn first_line_with(ls: Seq<Seq<char>>, p: Seq<char>) -> Option<Seq<char>>
    decreases ls.len(),
{
    if ls.len() == 0 {
        None
    } else if contains_text(ls[0], p) {
        Some(ls[0])
    } else {
        first_line_with(ls.drop_first(), p)
    }
}

/// The summary line `... Diagnostic completed, R required fixes needed, O
/// optional fixes possible ...` read as (R, O).
pub open spec fn doctor_summary_spec(output: Seq<char>) -> Option<(nat, nat)> {
    match first_line_with(lines(output), "Diagnostic completed,"@) {
        None => None,
        Some(line) => match count_between(line, "Diagnostic completed,"@, "required fixes needed"@) {
            None => None,
            Some(r) => match count_between(
                line,
                "required fixes needed,"@,
                "optional fixes possible"@,
            ) {
                None => None,
                Some(o) => Some((r, o)),
            },
        },
    }
}

fn before_first_exec(v: &Vec<char>, p: &str) -> (out: Vec<char>)
    ensures
        out@ == before_first(v@, p@),
{
    proof {
        lemma_find_text(v@, p@);
    }
    match find_str(v, p) {
        Some(i) => slice_chars(v, 0, i),
        None => {
            let out = slice_chars(v, 0, v.len());
            assert(v@.subrange(0, v@.len() as int) =~= v@);
            out
        },
    }
}

fn second_piece_exec(v: &Vec<char>, p: &str) -> (out: Option<Vec<char>>)
    ensures
        match out {
            Some(w) => second_piece(v@, p@) == Some(w@),
            None => second_piece(v@, p@) is None,
        },
{
    proof {
        lemma_find_text(v@, p@);
    }
    let pv = chars_of(p);
    let pl = pv.len();
    assert(pl == p@.len());
    match find_str(v, p) {
        Some(i) => {
            assert(crate::text::occurs_at(v@, p@, i as int));
            assert(i + p@.len() <= v@.len());
            assert(i + pl <= v.len());
            let rest = slice_chars(v, i + pl, v.len());
            assert(rest@ =~= v@.skip(i + p@.len()));
            Some(before_first_exec(&rest, p))
        },
        None => None,
    }
}

fn count_between_exec(line: &Vec<char>, after: &str, before: &str) -> (r: Option<u32>)
    ensures
        match r {
            Some(n) => count_between(line@, after@, before@) == Some(n as nat),
            None => count_between(line@, after@, before@) is None,
        },
{
    match second_piece_exec(line, after) {
        None => None,
        Some(piece) => {
            let head = before_first_exec(&piece, before);
            let ws = split_words(&head);
            if ws.len() == 0 {
                return None;
            }
            let w = &ws[ws.len() - 1];
            proof {
                assert(views(ws@).last() == w@);
                assert(w@.subrange(0, w@.len() as int) =~= w@);
            }
            match parse_unsigned_exec(w, 0, w.len(), 0xffff_ffff) {
                Some(n) => Some(n as u32),
                None => None,
            }
        },
    }
}

/// Parses the fix counts of an `appium driver doctor` summary.
pub fn parse_doctor_summary(output: &str) -> (r: Option<DriverDoctorSummary>)
    ensures
        match r {
            Some(s) => doctor_summary_spec(output@) == Some(
                (s.required_fixes as nat, s.optional_fixes as nat),
            ),
            None => doctor_summary_spec(output@) is None,
        },
{
    let v = chars_of(output);
    let ls = split_lines(&v);
    let ghost lv = views(ls@);
    assert(lv.skip(0) =~= lv);
    let mut i: usize = 0;
    while i < ls.len()
        invariant
            i <= ls.len(),
            lv == views(ls@),
            lv == lines(output@),
            first_line_with(lv, "Diagnostic completed,"@) == first_line_with(
                lv.skip(i as int),
                "Diagnostic completed,"@,
            ),
        decreases ls.len() - i,
    {
        assert(lv.skip(i as int)[0] == ls@[i as int]@);
        if crate::text::contains_str(&ls[i], "Diagnostic completed,") {
            let line = &ls[i];
            let required = count_between_exec(line, "Diagnostic completed,", "required fixes needed");
            let required = match required {
                Some(n) => n,
                None => {
                    return None;
                },
            };
            let optional = count_between_exec(
                line,
                "required fixes needed,",
                "optional fixes possible",
            );
            return match optional {
                Some(o) => Some(DriverDoctorSummary { required_fixes: required, optional_fixes: o }),
                None => None,
            };
        }
        assert(lv.skip(i as int).drop_first() =~= lv.skip(i + 1));
        i = i + 1;
    }
    None
}

/// The verdict on the doctor's output: the action to note when no required
/// fix is reported, else the failure message.
pub open spec fn doctor_verdict_spec(output: Seq<char>) -> Result<Seq<char>, Seq<char>> {
    match doctor_summary_spec(output) {
        None => Err(
            "Appium UiAutomator2 doctor ran, but its summary could not be parsed: "@ + output,
        ),
        Some((r, o)) => if r > 0 {
            Err(
                "Appium UiAutomator2 doctor reported "@ + decimal(r) + " required fix(es): "@
                    + output,
            )
        } else {
            Ok(
                "UiAutomator2 doctor passed with "@ + decimal(r) + " required fix(es) and "@
                    + decimal(o) + " optional fix(es)"@,
            )
        },
    }
}

/// Judges `appium driver doctor uiautomator2` output (stdout and stderr combined).
pub fn uiautomator2_doctor_verdict(doctor_output: &str) -> (r: Result<String, String>)
    ensures
        crate::text::str_result(r) == doctor_verdict_spec(doctor_output@),
{
    match parse_doctor_summary(doctor_output) {
        None => {
            let mut m = string_from(
                "Appium UiAutomator2 doctor ran, but its summary could not be parsed: ",
            );
            push_str(&mut m, doctor_output);
            Err(m)
        },
        Some(s) => {
            if s.required_fixes > 0 {
                let mut m = string_from("Appium UiAutomator2 doctor reported ");
                push_str(&mut m, decimal_string(s.required_fixes as u64).as_str());
                push_str(&mut m, " required fix(es): ");
                push_str(&mut m, doctor_output);
                Err(m)
            } else {
                let mut m = string_from("UiAutomator2 doctor passed with ");
                push_str(&mut m, decimal_string(s.required_fixes as u64).as_str());
                push_str(&mut m, " required fix(es) and ");
                push_str(&mut m, decimal_string(s.optional_fixes as u64).as_str());
                push_str(&mut m, " optional fix(es)");
                Ok(m)
            }
        },
    }
}

} // verus!
