//! Host platform knowledge: where browsers and the Android SDK are looked
//! for, binary names, and the ChromeDriver download that matches a Chrome.
//!
//! The host's operating system and architecture are parameters here; the
//! program reads them once and passes them in.
use vstd::prelude::*;

use crate::text::{
    chars_of, count_until, is_digit, join_path, join_path_exec, lemma_count_until, push_str,
    split_words, string_from, string_of, string_of_range, views, words, eq_chars,
};

verus! {

/// Operating systems the tooling distinguishes.
#[derive(Debug, Clone, Copy, PartialEq, Eq)]
pub enum HostOs {
    Linux,
    MacOs,
    Windows,
    Other,
}

/// CPU architectures the tooling distinguishes.
#[derive(Debug, Clone, Copy, PartialEq, Eq)]
pub enum HostArch {
    X86_64,
    Aarch64,
    X86,
    Other,
}

// ---------------------------------------------------------------------------
// Paths
// ---------------------------------------------------------------------------

/// A Windows path separator.
pub open spec fn win_sep(c: char) -> bool {
    c == '\\' || c == '/'
}

/// A drive prefix such as `C:`.
pub open spec fn win_drive(s: Seq<char>) -> bool {
    &&& s.len() >= 2
    &&& (('a' as int) <= (s[0] as int) <= ('z' as int) || ('A' as int) <= (s[0] as int) <= (
    'Z' as int))
    &&& s[1] == ':'
}

/// Two leading separators: a UNC, device or verbatim prefix.
pub open spec fn win_double_sep(s: Seq<char>) -> bool {
    s.len() >= 2 && win_sep(s[0]) && win_sep(s[1])
}

/// The first separator at or after `from`, or the length.
pub open spec fn next_sep(s: Seq<char>, from: int) -> int
    decreases s.len() - from,
{
    if from < 0 || from >= s.len() {
        s.len() as int
    } else if win_sep(s[from]) {
        from
    } else {
        next_sep(s, from + 1)
    }
}

/// The length of a Windows path's prefix: 2 for a drive, `\\server\share`
/// for a path with two leading separators, 0 otherwise.
pub open spec fn win_prefix_len(s: Seq<char>) -> int {
    if win_drive(s) {
        2
    } else if win_double_sep(s) {
        let i = next_sep(s, 2);
        if i >= s.len() {
            s.len() as int
        } else {
            next_sep(s, i + 1)
        }
    } else {
        0
    }
}

/// `Path::join` on Windows: a component with a prefix (`C:\x`, `C:x`,
/// `\\server\share`) replaces the base; one with a root but no prefix (`\x`)
/// keeps only the base's prefix; otherwise a `\` is inserted unless the base
/// is empty, is a bare drive, or already ends with a separator.  Verbatim
/// (`\\?\`) bases are joined as ordinary ones.
pub open spec fn windows_join(base: Seq<char>, rel: Seq<char>) -> Seq<char> {
    if win_drive(rel) || win_double_sep(rel) {
        rel
    } else if rel.len() > 0 && win_sep(rel[0]) {
        base.take(win_prefix_len(base)) + rel
    } else if base.len() == 0 || win_sep(base.last()) || (base.len() == 2 && win_drive(base)) {
        base + rel
    } else {
        base + seq!['\\'] + rel
    }
}

/// `PathBuf::join` on the given host.
pub open spec fn os_join(os: HostOs, base: Seq<char>, rel: Seq<char>) -> Seq<char> {
    match os {
        HostOs::Windows => windows_join(base, rel),
        _ => join_path(base, rel),
    }
}

fn win_sep_exec(c: char) -> (b: bool)
    ensures
        b == win_sep(c),
{
    c == '\\' || c == '/'
}

fn win_drive_exec(v: &Vec<char>) -> (b: bool)
    ensures
        b == win_drive(v@),
{
    v.len() >= 2 && (('a' <= v[0] && v[0] <= 'z') || ('A' <= v[0] && v[0] <= 'Z')) && v[1] == ':'
}

fn next_sep_exec(v: &Vec<char>, from: usize) -> (r: usize)
    ensures
        r == next_sep(v@, from as int),
{
    let mut i = from;
    while i < v.len() && !win_sep_exec(v[i])
        invariant
            from <= i,
            next_sep(v@, from as int) == next_sep(v@, i as int),
        decreases v.len() - i,
    {
        i = i + 1;
    }
    if i >= v.len() {
        v.len()
    } else {
        i
    }
}

fn win_prefix_len_exec(v: &Vec<char>) -> (r: usize)
    ensures
        r == win_prefix_len(v@),
        r <= v.len(),
{
    if win_drive_exec(v) {
        2
    } else if v.len() >= 2 && win_sep_exec(v[0]) && win_sep_exec(v[1]) {
        let i = next_sep_exec(v, 2);
        proof {
            lemma_next_sep_bound(v@, 2);
        }
        if i >= v.len() {
            v.len()
        } else {
            proof {
                lemma_next_sep_bound(v@, i + 1);
            }
            next_sep_exec(v, i + 1)
        }
    } else {
        0
    }
}

proof fn lemma_next_sep_bound(s: Seq<char>, from: int)
    ensures
        next_sep(s, from) <= s.len(),
        0 <= from ==> from <= next_sep(s, from) || next_sep(s, from) == s.len(),
    decreases s.len() - from,
{
    if 0 <= from < s.len() && !win_sep(s[from]) {
        lemma_next_sep_bound(s, from + 1);
    }
}

/// Joins `rel` to `base` as the host's paths do.
pub fn os_join_exec(os: HostOs, base: &str, rel: &str) -> (r: String)
    ensures
        r@ == os_join(os, base@, rel@),
{
    match os {
        HostOs::Windows => {
            let b = chars_of(base);
            let rv = chars_of(rel);
            if win_drive_exec(&rv) || (rv.len() >= 2 && win_sep_exec(rv[0]) && win_sep_exec(rv[1])) {
                return string_from(rel);
            }
            if rv.len() > 0 && win_sep_exec(rv[0]) {
                let n = win_prefix_len_exec(&b);
                let mut s = crate::text::string_of_range(&b, 0, n);
                push_str(&mut s, rel);
                assert(b@.subrange(0, n as int) =~= b@.take(n as int));
                return s;
            }
            let mut s = string_from(base);
            if b.len() > 0 && !win_sep_exec(b[b.len() - 1]) && !(b.len() == 2 && win_drive_exec(&b)) {
                crate::text::push_char(&mut s, '\\');
            }
            push_str(&mut s, rel);
            s
        },
        _ => join_path_exec(base, rel),
    }
}

// ---------------------------------------------------------------------------
// Chrome
// ---------------------------------------------------------------------------

/// The first word that starts with an ASCII digit.
pub open spec fn first_version_word(ws: Seq<Seq<char>>) -> Option<Seq<char>>
    decreases ws.len(),
{
    if ws.len() == 0 {
        None
    } else if ws[0].len() > 0 && is_digit(ws[0][0]) {
        Some(ws[0])
    } else {
        first_version_word(ws.drop_first())
    }
}

/// Extracts the dotted version number from a `"<name> X.Y.Z.W"` string: the
/// first whitespace-separated word that starts with a digit.
pub fn parse_version_from_output(output: &str) -> (r: Option<String>)
    ensures
        crate::text::opt_str(r) == first_version_word(words(output@)),
{
    let v = chars_of(output);
    let ws = split_words(&v);
    let ghost all = views(ws@);
    assert(all.skip(0) =~= all);
    let mut i: usize = 0;
    while i < ws.len()
        invariant
            i <= ws.len(),
            all == views(ws@),
            all == words(output@),
            first_version_word(all) == first_version_word(all.skip(i as int)),
        decreases ws.len() - i,
    {
        let w = &ws[i];
        assert(all.skip(i as int)[0] == w@);
        if w.len() > 0 && crate::text::is_digit_char(w[0]) {
            return Some(string_of(w));
        }
        assert(all.skip(i as int).drop_first() =~= all.skip(i + 1));
        i = i + 1;
    }
    None
}

/// Where Chrome is looked for on each host.  On Windows the bases are the
/// values of `PROGRAMFILES`, `PROGRAMFILES(X86)` and `LOCALAPPDATA` (empty
/// when unset), and an empty base is skipped.
pub open spec fn chrome_candidates_spec(
    os: HostOs,
    program_files: Seq<char>,
    program_files_x86: Seq<char>,
    local_app_data: Seq<char>,
) -> Seq<Seq<char>> {
    match os {
        HostOs::MacOs => seq![
            "/Applications/Google Chrome.app/Contents/MacOS/Google Chrome"@,
            "/Applications/Chromium.app/Contents/MacOS/Chromium"@,
        ],
        HostOs::Linux => seq![
            "/usr/bin/google-chrome"@,
            "/usr/bin/google-chrome-stable"@,
            "/usr/bin/chromium"@,
            "/usr/bin/chromium-browser"@,
            "/snap/bin/chromium"@,
        ],
        HostOs::Windows => seq![program_files, program_files_x86, local_app_data].filter(
            |b: Seq<char>| b.len() > 0,
        ).map_values(|b: Seq<char>| windows_join(b, "Google\\Chrome\\Application\\chrome.exe"@)),
        HostOs::Other => seq![],
    }
}

/// Candidate paths for the Chrome binary on the host.
pub fn chrome_binary_candidates(
    os: HostOs,
    program_files: &str,
    program_files_x86: &str,
    local_app_data: &str,
) -> (r: Vec<String>)
    ensures
        crate::text::strs(r@) == chrome_candidates_spec(
            os,
            program_files@,
            program_files_x86@,
            local_app_data@,
        ),
{
    let mut r: Vec<String> = Vec::new();
    match os {
        HostOs::MacOs => {
            r.push(string_from("/Applications/Google Chrome.app/Contents/MacOS/Google Chrome"));
            r.push(string_from("/Applications/Chromium.app/Contents/MacOS/Chromium"));
        },
        HostOs::Linux => {
            r.push(string_from("/usr/bin/google-chrome"));
            r.push(string_from("/usr/bin/google-chrome-stable"));
            r.push(string_from("/usr/bin/chromium"));
            r.push(string_from("/usr/bin/chromium-browser"));
            r.push(string_from("/snap/bin/chromium"));
        },
        HostOs::Windows => {
            let ghost bases = seq![program_files@, program_files_x86@, local_app_data@];
            let ghost f = |b: Seq<char>| b.len() > 0;
            let ghost g = |b: Seq<char>| windows_join(b, "Google\\Chrome\\Application\\chrome.exe"@);
            proof {
                reveal(Seq::filter);
                assert(bases.take(0).filter(f) =~= seq![]);
                assert(bases.take(1) =~= seq![program_files@]);
                assert(bases.take(2) =~= seq![program_files@, program_files_x86@]);
                assert(bases.take(3) =~= bases);
                assert(bases.take(1).drop_last() =~= bases.take(0));
                assert(bases.take(2).drop_last() =~= bases.take(1));
                assert(bases.take(3).drop_last() =~= bases.take(2));
            }
            if chars_of(program_files).len() > 0 {
                r.push(os_join_exec(os, program_files, "Google\\Chrome\\Application\\chrome.exe"));
            }
            assert(crate::text::strs(r@) =~= bases.take(1).filter(f).map_values(g));
            if chars_of(program_files_x86).len() > 0 {
                r.push(os_join_exec(os, program_files_x86, "Google\\Chrome\\Application\\chrome.exe"));
            }
            assert(crate::text::strs(r@) =~= bases.take(2).filter(f).map_values(g));
            if chars_of(local_app_data).len() > 0 {
                r.push(os_join_exec(os, local_app_data, "Google\\Chrome\\Application\\chrome.exe"));
            }
            assert(crate::text::strs(r@) =~= bases.take(3).filter(f).map_values(g));
        },
        HostOs::Other => {},
    }
    proof {
        assert(crate::text::strs(r@) =~= chrome_candidates_spec(
            os,
            program_files@,
            program_files_x86@,
            local_app_data@,
        ));
    }
    r
}

// ---------------------------------------------------------------------------
// Android SDK
// ---------------------------------------------------------------------------

/// Represents a discovered Android SDK installation.
#[derive(Debug, Clone)]
pub struct AndroidSdk {
    /// Root directory of the Android SDK.
    pub root: String,
    /// Path to the `adb` binary inside the SDK.
    pub adb_path: String,
}

pub open spec fn adb_name_spec(os: HostOs) -> Seq<char> {
    match os {
        HostOs::Windows => "adb.exe"@,
        _ => "adb"@,
    }
}

/// Returns the platform-specific name of the `adb` binary.
pub fn adb_binary_name(os: HostOs) -> (r: &'static str)
    ensures
        r@ == adb_name_spec(os),
{
    match os {
        HostOs::Windows => "adb.exe",
        _ => "adb",
    }
}

/// `<root>/platform-tools/<adb>`.
pub open spec fn adb_path_spec(os: HostOs, root: Seq<char>) -> Seq<char> {
    os_join(os, os_join(os, root, "platform-tools"@), adb_name_spec(os))
}

/// Where `adb` lies inside an SDK rooted at `root`.
pub fn adb_path_for(os: HostOs, root: &str) -> (r: String)
    ensures
        r@ == adb_path_spec(os, root@),
{
    let tools = os_join_exec(os, root, "platform-tools");
    os_join_exec(os, tools.as_str(), adb_binary_name(os))
}

/// The SDK roots searched, in order: `ANDROID_HOME`, `ANDROID_SDK_ROOT`, then
/// the host's default location under the home directory (the local data
/// directory on Windows; an unknown directory counts as empty).
pub open spec fn sdk_candidates_spec(
    os: HostOs,
    android_home: Option<Seq<char>>,
    android_sdk_root: Option<Seq<char>>,
    home_dir: Seq<char>,
    data_local_dir: Seq<char>,
) -> Seq<Seq<char>> {
    let from_env = match android_home {
        Some(h) => seq![h],
        None => seq![],
    } + match android_sdk_root {
        Some(r) => seq![r],
        None => seq![],
    };
    from_env + match os {
        HostOs::MacOs => seq![join_path(home_dir, "Library/Android/sdk"@)],
        HostOs::Linux => seq![join_path(home_dir, "Android/Sdk"@)],
        HostOs::Windows => seq![windows_join(data_local_dir, "Android\\Sdk"@)],
        HostOs::Other => seq![],
    }
}

/// Candidate root directories for the Android SDK.
pub fn android_sdk_candidates(
    os: HostOs,
    android_home: Option<String>,
    android_sdk_root: Option<String>,
    home_dir: &str,
    data_local_dir: &str,
) -> (r: Vec<String>)
    ensures
        crate::text::strs(r@) == sdk_candidates_spec(
            os,
            crate::text::opt_str(android_home),
            crate::text::opt_str(android_sdk_root),
            home_dir@,
            data_local_dir@,
        ),
{
    let mut r: Vec<String> = Vec::new();
    if let Some(h) = android_home {
        r.push(h);
    }
    if let Some(s) = android_sdk_root {
        r.push(s);
    }
    match os {
        HostOs::MacOs => r.push(os_join_exec(os, home_dir, "Library/Android/sdk")),
        HostOs::Linux => r.push(os_join_exec(os, home_dir, "Android/Sdk")),
        HostOs::Windows => r.push(os_join_exec(os, data_local_dir, "Android\\Sdk")),
        HostOs::Other => {},
    }
    proof {
        assert(crate::text::strs(r@) =~= sdk_candidates_spec(
            os,
            crate::text::opt_str(android_home),
            crate::text::opt_str(android_sdk_root),
            home_dir@,
            data_local_dir@,
        ));
    }
    r
}

/// A candidate SDK root and whether `adb` was found inside it (at
/// [`adb_path_for`] of the root).
#[derive(Debug, Clone)]
pub struct SdkCandidate {
    pub root: String,
    pub adb_present: bool,
}

/// The first candidate with `adb`, as (root, adb path).
pub open spec fn find_sdk_spec(os: HostOs, cands: Seq<(Seq<char>, bool)>) -> Option<
    (Seq<char>, Seq<char>),
>
    decreases cands.len(),
{
    if cands.len() == 0 {
        None
    } else if cands[0].1 {
        Some((cands[0].0, adb_path_spec(os, cands[0].0)))
    } else {
        find_sdk_spec(os, cands.drop_first())
    }
}

pub open spec fn candidates_view(c: Seq<SdkCandidate>) -> Seq<(Seq<char>, bool)> {
    c.map_values(|x: SdkCandidate| (x.root@, x.adb_present))
}

/// Like the SDK search, over an explicit list of root directories: the first
/// root whose `platform-tools` holds `adb`.
pub fn find_android_sdk_from_candidates(os: HostOs, candidates: Vec<SdkCandidate>) -> (r: Option<
    AndroidSdk,
>)
    ensures
        match r {
            Some(s) => find_sdk_spec(os, candidates_view(candidates@)) == Some((s.root@, s.adb_path@)),
            None => find_sdk_spec(os, candidates_view(candidates@)) is None,
        },
{
    let ghost cv = candidates_view(candidates@);
    assert(cv.skip(0) =~= cv);
    let mut i: usize = 0;
    while i < candidates.len()
        invariant
            i <= candidates.len(),
            cv == candidates_view(candidates@),
            find_sdk_spec(os, cv) == find_sdk_spec(os, cv.skip(i as int)),
        decreases candidates.len() - i,
    {
        assert(cv.skip(i as int)[0] == (candidates@[i as int].root@, candidates@[i as int].adb_present));
        if candidates[i].adb_present {
            let root = candidates[i].root.clone();
            let adb_path = adb_path_for(os, root.as_str());
            return Some(AndroidSdk { root, adb_path });
        }
        assert(cv.skip(i as int).drop_first() =~= cv.skip(i + 1));
        i = i + 1;
    }
    None
}

// ---------------------------------------------------------------------------
// ChromeDriver provisioning
// ---------------------------------------------------------------------------

/// The major component of a version: the text before the first `.`.
pub open spec fn major_spec(version: Seq<char>) -> Seq<char> {
    version.take(count_until(version, '.') as int)
}

fn major_len(v: &Vec<char>) -> (n: usize)
    ensures
        n as nat == count_until(v@, '.'),
        n <= v.len(),
{
    proof {
        lemma_count_until(v@, '.');
    }
    let mut n: usize = 0;
    while n < v.len() && v[n] != '.'
        invariant
            n <= v.len(),
            forall|k: int| 0 <= k < n ==> #[trigger] v@[k] != '.',
        decreases v.len() - n,
    {
        n = n + 1;
    }
    proof {
        crate::text::lemma_count_until_exact(v@, '.', n as int);
    }
    n
}

/// Extracts the major version component from a full version string.
/// e.g. `"124.0.6367.60"` → `"124"`.
pub fn major_version(version: &str) -> (r: String)
    ensures
        r@ == major_spec(version@),
{
    let v = chars_of(version);
    let n = major_len(&v);
    string_of_range(&v, 0, n)
}

pub open spec fn chromedriver_name_spec(os: HostOs) -> Seq<char> {
    match os {
        HostOs::Windows => "chromedriver.exe"@,
        _ => "chromedriver"@,
    }
}

/// Returns the platform-specific binary name for `chromedriver`.
pub fn chromedriver_binary_name(os: HostOs) -> (r: &'static str)
    ensures
        r@ == chromedriver_name_spec(os),
{
    match os {
        HostOs::Windows => "chromedriver.exe",
        _ => "chromedriver",
    }
}

pub open spec fn cft_platform_spec(os: HostOs, arch: HostArch) -> Seq<char> {
    match (os, arch) {
        (HostOs::MacOs, HostArch::X86_64) => "mac-x64"@,
        (HostOs::MacOs, HostArch::Aarch64) => "mac-arm64"@,
        (HostOs::Windows, HostArch::X86_64) => "win64"@,
        (HostOs::Windows, HostArch::X86) => "win32"@,
        _ => "linux64"@,
    }
}

/// Returns the platform string used by the Chrome for Testing API
/// (`linux64` on any host it has no build for).
pub fn cft_platform(os: HostOs, arch: HostArch) -> (r: &'static str)
    ensures
        r@ == cft_platform_spec(os, arch),
{
    match (os, arch) {
        (HostOs::MacOs, HostArch::X86_64) => "mac-x64",
        (HostOs::MacOs, HostArch::Aarch64) => "mac-arm64",
        (HostOs::Windows, HostArch::X86_64) => "win64",
        (HostOs::Windows, HostArch::X86) => "win32",
        _ => "linux64",
    }
}

/// `<home>/.uto/cache/chromedriver/<major>/<binary>`, or an error when the
/// home directory is unknown.
pub open spec fn cache_path_spec(os: HostOs, home: Option<Seq<char>>, version: Seq<char>) -> Result<
    Seq<char>,
    Seq<char>,
> {
    match home {
        None => Err("Could not determine home directory"@),
        Some(h) => Ok(
            os_join(
                os,
                os_join(
                    os,
                    os_join(os, os_join(os, os_join(os, h, ".uto"@), "cache"@), "chromedriver"@),
                    major_spec(version),
                ),
                chromedriver_name_spec(os),
            ),
        ),
    }
}

/// Returns the expected path of the cached `chromedriver` binary.
pub fn chromedriver_cache_path(os: HostOs, home: Option<&str>, chrome_version: &str) -> (r: Result<
    String,
    String,
>)
    ensures
        crate::text::str_result(r) == cache_path_spec(
            os,
            match home {
                Some(h) => Some(h@),
                None => None,
            },
            chrome_version@,
        ),
{
    match home {
        None => Err(string_from("Could not determine home directory")),
        Some(h) => {
            let major = major_version(chrome_version);
            let a = os_join_exec(os, h, ".uto");
            let b = os_join_exec(os, a.as_str(), "cache");
            let c = os_join_exec(os, b.as_str(), "chromedriver");
            let d = os_join_exec(os, c.as_str(), major.as_str());
            Ok(os_join_exec(os, d.as_str(), chromedriver_binary_name(os)))
        },
    }
}

/// A single platform-specific download artifact of the Chrome for Testing list.
#[derive(Debug, Clone)]
pub struct CftDownload {
    pub platform: String,
    pub url: String,
}

/// A single entry in the Chrome for Testing version list.
#[derive(Debug, Clone)]
pub struct CftVersion {
    pub version: String,
    /// The ChromeDriver downloads of this version, when it lists any.
    pub chromedriver: Option<Vec<CftDownload>>,
}

pub open spec fn downloads_view(d: Seq<CftDownload>) -> Seq<(Seq<char>, Seq<char>)> {
    d.map_values(|x: CftDownload| (x.platform@, x.url@))
}

pub open spec fn versions_view(v: Seq<CftVersion>) -> Seq<(Seq<char>, Option<Seq<(Seq<char>, Seq<char>)>>)> {
    v.map_values(
        |x: CftVersion|
            (
                x.version@,
                match x.chromedriver {
                    Some(d) => Some(downloads_view(d@)),
                    None => None,
                },
            ),
    )
}

/// The URL of the first download for `platform`.
pub open spec fn first_for_platform(d: Seq<(Seq<char>, Seq<char>)>, platform: Seq<char>) -> Option<
    Seq<char>,
>
    decreases d.len(),
{
    if d.len() == 0 {
        None
    } else if d[0].0 == platform {
        Some(d[0].1)
    } else {
        first_for_platform(d.drop_first(), platform)
    }
}

/// The first ChromeDriver download for `platform` among the versions of
/// major release `major`, in list order.
pub open spec fn download_for(
    vs: Seq<(Seq<char>, Option<Seq<(Seq<char>, Seq<char>)>>)>,
    major: Seq<char>,
    platform: Seq<char>,
) -> Option<Seq<char>>
    decreases vs.len(),
{
    if vs.len() == 0 {
        None
    } else {
        let here = if major_spec(vs[0].0) == major {
            match vs[0].1 {
                Some(d) => first_for_platform(d, platform),
                None => None,
            }
        } else {
            None
        };
        match here {
            Some(u) => Some(u),
            None => download_for(vs.drop_first(), major, platform),
        }
    }
}

pub open spec fn select_download_spec(
    vs: Seq<(Seq<char>, Option<Seq<(Seq<char>, Seq<char>)>>)>,
    chrome_version: Seq<char>,
    platform: Seq<char>,
) -> Result<Seq<char>, Seq<char>> {
    match download_for(vs, major_spec(chrome_version), platform) {
        Some(u) => Ok(u),
        None => Err(
            "No chromedriver download found for Chrome "@ + chrome_version + " on "@ + platform,
        ),
    }
}

fn first_for_platform_exec(d: &Vec<CftDownload>, platform: &Vec<char>) -> (r: Option<String>)
    ensures
        crate::text::opt_str(r) == first_for_platform(downloads_view(d@), platform@),
{
    let ghost dv = downloads_view(d@);
    assert(dv.skip(0) =~= dv);
    let mut i: usize = 0;
    while i < d.len()
        invariant
            i <= d.len(),
            dv == downloads_view(d@),
            first_for_platform(dv, platform@) == first_for_platform(dv.skip(i as int), platform@),
        decreases d.len() - i,
    {
        assert(dv.skip(i as int)[0] == (d@[i as int].platform@, d@[i as int].url@));
        if eq_chars(&chars_of(d[i].platform.as_str()), platform) {
            return Some(d[i].url.clone());
        }
        assert(dv.skip(i as int).drop_first() =~= dv.skip(i + 1));
        i = i + 1;
    }
    None
}

/// The ChromeDriver download URL matching `chrome_version` (same major
/// release) on the Chrome for Testing `platform`.
pub fn select_chromedriver_download(
    versions: &Vec<CftVersion>,
    chrome_version: &str,
    platform: &str,
) -> (r: Result<String, String>)
    ensures
        crate::text::str_result(r) == select_download_spec(
            versions_view(versions@),
            chrome_version@,
            platform@,
        ),
{
    let ghost vv = versions_view(versions@);
    assert(vv.skip(0) =~= vv);
    let major = chars_of(major_version(chrome_version).as_str());
    let p = chars_of(platform);
    let mut i: usize = 0;
    while i < versions.len()
        invariant
            i <= versions.len(),
            vv == versions_view(versions@),
            major@ == major_spec(chrome_version@),
            p@ == platform@,
            download_for(vv, major@, p@) == download_for(vv.skip(i as int), major@, p@),
        decreases versions.len() - i,
    {
        let ghost rest = vv.skip(i as int);
        assert(rest[0] == vv[i as int]);
        assert(rest.drop_first() =~= vv.skip(i + 1));
        let vm = chars_of(major_version(versions[i].version.as_str()).as_str());
        if eq_chars(&vm, &major) {
            match &versions[i].chromedriver {
                Some(d) => {
                    match first_for_platform_exec(d, &p) {
                        Some(u) => {
                            return Ok(u);
                        },
                        None => {},
                    }
                },
                None => {},
            }
        }
        i = i + 1;
    }
    let mut m = string_from("No chromedriver download found for Chrome ");
    push_str(&mut m, chrome_version);
    push_str(&mut m, " on ");
    push_str(&mut m, platform);
    Err(m)
}

} // verus!
