//! Mobile sessions through Appium: the target platform, the W3C capability
//! object sent to Appium, and the decisions taken around Appium's HTTP
//! endpoints (base path, new-session reply, preflight probe).
use vstd::prelude::*;

use crate::json_text::{json_object, json_string, json_string_text, object_text, entries_view};
use crate::text::{
    chars_of, contains_text, eq_chars, lower_chars, lower_seq, push_str, string_from,
    string_of_range, contains_str,
};

verus! {

// ---------------------------------------------------------------------------
// Platform
// ---------------------------------------------------------------------------

/// The target mobile operating system.
#[derive(Debug, Clone, Copy, PartialEq, Eq)]
pub enum MobilePlatform {
    /// Android device or emulator controlled via UiAutomator2.
    Android,
    /// iOS device or simulator controlled via XCUITest.
    Ios,
}

pub open spec fn platform_name_spec(p: MobilePlatform) -> Seq<char> {
    match p {
        MobilePlatform::Android => "Android"@,
        MobilePlatform::Ios => "iOS"@,
    }
}

pub open spec fn automation_name_spec(p: MobilePlatform) -> Seq<char> {
    match p {
        MobilePlatform::Android => "UiAutomator2"@,
        MobilePlatform::Ios => "XCUITest"@,
    }
}

impl MobilePlatform {
    /// Returns the W3C `platformName` string expected by Appium.
    pub fn platform_name(&self) -> (r: &'static str)
        ensures
            r@ == platform_name_spec(*self),
    {
        match self {
            MobilePlatform::Android => "Android",
            MobilePlatform::Ios => "iOS",
        }
    }

    /// Returns the default Appium `automationName` for this platform.
    pub fn automation_name(&self) -> (r: &'static str)
        ensures
            r@ == automation_name_spec(*self),
    {
        match self {
            MobilePlatform::Android => "UiAutomator2",
            MobilePlatform::Ios => "XCUITest",
        }
    }
}

// ---------------------------------------------------------------------------
// Capability members: an ordered map of keys to JSON texts
// ---------------------------------------------------------------------------

/// The first position of `key` among the members from `i` on.
pub open spec fn key_index_from(m: Seq<(Seq<char>, Seq<char>)>, key: Seq<char>, i: int) -> Option<
    int,
>
    decreases m.len() - i,
{
    if i < 0 || i >= m.len() {
        None
    } else if m[i].0 == key {
        Some(i)
    } else {
        key_index_from(m, key, i + 1)
    }
}

pub open spec fn key_index(m: Seq<(Seq<char>, Seq<char>)>, key: Seq<char>) -> Option<int> {
    key_index_from(m, key, 0)
}

/// Sets `key` to `value`: in place when the key is present (its position is
/// kept), else appended, as an order-preserving JSON map does.
pub open spec fn insert_member(m: Seq<(Seq<char>, Seq<char>)>, key: Seq<char>, value: Seq<char>) -> Seq<
    (Seq<char>, Seq<char>),
> {
    match key_index(m, key) {
        Some(i) => m.update(i, (key, value)),
        None => m.push((key, value)),
    }
}

/// Inserts each of `extra`, in order.
pub open spec fn insert_all(m: Seq<(Seq<char>, Seq<char>)>, extra: Seq<(Seq<char>, Seq<char>)>) -> Seq<
    (Seq<char>, Seq<char>),
>
    decreases extra.len(),
{
    if extra.len() == 0 {
        m
    } else {
        insert_member(insert_all(m, extra.drop_last()), extra.last().0, extra.last().1)
    }
}

/// The value of `key`, if any member has it.
pub open spec fn member_value(m: Seq<(Seq<char>, Seq<char>)>, key: Seq<char>) -> Option<Seq<char>> {
    match key_index(m, key) {
        Some(i) => Some(m[i].1),
        None => None,
    }
}

/// The last value given to `key` in a list of insertions, if any.
pub open spec fn last_value(extra: Seq<(Seq<char>, Seq<char>)>, key: Seq<char>) -> Option<Seq<char>>
    decreases extra.len(),
{
    if extra.len() == 0 {
        None
    } else if extra.last().0 == key {
        Some(extra.last().1)
    } else {
        last_value(extra.drop_last(), key)
    }
}

pub open spec fn distinct_keys(m: Seq<(Seq<char>, Seq<char>)>) -> bool {
    forall|i: int, j: int| 0 <= i < j < m.len() ==> m[i].0 != m[j].0
}

proof fn lemma_key_index_from(m: Seq<(Seq<char>, Seq<char>)>, key: Seq<char>, i: int)
    requires
        0 <= i,
    ensures
        key_index_from(m, key, i) matches Some(j) ==> i <= j < m.len() && m[j].0 == key && forall|
            l: int,
        | i <= l < j ==> m[l].0 != key,
        key_index_from(m, key, i) is None ==> forall|l: int| i <= l < m.len() ==> m[l].0 != key,
    decreases m.len() - i,
{
    if i < m.len() && m[i].0 != key {
        lemma_key_index_from(m, key, i + 1);
    }
}

proof fn lemma_insert_member(m: Seq<(Seq<char>, Seq<char>)>, key: Seq<char>, value: Seq<char>)
    requires
        distinct_keys(m),
    ensures
        distinct_keys(insert_member(m, key, value)),
        member_value(insert_member(m, key, value), key) == Some(value),
        forall|k: Seq<char>|
            k != key ==> member_value(insert_member(m, key, value), k) == member_value(m, k),
{
    lemma_key_index_from(m, key, 0);
    let r = insert_member(m, key, value);
    lemma_key_index_from(r, key, 0);
    match key_index(m, key) {
        Some(i) => {
            assert(r[i].0 == key);
            assert forall|a: int, b: int| 0 <= a < b < r.len() implies r[a].0 != r[b].0 by {
                assert(r[a].0 == m[a].0);
                assert(r[b].0 == m[b].0);
            }
            let j = key_index(r, key)->0;
            if j < i {
                assert(r[j].0 == m[j].0);
            }
        },
        None => {
            assert(r.len() == m.len() + 1);
            assert(r[m.len() as int].0 == key);
            assert forall|a: int, b: int| 0 <= a < b < r.len() implies r[a].0 != r[b].0 by {
                assert(r[a].0 == m[a].0);
                if b < m.len() {
                    assert(r[b].0 == m[b].0);
                }
            }
            let j = key_index(r, key)->0;
            if j < m.len() {
                assert(r[j].0 == m[j].0);
            }
        },
    }
    assert forall|k: Seq<char>| k != key implies member_value(r, k) == member_value(m, k) by {
        lemma_key_index_from(m, k, 0);
        lemma_key_index_from(r, k, 0);
        match key_index(m, k) {
            Some(j) => {
                assert(r[j].0 == k);
                assert(r[j].1 == m[j].1);
                let l = key_index(r, k)->0;
                if l < j {
                    assert(r[l].0 == m[l].0);
                }
            },
            None => {
                if key_index(r, k) is Some {
                    let l = key_index(r, k)->0;
                    if l < m.len() {
                        assert(r[l].0 == m[l].0);
                    }
                }
            },
        }
    }
}

/// Law: building the members by insertions keeps keys distinct, and every
/// key ends up with the value of its last insertion (or its base value).
pub proof fn lemma_insert_all(m: Seq<(Seq<char>, Seq<char>)>, extra: Seq<(Seq<char>, Seq<char>)>)
    requires
        distinct_keys(m),
    ensures
        distinct_keys(insert_all(m, extra)),
        forall|k: Seq<char>|
            #[trigger] member_value(insert_all(m, extra), k) == match last_value(extra, k) {
                Some(v) => Some(v),
                None => member_value(m, k),
            },
    decreases extra.len(),
{
    if extra.len() > 0 {
        let prev = insert_all(m, extra.drop_last());
        lemma_insert_all(m, extra.drop_last());
        lemma_insert_member(prev, extra.last().0, extra.last().1);
        assert forall|k: Seq<char>|
            #[trigger] member_value(insert_all(m, extra), k) == match last_value(extra, k) {
                Some(v) => Some(v),
                None => member_value(m, k),
            } by {
            assert(member_value(prev, k) == match last_value(extra.drop_last(), k) {
                Some(v) => Some(v),
                None => member_value(m, k),
            });
        }
    }
}

fn key_index_exec(m: &Vec<(String, String)>, key: &str) -> (r: Option<usize>)
    ensures
        match r {
            Some(i) => key_index(entries_view(m@), key@) == Some(i as int),
            None => key_index(entries_view(m@), key@) is None,
        },
{
    let ghost ev = entries_view(m@);
    let k = chars_of(key);
    let mut i: usize = 0;
    while i < m.len()
        invariant
            i <= m.len(),
            ev == entries_view(m@),
            k@ == key@,
            key_index(ev, key@) == key_index_from(ev, key@, i as int),
        decreases m.len() - i,
    {
        let c = chars_of(m[i].0.as_str());
        if eq_chars(&c, &k) {
            assert(ev[i as int].0 == key@);
            return Some(i);
        }
        assert(ev[i as int].0 != key@);
        i = i + 1;
    }
    None
}

fn insert_member_exec(m: &mut Vec<(String, String)>, key: &str, value: String)
    ensures
        entries_view(final(m)@) == insert_member(entries_view(old(m)@), key@, value@),
{
    let ghost before = entries_view(m@);
    proof {
        lemma_key_index_from(before, key@, 0);
    }
    match key_index_exec(m, key) {
        Some(i) => {
            m.set(i, (string_from(key), value));
            assert(entries_view(m@) =~= before.update(i as int, (key@, value@)));
        },
        None => {
            m.push((string_from(key), value));
            assert(entries_view(m@) =~= before.push((key@, value@)));
        },
    }
}

// ---------------------------------------------------------------------------
// Capabilities
// ---------------------------------------------------------------------------

/// Desired capabilities for an Appium mobile session.
///
/// These map to the Appium W3C capabilities and are serialised into the
/// session-creation request.  `extra` holds custom capabilities as
/// (key, JSON text of the value), in insertion order.
#[derive(Debug, Clone)]
pub struct MobileCapabilities {
    pub platform: MobilePlatform,
    pub device_name: String,
    pub app_path: Option<String>,
    pub platform_version: Option<String>,
    pub extra: Vec<(String, String)>,
}

pub ghost struct CapsModel {
    pub platform: MobilePlatform,
    pub device_name: Seq<char>,
    pub app_path: Option<Seq<char>>,
    pub platform_version: Option<Seq<char>>,
    pub extra: Seq<(Seq<char>, Seq<char>)>,
}

impl View for MobileCapabilities {
    type V = CapsModel;

    open spec fn view(&self) -> CapsModel {
        CapsModel {
            platform: self.platform,
            device_name: self.device_name@,
            app_path: crate::text::opt_str(self.app_path),
            platform_version: crate::text::opt_str(self.platform_version),
            extra: entries_view(self.extra@),
        }
    }
}

/// The members always sent, then the optional version and app path.
pub open spec fn base_members(c: CapsModel) -> Seq<(Seq<char>, Seq<char>)> {
    let core = seq![
        ("platformName"@, json_string_text(platform_name_spec(c.platform))),
        ("appium:deviceName"@, json_string_text(c.device_name)),
        ("appium:automationName"@, json_string_text(automation_name_spec(c.platform))),
    ];
    let with_version = match c.platform_version {
        Some(v) => core.push(("appium:platformVersion"@, json_string_text(v))),
        None => core,
    };
    match c.app_path {
        Some(a) => with_version.push(("appium:app"@, json_string_text(a))),
        None => with_version,
    }
}

/// The `alwaysMatch` members: the base members with the extra ones inserted over them.
pub open spec fn caps_members(c: CapsModel) -> Seq<(Seq<char>, Seq<char>)> {
    insert_all(base_members(c), c.extra)
}

/// Law: the capability object has one member per key; an extra capability
/// overrides a base one of the same key, and the last of several extras with
/// one key wins.
pub proof fn lemma_caps_members(c: CapsModel)
    ensures
        distinct_keys(caps_members(c)),
        forall|k: Seq<char>|
            #[trigger] member_value(caps_members(c), k) == match last_value(c.extra, k) {
                Some(v) => Some(v),
                None => member_value(base_members(c), k),
            },
{
    reveal_strlit("platformName");
    reveal_strlit("appium:deviceName");
    reveal_strlit("appium:automationName");
    reveal_strlit("appium:platformVersion");
    reveal_strlit("appium:app");
    let b = base_members(c);
    assert(distinct_keys(b)) by {
        assert forall|i: int, j: int| 0 <= i < j < b.len() implies b[i].0 != b[j].0 by {
            assert(b[i].0.len() != b[j].0.len() || b[i].0[7] != b[j].0[7] || b[i].0[0] != b[j].0[0]);
        }
    }
    lemma_insert_all(b, c.extra);
}

impl MobileCapabilities {
    /// Creates a minimal Android capability set targeting `device_name`.
    pub fn android(device_name: &str) -> (r: Self)
        ensures
            r@ == (CapsModel {
                platform: MobilePlatform::Android,
                device_name: device_name@,
                app_path: None,
                platform_version: None,
                extra: seq![],
            }),
    {
        let r = MobileCapabilities {
            platform: MobilePlatform::Android,
            device_name: string_from(device_name),
            app_path: None,
            platform_version: None,
            extra: Vec::new(),
        };
        assert(r@.extra =~= seq![]);
        r
    }

    /// Creates a minimal iOS capability set targeting `device_name`.
    pub fn ios(device_name: &str) -> (r: Self)
        ensures
            r@ == (CapsModel {
                platform: MobilePlatform::Ios,
                device_name: device_name@,
                app_path: None,
                platform_version: None,
                extra: seq![],
            }),
    {
        let r = MobileCapabilities {
            platform: MobilePlatform::Ios,
            device_name: string_from(device_name),
            app_path: None,
            platform_version: None,
            extra: Vec::new(),
        };
        assert(r@.extra =~= seq![]);
        r
    }

    /// Sets the app path.
    pub fn with_app(self, path: &str) -> (r: Self)
        ensures
            r@ == (CapsModel { app_path: Some(path@), ..self@ }),
    {
        let mut s = self;
        s.app_path = Some(string_from(path));
        s
    }

    /// Sets the platform version.
    pub fn with_platform_version(self, version: &str) -> (r: Self)
        ensures
            r@ == (CapsModel { platform_version: Some(version@), ..self@ }),
    {
        let mut s = self;
        s.platform_version = Some(string_from(version));
        s
    }

    /// Adds a custom extra capability; `value_json` is the JSON text of its
    /// value.  A later value for the same key replaces the earlier one.
    pub fn with_extra(self, key: &str, value_json: String) -> (r: Self)
        ensures
            r@ == (CapsModel {
                extra: insert_member(self@.extra, key@, value_json@),
                ..self@
            }),
    {
        let mut s = self;
        insert_member_exec(&mut s.extra, key, value_json);
        s
    }

    /// The members of the Appium W3C `alwaysMatch` capability object, in order.
    pub fn capability_members(&self) -> (r: Vec<(String, String)>)
        ensures
            entries_view(r@) == caps_members(self@),
    {
        let mut m: Vec<(String, String)> = Vec::new();
        m.push((string_from("platformName"), json_string(self.platform.platform_name())));
        m.push((string_from("appium:deviceName"), json_string(self.device_name.as_str())));
        m.push((string_from("appium:automationName"), json_string(self.platform.automation_name())));
        let ghost core = entries_view(m@);
        if let Some(ver) = &self.platform_version {
            m.push((string_from("appium:platformVersion"), json_string(ver.as_str())));
        }
        if let Some(app) = &self.app_path {
            m.push((string_from("appium:app"), json_string(app.as_str())));
        }
        assert(entries_view(m@) =~= base_members(self@));
        let ghost ex = entries_view(self.extra@);
        let mut i: usize = 0;
        while i < self.extra.len()
            invariant
                i <= self.extra.len(),
                ex == entries_view(self.extra@),
                ex == self@.extra,
                entries_view(m@) == insert_all(base_members(self@), ex.take(i as int)),
            decreases self.extra.len() - i,
        {
            let v = self.extra[i].1.clone();
            insert_member_exec(&mut m, self.extra[i].0.as_str(), v);
            proof {
                assert(ex.take(i + 1).drop_last() =~= ex.take(i as int));
                assert(ex.take(i + 1).last() == ex[i as int]);
            }
            i = i + 1;
        }
        assert(ex.take(ex.len() as int) =~= ex);
        m
    }

    /// Builds the Appium W3C `alwaysMatch` capability object, as JSON text.
    pub fn to_json_pub(&self) -> (r: String)
        ensures
            r@ == object_text(caps_members(self@)),
    {
        let m = self.capability_members();
        json_object(&m)
    }
}

// ---------------------------------------------------------------------------
// Appium endpoints
// ---------------------------------------------------------------------------

/// `s.trim_end_matches('/')`.
pub open spec fn trim_slashes(s: Seq<char>) -> Seq<char>
    decreases s.len(),
{
    if s.len() > 0 && s.last() == '/' {
        trim_slashes(s.drop_last())
    } else {
        s
    }
}

fn trim_slashes_len(v: &Vec<char>) -> (n: usize)
    ensures
        n <= v.len(),
        v@.take(n as int) == trim_slashes(v@),
{
    let mut n = v.len();
    assert(v@.take(n as int) =~= v@);
    while n > 0 && v[n - 1] == '/'
        invariant
            n <= v.len(),
            trim_slashes(v@) == trim_slashes(v@.take(n as int)),
        decreases n,
    {
        assert(v@.take(n as int).drop_last() =~= v@.take(n - 1));
        n = n - 1;
    }
    n
}

/// The Appium server URL a session talks to: the given URL without its
/// trailing slashes.
pub fn appium_base_url(url: &str) -> (r: String)
    ensures
        r@ == trim_slashes(url@),
{
    let v = crate::text::chars_of(url);
    let n = trim_slashes_len(&v);
    crate::text::string_of_range(&v, 0, n)
}

pub open spec fn alternate_base_url_spec(url: Seq<char>) -> Option<Seq<char>> {
    let t = trim_slashes(url);
    if "/wd/hub"@.is_suffix_of(t) {
        Some(t.take(t.len() - 7))
    } else if t.len() > 0 {
        Some(t + "/wd/hub"@)
    } else {
        None
    }
}

/// Returns an alternate Appium base URL by toggling the `/wd/hub` suffix
/// (trailing slashes ignored); `None` for an empty URL.
pub fn appium_alternate_base_url(url: &str) -> (r: Option<String>)
    ensures
        crate::text::opt_str(r) == alternate_base_url_spec(url@),
{
    let v = chars_of(url);
    let n = trim_slashes_len(&v);
    let ghost t = v@.take(n as int);
    let suffix = chars_of("/wd/hub");
    proof {
        reveal_strlit("/wd/hub");
    }
    let ends = n >= 7 && crate::text::occurs_at_exec(&v, &suffix, n - 7);
    proof {
        if n >= 7 {
            assert(t.subrange(n - 7, n as int) =~= v@.subrange(n - 7, n as int));
        }
    }
    if ends {
        Some(string_of_range(&v, 0, n - 7))
    } else if n > 0 {
        let mut s = string_of_range(&v, 0, n);
        push_str(&mut s, "/wd/hub");
        Some(s)
    } else {
        None
    }
}

/// Law: toggling the `/wd/hub` suffix twice gives back the URL without its
/// trailing slashes.  When the suffix is removed, what remains must be a
/// non-empty URL that neither ends with `/` nor itself ends with `/wd/hub`
/// (otherwise the second toggle trims or removes more).
pub proof fn lemma_alternate_base_url_round_trip(url: Seq<char>)
    requires
        alternate_base_url_spec(url) is Some,
        "/wd/hub"@.is_suffix_of(trim_slashes(url)) ==> {
            let a = alternate_base_url_spec(url)->0;
            &&& a.len() > 0
            &&& a.last() != '/'
            &&& !"/wd/hub"@.is_suffix_of(a)
        },
    ensures
        alternate_base_url_spec(alternate_base_url_spec(url)->0) == Some(trim_slashes(url)),
{
    reveal_strlit("/wd/hub");
    let t = trim_slashes(url);
    let a = alternate_base_url_spec(url)->0;
    if "/wd/hub"@.is_suffix_of(t) {
        assert(trim_slashes(a) == a);
        assert(a + "/wd/hub"@ =~= t);
    } else {
        assert(a.last() == 'b');
        assert(trim_slashes(a) == a);
        assert(a.subrange(a.len() - 7, a.len() as int) =~= "/wd/hub"@);
        assert(a.take(a.len() - 7) =~= t);
    }
}

pub open spec fn base_path_mismatch_spec(message: Seq<char>) -> bool {
    contains_text(lower_seq(message), "unknown command"@) && contains_text(lower_seq(message), "404"@)
}

/// Detects Appium errors that usually indicate an incorrect base path:
/// "unknown command" together with a 404, in any letter case.
pub fn is_appium_base_path_mismatch_error(message: &str) -> (b: bool)
    ensures
        b == base_path_mismatch_spec(message@),
{
    let lower = lower_chars(&chars_of(message));
    contains_str(&lower, "unknown command") && contains_str(&lower, "404")
}

/// `<base>/<endpoint>` with the trailing slashes of `base` removed.
pub open spec fn endpoint_url_spec(base: Seq<char>, endpoint: Seq<char>) -> Seq<char> {
    trim_slashes(base) + seq!['/'] + endpoint
}

/// The URL of one of Appium's endpoints under `base`.
pub fn endpoint_url(base: &str, endpoint: &str) -> (r: String)
    ensures
        r@ == endpoint_url_spec(base@, endpoint@),
{
    let v = chars_of(base);
    let n = trim_slashes_len(&v);
    let mut s = string_of_range(&v, 0, n);
    crate::text::push_char(&mut s, '/');
    push_str(&mut s, endpoint);
    s
}

pub open spec fn session_id_spec(
    appium_url: Seq<char>,
    status_success: bool,
    body: Seq<char>,
    ids: Result<(Seq<char>, Seq<char>), Seq<char>>,
) -> Result<Seq<char>, Seq<char>> {
    if !status_success {
        Err("Appium at "@ + appium_url + ": "@ + body)
    } else {
        match ids {
            Err(e) => Err(
                "Failed to parse Appium new-session response from "@ + endpoint_url_spec(
                    appium_url,
                    "session"@,
                ) + ": "@ + e + "; body: "@ + body,
            ),
            Ok((top, nested)) => {
                let chosen = if top.len() == 0 {
                    nested
                } else {
                    top
                };
                if chosen.len() == 0 {
                    Err(
                        "Appium at "@ + appium_url
                            + " returned a successful new-session response without a session id"@,
                    )
                } else {
                    Ok(chosen)
                }
            },
        }
    }
}

/// The session id of Appium's reply to a new-session request.
///
/// `status_success` is whether the reply had a success status, `body` its
/// text, and `ids` the `sessionId` fields read from it (top level, then under
/// `value`; empty when absent), or the parser's message when it was not the
/// expected JSON.  The top-level id is preferred.
pub fn appium_session_id(
    appium_url: &str,
    status_success: bool,
    body: &str,
    ids: Result<(String, String), String>,
) -> (r: Result<String, String>)
    ensures
        crate::text::str_result(r) == session_id_spec(
            appium_url@,
            status_success,
            body@,
            match ids {
                Ok((a, b)) => Ok((a@, b@)),
                Err(e) => Err(e@),
            },
        ),
{
    if !status_success {
        let mut m = string_from("Appium at ");
        push_str(&mut m, appium_url);
        push_str(&mut m, ": ");
        push_str(&mut m, body);
        return Err(m);
    }
    match ids {
        Err(e) => {
            let url = endpoint_url(appium_url, "session");
            let mut m = string_from("Failed to parse Appium new-session response from ");
            push_str(&mut m, url.as_str());
            push_str(&mut m, ": ");
            push_str(&mut m, e.as_str());
            push_str(&mut m, "; body: ");
            push_str(&mut m, body);
            Err(m)
        },
        Ok((top, nested)) => {
            let chosen = if chars_of(top.as_str()).len() == 0 {
                nested
            } else {
                top
            };
            if chars_of(chosen.as_str()).len() == 0 {
                let mut m = string_from("Appium at ");
                push_str(&mut m, appium_url);
                push_str(&mut m, " returned a successful new-session response without a session id");
                Err(m)
            } else {
                Ok(chosen)
            }
        },
    }
}

// ---------------------------------------------------------------------------
// Preflight probe
// ---------------------------------------------------------------------------

/// Diagnostics from an Appium preflight probe.
#[derive(Debug, Clone)]
pub struct AppiumProbe {
    /// Whether the `/status` endpoint is reachable.
    pub status_endpoint_ok: bool,
    /// Whether the `/session` endpoint appears to accept POST requests.
    pub session_endpoint_ok: bool,
    /// Detected Appium version (if available).
    pub appium_version: Option<String>,
    /// List of available Appium drivers detected.
    pub available_drivers: Vec<String>,
}

/// An HTTP status is a client error (4xx).
pub open spec fn is_client_error(code: u16) -> bool {
    400 <= code && code <= 499
}

/// The probe's verdict from what the two requests returned.
///
/// `status_ok` is whether `/status` answered with a success status (`version`
/// and `drivers` are what its body listed); `session_status` is the status of
/// the `GET /session` reply, `None` when none came.  An unreachable `/status`
/// is an error; `/session` counts as usable when it answered with anything
/// but a client error.
pub fn appium_probe_outcome(
    appium_url: &str,
    status_ok: bool,
    version: Option<String>,
    drivers: Vec<String>,
    session_status: Option<u16>,
) -> (r: Result<AppiumProbe, String>)
    ensures
        !status_ok <==> r is Err,
        r matches Err(e) ==> e@ == "Appium status endpoint not reachable at "@ + endpoint_url_spec(
            appium_url@,
            "status"@,
        ) + ". Verify Appium is running and the URL is correct."@,
        r matches Ok(p) ==> p.status_endpoint_ok && p.session_endpoint_ok == (match session_status {
            Some(c) => !is_client_error(c),
            None => false,
        }) && p.appium_version == version && p.available_drivers == drivers,
{
    if !status_ok {
        let url = endpoint_url(appium_url, "status");
        let mut m = string_from("Appium status endpoint not reachable at ");
        push_str(&mut m, url.as_str());
        push_str(&mut m, ". Verify Appium is running and the URL is correct.");
        return Err(m);
    }
    let session_endpoint_ok = match session_status {
        Some(c) => !(400 <= c && c <= 499),
        None => false,
    };
    Ok(AppiumProbe {
        status_endpoint_ok: true,
        session_endpoint_ok,
        appium_version: version,
        available_drivers: drivers,
    })
}

} // verus!
