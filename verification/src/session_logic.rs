//! The decisions inside web and mobile sessions: how an element's attributes
//! become a selection candidate, how a mobile lookup falls back across its
//! XPath strategies, scrolling and waiting, Appium's base-path retry, and
//! the `startActivity` command.  The session drives the browser or device
//! and asks these functions what follows from each answer.
use vstd::prelude::*;

use crate::json_text::{entries_view, json_object, json_string, json_string_text, object_text};
use crate::mobile_session::{
    alternate_base_url_spec, appium_alternate_base_url, base_path_mismatch_spec,
    is_appium_base_path_mismatch_error,
};
use crate::text::{
    is_ws, lemma_trim_start_len, trim_end, trim_start,
    all_ws, chars_of, decimal, decimal_string, eq_chars, join, push_str, string_from,
    string_of_range, strs, trim, trim_bounds,
};

verus! {

// ---------------------------------------------------------------------------
// Web candidates
// ---------------------------------------------------------------------------

/// A value counts when it is not blank.
pub fn non_empty(value: String) -> (r: Option<String>)
    ensures
        match r {
            Some(v) => v == value && !all_ws(value@),
            None => all_ws(value@),
        },
{
    if crate::text::is_blank(&chars_of(value.as_str())) {
        None
    } else {
        Some(value)
    }
}

/// The first present value that is not blank, trimmed.
pub open spec fn first_non_empty_spec(c: Seq<Option<Seq<char>>>) -> Option<Seq<char>>
    decreases c.len(),
{
    if c.len() == 0 {
        None
    } else {
        match c[0] {
            Some(v) => if trim(v).len() > 0 {
                Some(trim(v))
            } else {
                first_non_empty_spec(c.drop_first())
            },
            None => first_non_empty_spec(c.drop_first()),
        }
    }
}

pub open spec fn opts_view(c: Seq<Option<String>>) -> Seq<Option<Seq<char>>> {
    c.map_values(|o: Option<String>| crate::text::opt_str(o))
}

/// The first of `candidates` that holds a non-blank value, trimmed.
pub fn first_non_empty(candidates: &Vec<Option<String>>) -> (r: Option<String>)
    ensures
        crate::text::opt_str(r) == first_non_empty_spec(opts_view(candidates@)),
{
    let ghost cv = opts_view(candidates@);
    assert(cv.skip(0) =~= cv);
    let mut i: usize = 0;
    while i < candidates.len()
        invariant
            i <= candidates.len(),
            cv == opts_view(candidates@),
            first_non_empty_spec(cv) == first_non_empty_spec(cv.skip(i as int)),
        decreases candidates.len() - i,
    {
        assert(cv.skip(i as int)[0] == crate::text::opt_str(candidates@[i as int]));
        assert(cv.skip(i as int).drop_first() =~= cv.skip(i + 1));
        if let Some(v) = &candidates[i] {
            let c = chars_of(v.as_str());
            let (lo, hi) = trim_bounds(&c);
            if lo < hi {
                return Some(string_of_range(&c, lo, hi));
            }
        }
        i = i + 1;
    }
    None
}

/// What the page says about one interactive element.
#[derive(Debug)]
pub struct ElementAttributes {
    pub tag: String,
    pub role: Option<String>,
    pub text: String,
    pub aria_label: Option<String>,
    pub placeholder: Option<String>,
    pub value: Option<String>,
    pub id: Option<String>,
}

/// The label, element type and selector of a web selection candidate.
#[derive(Debug)]
pub struct WebCandidate {
    pub label: Option<String>,
    pub element_type: String,
    pub selector: String,
}

/// The label comes from `aria-label`, the text, `placeholder` or `value`, in
/// that order; the type is the role, else the tag; the selector is `#id`,
/// else `<tag>:nth-match(<index>)`.
pub open spec fn web_candidate_spec(a: ElementAttributes, index: u64) -> (
    Option<Seq<char>>,
    Seq<char>,
    Seq<char>,
) {
    (
        first_non_empty_spec(
            seq![
                crate::text::opt_str(a.aria_label),
                if all_ws(a.text@) {
                    None
                } else {
                    Some(a.text@)
                },
                crate::text::opt_str(a.placeholder),
                crate::text::opt_str(a.value),
            ],
        ),
        match a.role {
            Some(r) => r@,
            None => a.tag@,
        },
        match a.id {
            Some(id) => seq!['#'] + id@,
            None => a.tag@ + ":nth-match("@ + decimal(index as nat) + ")"@,
        },
    )
}

proof fn lemma_trim_start_empty(s: Seq<char>)
    ensures
        trim_start(s).len() == 0 <==> all_ws(s),
    decreases s.len(),
{
    if s.len() > 0 && is_ws(s[0]) {
        let d = s.drop_first();
        lemma_trim_start_empty(d);
        assert(all_ws(s) <==> all_ws(d)) by {
            if all_ws(d) {
                assert forall|i: int| 0 <= i < s.len() implies is_ws(#[trigger] s[i]) by {
                    if i > 0 {
                        assert(s[i] == d[i - 1]);
                    }
                }
            }
            if all_ws(s) {
                assert forall|i: int| 0 <= i < d.len() implies is_ws(#[trigger] d[i]) by {
                    assert(d[i] == s[i + 1]);
                }
            }
        }
    } else if s.len() > 0 {
        assert(!is_ws(s[0]));
    }
}

proof fn lemma_trim_end_empty(s: Seq<char>)
    ensures
        trim_end(s).len() == 0 <==> all_ws(s),
    decreases s.len(),
{
    if s.len() > 0 && is_ws(s.last()) {
        let d = s.drop_last();
        lemma_trim_end_empty(d);
        assert(all_ws(s) <==> all_ws(d)) by {
            if all_ws(d) {
                assert forall|i: int| 0 <= i < s.len() implies is_ws(#[trigger] s[i]) by {
                    if i < s.len() - 1 {
                        assert(s[i] == d[i]);
                    }
                }
            }
            if all_ws(s) {
                assert forall|i: int| 0 <= i < d.len() implies is_ws(#[trigger] d[i]) by {
                    assert(d[i] == s[i]);
                }
            }
        }
    } else if s.len() > 0 {
        assert(!is_ws(s[s.len() - 1]));
    }
}

/// A value trims to nothing exactly when it is blank.
pub proof fn lemma_trim_blank(s: Seq<char>)
    ensures
        trim(s).len() == 0 <==> all_ws(s),
{
    let t = trim_start(s);
    lemma_trim_start_empty(s);
    lemma_trim_start_len(s);
    lemma_trim_end_empty(t);
    if t.len() > 0 {
        assert(!is_ws(t[0]));
        assert(!all_ws(t));
    }
}

/// A value that is absent or blank.
pub open spec fn blank_opt(o: Option<String>) -> bool {
    match o {
        Some(v) => all_ws(v@),
        None => true,
    }
}

/// Law: a candidate's label is the trimmed `aria-label` when that is present
/// and not blank, whatever the visible text says; otherwise the trimmed text
/// when it is not blank; otherwise the trimmed `placeholder`, then the
/// trimmed `value`; and there is none when all four are absent or blank.
pub proof fn lemma_web_candidate_label(a: ElementAttributes, index: u64)
    ensures
        !blank_opt(a.aria_label) ==> web_candidate_spec(a, index).0 == Some(
            trim(a.aria_label.unwrap()@),
        ),
        blank_opt(a.aria_label) && !all_ws(a.text@) ==> web_candidate_spec(a, index).0 == Some(
            trim(a.text@),
        ),
        blank_opt(a.aria_label) && all_ws(a.text@) && !blank_opt(a.placeholder) ==> web_candidate_spec(a, index).0 == Some(trim(a.placeholder.unwrap()@)),
        blank_opt(a.aria_label) && all_ws(a.text@) && blank_opt(a.placeholder) && !blank_opt(a.value) ==> web_candidate_spec(a, index).0 == Some(
            trim(a.value.unwrap()@),
        ),
        blank_opt(a.aria_label) && all_ws(a.text@) && blank_opt(a.placeholder) && blank_opt(
            a.value,
        ) ==> web_candidate_spec(a, index).0 is None,
{
    let c = seq![
        crate::text::opt_str(a.aria_label),
        if all_ws(a.text@) {
            None
        } else {
            Some(a.text@)
        },
        crate::text::opt_str(a.placeholder),
        crate::text::opt_str(a.value),
    ];
    lemma_trim_blank(a.text@);
    if let Some(l) = a.aria_label {
        lemma_trim_blank(l@);
    }
    if let Some(p) = a.placeholder {
        lemma_trim_blank(p@);
    }
    if let Some(v) = a.value {
        lemma_trim_blank(v@);
    }
    assert(c.drop_first() =~= seq![c[1], c[2], c[3]]);
    assert(c.drop_first().drop_first() =~= seq![c[2], c[3]]);
    assert(c.drop_first().drop_first().drop_first() =~= seq![c[3]]);
    assert(c.drop_first().drop_first().drop_first().drop_first() =~= seq![]);
    assert(first_non_empty_spec(seq![]) is None);
    reveal_with_fuel(first_non_empty_spec, 5);
}

fn copy_opt(o: &Option<String>) -> (r: Option<String>)
    ensures
        r == *o,
{
    match o {
        Some(s) => Some(s.clone()),
        None => None,
    }
}

/// The selection candidate for the element at position `index` of the page's
/// interactive elements.
pub fn web_candidate(attrs: &ElementAttributes, index: u64) -> (r: WebCandidate)
    ensures
        (crate::text::opt_str(r.label), r.element_type@, r.selector@) == web_candidate_spec(
            *attrs,
            index,
        ),
{
    let mut c: Vec<Option<String>> = Vec::new();
    c.push(copy_opt(&attrs.aria_label));
    c.push(non_empty(attrs.text.clone()));
    c.push(copy_opt(&attrs.placeholder));
    c.push(copy_opt(&attrs.value));
    assert(opts_view(c@) =~= seq![
        crate::text::opt_str(attrs.aria_label),
        if all_ws(attrs.text@) {
            None
        } else {
            Some(attrs.text@)
        },
        crate::text::opt_str(attrs.placeholder),
        crate::text::opt_str(attrs.value),
    ]);
    let label = first_non_empty(&c);
    let element_type = match &attrs.role {
        Some(r) => r.clone(),
        None => attrs.tag.clone(),
    };
    let selector = match &attrs.id {
        Some(id) => {
            let mut s = string_from("#");
            proof {
                reveal_strlit("#");
            }
            push_str(&mut s, id.as_str());
            s
        },
        None => {
            let mut s = attrs.tag.clone();
            push_str(&mut s, ":nth-match(");
            push_str(&mut s, decimal_string(index).as_str());
            push_str(&mut s, ")");
            s
        },
    };
    WebCandidate { label, element_type, selector }
}

// ---------------------------------------------------------------------------
// Mobile selection, scrolling, waiting
// ---------------------------------------------------------------------------

/// The failure of a mobile `select` after every XPath strategy failed.
pub open spec fn select_failure_spec(
    label: Seq<char>,
    xpaths: Seq<Seq<char>>,
    last_error: Option<Seq<char>>,
) -> Seq<char> {
    "select('"@ + label + "') failed on mobile after "@ + decimal(xpaths.len()) + " xpath strategies: ["@
        + join(xpaths, " | "@) + "]. Last error: "@ + match last_error {
        Some(e) => e,
        None => "<none>"@,
    }
}

/// Reports that no XPath strategy found the element.
pub fn select_failure_message(label: &str, xpaths: &Vec<String>, last_error: Option<String>) -> (r: String)
    ensures
        r@ == select_failure_spec(label@, strs(xpaths@), crate::text::opt_str(last_error)),
{
    let mut parts: Vec<Vec<char>> = Vec::new();
    let mut i: usize = 0;
    while i < xpaths.len()
        invariant
            i <= xpaths.len(),
            crate::text::views(parts@) == strs(xpaths@).take(i as int),
        decreases xpaths.len() - i,
    {
        parts.push(chars_of(xpaths[i].as_str()));
        assert(strs(xpaths@).take(i + 1) =~= strs(xpaths@).take(i as int).push(xpaths@[i as int]@));
        assert(crate::text::views(parts@) =~= strs(xpaths@).take(i + 1));
        i = i + 1;
    }
    assert(strs(xpaths@).take(xpaths@.len() as int) =~= strs(xpaths@));
    let sep = chars_of(" | ");
    let joined = crate::text::join_chars(&parts, &sep);
    let mut m = string_from("select('");
    push_str(&mut m, label);
    push_str(&mut m, "') failed on mobile after ");
    push_str(&mut m, decimal_string(xpaths.len() as u64).as_str());
    push_str(&mut m, " xpath strategies: [");
    crate::text::push_chars(&mut m, &joined, 0, joined.len());
    assert(joined@.subrange(0, joined@.len() as int) =~= joined@);
    push_str(&mut m, "]. Last error: ");
    match last_error {
        Some(e) => push_str(&mut m, e.as_str()),
        None => push_str(&mut m, "<none>"),
    }
    m
}

/// One scroll of a `scroll_intent` search: a vertical swipe from the middle
/// of the screen, alternately up and down by 300 px, kept within the screen.
#[derive(Debug, Clone, Copy, PartialEq, Eq)]
pub struct SwipePlan {
    pub start_x: i64,
    pub start_y: i64,
    pub end_x: i64,
    pub end_y: i64,
    pub duration_ms: u64,
}

pub open spec fn clamp_spec(v: int, lo: int, hi: int) -> int {
    if v < lo {
        lo
    } else if v > hi {
        hi
    } else {
        v
    }
}

/// The swipe of scroll attempt `attempt`.
pub fn scroll_swipe(attempt: u64) -> (r: SwipePlan)
    ensures
        r.start_x == 540 && r.end_x == 540 && r.start_y == 900 && r.duration_ms == 300,
        r.end_y == clamp_spec(900 + if attempt % 2 == 0 {
            -300int
        } else {
            300int
        }, 100, 1700),
{
    let scroll_y: i64 = if attempt % 2 == 0 {
        -300
    } else {
        300
    };
    let mid_x: i64 = 540;
    let mid_y: i64 = 900;
    let raw = mid_y + scroll_y;
    let end_y = if raw < 100 {
        100
    } else if raw > 1700 {
        1700
    } else {
        raw
    };
    SwipePlan { start_x: mid_x, start_y: mid_y, end_x: mid_x, end_y, duration_ms: 300 }
}

/// `scroll_intent` gives up after its scrolls.
pub fn scroll_failure_message(label: &str, max_scrolls: u64) -> (r: String)
    ensures
        r@ == "scroll_intent("@ + label@ + "): not found after "@ + decimal(max_scrolls as nat)
            + " scroll attempts"@,
{
    let mut m = string_from("scroll_intent(");
    push_str(&mut m, label);
    push_str(&mut m, "): not found after ");
    push_str(&mut m, decimal_string(max_scrolls).as_str());
    push_str(&mut m, " scroll attempts");
    m
}

/// What a polling wait does after a failed attempt.
#[derive(Debug, PartialEq, Eq)]
pub enum WaitStep {
    /// Try again after this many milliseconds.
    PollAgainAfterMs(u64),
    /// Give up with this message.
    GiveUp(String),
}

/// Waiting for an element (by selector) or an intent (by label).
#[derive(Debug, Clone, Copy, PartialEq, Eq)]
pub enum WaitKind {
    Element,
    Intent,
}

pub open spec fn wait_failure_spec(kind: WaitKind, subject: Seq<char>, timeout_ms: u64) -> Seq<char> {
    match kind {
        WaitKind::Element => "wait_for_element("@ + subject + "): timeout after "@ + decimal(
            timeout_ms as nat,
        ) + "ms"@,
        WaitKind::Intent => "wait_for_intent("@ + subject + "): not found after "@ + decimal(
            timeout_ms as nat,
        ) + "ms"@,
    }
}

/// After a failed attempt: give up once more than `timeout_ms` have passed,
/// else poll again (every 50 ms for elements, 200 ms for intents).
pub fn wait_step(kind: WaitKind, subject: &str, timeout_ms: u64, elapsed_ms: u64) -> (r: WaitStep)
    ensures
        elapsed_ms > timeout_ms ==> (r matches WaitStep::GiveUp(m) && m@ == wait_failure_spec(
            kind,
            subject@,
            timeout_ms,
        )),
        elapsed_ms <= timeout_ms ==> r == WaitStep::PollAgainAfterMs(
            match kind {
                WaitKind::Element => 50,
                WaitKind::Intent => 200,
            },
        ),
{
    if elapsed_ms <= timeout_ms {
        return match kind {
            WaitKind::Element => WaitStep::PollAgainAfterMs(50),
            WaitKind::Intent => WaitStep::PollAgainAfterMs(200),
        };
    }
    let mut m = match kind {
        WaitKind::Element => string_from("wait_for_element("),
        WaitKind::Intent => string_from("wait_for_intent("),
    };
    push_str(&mut m, subject);
    match kind {
        WaitKind::Element => push_str(&mut m, "): timeout after "),
        WaitKind::Intent => push_str(&mut m, "): not found after "),
    }
    push_str(&mut m, decimal_string(timeout_ms).as_str());
    push_str(&mut m, "ms");
    WaitStep::GiveUp(m)
}

// ---------------------------------------------------------------------------
// Appium session creation
// ---------------------------------------------------------------------------

/// Where to retry a failed session creation: at the alternate base path,
/// when the failure looks like a base-path mismatch and the alternate URL
/// differs from the one tried.
pub open spec fn retry_url_spec(appium_url: Seq<char>, primary_message: Seq<char>) -> Option<Seq<char>> {
    if base_path_mismatch_spec(primary_message) {
        match alternate_base_url_spec(appium_url) {
            Some(alt) => if alt != appium_url {
                Some(alt)
            } else {
                None
            },
            None => None,
        }
    } else {
        None
    }
}

/// The URL to retry session creation at, if any.
pub fn session_retry_url(appium_url: &str, primary_message: &str) -> (r: Option<String>)
    ensures
        crate::text::opt_str(r) == retry_url_spec(appium_url@, primary_message@),
{
    if !is_appium_base_path_mismatch_error(primary_message) {
        return None;
    }
    match appium_alternate_base_url(appium_url) {
        Some(alt) => {
            if eq_chars(&chars_of(alt.as_str()), &chars_of(appium_url)) {
                None
            } else {
                Some(alt)
            }
        },
        None => None,
    }
}

/// The failure of session creation, with the retry's failure when one was made.
pub fn session_failure_message(
    appium_url: &str,
    primary_message: &str,
    retry: Option<(&str, &str)>,
) -> (r: String)
    ensures
        r@ == match retry {
            Some((alt, secondary)) => "Appium at "@ + appium_url@ + " (retry at "@ + alt@
                + ") failed: primary error: "@ + primary_message@ + "; retry error: "@ + secondary@,
            None => "Appium at "@ + appium_url@ + ": "@ + primary_message@,
        },
{
    let mut m = string_from("Appium at ");
    push_str(&mut m, appium_url);
    match retry {
        Some((alt, secondary)) => {
            push_str(&mut m, " (retry at ");
            push_str(&mut m, alt);
            push_str(&mut m, ") failed: primary error: ");
            push_str(&mut m, primary_message);
            push_str(&mut m, "; retry error: ");
            push_str(&mut m, secondary);
        },
        None => {
            push_str(&mut m, ": ");
            push_str(&mut m, primary_message);
        },
    }
    m
}

/// The argument of Appium's `mobile:startActivity` for `package/activity`,
/// as JSON text (the flags are `0x10200000`).
pub open spec fn start_activity_spec(package: Seq<char>, activity: Seq<char>) -> Seq<char> {
    object_text(
        seq![
            ("action"@, json_string_text("android.intent.action.MAIN"@)),
            ("flags"@, decimal(0x10200000)),
            ("component"@, json_string_text(package + seq!['/'] + activity)),
        ],
    )
}

/// The `mobile:startActivity` argument that launches an Android activity.
pub fn start_activity_command(package: &str, activity: &str) -> (r: String)
    ensures
        r@ == start_activity_spec(package@, activity@),
{
    let mut component = string_from(package);
    crate::text::push_char(&mut component, '/');
    push_str(&mut component, activity);
    let mut m: Vec<(String, String)> = Vec::new();
    m.push((string_from("action"), json_string("android.intent.action.MAIN")));
    m.push((string_from("flags"), decimal_string(0x10200000)));
    m.push((string_from("component"), json_string(component.as_str())));
    assert(component@ =~= package@ + seq!['/'] + activity@);
    assert(entries_view(m@)[0] == ("action"@, json_string_text("android.intent.action.MAIN"@)));
    assert(entries_view(m@)[1] == ("flags"@, decimal(0x10200000)));
    assert(entries_view(m@)[2] == ("component"@, json_string_text(package@ + seq!['/'] + activity@)));
    assert(entries_view(m@) =~= seq![
        ("action"@, json_string_text("android.intent.action.MAIN"@)),
        ("flags"@, decimal(0x10200000)),
        ("component"@, json_string_text(package@ + seq!['/'] + activity@)),
    ]);
    json_object(&m)
}

} // verus!
