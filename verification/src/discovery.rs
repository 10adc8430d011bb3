//! Discovery of the test cases of a UTO project from its test sources.
//!
//! A test case is a function preceded by `#[test]`, `#[tokio::test]` or a
//! `#[uto_test(...)]` attribute.  The `uto_test` attribute may name a target
//! (`target = "web"`), tags (`tags = ["a", "b"]` or `tags("a")`) and a timeout
//! (`timeout_ms = 500`), and may span several lines.  Without an explicit
//! target, a `web_` or `mobile_` name prefix decides it.
use vstd::prelude::*;

use crate::text::{
    chars_of, contains_str, contains_text, find_str, find_text, is_ascii_alnum, is_ascii_alnum_char,
    is_digit, is_digit_char, parse_unsigned, parse_unsigned_exec, push_str, slice_chars, split_on,
    split_on_exec, string_from, string_of, string_of_range, strs, trim, trim_bounds, views,
};

verus! {

// ---------------------------------------------------------------------------
// Report excerpts
// ---------------------------------------------------------------------------

/// At most `max_chars` characters of `s`, with a truncation marker when cut.
pub open spec fn truncate_spec(s: Seq<char>, max_chars: nat) -> Seq<char> {
    if s.len() <= max_chars {
        s
    } else {
        s.take(max_chars as int) + "\n...<truncated>..."@
    }
}

pub fn truncate_for_report(input: &str, max_chars: usize) -> (r: String)
    ensures
        r@ == truncate_spec(input@, max_chars as nat),
{
    let v = chars_of(input);
    if v.len() <= max_chars {
        return string_from(input);
    }
    let mut out = string_of_range(&v, 0, max_chars);
    push_str(&mut out, "\n...<truncated>...");
    out
}

// ---------------------------------------------------------------------------
// Function names and targets
// ---------------------------------------------------------------------------

/// Length of the leading run of identifier characters (ASCII alphanumerics and `_`).
pub open spec fn ident_len(s: Seq<char>) -> nat
    decreases s.len(),
{
    if s.len() > 0 && (is_ascii_alnum(s[0]) || s[0] == '_') {
        1 + ident_len(s.drop_first())
    } else {
        0
    }
}

pub proof fn lemma_ident_len_exact(s: Seq<char>, m: int)
    requires
        0 <= m <= s.len(),
        forall|i: int| 0 <= i < m ==> (is_ascii_alnum(#[trigger] s[i]) || s[i] == '_'),
        m == s.len() || !(is_ascii_alnum(s[m]) || s[m] == '_'),
    ensures
        ident_len(s) == m,
    decreases m,
{
    if m > 0 {
        let t = s.drop_first();
        assert forall|i: int| 0 <= i < m - 1 implies (is_ascii_alnum(#[trigger] t[i]) || t[i] == '_') by {
            assert(t[i] == s[i + 1]);
        }
        if m < s.len() {
            assert(t[m - 1] == s[m]);
        }
        lemma_ident_len_exact(t, m - 1);
    }
}

/// The first of the function-declaration prefixes that the line starts with.
pub open spec fn fn_prefix(line: Seq<char>) -> Option<Seq<char>> {
    if "pub async fn "@.is_prefix_of(line) {
        Some("pub async fn "@)
    } else if "async fn "@.is_prefix_of(line) {
        Some("async fn "@)
    } else if "pub fn "@.is_prefix_of(line) {
        Some("pub fn "@)
    } else if "fn "@.is_prefix_of(line) {
        Some("fn "@)
    } else {
        None
    }
}

/// The name declared by a line that starts a function, if it has one.
pub open spec fn fn_name_spec(line: Seq<char>) -> Option<Seq<char>> {
    match fn_prefix(line) {
        None => None,
        Some(p) => {
            let rest = line.skip(p.len() as int);
            let k = ident_len(rest);
            if k == 0 {
                None
            } else {
                Some(rest.take(k as int))
            }
        },
    }
}

fn name_after_prefix(v: &Vec<char>, start: usize) -> (r: Option<Vec<char>>)
    requires
        start <= v.len(),
    ensures
        match r {
            None => ident_len(v@.skip(start as int)) == 0,
            Some(n) => ident_len(v@.skip(start as int)) > 0 && n@ == v@.skip(start as int).take(
                ident_len(v@.skip(start as int)) as int,
            ),
        },
{
    let mut k = start;
    while k < v.len() && (is_ascii_alnum_char(v[k]) || v[k] == '_')
        invariant
            start <= k <= v.len(),
            forall|i: int| start <= i < k ==> (is_ascii_alnum(#[trigger] v@[i]) || v@[i] == '_'),
        decreases v.len() - k,
    {
        k = k + 1;
    }
    proof {
        let rest = v@.skip(start as int);
        assert forall|i: int| 0 <= i < k - start implies (is_ascii_alnum(#[trigger] rest[i])
            || rest[i] == '_') by {
            assert(rest[i] == v@[i + start]);
        }
        if k < v.len() {
            assert(rest[k - start] == v@[k as int]);
        }
        lemma_ident_len_exact(rest, k - start);
        assert(rest.take(k - start) =~= v@.subrange(start as int, k as int));
    }
    if k == start {
        None
    } else {
        Some(slice_chars(v, start, k))
    }
}

fn fn_name_chars(v: &Vec<char>) -> (r: Option<Vec<char>>)
    ensures
        match r {
            None => fn_name_spec(v@) is None,
            Some(n) => fn_name_spec(v@) == Some(n@),
        },
{
    let start: usize = if crate::text::starts_with_str(v, "pub async fn ") {
        13
    } else if crate::text::starts_with_str(v, "async fn ") {
        9
    } else if crate::text::starts_with_str(v, "pub fn ") {
        7
    } else if crate::text::starts_with_str(v, "fn ") {
        3
    } else {
        return None;
    };
    proof {
        reveal_strlit("pub async fn ");
        reveal_strlit("async fn ");
        reveal_strlit("pub fn ");
        reveal_strlit("fn ");
    }
    name_after_prefix(v, start)
}

/// The function name declared by `line`, when it starts with `fn`, `pub fn`,
/// `async fn` or `pub async fn` followed by an identifier.
pub fn extract_fn_name(line: &str) -> (r: Option<String>)
    ensures
        match r {
            None => fn_name_spec(line@) is None,
            Some(n) => fn_name_spec(line@) == Some(n@),
        },
{
    let v = chars_of(line);
    match fn_name_chars(&v) {
        None => None,
        Some(n) => Some(string_of(&n)),
    }
}

/// `web_...` names target web and `mobile_...` names target mobile.
pub open spec fn target_from_name_spec(name: Seq<char>) -> Option<Seq<char>> {
    if "web_"@.is_prefix_of(name) {
        Some("web"@)
    } else if "mobile_"@.is_prefix_of(name) {
        Some("mobile"@)
    } else {
        None
    }
}

pub fn infer_target_from_name(name: &str) -> (r: Option<String>)
    ensures
        opt_view(r) == target_from_name_spec(name@),
{
    let v = chars_of(name);
    if crate::text::starts_with_str(&v, "web_") {
        return Some(string_from("web"));
    }
    if crate::text::starts_with_str(&v, "mobile_") {
        return Some(string_from("mobile"));
    }
    None
}

pub open spec fn opt_view(o: Option<String>) -> Option<Seq<char>> {
    match o {
        Some(s) => Some(s@),
        None => None,
    }
}

// ---------------------------------------------------------------------------
// #[uto_test(...)] attributes
// ---------------------------------------------------------------------------

/// The target named by a `uto_test` attribute line.
pub open spec fn attr_target_spec(line: Seq<char>) -> Option<Seq<char>> {
    if !contains_text(line, "uto_test"@) {
        None
    } else if contains_text(line, "target"@) && contains_text(line, "\"web\""@) {
        Some("web"@)
    } else if contains_text(line, "target"@) && contains_text(line, "\"mobile\""@) {
        Some("mobile"@)
    } else {
        None
    }
}

fn attr_target_chars(v: &Vec<char>) -> (r: Option<String>)
    ensures
        opt_view(r) == attr_target_spec(v@),
{
    if !contains_str(v, "uto_test") {
        return None;
    }
    let has_target = contains_str(v, "target");
    if has_target && contains_str(v, "\"web\"") {
        return Some(string_from("web"));
    }
    if has_target && contains_str(v, "\"mobile\"") {
        return Some(string_from("mobile"));
    }
    None
}

pub fn parse_uto_target_attribute(line: &str) -> (r: Option<String>)
    ensures
        opt_view(r) == attr_target_spec(line@),
{
    let v = chars_of(line);
    attr_target_chars(&v)
}

/// Number of leading ASCII digits.
pub open spec fn digit_run(s: Seq<char>) -> nat
    decreases s.len(),
{
    if s.len() > 0 && is_digit(s[0]) {
        1 + digit_run(s.drop_first())
    } else {
        0
    }
}

pub proof fn lemma_digit_run_exact(s: Seq<char>, m: int)
    requires
        0 <= m <= s.len(),
        forall|i: int| 0 <= i < m ==> is_digit(#[trigger] s[i]),
        m == s.len() || !is_digit(s[m]),
    ensures
        digit_run(s) == m,
    decreases m,
{
    if m > 0 {
        let t = s.drop_first();
        assert forall|i: int| 0 <= i < m - 1 implies is_digit(#[trigger] t[i]) by {
            assert(t[i] == s[i + 1]);
        }
        if m < s.len() {
            assert(t[m - 1] == s[m]);
        }
        lemma_digit_run_exact(t, m - 1);
    }
}

/// The number after `key` and the following `=`: the leading digits once the
/// text after `=` is trimmed, if there are any and they fit in a `u64`.
pub open spec fn timeout_for_key(line: Seq<char>, key: Seq<char>) -> Option<nat> {
    match find_text(line, key) {
        None => None,
        Some(index) => {
            let fragment = line.skip(index + key.len());
            match find_text(fragment, "="@) {
                None => None,
                Some(eq) => {
                    let rest = trim(fragment.skip(eq + 1));
                    let value = rest.take(digit_run(rest) as int);
                    if value.len() == 0 {
                        None
                    } else {
                        parse_unsigned(value, u64::MAX as nat)
                    }
                },
            }
        },
    }
}

/// `timeout_ms = N` is looked up first, then `timeout = N`.
pub open spec fn attr_timeout_spec(line: Seq<char>) -> Option<nat> {
    match timeout_for_key(line, "timeout_ms"@) {
        Some(t) => Some(t),
        None => timeout_for_key(line, "timeout"@),
    }
}

fn timeout_for_key_exec(v: &Vec<char>, key: &str) -> (r: Option<u64>)
    ensures
        match r {
            Some(t) => timeout_for_key(v@, key@) == Some(t as nat),
            None => timeout_for_key(v@, key@) is None,
        },
{
    let index = match find_str(v, key) {
        None => return None,
        Some(i) => i,
    };
    let k = chars_of(key);
    proof {
        crate::text::lemma_find_text(v@, key@);
        assert(crate::text::occurs_at(v@, key@, index as int));
        assert(index + key@.len() <= v@.len());
        assert(k@.len() == key@.len());
    }
    let klen = k.len();
    assert(klen == key@.len());
    assert(index + klen <= v.len());
    let fragment = slice_chars(v, index + klen, v.len());
    assert(fragment@ =~= v@.skip(index + key@.len()));
    let eq = match find_str(&fragment, "=") {
        None => return None,
        Some(e) => e,
    };
    proof {
        crate::text::lemma_find_text(fragment@, "="@);
        assert(crate::text::occurs_at(fragment@, "="@, eq as int));
        reveal_strlit("=");
    }
    let after = slice_chars(&fragment, eq + 1, fragment.len());
    assert(after@ =~= fragment@.skip(eq + 1));
    let (lo, hi) = trim_bounds(&after);
    let mut j = lo;
    while j < hi && is_digit_char(after[j])
        invariant
            lo <= j <= hi <= after.len(),
            forall|i: int| lo <= i < j ==> is_digit(#[trigger] after@[i]),
        decreases hi - j,
    {
        j = j + 1;
    }
    let ghost rest = after@.subrange(lo as int, hi as int);
    proof {
        assert forall|i: int| 0 <= i < j - lo implies is_digit(#[trigger] rest[i]) by {
            assert(rest[i] == after@[i + lo]);
        }
        if j < hi {
            assert(rest[j - lo] == after@[j as int]);
        }
        lemma_digit_run_exact(rest, j - lo);
        assert(rest.take(j - lo) =~= after@.subrange(lo as int, j as int));
    }
    if j == lo {
        return None;
    }
    parse_unsigned_exec(&after, lo, j, u64::MAX)
}

pub fn parse_uto_timeout_attribute(line: &str) -> (r: Option<u64>)
    ensures
        match r {
            Some(t) => attr_timeout_spec(line@) == Some(t as nat),
            None => attr_timeout_spec(line@) is None,
        },
{
    let v = chars_of(line);
    match timeout_for_key_exec(&v, "timeout_ms") {
        Some(t) => Some(t),
        None => timeout_for_key_exec(&v, "timeout"),
    }
}

/// The non-empty texts enclosed by pairs of double quotes: between the first and
/// second quote, the third and fourth, and so on; an unclosed quote is ignored.
pub open spec fn closed_quoted(parts: Seq<Seq<char>>) -> Seq<Seq<char>>
    decreases parts.len(),
{
    if parts.len() < 3 {
        seq![]
    } else {
        (if parts[1].len() > 0 {
            seq![parts[1]]
        } else {
            seq![]
        }) + closed_quoted(parts.skip(2))
    }
}

pub open spec fn quoted_list_spec(fragment: Seq<char>) -> Seq<Seq<char>> {
    closed_quoted(split_on(fragment, '"'))
}

fn quoted_list_chars(v: &Vec<char>) -> (out: Vec<String>)
    ensures
        strs(out@) == quoted_list_spec(v@),
{
    let parts = split_on_exec(v, '"');
    let ghost ps = views(parts@);
    let mut out: Vec<String> = Vec::new();
    let mut k: usize = 0;
    assert(ps.skip(0) =~= ps);
    while parts.len() >= 3 && k < parts.len() - 2
        invariant
            k <= parts.len(),
            ps == views(parts@),
            closed_quoted(ps) == strs(out@) + closed_quoted(ps.skip(k as int)),
        decreases parts.len() - k,
    {
        let ghost rest = ps.skip(k as int);
        let ghost before = strs(out@);
        assert(rest[1] == parts@[k + 1]@);
        assert(rest.skip(2) =~= ps.skip(k + 2));
        if parts[k + 1].len() > 0 {
            let s = string_of(&parts[k + 1]);
            out.push(s);
            assert(strs(out@) =~= before.push(rest[1]));
            assert(before + (seq![rest[1]] + closed_quoted(rest.skip(2))) =~= strs(out@)
                + closed_quoted(rest.skip(2)));
        } else {
            assert(before + (seq![] + closed_quoted(rest.skip(2))) =~= before + closed_quoted(
                rest.skip(2),
            ));
        }
        k = k + 2;
    }
    assert(closed_quoted(ps.skip(k as int)) =~= seq![]);
    assert(strs(out@) + seq![] =~= strs(out@));
    out
}

pub fn parse_quoted_list(fragment: &str) -> (out: Vec<String>)
    ensures
        strs(out@) == quoted_list_spec(fragment@),
{
    let v = chars_of(fragment);
    quoted_list_chars(&v)
}

/// The quoted list inside `open ... close` after the first `open`, if it is closed.
pub open spec fn delimited_list(line: Seq<char>, open: Seq<char>, close: Seq<char>) -> Option<
    Seq<Seq<char>>,
> {
    match find_text(line, open) {
        None => None,
        Some(start) => {
            let rest = line.skip(start + open.len());
            match find_text(rest, close) {
                None => None,
                Some(end) => Some(quoted_list_spec(rest.take(end))),
            }
        },
    }
}

/// Tags from `tags = ["a", "b"]`, else from `tags("a", "b")`, else none.
pub open spec fn attr_tags_spec(line: Seq<char>) -> Seq<Seq<char>> {
    match delimited_list(line, "tags = ["@, "]"@) {
        Some(tags) => tags,
        None => match delimited_list(line, "tags("@, ")"@) {
            Some(tags) => tags,
            None => seq![],
        },
    }
}

fn delimited_list_exec(v: &Vec<char>, open: &str, close: &str) -> (r: Option<Vec<String>>)
    ensures
        match r {
            None => delimited_list(v@, open@, close@) is None,
            Some(tags) => delimited_list(v@, open@, close@) == Some(strs(tags@)),
        },
{
    let start = match find_str(v, open) {
        None => return None,
        Some(i) => i,
    };
    let o = chars_of(open);
    proof {
        crate::text::lemma_find_text(v@, open@);
        assert(crate::text::occurs_at(v@, open@, start as int));
    }
    let olen = o.len();
    assert(start + olen <= v.len());
    let rest = slice_chars(v, start + olen, v.len());
    assert(rest@ =~= v@.skip(start + open@.len()));
    let end = match find_str(&rest, close) {
        None => return None,
        Some(e) => e,
    };
    proof {
        crate::text::lemma_find_text(rest@, close@);
        assert(crate::text::occurs_at(rest@, close@, end as int));
    }
    let inner = slice_chars(&rest, 0, end);
    assert(inner@ =~= rest@.take(end as int));
    Some(quoted_list_chars(&inner))
}

fn tags_chars(v: &Vec<char>) -> (out: Vec<String>)
    ensures
        strs(out@) == attr_tags_spec(v@),
{
    match delimited_list_exec(v, "tags = [", "]") {
        Some(tags) => tags,
        None => match delimited_list_exec(v, "tags(", ")") {
            Some(tags) => tags,
            None => {
                let out: Vec<String> = Vec::new();
                assert(strs(out@) =~= seq![]);
                out
            },
        },
    }
}

pub fn parse_uto_tags_attribute(line: &str) -> (out: Vec<String>)
    ensures
        strs(out@) == attr_tags_spec(line@),
{
    let v = chars_of(line);
    tags_chars(&v)
}

/// What a `uto_test` attribute says about the test that follows it.
#[derive(Debug)]
pub struct ParsedUtoAttributes {
    pub target: Option<String>,
    pub tags: Vec<String>,
    pub timeout_ms: Option<u64>,
}

#[verifier::ext_equal]
pub ghost struct AttrsModel {
    pub target: Option<Seq<char>>,
    pub tags: Seq<Seq<char>>,
    pub timeout_ms: Option<nat>,
}

impl View for ParsedUtoAttributes {
    type V = AttrsModel;

    open spec fn view(&self) -> AttrsModel {
        AttrsModel {
            target: opt_view(self.target),
            tags: strs(self.tags@),
            timeout_ms: match self.timeout_ms {
                Some(t) => Some(t as nat),
                None => None,
            },
        }
    }
}

pub open spec fn no_attrs() -> AttrsModel {
    AttrsModel { target: None, tags: seq![], timeout_ms: None }
}

pub open spec fn attrs_spec(text: Seq<char>) -> AttrsModel {
    AttrsModel {
        target: attr_target_spec(text),
        tags: attr_tags_spec(text),
        timeout_ms: attr_timeout_spec(text),
    }
}

fn attrs_chars(v: &Vec<char>) -> (r: ParsedUtoAttributes)
    ensures
        r@ == attrs_spec(v@),
{
    let target = attr_target_chars(v);
    let tags = tags_chars(v);
    let timeout_ms = match timeout_for_key_exec(v, "timeout_ms") {
        Some(t) => Some(t),
        None => timeout_for_key_exec(v, "timeout"),
    };
    ParsedUtoAttributes { target, tags, timeout_ms }
}

pub fn parse_uto_attributes(attr_text: &str) -> (r: ParsedUtoAttributes)
    ensures
        r@ == attrs_spec(attr_text@),
{
    let v = chars_of(attr_text);
    attrs_chars(&v)
}

// ---------------------------------------------------------------------------
// Framework versions
// ---------------------------------------------------------------------------

/// `<major>.<minor>`, both `u32`, and nothing more.
pub open spec fn framework_version_spec(version: Seq<char>) -> Option<(u32, u32)> {
    let parts = split_on(version, '.');
    if parts.len() != 2 {
        None
    } else {
        match (parse_unsigned(parts[0], u32::MAX as nat), parse_unsigned(parts[1], u32::MAX as nat)) {
            (Some(major), Some(minor)) => Some((major as u32, minor as u32)),
            _ => None,
        }
    }
}

pub fn parse_framework_version(version: &str) -> (r: Option<(u32, u32)>)
    ensures
        r == framework_version_spec(version@),
{
    let v = chars_of(version);
    let parts = split_on_exec(&v, '.');
    if parts.len() != 2 {
        return None;
    }
    let major = parse_unsigned_exec(&parts[0], 0, parts[0].len(), u32::MAX as u64);
    let minor = parse_unsigned_exec(&parts[1], 0, parts[1].len(), u32::MAX as u64);
    assert(parts@[0]@.subrange(0, parts@[0]@.len() as int) =~= parts@[0]@);
    assert(parts@[1]@.subrange(0, parts@[1]@.len() as int) =~= parts@[1]@);
    assert(views(parts@)[0] == parts@[0]@);
    assert(views(parts@)[1] == parts@[1]@);
    match (major, minor) {
        (Some(a), Some(b)) => Some((a as u32, b as u32)),
        _ => None,
    }
}

// ---------------------------------------------------------------------------
// Test discovery
// ---------------------------------------------------------------------------

/// A test case found in a project's test sources.
#[derive(Debug)]
pub struct DiscoveredTestCase {
    /// The test binary: the file stem of the source file.
    pub test_bin: String,
    pub test_name: String,
    pub target: Option<String>,
    pub tags: Vec<String>,
    pub timeout_ms: Option<u64>,
}

#[verifier::ext_equal]
pub ghost struct CaseModel {
    pub test_bin: Seq<char>,
    pub test_name: Seq<char>,
    pub target: Option<Seq<char>>,
    pub tags: Seq<Seq<char>>,
    pub timeout_ms: Option<nat>,
}

impl View for DiscoveredTestCase {
    type V = CaseModel;

    open spec fn view(&self) -> CaseModel {
        CaseModel {
            test_bin: self.test_bin@,
            test_name: self.test_name@,
            target: opt_view(self.target),
            tags: strs(self.tags@),
            timeout_ms: match self.timeout_ms {
                Some(t) => Some(t as nat),
                None => None,
            },
        }
    }
}

pub open spec fn cases_view(cases: Seq<DiscoveredTestCase>) -> Seq<CaseModel> {
    cases.map_values(|c: DiscoveredTestCase| c@)
}

/// What the scan over the source lines remembers between lines.
#[verifier::ext_equal]
pub ghost struct ScanState {
    /// A `#[test]` or `#[tokio::test]` attribute is waiting for its function.
    pub test_attr: bool,
    /// A `#[uto_test]` attribute is waiting for its function.
    pub uto_attr: bool,
    /// The text of a `#[uto_test(` attribute whose `]` has not been seen yet.
    pub attr_text: Option<Seq<char>>,
    /// What the last complete `uto_test` attribute said.
    pub attrs: AttrsModel,
    /// The test cases found so far.
    pub found: Seq<CaseModel>,
}

pub open spec fn start_scan() -> ScanState {
    ScanState { test_attr: false, uto_attr: false, attr_text: None, attrs: no_attrs(), found: seq![] }
}

/// One source line's effect on the scan.
pub open spec fn scan_line(bin: Seq<char>, st: ScanState, line: Seq<char>) -> ScanState {
    let t = trim(line);
    match st.attr_text {
        Some(cur) => {
            let text = cur + " "@ + t;
            if contains_text(t, "]"@) {
                ScanState { attrs: attrs_spec(text), attr_text: None, ..st }
            } else {
                ScanState { attr_text: Some(text), ..st }
            }
        },
        None => if "#["@.is_prefix_of(t) {
            let st1 = if contains_text(t, "tokio::test"@) || "#[test"@.is_prefix_of(t) {
                ScanState { test_attr: true, ..st }
            } else {
                st
            };
            if contains_text(t, "uto_test"@) {
                if contains_text(t, "]"@) {
                    ScanState { uto_attr: true, attrs: attrs_spec(t), ..st1 }
                } else {
                    ScanState { uto_attr: true, attr_text: Some(t), ..st1 }
                }
            } else {
                st1
            }
        } else {
            match fn_name_spec(t) {
                Some(name) => {
                    let found = if st.test_attr || st.uto_attr {
                        st.found.push(
                            CaseModel {
                                test_bin: bin,
                                test_name: name,
                                target: match st.attrs.target {
                                    Some(x) => Some(x),
                                    None => target_from_name_spec(name),
                                },
                                tags: st.attrs.tags,
                                timeout_ms: st.attrs.timeout_ms,
                            },
                        )
                    } else {
                        st.found
                    };
                    ScanState {
                        test_attr: false,
                        uto_attr: false,
                        attr_text: None,
                        attrs: no_attrs(),
                        found,
                    }
                },
                None => if t.len() > 0 && !"//"@.is_prefix_of(t) {
                    ScanState { test_attr: false, ..st }
                } else {
                    st
                },
            }
        },
    }
}

pub open spec fn scan_lines(bin: Seq<char>, ls: Seq<Seq<char>>, i: int, st: ScanState) -> ScanState
    decreases ls.len() - i,
{
    if i < 0 || i >= ls.len() {
        st
    } else {
        scan_lines(bin, ls, i + 1, scan_line(bin, st, ls[i]))
    }
}

/// The test cases of one test source file, in source order.
pub open spec fn tests_in_source(bin: Seq<char>, source: Seq<char>) -> Seq<CaseModel> {
    scan_lines(bin, crate::text::lines(source), 0, start_scan()).found
}

pub open spec fn opt_chars(o: Option<Vec<char>>) -> Option<Seq<char>> {
    match o {
        Some(v) => Some(v@),
        None => None,
    }
}

fn empty_attrs() -> (r: ParsedUtoAttributes)
    ensures
        r@ == no_attrs(),
{
    let tags: Vec<String> = Vec::new();
    let r = ParsedUtoAttributes { target: None, tags, timeout_ms: None };
    assert(r@.tags =~= seq![]);
    r
}

fn copy_opt(o: &Option<String>) -> (r: Option<String>)
    ensures
        opt_view(r) == opt_view(*o),
{
    match o {
        Some(s) => Some(s.clone()),
        None => None,
    }
}

/// The scan state the loop's variables stand for.
spec fn current_state(
    test_attr: bool,
    uto_attr: bool,
    attr_text: &Option<Vec<char>>,
    attrs: &ParsedUtoAttributes,
    out: &Vec<DiscoveredTestCase>,
) -> ScanState {
    ScanState {
        test_attr,
        uto_attr,
        attr_text: opt_chars(*attr_text),
        attrs: attrs@,
        found: cases_view(out@),
    }
}

/// The test cases declared in one test source file, in source order.
pub fn parse_tests_from_source(test_bin: &str, source: &str) -> (out: Vec<DiscoveredTestCase>)
    ensures
        cases_view(out@) == tests_in_source(test_bin@, source@),
{
    let src = chars_of(source);
    let ls = crate::text::split_lines(&src);
    let ghost lsv = views(ls@);
    let mut out: Vec<DiscoveredTestCase> = Vec::new();
    let mut test_attr = false;
    let mut uto_attr = false;
    let mut attr_text: Option<Vec<char>> = None;
    let mut attrs = empty_attrs();
    let mut i: usize = 0;
    assert(cases_view(out@) =~= seq![]);
    while i < ls.len()
        invariant
            i <= ls.len(),
            lsv == views(ls@),
            lsv == crate::text::lines(source@),
            scan_lines(test_bin@, lsv, 0, start_scan()) == scan_lines(
                test_bin@,
                lsv,
                i as int,
                ScanState {
                    test_attr,
                    uto_attr,
                    attr_text: opt_chars(attr_text),
                    attrs: attrs@,
                    found: cases_view(out@),
                },
            ),
        decreases ls.len() - i,
    {
        let line = &ls[i];
        assert(line@ == lsv[i as int]);
        let (lo, hi) = trim_bounds(line);
        let t = slice_chars(line, lo, hi);
        let ghost st = ScanState {
            test_attr,
            uto_attr,
            attr_text: opt_chars(attr_text),
            attrs: attrs@,
            found: cases_view(out@),
        };
        let ghost next = scan_line(test_bin@, st, line@);
        proof {
            reveal_strlit(" ");
        }
        assert(t@ == trim(line@));
        if attr_text.is_some() {
            let mut cur = attr_text.unwrap();
            let ghost c0 = cur@;
            assert(st.attr_text == Some(c0));
            cur.push(' ');
            crate::text::extend_chars(&mut cur, &t);
            assert(cur@ =~= c0 + " "@ + t@);
            if contains_str(&t, "]") {
                attrs = attrs_chars(&cur);
                attr_text = None;
            } else {
                attr_text = Some(cur);
            }
            assert(current_state(test_attr, uto_attr, &attr_text, &attrs, &out) == next);
        } else if crate::text::starts_with_str(&t, "#[") {
            if contains_str(&t, "tokio::test") || crate::text::starts_with_str(&t, "#[test") {
                test_attr = true;
            }
            if contains_str(&t, "uto_test") {
                uto_attr = true;
                if contains_str(&t, "]") {
                    attrs = attrs_chars(&t);
                } else {
                    attr_text = Some(t);
                }
            }
            assert(current_state(test_attr, uto_attr, &attr_text, &attrs, &out) == next);
        } else {
            match fn_name_chars(&t) {
                Some(name) => {
                    if test_attr || uto_attr {
                        let target = match &attrs.target {
                            Some(x) => Some(x.clone()),
                            None => {
                                let nm = string_of(&name);
                                infer_target_from_name(nm.as_str())
                            },
                        };
                        let case = DiscoveredTestCase {
                            test_bin: string_from(test_bin),
                            test_name: string_of(&name),
                            target,
                            tags: crate::text::clone_strings(&attrs.tags),
                            timeout_ms: attrs.timeout_ms,
                        };
                        let ghost before = cases_view(out@);
                        out.push(case);
                        assert(cases_view(out@) =~= before.push(case@));
                    }
                    test_attr = false;
                    uto_attr = false;
                    attr_text = None;
                    attrs = empty_attrs();
                    assert(current_state(test_attr, uto_attr, &attr_text, &attrs, &out) == next);
                },
                None => {
                    let blank = t.len() == 0;
                    if !blank && !crate::text::starts_with_str(&t, "//") {
                        test_attr = false;
                    }
                    assert(current_state(test_attr, uto_attr, &attr_text, &attrs, &out) == next);
                },
            }
        }
        i = i + 1;
    }
    out
}

/// Whether a case runs for `target`: cases without a target run everywhere.
pub open spec fn runs_on(c: CaseModel, target: Seq<char>) -> bool {
    match c.target {
        Some(t) => t == target,
        None => true,
    }
}

/// The cases that run for `target`, in their original order.
pub open spec fn selected_for(cases: Seq<CaseModel>, target: Seq<char>) -> Seq<CaseModel> {
    cases.filter(|c: CaseModel| runs_on(c, target))
}

/// Law: among discovered cases, the selection for `target` keeps exactly the
/// cases that declare `target` and those that declare no target (a case
/// without a target runs on every target), and nothing else.
pub proof fn lemma_selection_by_target(cases: Seq<CaseModel>, target: Seq<char>)
    ensures
        forall|c: CaseModel|
            cases.contains(c) ==> (#[trigger] selected_for(cases, target).contains(c) <==> (
            c.target is None || c.target == Some(target))),
        forall|c: CaseModel| #[trigger] selected_for(cases, target).contains(c) ==> cases.contains(c),
        forall|i: int|
            0 <= i < cases.len() && (#[trigger] cases[i]).target is None ==> selected_for(
                cases,
                target,
            ).contains(cases[i]),
{
    let p = |c: CaseModel| runs_on(c, target);
    let f = selected_for(cases, target);
    assert(f == cases.filter(p));
    assert forall|c: CaseModel| cases.contains(c) implies (#[trigger] f.contains(c) <==> (c.target is None
        || c.target == Some(target))) by {
        let i = choose|i: int| 0 <= i < cases.len() && cases[i] == c;
        if c.target is None || c.target == Some(target) {
            cases.lemma_filter_contains(p, i);
        }
        if f.contains(c) {
            let j = choose|j: int| 0 <= j < f.len() && f[j] == c;
            cases.lemma_filter_pred(p, j);
        }
    }
    assert forall|c: CaseModel| #[trigger] f.contains(c) implies cases.contains(c) by {
        cases.lemma_filter_contains_rev(p, c);
    }
    assert forall|i: int| 0 <= i < cases.len() && (#[trigger] cases[i]).target is None implies f.contains(
        cases[i],
    ) by {
        cases.lemma_filter_contains(p, i);
    }
}

fn clone_case(c: &DiscoveredTestCase) -> (r: DiscoveredTestCase)
    ensures
        r@ == c@,
{
    DiscoveredTestCase {
        test_bin: c.test_bin.clone(),
        test_name: c.test_name.clone(),
        target: copy_opt(&c.target),
        tags: crate::text::clone_strings(&c.tags),
        timeout_ms: c.timeout_ms,
    }
}

/// The cases that run for `target`, in their original order.
pub fn select_tests_for_target(cases: Vec<DiscoveredTestCase>, target: &str) -> (out: Vec<
    DiscoveredTestCase,
>)
    ensures
        cases_view(out@) == cases_view(cases@).filter(|c: CaseModel| runs_on(c, target@)),
        cases_view(out@) == selected_for(cases_view(cases@), target@),
{
    let ghost pred = |c: CaseModel| runs_on(c, target@);
    let tv = chars_of(target);
    let mut out: Vec<DiscoveredTestCase> = Vec::new();
    let mut i: usize = 0;
    assert(cases_view(cases@).take(0).filter(pred) =~= seq![]);
    assert(cases_view(out@) =~= seq![]);
    while i < cases.len()
        invariant
            i <= cases.len(),
            tv@ == target@,
            pred == (|c: CaseModel| runs_on(c, target@)),
            cases_view(out@) == cases_view(cases@).take(i as int).filter(pred),
        decreases cases.len() - i,
    {
        let c = &cases[i];
        let keep = match &c.target {
            Some(t) => {
                let tc = chars_of(t.as_str());
                crate::text::eq_chars(&tc, &tv)
            },
            None => true,
        };
        let ghost before = cases_view(out@);
        proof {
            let s = cases_view(cases@).take(i + 1);
            assert(s.drop_last() =~= cases_view(cases@).take(i as int));
            assert(s.last() == c@);
            reveal(Seq::filter);
            assert(keep == pred(c@));
        }
        if keep {
            out.push(clone_case(c));
            assert(cases_view(out@) =~= before.push(c@));
        }
        i = i + 1;
    }
    assert(cases_view(cases@).take(cases@.len() as int) =~= cases_view(cases@));
    out
}

} // verus!
