//! XPath strategies for resolving a human label to a mobile UI element.
//!
//! A label is matched, in order of preference, exactly against each
//! accessibility attribute, then case- and space-insensitively, then by
//! containment, then by case-insensitive containment.
use vstd::prelude::*;

use crate::text::{
    is_upper, lemma_token_len, lemma_trim_start_len, token_len, trim_start,
    chars_of, extend_chars, extend_str, join, join_chars, lemma_split_on_join, lower_chars,
    lower_seq, split_on, split_on_exec, split_words, string_of, trim, trim_bounds, slice_chars,
    views, words,
};

verus! {

/// A double-quoted XPath string literal around `s`.
pub open spec fn dq_literal(s: Seq<char>) -> Seq<char> {
    seq!['"'] + s + seq!['"']
}

/// The separator that re-inserts a double quote between `concat` pieces.
pub open spec fn concat_sep() -> Seq<char> {
    ", '\"', "@
}

/// An XPath expression that denotes exactly the string `v`: a double-quoted
/// literal when `v` holds no `"`, a single-quoted one when it holds no `'`,
/// and otherwise a `concat(...)` of the `"`-free pieces with `'"'` between them.
pub open spec fn xpath_literal_spec(v: Seq<char>) -> Seq<char> {
    if !v.contains('"') {
        dq_literal(v)
    } else if !v.contains('\'') {
        seq!['\''] + v + seq!['\'']
    } else {
        "concat("@ + join(split_on(v, '"').map_values(|p: Seq<char>| dq_literal(p)), concat_sep())
            + ")"@
    }
}

/// The label as matched case-insensitively: ASCII lower case, runs of
/// whitespace collapsed to one space, no leading or trailing whitespace.
pub open spec fn normalize_label_spec(v: Seq<char>) -> Seq<char> {
    join(words(lower_seq(v)), seq![' '])
}

/// The accessibility attributes searched on both platforms: Android's
/// text/content-desc/hint/resource-id and iOS's label/name/value.
pub open spec fn accessibility_attrs() -> Seq<Seq<char>> {
    seq!["text"@, "label"@, "name"@, "value"@, "content-desc"@, "hint"@, "resource-id"@]
}

/// The attribute's value, whitespace-normalised and lower-cased, as an XPath expression.
pub open spec fn lower_attr_spec(attr: Seq<char>) -> Seq<char> {
    "translate(normalize-space(@"@ + attr
        + "), 'ABCDEFGHIJKLMNOPQRSTUVWXYZ', 'abcdefghijklmnopqrstuvwxyz')"@
}

/// The four kinds of predicate tried, in order.
#[derive(Debug, Clone, Copy, PartialEq, Eq)]
pub enum MatchKind {
    ExactRaw,
    ExactNormalized,
    ContainsRaw,
    ContainsNormalized,
}

/// One attribute's predicate of the given kind against an XPath literal.
pub open spec fn attr_clause(kind: MatchKind, attr: Seq<char>, lit: Seq<char>) -> Seq<char> {
    match kind {
        MatchKind::ExactRaw => "@"@ + attr + "="@ + lit,
        MatchKind::ExactNormalized => lower_attr_spec(attr) + "="@ + lit,
        MatchKind::ContainsRaw => "contains(@"@ + attr + ", "@ + lit + ")"@,
        MatchKind::ContainsNormalized => "contains("@ + lower_attr_spec(attr) + ", "@ + lit + ")"@,
    }
}

/// The predicates of one kind over all attributes, joined by ` or `.
pub open spec fn clauses_spec(kind: MatchKind, lit: Seq<char>) -> Seq<char> {
    join(accessibility_attrs().map_values(|a: Seq<char>| attr_clause(kind, a, lit)), " or "@)
}

/// The element query for one kind of predicate.
pub open spec fn query_spec(kind: MatchKind, lit: Seq<char>) -> Seq<char> {
    "//*["@ + clauses_spec(kind, lit) + "]"@
}

/// The XPath queries tried for `label`, in order of preference.
pub open spec fn select_xpaths_spec(label: Seq<char>) -> Seq<Seq<char>> {
    let raw = trim(label);
    let raw_lit = xpath_literal_spec(raw);
    let norm_lit = xpath_literal_spec(normalize_label_spec(raw));
    seq![
        query_spec(MatchKind::ExactRaw, raw_lit),
        query_spec(MatchKind::ExactNormalized, norm_lit),
        query_spec(MatchKind::ContainsRaw, raw_lit),
        query_spec(MatchKind::ContainsNormalized, norm_lit),
    ]
}

/// No ASCII upper-case letter occurs in `s`.
pub open spec fn no_upper(s: Seq<char>) -> bool {
    forall|i: int| 0 <= i < s.len() ==> !is_upper(#[trigger] s[i])
}

proof fn lemma_lower_seq_no_upper(s: Seq<char>)
    ensures
        no_upper(lower_seq(s)),
{
    assert forall|i: int| 0 <= i < lower_seq(s).len() implies !is_upper(#[trigger] lower_seq(s)[i]) by {
        let c = s[i];
        if is_upper(c) {
            assert(((c as u32) + 32) as char as u32 == (c as u32) + 32);
        }
    }
}

proof fn lemma_words_no_upper(s: Seq<char>)
    requires
        no_upper(s),
    ensures
        forall|w: int| 0 <= w < words(s).len() ==> no_upper(#[trigger] words(s)[w]),
    decreases s.len(),
{
    let t = trim_start(s);
    lemma_trim_start_len(s);
    let k0 = choose|k: int| 0 <= k <= s.len() && trim_start(s) == s.skip(k);
    assert forall|i: int| 0 <= i < t.len() implies !is_upper(#[trigger] t[i]) by {
        assert(t[i] == s[i + k0]);
    }
    if t.len() > 0 {
        lemma_token_len(t);
        let k = token_len(t) as int;
        let rest = t.skip(k);
        assert forall|i: int| 0 <= i < rest.len() implies !is_upper(#[trigger] rest[i]) by {
            assert(rest[i] == t[i + k]);
        }
        lemma_words_no_upper(rest);
        assert(words(s) == seq![t.take(k)] + words(rest));
        assert forall|w: int| 0 <= w < words(s).len() implies no_upper(#[trigger] words(s)[w]) by {
            if w == 0 {
                assert(words(s)[0] == t.take(k));
                assert forall|i: int| 0 <= i < t.take(k).len() implies !is_upper(
                    #[trigger] t.take(k)[i],
                ) by {
                    assert(t.take(k)[i] == t[i]);
                }
            } else {
                assert(words(s)[w] == words(rest)[w - 1]);
            }
        }
    }
}

proof fn lemma_join_no_upper(parts: Seq<Seq<char>>, sep: Seq<char>)
    requires
        forall|w: int| 0 <= w < parts.len() ==> no_upper(#[trigger] parts[w]),
        no_upper(sep),
    ensures
        no_upper(join(parts, sep)),
    decreases parts.len(),
{
    if parts.len() > 1 {
        let init = parts.drop_last();
        assert forall|w: int| 0 <= w < init.len() implies no_upper(#[trigger] init[w]) by {
            assert(init[w] == parts[w]);
        }
        lemma_join_no_upper(init, sep);
        let a = join(init, sep);
        let l = parts.last();
        assert(no_upper(l)) by {
            assert(l == parts[parts.len() - 1]);
        }
        let j = a + sep + l;
        assert forall|i: int| 0 <= i < j.len() implies !is_upper(#[trigger] j[i]) by {
            if i < a.len() {
                assert(j[i] == a[i]);
            } else if i < a.len() + sep.len() {
                assert(j[i] == sep[i - a.len()]);
            } else {
                assert(j[i] == l[i - a.len() - sep.len()]);
            }
        }
    } else if parts.len() == 1 {
        assert(no_upper(parts[0]));
    }
}

/// The label's normal form holds no ASCII upper-case letter.
pub proof fn lemma_normalized_label_lower(v: Seq<char>)
    ensures
        no_upper(normalize_label_spec(v)),
{
    lemma_lower_seq_no_upper(v);
    lemma_words_no_upper(lower_seq(v));
    assert(no_upper(seq![' ']));
    lemma_join_no_upper(words(lower_seq(v)), seq![' ']);
}

/// Law: the exact queries (first and third) match the trimmed label as given,
/// and the case-insensitive ones (second and fourth) match the lower-cased
/// attribute text against the literal of the label's normal form, which holds
/// no ASCII upper-case letter (so an upper-case label can still match).
pub proof fn lemma_case_insensitive_queries(label: Seq<char>)
    ensures
        select_xpaths_spec(label).len() == 4,
        select_xpaths_spec(label)[0] == query_spec(MatchKind::ExactRaw, xpath_literal_spec(trim(label))),
        select_xpaths_spec(label)[2] == query_spec(
            MatchKind::ContainsRaw,
            xpath_literal_spec(trim(label)),
        ),
        exists|n: Seq<char>|
            #![trigger xpath_literal_spec(n)]
            no_upper(n) && n == normalize_label_spec(trim(label)) && select_xpaths_spec(label)[1]
                == query_spec(MatchKind::ExactNormalized, xpath_literal_spec(n))
                && select_xpaths_spec(label)[3] == query_spec(
                MatchKind::ContainsNormalized,
                xpath_literal_spec(n),
            ),
{
    let n = normalize_label_spec(trim(label));
    lemma_normalized_label_lower(trim(label));
    assert(select_xpaths_spec(label)[3] == query_spec(
        MatchKind::ContainsNormalized,
        xpath_literal_spec(n),
    ));
}

/// Law: the XPath expression for `v` denotes `v`. A quoted literal is used
/// only when the quote character is absent from `v`; otherwise every piece
/// of the `concat` form is free of `"`, and the pieces joined with `"` give
/// back `v`.
pub proof fn lemma_xpath_literal_denotes(v: Seq<char>)
    ensures
        !v.contains('"') ==> xpath_literal_spec(v) == dq_literal(v),
        v.contains('"') && !v.contains('\'') ==> xpath_literal_spec(v) == seq!['\''] + v + seq![
            '\'',
        ],
        v.contains('"') && v.contains('\'') ==> {
            let pieces = split_on(v, '"');
            &&& xpath_literal_spec(v) == "concat("@ + join(
                pieces.map_values(|p: Seq<char>| dq_literal(p)),
                concat_sep(),
            ) + ")"@
            &&& join(pieces, seq!['"']) == v
            &&& forall|i: int| 0 <= i < pieces.len() ==> !(#[trigger] pieces[i]).contains('"')
        },
{
    lemma_split_on_join(v, '"');
}

/// Whether `c` occurs in `v`.
pub fn has_char(v: &Vec<char>, c: char) -> (b: bool)
    ensures
        b == v@.contains(c),
{
    let mut i: usize = 0;
    while i < v.len()
        invariant
            i <= v.len(),
            forall|j: int| 0 <= j < i ==> v@[j] != c,
        decreases v.len() - i,
    {
        if v[i] == c {
            assert(v@[i as int] == c);
            return true;
        }
        i = i + 1;
    }
    false
}

fn dq_literal_exec(v: &Vec<char>) -> (out: Vec<char>)
    ensures
        out@ == dq_literal(v@),
{
    let mut out: Vec<char> = Vec::new();
    out.push('"');
    extend_chars(&mut out, v);
    out.push('"');
    assert(out@ =~= dq_literal(v@));
    out
}

fn xpath_literal_chars(v: &Vec<char>) -> (out: Vec<char>)
    ensures
        out@ == xpath_literal_spec(v@),
{
    if !has_char(v, '"') {
        return dq_literal_exec(v);
    }
    if !has_char(v, '\'') {
        let mut out: Vec<char> = Vec::new();
        out.push('\'');
        extend_chars(&mut out, v);
        out.push('\'');
        assert(out@ =~= seq!['\''] + v@ + seq!['\'']);
        return out;
    }
    let parts = split_on_exec(v, '"');
    let mut quoted: Vec<Vec<char>> = Vec::new();
    let mut i: usize = 0;
    while i < parts.len()
        invariant
            i <= parts.len(),
            views(quoted@) == views(parts@).take(i as int).map_values(
                |p: Seq<char>| dq_literal(p),
            ),
        decreases parts.len() - i,
    {
        let q = dq_literal_exec(&parts[i]);
        let ghost before = views(quoted@);
        quoted.push(q);
        proof {
            assert(views(quoted@) =~= before.push(q@));
            assert(views(parts@).take(i + 1).map_values(|p: Seq<char>| dq_literal(p))
                =~= views(parts@).take(i as int).map_values(|p: Seq<char>| dq_literal(p)).push(
                dq_literal(parts@[i as int]@),
            ));
        }
        i = i + 1;
    }
    assert(views(parts@).take(parts@.len() as int) =~= views(parts@));
    let sep = chars_of(", '\"', ");
    let joined = join_chars(&quoted, &sep);
    let mut out: Vec<char> = Vec::new();
    extend_str(&mut out, "concat(");
    extend_chars(&mut out, &joined);
    extend_str(&mut out, ")");
    out
}

/// The XPath literal for `value` (see [`xpath_literal_spec`]).
pub fn xpath_literal(value: &str) -> (r: String)
    ensures
        r@ == xpath_literal_spec(value@),
{
    let v = chars_of(value);
    string_of(&xpath_literal_chars(&v))
}

fn normalize_label_chars(v: &Vec<char>) -> (out: Vec<char>)
    ensures
        out@ == normalize_label_spec(v@),
{
    let lowered = lower_chars(v);
    let parts = split_words(&lowered);
    let mut sep: Vec<char> = Vec::new();
    sep.push(' ');
    assert(sep@ =~= seq![' ']);
    join_chars(&parts, &sep)
}

/// Normalizes a human intent label for case-insensitive matching.
pub fn normalize_intent_label(value: &str) -> (r: String)
    ensures
        r@ == normalize_label_spec(value@),
{
    let v = chars_of(value);
    string_of(&normalize_label_chars(&v))
}

/// The accessibility attributes searched, in order (see [`accessibility_attrs`]).
pub fn mobile_accessibility_attrs() -> (r: Vec<&'static str>)
    ensures
        r@.map_values(|a: &str| a@) == accessibility_attrs(),
{
    let mut r: Vec<&'static str> = Vec::new();
    r.push("text");
    r.push("label");
    r.push("name");
    r.push("value");
    r.push("content-desc");
    r.push("hint");
    r.push("resource-id");
    assert(r@.map_values(|a: &str| a@) =~= accessibility_attrs());
    r
}

fn lower_attr_chars(out: &mut Vec<char>, attr: &str)
    ensures
        final(out)@ == old(out)@ + lower_attr_spec(attr@),
{
    let ghost start = out@;
    extend_str(out, "translate(normalize-space(@");
    extend_str(out, attr);
    extend_str(out, "), 'ABCDEFGHIJKLMNOPQRSTUVWXYZ', 'abcdefghijklmnopqrstuvwxyz')");
    assert(out@ =~= start + lower_attr_spec(attr@));
}

/// The XPath expression for an attribute's normalised, lower-cased value.
pub fn lower_attr_expr(attr: &str) -> (r: String)
    ensures
        r@ == lower_attr_spec(attr@),
{
    let mut out: Vec<char> = Vec::new();
    lower_attr_chars(&mut out, attr);
    assert(out@ =~= lower_attr_spec(attr@));
    string_of(&out)
}

fn attr_clause_chars(kind: MatchKind, attr: &str, lit: &Vec<char>) -> (out: Vec<char>)
    ensures
        out@ == attr_clause(kind, attr@, lit@),
{
    let mut out: Vec<char> = Vec::new();
    match kind {
        MatchKind::ExactRaw => {
            extend_str(&mut out, "@");
            extend_str(&mut out, attr);
            extend_str(&mut out, "=");
            extend_chars(&mut out, lit);
        },
        MatchKind::ExactNormalized => {
            lower_attr_chars(&mut out, attr);
            extend_str(&mut out, "=");
            extend_chars(&mut out, lit);
        },
        MatchKind::ContainsRaw => {
            extend_str(&mut out, "contains(@");
            extend_str(&mut out, attr);
            extend_str(&mut out, ", ");
            extend_chars(&mut out, lit);
            extend_str(&mut out, ")");
        },
        MatchKind::ContainsNormalized => {
            extend_str(&mut out, "contains(");
            lower_attr_chars(&mut out, attr);
            extend_str(&mut out, ", ");
            extend_chars(&mut out, lit);
            extend_str(&mut out, ")");
        },
    }
    assert(out@ =~= attr_clause(kind, attr@, lit@));
    out
}

fn query_chars(kind: MatchKind, lit: &Vec<char>) -> (out: String)
    ensures
        out@ == query_spec(kind, lit@),
{
    let attrs = mobile_accessibility_attrs();
    let ghost names = attrs@.map_values(|a: &str| a@);
    let mut parts: Vec<Vec<char>> = Vec::new();
    let mut i: usize = 0;
    while i < attrs.len()
        invariant
            i <= attrs.len(),
            names == attrs@.map_values(|a: &str| a@),
            names == accessibility_attrs(),
            views(parts@) == names.take(i as int).map_values(
                |a: Seq<char>| attr_clause(kind, a, lit@),
            ),
        decreases attrs.len() - i,
    {
        let c = attr_clause_chars(kind, attrs[i], lit);
        let ghost before = views(parts@);
        parts.push(c);
        proof {
            assert(names[i as int] == attrs@[i as int]@);
            assert(views(parts@) =~= before.push(c@));
            assert(names.take(i + 1).map_values(|a: Seq<char>| attr_clause(kind, a, lit@))
                =~= names.take(i as int).map_values(|a: Seq<char>| attr_clause(kind, a, lit@)).push(
                attr_clause(kind, names[i as int], lit@),
            ));
        }
        i = i + 1;
    }
    assert(names.take(names.len() as int) =~= names);
    let sep = chars_of(" or ");
    let joined = join_chars(&parts, &sep);
    let mut out: Vec<char> = Vec::new();
    extend_str(&mut out, "//*[");
    extend_chars(&mut out, &joined);
    extend_str(&mut out, "]");
    string_of(&out)
}

/// Builds ordered XPath strategies used by mobile `select(label)` resolution:
/// exact match on any accessibility attribute, then the case-insensitive
/// match, then containment, then case-insensitive containment.
pub fn build_mobile_select_xpaths(label: &str) -> (r: Vec<String>)
    ensures
        r@.map_values(|s: String| s@) == select_xpaths_spec(label@),
{
    let v = chars_of(label);
    let (lo, hi) = trim_bounds(&v);
    let raw = slice_chars(&v, lo, hi);
    let raw_lit = xpath_literal_chars(&raw);
    let normalized = normalize_label_chars(&raw);
    let norm_lit = xpath_literal_chars(&normalized);
    let mut r: Vec<String> = Vec::new();
    r.push(query_chars(MatchKind::ExactRaw, &raw_lit));
    r.push(query_chars(MatchKind::ExactNormalized, &norm_lit));
    r.push(query_chars(MatchKind::ContainsRaw, &raw_lit));
    r.push(query_chars(MatchKind::ContainsNormalized, &norm_lit));
    assert(r@.map_values(|s: String| s@) =~= select_xpaths_spec(label@));
    r
}

} // verus!
