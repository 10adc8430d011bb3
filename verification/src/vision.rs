//! The integer and text parts of vision-based element detection: detection
//! metadata, accessibility candidates, and the label normalisation and role
//! hints the consensus resolver scores with.
use vstd::prelude::*;

use crate::text::{
    chars_of, contains_str, contains_text, is_ascii_alnum, is_ascii_alnum_char, is_ascii_ws,
    is_ascii_ws_char, join, join_chars, lower_chars, lower_seq, split_words, string_from, string_of,
    words,
};

verus! {

#[verifier::external_type_specification]
#[verifier::external_body]
pub struct ExDynamicImage(image::DynamicImage);

/// Why `image::load_from_memory` rejects the bytes (its error's text), or
/// `None` when it decodes them.
pub uninterp spec fn image_decode_failure(bytes: Seq<u8>) -> Option<Seq<char>>;

/// The image `image::load_from_memory` decodes from the bytes.
pub uninterp spec fn decoded_image(bytes: Seq<u8>) -> image::DynamicImage;

/// `image::load_from_memory`: the image decoded from the bytes (the format is
/// guessed from their content, and the decoders are deterministic), or the
/// error's text.  The contract names the image and the failure, both as
/// functions of the bytes alone.
#[verifier::external_body]
fn decode_image(bytes: &[u8]) -> (r: Result<image::DynamicImage, String>)
    ensures
        match r {
            Ok(img) => image_decode_failure(bytes@) is None && img == decoded_image(bytes@),
            Err(e) => image_decode_failure(bytes@) == Some(e@),
        },
{
    image::load_from_memory(bytes).map_err(|e| e.to_string())
}

/// Loads a PNG or JPEG screenshot into an image buffer.
pub fn load_screenshot(image_bytes: &[u8]) -> (r: Result<image::DynamicImage, String>)
    ensures
        r is Ok <==> image_decode_failure(image_bytes@) is None,
        r matches Ok(img) ==> img == decoded_image(image_bytes@),
        r matches Err(e) ==> (image_decode_failure(image_bytes@) matches Some(f) && e@
            == "Failed to load screenshot: "@ + f),
{
    match decode_image(image_bytes) {
        Ok(img) => Ok(img),
        Err(e) => {
            let mut m = string_from("Failed to load screenshot: ");
            crate::text::push_str(&mut m, e.as_str());
            Err(m)
        },
    }
}

/// Metadata about a detection run.
#[derive(Debug)]
pub struct DetectionMetadata {
    /// Model version or name used.
    pub model_name: String,
    /// Time taken for inference in milliseconds.
    pub inference_time_ms: u64,
    /// Input image dimensions (width x height).
    pub image_size: (u32, u32),
}

/// Accessibility candidate metadata used to enrich vision detections.
#[derive(Debug)]
pub struct AccessibilityNode {
    /// Optional accessible name.
    pub label: Option<String>,
    /// Optional semantic role (e.g. button, textbox, link).
    pub role: Option<String>,
    /// Optional screen-space bounds in (x, y, width, height).
    pub bbox: Option<(i32, i32, i32, i32)>,
}

/// Source of the final candidate.
#[derive(Debug, Clone, Copy, PartialEq, Eq)]
pub enum CandidateSource {
    /// Derived from vision only.
    VisionOnly,
    /// Derived from vision and accessibility consensus.
    VisionAndAccessibility,
}

/// Placeholder ONNX adapter: it names its model and has no runtime yet.
#[derive(Debug)]
pub struct StubOnnxEngine;

impl StubOnnxEngine {
    /// Creates a new stub ONNX inference adapter.
    pub fn new() -> Self {
        StubOnnxEngine
    }

    /// Engine/model identifier used in metadata and diagnostics.
    pub fn model_name(&self) -> (r: &'static str)
        ensures
            r@ == "onnx-stub"@,
    {
        "onnx-stub"
    }

    /// Why inference cannot run on this engine.
    pub fn unconfigured_message(&self) -> (r: &'static str)
        ensures
            r@
                == "ONNX inference adapter not configured yet. Use detect_ui_elements_with_engine() with a concrete engine in tests or wire the runtime in Phase 3.1."@,
    {
        "ONNX inference adapter not configured yet. Use detect_ui_elements_with_engine() with a concrete engine in tests or wire the runtime in Phase 3.1."
    }
}

impl Default for StubOnnxEngine {
    fn default() -> (r: Self) {
        StubOnnxEngine::new()
    }
}

/// `i32` arithmetic that saturates at the type's bounds.
pub open spec fn saturate_i32(v: int) -> int {
    if v < i32::MIN {
        i32::MIN as int
    } else if v > i32::MAX {
        i32::MAX as int
    } else {
        v
    }
}

pub open spec fn min_int(a: int, b: int) -> int {
    if a <= b {
        a
    } else {
        b
    }
}

pub open spec fn max_int(a: int, b: int) -> int {
    if a >= b {
        a
    } else {
        b
    }
}

/// The box kept inside the image: the origin at most one pixel before the
/// right/bottom edge, the size at most what is left of the image and at
/// least one pixel.  Image sides are read as `i32` (wrapping, as `as` does).
pub open spec fn clamp_bbox_spec(b: (i32, i32, i32, i32), size: (u32, u32)) -> (int, int, int, int) {
    let mw = size.0 as i32 as int;
    let mh = size.1 as i32 as int;
    let x = min_int(b.0 as int, saturate_i32(mw - 1));
    let y = min_int(b.1 as int, saturate_i32(mh - 1));
    let w = max_int(min_int(b.2 as int, saturate_i32(mw - x)), 1);
    let h = max_int(min_int(b.3 as int, saturate_i32(mh - y)), 1);
    (x, y, w, h)
}

fn saturating_sub_i32(a: i32, b: i32) -> (r: i32)
    ensures
        r == saturate_i32(a - b),
{
    let d: i64 = a as i64 - b as i64;
    if d < i32::MIN as i64 {
        i32::MIN
    } else if d > i32::MAX as i64 {
        i32::MAX
    } else {
        d as i32
    }
}

/// Keeps a rounded detection box inside an image of `image_size` pixels.
pub fn clamp_bbox_to_image(bbox: (i32, i32, i32, i32), image_size: (u32, u32)) -> (r: (
    i32,
    i32,
    i32,
    i32,
))
    ensures
        (r.0 as int, r.1 as int, r.2 as int, r.3 as int) == clamp_bbox_spec(bbox, image_size),
{
    let mw = image_size.0 as i32;
    let mh = image_size.1 as i32;
    let lim_x = saturating_sub_i32(mw, 1);
    let x = if bbox.0 <= lim_x {
        bbox.0
    } else {
        lim_x
    };
    let lim_y = saturating_sub_i32(mh, 1);
    let y = if bbox.1 <= lim_y {
        bbox.1
    } else {
        lim_y
    };
    let room_w = saturating_sub_i32(mw, x);
    let w0 = if bbox.2 <= room_w {
        bbox.2
    } else {
        room_w
    };
    let w = if w0 >= 1 {
        w0
    } else {
        1
    };
    let room_h = saturating_sub_i32(mh, y);
    let h0 = if bbox.3 <= room_h {
        bbox.3
    } else {
        room_h
    };
    let h = if h0 >= 1 {
        h0
    } else {
        1
    };
    (x, y, w, h)
}

/// Characters other than ASCII letters, digits and ASCII whitespace become spaces.
pub open spec fn clean_char(c: char) -> char {
    if is_ascii_alnum(c) || is_ascii_ws(c) {
        c
    } else {
        ' '
    }
}

/// Text as compared for labels: lower case, punctuation as spaces,
/// whitespace runs collapsed to one space, trimmed.
pub open spec fn normalize_text_spec(s: Seq<char>) -> Seq<char> {
    join(words(lower_seq(s).map_values(|c: char| clean_char(c))), seq![' '])
}

/// Normalises text for label comparison.
pub fn normalize_text(text: &str) -> (r: String)
    ensures
        r@ == normalize_text_spec(text@),
{
    let lowered = lower_chars(&chars_of(text));
    let mut cleaned: Vec<char> = Vec::new();
    let mut i: usize = 0;
    while i < lowered.len()
        invariant
            i <= lowered.len(),
            cleaned@ == lowered@.take(i as int).map_values(|c: char| clean_char(c)),
        decreases lowered.len() - i,
    {
        let c = lowered[i];
        let d = if is_ascii_alnum_char(c) || is_ascii_ws_char(c) {
            c
        } else {
            ' '
        };
        cleaned.push(d);
        assert(lowered@.take(i + 1).map_values(|c: char| clean_char(c)) =~= lowered@.take(
            i as int,
        ).map_values(|c: char| clean_char(c)).push(clean_char(c)));
        i = i + 1;
    }
    assert(lowered@.take(lowered@.len() as int) =~= lowered@);
    let parts = split_words(&cleaned);
    let mut sep: Vec<char> = Vec::new();
    sep.push(' ');
    assert(sep@ =~= seq![' ']);
    string_of(&join_chars(&parts, &sep))
}

/// The role an intent label suggests: `button` for click-like words, `input`
/// for field-like words, `link` for links.
pub open spec fn role_hint_spec(text: Seq<char>) -> Option<Seq<char>> {
    let t = normalize_text_spec(text);
    if contains_text(t, "button"@) || contains_text(t, "click"@) || contains_text(t, "tap"@) {
        Some("button"@)
    } else if contains_text(t, "input"@) || contains_text(t, "field"@) || contains_text(t, "email"@)
        || contains_text(t, "password"@) {
        Some("input"@)
    } else if contains_text(t, "link"@) {
        Some("link"@)
    } else {
        None
    }
}

/// Infers the element role an intent label asks for.
pub fn infer_role_hint(text: &str) -> (r: Option<String>)
    ensures
        crate::text::opt_str(r) == role_hint_spec(text@),
{
    let t = chars_of(normalize_text(text).as_str());
    if contains_str(&t, "button") || contains_str(&t, "click") || contains_str(&t, "tap") {
        return Some(string_from("button"));
    }
    if contains_str(&t, "input") || contains_str(&t, "field") || contains_str(&t, "email")
        || contains_str(&t, "password") {
        return Some(string_from("input"));
    }
    if contains_str(&t, "link") {
        return Some(string_from("link"));
    }
    None
}

} // verus!
