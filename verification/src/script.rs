//! Script and language estimation for shaping: statistical detection of
//! the script and language of a text, and the fixed mapping from the
//! detected script family to the four-byte script tag the shaper takes.
//!
//! The detection itself runs in the `whatlang` crate behind a trusted
//! wrapper; the mapping table, the tag arithmetic and the fallback to
//! Latin/English are verified.

use vstd::prelude::*;

verus! {

/// The four-byte tag packed from `a`, `b`, `c`, `d`: `a` in the highest
/// byte.
pub open spec fn spec_tag(a: u8, b: u8, c: u8, d: u8) -> u32 {
    (a * 0x100_0000 + b * 0x1_0000 + c * 0x100 + d) as u32
}

/// Packs a four-byte table tag into one 32-bit value, first byte
/// highest.
pub fn tag(chars: [u8; 4]) -> (r: u32)
    ensures
        r == spec_tag(chars[0], chars[1], chars[2], chars[3]),
{
    (chars[0] as u32) * 0x100_0000 + (chars[1] as u32) * 0x1_0000 + (chars[2] as u32) * 0x100 + (
    chars[3] as u32)
}

/// The script families the statistical detector can report, one for each
/// value of whatlang's `Script`, in the same alphabetical order.  There
/// is no catch-all: a family outside this list cannot be reported, and
/// each listed family maps to exactly one script tag.  Scripts the
/// detector does not know (sign-writing or Yi among them) never reach
/// the shaper through estimation; a caller that knows the script of its
/// text hands the shaper an explicit tag instead.
#[derive(Debug, Copy, Clone, PartialEq, Eq, Hash, Structural)]
pub enum ScriptFamily {
    Arabic,
    Armenian,
    Bengali,
    Cyrillic,
    Devanagari,
    Ethiopic,
    Georgian,
    Greek,
    Gujarati,
    Gurmukhi,
    Hangul,
    Hebrew,
    Hiragana,
    Kannada,
    Katakana,
    Khmer,
    Latin,
    Malayalam,
    Mandarin,
    Myanmar,
    Oriya,
    Sinhala,
    Tamil,
    Telugu,
    Thai,
}

/// The fixed mapping from a detected script family to its OpenType
/// script tag.
///
/// Hiragana deliberately maps to the same `kana` tag as Katakana: the
/// OpenType script-tag registry files both syllabaries under `kana`.
/// Mandarin text is written in Han ideographs, so it maps to `hani`
/// (CJK Ideographic), not to the similarly named Mandaic tag.  Indic
/// families with a revised shaping model map to their version-2 tags
/// where the first-generation shaping model is obsolete (Gurmukhi, Kannada, Myanmar).
pub open spec fn spec_script_tag(s: ScriptFamily) -> u32 {
    match s {
        ScriptFamily::Arabic => spec_tag(('a' as u8), ('r' as u8), ('a' as u8), ('b' as u8)),
        ScriptFamily::Armenian => spec_tag(('a' as u8), ('r' as u8), ('m' as u8), ('n' as u8)),
        ScriptFamily::Bengali => spec_tag(('b' as u8), ('e' as u8), ('n' as u8), ('g' as u8)),
        ScriptFamily::Cyrillic => spec_tag(('c' as u8), ('y' as u8), ('r' as u8), ('l' as u8)),
        ScriptFamily::Devanagari => spec_tag(('d' as u8), ('e' as u8), ('v' as u8), ('a' as u8)),
        ScriptFamily::Ethiopic => spec_tag(('e' as u8), ('t' as u8), ('h' as u8), ('i' as u8)),
        ScriptFamily::Georgian => spec_tag(('g' as u8), ('e' as u8), ('o' as u8), ('r' as u8)),
        ScriptFamily::Greek => spec_tag(('g' as u8), ('r' as u8), ('e' as u8), ('k' as u8)),
        ScriptFamily::Gujarati => spec_tag(('g' as u8), ('u' as u8), ('j' as u8), ('r' as u8)),
        ScriptFamily::Gurmukhi => spec_tag(('g' as u8), ('u' as u8), ('r' as u8), ('2' as u8)),
        ScriptFamily::Hangul => spec_tag(('h' as u8), ('a' as u8), ('n' as u8), ('g' as u8)),
        ScriptFamily::Hebrew => spec_tag(('h' as u8), ('e' as u8), ('b' as u8), ('r' as u8)),
        ScriptFamily::Hiragana => spec_tag(('k' as u8), ('a' as u8), ('n' as u8), ('a' as u8)),
        ScriptFamily::Kannada => spec_tag(('k' as u8), ('n' as u8), ('d' as u8), ('2' as u8)),
        ScriptFamily::Katakana => spec_tag(('k' as u8), ('a' as u8), ('n' as u8), ('a' as u8)),
        ScriptFamily::Khmer => spec_tag(('k' as u8), ('h' as u8), ('m' as u8), ('r' as u8)),
        ScriptFamily::Latin => spec_tag(('l' as u8), ('a' as u8), ('t' as u8), ('n' as u8)),
        ScriptFamily::Malayalam => spec_tag(('m' as u8), ('l' as u8), ('y' as u8), ('m' as u8)),
        ScriptFamily::Mandarin => spec_tag(('h' as u8), ('a' as u8), ('n' as u8), ('i' as u8)),
        ScriptFamily::Myanmar => spec_tag(('m' as u8), ('y' as u8), ('m' as u8), ('2' as u8)),
        ScriptFamily::Oriya => spec_tag(('o' as u8), ('r' as u8), ('y' as u8), ('a' as u8)),
        ScriptFamily::Sinhala => spec_tag(('s' as u8), ('i' as u8), ('n' as u8), ('h' as u8)),
        ScriptFamily::Tamil => spec_tag(('t' as u8), ('a' as u8), ('m' as u8), ('l' as u8)),
        ScriptFamily::Telugu => spec_tag(('t' as u8), ('e' as u8), ('l' as u8), ('u' as u8)),
        ScriptFamily::Thai => spec_tag(('t' as u8), ('h' as u8), ('a' as u8), ('i' as u8)),
    }
}

/// The script tag of a detected family, by the fixed table.
pub fn script_tag(s: ScriptFamily) -> (r: u32)
    ensures
        r == spec_script_tag(s),
{
    match s {
        ScriptFamily::Arabic => tag([('a' as u8), ('r' as u8), ('a' as u8), ('b' as u8)]),
        ScriptFamily::Armenian => tag([('a' as u8), ('r' as u8), ('m' as u8), ('n' as u8)]),
        ScriptFamily::Bengali => tag([('b' as u8), ('e' as u8), ('n' as u8), ('g' as u8)]),
        ScriptFamily::Cyrillic => tag([('c' as u8), ('y' as u8), ('r' as u8), ('l' as u8)]),
        ScriptFamily::Devanagari => tag([('d' as u8), ('e' as u8), ('v' as u8), ('a' as u8)]),
        ScriptFamily::Ethiopic => tag([('e' as u8), ('t' as u8), ('h' as u8), ('i' as u8)]),
        ScriptFamily::Georgian => tag([('g' as u8), ('e' as u8), ('o' as u8), ('r' as u8)]),
        ScriptFamily::Greek => tag([('g' as u8), ('r' as u8), ('e' as u8), ('k' as u8)]),
        ScriptFamily::Gujarati => tag([('g' as u8), ('u' as u8), ('j' as u8), ('r' as u8)]),
        ScriptFamily::Gurmukhi => tag([('g' as u8), ('u' as u8), ('r' as u8), ('2' as u8)]),
        ScriptFamily::Hangul => tag([('h' as u8), ('a' as u8), ('n' as u8), ('g' as u8)]),
        ScriptFamily::Hebrew => tag([('h' as u8), ('e' as u8), ('b' as u8), ('r' as u8)]),
        ScriptFamily::Hiragana => tag([('k' as u8), ('a' as u8), ('n' as u8), ('a' as u8)]),
        ScriptFamily::Kannada => tag([('k' as u8), ('n' as u8), ('d' as u8), ('2' as u8)]),
        ScriptFamily::Katakana => tag([('k' as u8), ('a' as u8), ('n' as u8), ('a' as u8)]),
        ScriptFamily::Khmer => tag([('k' as u8), ('h' as u8), ('m' as u8), ('r' as u8)]),
        ScriptFamily::Latin => tag([('l' as u8), ('a' as u8), ('t' as u8), ('n' as u8)]),
        ScriptFamily::Malayalam => tag([('m' as u8), ('l' as u8), ('y' as u8), ('m' as u8)]),
        ScriptFamily::Mandarin => tag([('h' as u8), ('a' as u8), ('n' as u8), ('i' as u8)]),
        ScriptFamily::Myanmar => tag([('m' as u8), ('y' as u8), ('m' as u8), ('2' as u8)]),
        ScriptFamily::Oriya => tag([('o' as u8), ('r' as u8), ('y' as u8), ('a' as u8)]),
        ScriptFamily::Sinhala => tag([('s' as u8), ('i' as u8), ('n' as u8), ('h' as u8)]),
        ScriptFamily::Tamil => tag([('t' as u8), ('a' as u8), ('m' as u8), ('l' as u8)]),
        ScriptFamily::Telugu => tag([('t' as u8), ('e' as u8), ('l' as u8), ('u' as u8)]),
        ScriptFamily::Thai => tag([('t' as u8), ('h' as u8), ('a' as u8), ('i' as u8)]),
    }
}

/// A language code as the detector reports it: one to four ASCII
/// lowercase letters.
pub open spec fn lang_code_wf(code: Seq<u8>) -> bool {
    &&& 1 <= code.len() <= 4
    &&& forall|i: int| 0 <= i < code.len() ==> ('a' as u8) <= #[trigger] code[i] <= ('z' as u8)
}

/// An ASCII lowercase letter folded to its uppercase form.
pub open spec fn spec_upper(b: u8) -> u8 {
    if ('a' as u8) <= b <= ('z' as u8) {
        (b - 0x20) as u8
    } else {
        b
    }
}

/// Byte `i` of the packed language tag: the uppercased code, padded to
/// four bytes with spaces.
pub open spec fn spec_lang_tag_byte(code: Seq<u8>, i: int) -> u8 {
    if i < code.len() {
        spec_upper(code[i])
    } else {
        (' ' as u8)
    }
}

/// The OpenType language tag of a detected language code: the code
/// uppercased and padded to four bytes with trailing spaces.
pub open spec fn spec_lang_tag(code: Seq<u8>) -> u32 {
    spec_tag(
        spec_lang_tag_byte(code, 0),
        spec_lang_tag_byte(code, 1),
        spec_lang_tag_byte(code, 2),
        spec_lang_tag_byte(code, 3),
    )
}

/// Packs a detected language code into its OpenType language tag.
pub fn language_tag(code: &Vec<u8>) -> (r: u32)
    requires
        lang_code_wf(code@),
    ensures
        r == spec_lang_tag(code@),
{
    let mut bytes: [u8; 4] = [(' ' as u8), (' ' as u8), (' ' as u8), (' ' as u8)];
    let mut i: usize = 0;
    while i < code.len()
        invariant
            0 <= i <= code@.len(),
            lang_code_wf(code@),
            code@.len() <= 4,
            forall|j: int| 0 <= j < i ==> bytes[j] == spec_lang_tag_byte(code@, j),
            forall|j: int| i <= j < 4 ==> bytes[j] == (' ' as u8),
        decreases code@.len() - i,
    {
        assert(('a' as u8) <= code@[i as int] <= ('z' as u8));
        bytes[i] = code[i] - 0x20;
        i += 1;
    }
    assert(forall|j: int| 0 <= j < 4 ==> bytes[j] == spec_lang_tag_byte(code@, j));
    tag(bytes)
}

/// What statistical detection reports for a text: the detected script
/// (as its position in the detector's alphabetically ordered script
/// list) and the language code, or nothing when detection is
/// inconclusive.  A pure function of the characters: the detector counts
/// trigrams and alphabet hits and breaks ties by total orders.
pub uninterp spec fn spec_detected(text: Seq<char>) -> Option<(u8, Seq<u8>)>;

/// Relies on whatlang `detect`: reports exactly `spec_detected` of the
/// text.  The reported script is one of the 25 values of whatlang's
/// `Script` enum, handed out here as the value's position in that enum's
/// (alphabetically ordered) declaration, and the language code is
/// `Lang::code()`, a three-letter lowercase ISO 639-3 code.
#[verifier::external_body]
fn detect_script_and_language(text: &str) -> (r: Option<(u8, Vec<u8>)>)
    ensures
        match r {
            Option::Some(d) => spec_detected(text@) == Option::Some((d.0, d.1@)) && d.0 < 25
                && lang_code_wf(d.1@),
            Option::None => spec_detected(text@) is None,
        },
{
    let info = whatlang::detect(text)?;
    let script = info.script() as u8;
    let code = info.lang().code().as_bytes().to_vec();
    Some((script, code))
}

/// The script family at position `idx` of the detector's alphabetically
/// ordered script list.
pub open spec fn spec_script_family_from_index(idx: u8) -> ScriptFamily {
    if idx == 0 { ScriptFamily::Arabic }
    else if idx == 1 { ScriptFamily::Armenian }
    else if idx == 2 { ScriptFamily::Bengali }
    else if idx == 3 { ScriptFamily::Cyrillic }
    else if idx == 4 { ScriptFamily::Devanagari }
    else if idx == 5 { ScriptFamily::Ethiopic }
    else if idx == 6 { ScriptFamily::Georgian }
    else if idx == 7 { ScriptFamily::Greek }
    else if idx == 8 { ScriptFamily::Gujarati }
    else if idx == 9 { ScriptFamily::Gurmukhi }
    else if idx == 10 { ScriptFamily::Hangul }
    else if idx == 11 { ScriptFamily::Hebrew }
    else if idx == 12 { ScriptFamily::Hiragana }
    else if idx == 13 { ScriptFamily::Kannada }
    else if idx == 14 { ScriptFamily::Katakana }
    else if idx == 15 { ScriptFamily::Khmer }
    else if idx == 16 { ScriptFamily::Latin }
    else if idx == 17 { ScriptFamily::Malayalam }
    else if idx == 18 { ScriptFamily::Mandarin }
    else if idx == 19 { ScriptFamily::Myanmar }
    else if idx == 20 { ScriptFamily::Oriya }
    else if idx == 21 { ScriptFamily::Sinhala }
    else if idx == 22 { ScriptFamily::Tamil }
    else if idx == 23 { ScriptFamily::Telugu }
    else { ScriptFamily::Thai }
}

fn script_family_from_index(idx: u8) -> (r: ScriptFamily)
    requires
        idx < 25,
    ensures
        r == spec_script_family_from_index(idx),
{
    if idx == 0 { ScriptFamily::Arabic }
    else if idx == 1 { ScriptFamily::Armenian }
    else if idx == 2 { ScriptFamily::Bengali }
    else if idx == 3 { ScriptFamily::Cyrillic }
    else if idx == 4 { ScriptFamily::Devanagari }
    else if idx == 5 { ScriptFamily::Ethiopic }
    else if idx == 6 { ScriptFamily::Georgian }
    else if idx == 7 { ScriptFamily::Greek }
    else if idx == 8 { ScriptFamily::Gujarati }
    else if idx == 9 { ScriptFamily::Gurmukhi }
    else if idx == 10 { ScriptFamily::Hangul }
    else if idx == 11 { ScriptFamily::Hebrew }
    else if idx == 12 { ScriptFamily::Hiragana }
    else if idx == 13 { ScriptFamily::Kannada }
    else if idx == 14 { ScriptFamily::Katakana }
    else if idx == 15 { ScriptFamily::Khmer }
    else if idx == 16 { ScriptFamily::Latin }
    else if idx == 17 { ScriptFamily::Malayalam }
    else if idx == 18 { ScriptFamily::Mandarin }
    else if idx == 19 { ScriptFamily::Myanmar }
    else if idx == 20 { ScriptFamily::Oriya }
    else if idx == 21 { ScriptFamily::Sinhala }
    else if idx == 22 { ScriptFamily::Tamil }
    else if idx == 23 { ScriptFamily::Telugu }
    else { ScriptFamily::Thai }
}

/// Resolves a detected script family and language code to the (script
/// tag, language tag) pair the shaper takes.
pub fn resolve_script_and_language_tags(family: ScriptFamily, lang_code: &Vec<u8>) -> (r: (
    u32,
    u32,
))
    requires
        lang_code_wf(lang_code@),
    ensures
        r.0 == spec_script_tag(family),
        r.1 == spec_lang_tag(lang_code@),
{
    (script_tag(family), language_tag(lang_code))
}

/// The (script tag, language tag) pair estimation resolves a text to:
/// the fixed tables applied to what detection reports, or Latin/English
/// when detection is inconclusive.
pub open spec fn spec_estimated_tags(text: Seq<char>) -> (u32, u32) {
    match spec_detected(text) {
        Option::Some(d) => (
            spec_script_tag(spec_script_family_from_index(d.0)),
            spec_lang_tag(d.1),
        ),
        Option::None => (
            spec_script_tag(ScriptFamily::Latin),
            spec_lang_tag(seq![('e' as u8), ('n' as u8), ('g' as u8)]),
        ),
    }
}

/// Estimates the script and the language of a text (the detector uses
/// trigram statistics) and returns the (script tag, language tag) pair:
/// exactly the fixed tables applied to the detection result, with the
/// Latin/English fallback on inconclusive detection.  The same text
/// always yields the same pair.
pub fn estimate_script_and_language(text: &str) -> (r: (u32, u32))
    ensures
        r == spec_estimated_tags(text@),
{
    match detect_script_and_language(text) {
        Some((idx, code)) => {
            let family = script_family_from_index(idx);
            resolve_script_and_language_tags(family, &code)
        },
        None => {
            let code: Vec<u8> = vec![('e' as u8), ('n' as u8), ('g' as u8)];
            let family = ScriptFamily::Latin;
            let r = resolve_script_and_language_tags(family, &code);
            proof {
                assert(code@ =~= seq![('e' as u8), ('n' as u8), ('g' as u8)]);
            }
            r
        },
    }
}

} // verus!
