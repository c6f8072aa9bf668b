//! The text pipeline of one node: split the text into words, shape each
//! word against the font, scale the shaped widths to pixels, and break
//! the words into lines.

use vstd::prelude::*;

use crate::scroll::ScaledWords;
use crate::shaping::{
    cmap_contents, lemma_word_width_nonneg, spec_cmap_lookup, spec_get_advance, spec_shaped_run,
    spec_word_width, GlyphInfo, ParsedFont,
};
use crate::text_layout::{
    layout_words, scale_font_unit, spec_lines_ok, word_item_ok, words_bounded, words_tile,
    split_text_into_words, InlineTextLayout, ResolvedTextLayoutOptions, Word, WordType, Words,
    MAX_FONT_PX, MAX_WORDS, MAX_WORD_PX,
};

verus! {

/// How many items of the first `n` are word runs (rather than
/// separators).
pub open spec fn spec_word_item_count(items: Seq<Word>, n: int) -> int
    decreases n,
{
    if n <= 0 {
        0
    } else {
        spec_word_item_count(items, n - 1) + if items[n - 1].word_type is Word {
            1int
        } else {
            0int
        }
    }
}

proof fn lemma_word_item_count_bounds(items: Seq<Word>, n: int)
    requires
        0 <= n <= items.len(),
    ensures
        0 <= spec_word_item_count(items, n) <= n,
    decreases n,
{
    if n > 0 {
        lemma_word_item_count_bounds(items, n - 1);
    }
}

/// Scales a word width given in font units to pixels; widths beyond the
/// 32-bit range are unrepresentable in a layout and saturate there
/// before scaling.
fn scale_wide_font_units(value: u64, font_size_px: i64, units_per_em: u16) -> (r: i64)
    requires
        value <= 0xFFFF_FFFF,
        0 < font_size_px <= MAX_FONT_PX,
        units_per_em > 0,
    ensures
        r as int == value * font_size_px / (units_per_em as int),
        0 <= r,
{
    proof {
        assert(value * (font_size_px as u64) <= 0xFFFF_FFFFu64 * 0x10_0000u64) by (nonlinear_arith)
            requires
                0 <= value <= 0xFFFF_FFFF,
                0 <= font_size_px <= 0x10_0000,
                (font_size_px as u64) == font_size_px as int,
        ;
        assert(value * (font_size_px as u64) == (value as int) * (font_size_px as int))
            by (nonlinear_arith)
            requires
                0 <= value,
                0 <= font_size_px,
                (font_size_px as u64) == font_size_px as int,
        ;
    }
    ((value * (font_size_px as u64)) / (units_per_em as u64)) as i64
}

/// The characters of the half-open range `[start, end)` of `text`.
fn copy_char_range(text: &Vec<char>, start: usize, end: usize) -> (r: Vec<char>)
    requires
        start <= end <= text@.len(),
    ensures
        r@ == text@.subrange(start as int, end as int),
{
    let mut out: Vec<char> = Vec::new();
    let mut i: usize = start;
    while i < end
        invariant
            start <= i <= end <= text@.len(),
            out@ == text@.subrange(start as int, i as int),
        decreases end - i,
    {
        out.push(text[i]);
        proof {
            assert(out@ =~= text@.subrange(start as int, i as int + 1));
        }
        i += 1;
    }
    out
}

/// The shaped run of a character sequence, the empty run standing for a
/// shaping failure.
pub open spec fn spec_run_of(f: ParsedFont, chars: Seq<char>, script: u32, lang: u32) -> Seq<
    GlyphInfo,
> {
    match spec_shaped_run(f, chars, script, lang) {
        Option::Some(run) => run,
        Option::None => Seq::empty(),
    }
}

/// The pixel width the pipeline gives one word: the visual width of its
/// shaped run, saturated at the 32-bit range, scaled to pixels at the
/// font size, and clamped to the largest supported word width.
pub open spec fn spec_word_px(
    f: ParsedFont,
    chars: Seq<char>,
    script: u32,
    lang: u32,
    font_size_px: int,
) -> int {
    let run = spec_run_of(f, chars, script, lang);
    let unscaled = spec_word_width(run, run.len() as int);
    let capped: int = if unscaled > 0xFFFF_FFFF {
        0xFFFF_FFFF
    } else {
        unscaled
    };
    let scaled = capped * font_size_px / (f.font_metrics.units_per_em as int);
    if scaled > MAX_WORD_PX as int {
        MAX_WORD_PX as int
    } else {
        scaled
    }
}

/// One scaled width per word run of `items`, in order.
pub open spec fn spec_scaled_word_widths(
    f: ParsedFont,
    text: Seq<char>,
    items: Seq<Word>,
    n: int,
    script: u32,
    lang: u32,
    font_size_px: int,
) -> Seq<i64>
    decreases n,
{
    if n <= 0 {
        Seq::empty()
    } else {
        let rest = spec_scaled_word_widths(f, text, items, n - 1, script, lang, font_size_px);
        if items[n - 1].word_type is Word {
            rest.push(
                spec_word_px(
                    f,
                    text.subrange(items[n - 1].start as int, items[n - 1].end as int),
                    script,
                    lang,
                    font_size_px,
                ) as i64,
            )
        } else {
            rest
        }
    }
}

/// The pixel advance the pipeline gives the inter-word gap: the scaled
/// advance of the glyph the font maps the space character to (0 font
/// units when the metrics tables cannot give that glyph an advance),
/// clamped to the largest supported word width.
pub open spec fn spec_space_advance_px(f: ParsedFont, font_size_px: int) -> int {
    let glyph = spec_cmap_lookup(cmap_contents(f.cmap_subtable), ' ' as u32);
    let units: int = match spec_get_advance(f, glyph) {
        Option::Some(a) => a.0 as int,
        Option::None => 0,
    };
    let scaled = units * font_size_px / (f.font_metrics.units_per_em as int);
    if scaled > MAX_WORD_PX as int {
        MAX_WORD_PX as int
    } else {
        scaled
    }
}

/// Shapes every word run of a split text against the font and scales the
/// shaped widths to pixels at the given font size.
///
/// The result holds exactly one width per word run, in order: the
/// scaled, clamped visual width of that word's shaped run, plus the
/// scaled advance of the space glyph for the gaps.
pub fn shape_words(
    font: &ParsedFont,
    text: &Vec<char>,
    words: &Words,
    script: u32,
    lang: u32,
    font_size_px: i64,
) -> (r: ScaledWords)
    requires
        0 < font_size_px <= MAX_FONT_PX,
        font.wf(),
        forall|i: int| 0 <= i < words.items@.len() ==> word_item_ok(text@, #[trigger] words.items@[i]),
    ensures
        r.word_widths@.len() == spec_word_item_count(words.items@, words.items@.len() as int),
        r.word_widths@ == spec_scaled_word_widths(
            *font,
            text@,
            words.items@,
            words.items@.len() as int,
            script,
            lang,
            font_size_px as int,
        ),
        r.space_advance_px as int == spec_space_advance_px(*font, font_size_px as int),
        forall|i: int|
            0 <= i < r.word_widths@.len() ==> 0 <= #[trigger] r.word_widths@[i] <= MAX_WORD_PX,
        0 <= r.space_advance_px <= MAX_WORD_PX,
{
    let units_per_em = font.font_metrics.units_per_em;
    let space_glyph = font.lookup_glyph_index(' ' as u32);
    let space_units: u16 = match font.get_advance(space_glyph) {
        Some((h, _)) => h,
        None => 0,
    };
    let scaled_space = scale_font_unit(space_units, font_size_px, units_per_em);
    let space_advance_px = if scaled_space > MAX_WORD_PX {
        MAX_WORD_PX
    } else {
        scaled_space
    };

    let mut word_widths: Vec<i64> = Vec::new();
    let mut i: usize = 0;
    while i < words.items.len()
        invariant
            0 <= i <= words.items@.len(),
            0 < font_size_px <= MAX_FONT_PX,
            font.wf(),
            units_per_em == font.font_metrics.units_per_em,
            forall|j: int|
                0 <= j < words.items@.len() ==> word_item_ok(text@, #[trigger] words.items@[j]),
            word_widths@.len() == spec_word_item_count(words.items@, i as int),
            word_widths@ == spec_scaled_word_widths(
                *font,
                text@,
                words.items@,
                i as int,
                script,
                lang,
                font_size_px as int,
            ),
            forall|j: int|
                0 <= j < word_widths@.len() ==> 0 <= #[trigger] word_widths@[j] <= MAX_WORD_PX,
        decreases words.items@.len() - i,
    {
        let item = words.items[i];
        match item.word_type {
            WordType::Word => {
                assert(word_item_ok(text@, words.items@[i as int]));
                let chars = copy_char_range(text, item.start, item.end);
                let run = font.shape(&chars, script, lang);
                let unscaled = run.get_word_visual_width_unscaled();
                let clamped: u64 = if unscaled > 0xFFFF_FFFFusize {
                    0xFFFF_FFFFu64
                } else {
                    unscaled as u64
                };
                proof {
                    let srun = spec_run_of(*font, chars@, script, lang);
                    lemma_word_width_nonneg(srun, srun.len() as int);
                    assert(run.infos@ == srun);
                    assert(clamped as int == (if spec_word_width(srun, srun.len() as int)
                        > 0xFFFF_FFFF {
                        0xFFFF_FFFFint
                    } else {
                        spec_word_width(srun, srun.len() as int)
                    }));
                }
                let scaled = scale_wide_font_units(clamped, font_size_px, units_per_em);
                let width = if scaled > MAX_WORD_PX {
                    MAX_WORD_PX
                } else {
                    scaled
                };
                proof {
                    assert(width as int == spec_word_px(
                        *font,
                        chars@,
                        script,
                        lang,
                        font_size_px as int,
                    ));
                }
                word_widths.push(width);
            },
            _ => {},
        }
        i += 1;
    }
    proof {
        assert(space_advance_px as int == spec_space_advance_px(*font, font_size_px as int));
    }
    ScaledWords { word_widths, space_advance_px }
}

/// Lays the text of one node out end to end: splits it into words,
/// shapes and scales each word, and breaks the words into aligned-ready
/// lines under the given options.  The returned line layout satisfies
/// the full line-breaker contract over the returned word widths.
pub fn layout_text_node(
    font: &ParsedFont,
    text: &Vec<char>,
    options: &ResolvedTextLayoutOptions,
    script: u32,
    lang: u32,
) -> (r: (Words, ScaledWords, InlineTextLayout))
    requires
        font.wf(),
        options.wf(),
        text@.len() <= MAX_WORDS,
    ensures
        words_tile(r.0.items@, text@.len() as int),
        forall|i: int| 0 <= i < r.0.items@.len() ==> word_item_ok(text@, #[trigger] r.0.items@[i]),
        r.1.word_widths@.len() == spec_word_item_count(r.0.items@, r.0.items@.len() as int),
        r.1.word_widths@ == spec_scaled_word_widths(
            *font,
            text@,
            r.0.items@,
            r.0.items@.len() as int,
            script,
            lang,
            options.font_size_px as int,
        ),
        r.1.space_advance_px as int == spec_space_advance_px(*font, options.font_size_px as int),
        (r.2.lines@.len() == 0) <==> (r.1.word_widths@.len() == 0),
        r.1.word_widths@.len() > 0 ==> spec_lines_ok(
            r.2.lines@,
            r.1.word_widths@,
            options.spec_space_px(r.1.space_advance_px as int),
            options.spec_line_height_px(),
            options.spec_leading_px(),
            options.max_horizontal_width,
        ),
{
    let words = split_text_into_words(text);
    proof {
        assert forall|j: int| 0 <= j < words.items@.len() implies (#[trigger] words.items@[j].start)
            < words.items@[j].end by {
            assert(word_item_ok(text@, words.items@[j]));
        }
        lemma_words_item_count_le_text(words.items@, text@.len() as int);
    }
    let scaled = shape_words(font, text, &words, script, lang, options.font_size_px);
    proof {
        assert(words_bounded(scaled.word_widths@));
    }
    let layout = layout_words(&scaled.word_widths, scaled.space_advance_px, options);
    (words, scaled, layout)
}

/// A tiling of `n` characters has at most `n` items: the starts climb by
/// at least one per item.
proof fn lemma_item_starts_climb(items: Seq<Word>, i: int)
    requires
        forall|j: int| 0 < j < items.len() ==> (#[trigger] items[j].start) == items[j - 1].end,
        forall|j: int| 0 <= j < items.len() ==> (#[trigger] items[j].start) < items[j].end,
        0 <= i < items.len(),
    ensures
        items[i].start >= i,
    decreases i,
{
    if i > 0 {
        lemma_item_starts_climb(items, i - 1);
        assert(items[i].start == items[i - 1].end);
    }
}

proof fn lemma_words_item_count_le_text(items: Seq<Word>, n: int)
    requires
        words_tile(items, n),
        forall|j: int| 0 <= j < items.len() ==> (#[trigger] items[j].start) < items[j].end,
        0 <= n,
    ensures
        items.len() <= n,
        spec_word_item_count(items, items.len() as int) <= n,
{
    if items.len() > 0 {
        let last = items.len() - 1;
        lemma_item_starts_climb(items, last);
        assert(items[last].start >= last);
        assert(items[last].end == n);
        assert(items[last].start < items[last].end);
    }
    lemma_word_item_count_bounds(items, items.len() as int);
}

} // verus!
