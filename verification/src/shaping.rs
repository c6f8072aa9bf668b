//! Font shaping: loading the binary tables of a font face, mapping
//! characters to glyphs through the cmap subtable, applying glyph
//! substitution and positioning, and computing advances from the raw
//! horizontal and vertical metrics tables.
//!
//! Substitution and positioning run in the `allsorts` crate behind
//! trusted wrappers; character-to-glyph mapping with variation-selector
//! handling, advance computation from the raw hmtx/vmtx bytes, and the
//! assembly of the shaped run are verified.  Shaping is all-or-nothing:
//! any stage failure yields an empty run, never a partial one.

use vstd::prelude::*;

use std::sync::Arc;

use allsorts::binary::read::ReadScope;
use allsorts::font_data::FontData;
use allsorts::gsub::FeatureMaskExt;
use allsorts::layout::{LayoutCache, GDEFTable, GPOS, GSUB};
use allsorts::tables::cmap::owned::CmapSubtable as OwnedCmapSubtable;
use allsorts::tables::cmap::CmapSubtable;
use allsorts::tables::FontTableProvider;
use allsorts::tables::HheaTable;
use allsorts::tables::MaxpTable;
use allsorts::gpos::Placement as P;
use allsorts::gsub::RawGlyphFlag as Rgf;
use allsorts::gsub as ag;

use crate::font_metrics::{
    parsed_hhea, read_hhea, spec_font_metrics, FontMetrics, HheaFields,
};

verus! {

/// Largest number of glyphs one shaped run may hold; substitution that
/// grows a run past this counts as a shaping failure.
pub const MAX_SHAPED_GLYPHS: usize = 0x10_0000;

/// The `hmtx` table tag.
pub const TAG_HMTX: u32 = 0x686D_7478;

/// The `vmtx` table tag.
pub const TAG_VMTX: u32 = 0x766D_7478;

/// One contiguous range of a sequential (format 12) character-to-glyph
/// mapping: the glyph ids of the range start at `start_glyph_id`.
#[derive(Debug, Copy, Clone, PartialEq, Eq, Structural)]
pub struct SequentialMapGroup {
    pub start_char_code: u32,
    pub end_char_code: u32,
    pub start_glyph_id: u32,
}

/// The font's substitution-lookup cache, held opaquely: nothing of what
/// is inside is visible to the proofs.
#[verifier::external_body]
pub struct GsubCache {
    inner: LayoutCache<GSUB>,
}

/// The font's positioning-lookup cache, held opaquely.
#[verifier::external_body]
pub struct GposCache {
    inner: LayoutCache<GPOS>,
}

#[verifier::external_type_specification]
#[verifier::external_body]
pub struct ExGdefTable(GDEFTable);

#[verifier::external_type_specification]
#[verifier::external_body]
pub struct ExOwnedCmapSubtable(OwnedCmapSubtable);

#[verifier::external_type_specification]
#[verifier::external_body]
#[verifier::reject_recursive_types(T)]
pub struct ExShapingRawGlyph<T>(allsorts::gsub::RawGlyph<T>);

#[verifier::external_type_specification]
#[verifier::external_body]
pub struct ExShapingInfo(allsorts::gpos::Info);

#[verifier::external_type_specification]
#[verifier::external_body]
pub struct ExShapingPlacement(allsorts::gpos::Placement);

#[verifier::external_type_specification]
#[verifier::external_body]
pub struct ExShapingAnchor(allsorts::layout::Anchor);

#[verifier::external_type_specification]
#[verifier::external_body]
pub struct ExShapingVariationSelector(allsorts::unicode::VariationSelector);

/// A Unicode variation selector attached to its preceding base
/// character.
#[derive(Debug, Copy, Clone, PartialEq, Eq, Structural)]
pub enum VarSelector {
    VS01,
    VS02,
    VS03,
    VS15,
    VS16,
}

/// Where a glyph came from: a character of the input, or directly from a
/// substitution rule.
#[derive(Debug, Copy, Clone, PartialEq, Eq, Structural)]
pub enum GlyphOrigin {
    Char(char),
    Direct,
}

/// An attachment point in font units.
#[derive(Debug, Copy, Clone, PartialEq, Eq, Structural)]
pub struct GlyphAnchor {
    pub x: i16,
    pub y: i16,
}

/// How positioning placed a non-mark glyph.  `NotPlaced` is the ordinary
/// case: the glyph sits at the pen position.
#[derive(Debug, Copy, Clone, PartialEq, Eq, Structural)]
pub enum GlyphPlacement {
    NotPlaced,
    /// Offset from the pen position by (delta x, delta y).
    Distance(i32, i32),
    /// Cursive attachment: (exit glyph index, right-to-left flag, exit
    /// anchor, entry anchor).
    CursiveAnchor(usize, bool, GlyphAnchor, GlyphAnchor),
}

/// How positioning attached a mark glyph to its base.
#[derive(Debug, Copy, Clone, PartialEq, Eq, Structural)]
pub enum MarkPlacement {
    NotAttached,
    /// (base glyph index, base anchor, mark anchor).
    MarkAnchor(usize, GlyphAnchor, GlyphAnchor),
    /// The mark is shown at the position of the base glyph.
    MarkOverprint(usize),
}

/// One glyph of a run: fresh from the character mapping, or the output
/// of the substitution stage (which may set the style flags, `ligature`
/// among them).
#[derive(Debug, Copy, Clone, PartialEq, Eq, Structural)]
pub struct MappedGlyph {
    pub unicode: char,
    pub glyph_index: u16,
    pub liga_component_pos: u16,
    pub glyph_origin: GlyphOrigin,
    pub small_caps: bool,
    pub multi_subst_dup: bool,
    pub is_vert_alt: bool,
    pub ligature: bool,
    pub fake_bold: bool,
    pub fake_italic: bool,
    pub variation: Option<VarSelector>,
}

/// One record after positioning: the substituted glyph, the kerning the
/// positioning stage chose for it, and how it was placed.
#[derive(Debug, Copy, Clone, PartialEq, Eq, Structural)]
pub struct PositionedGlyph {
    pub glyph: MappedGlyph,
    pub kerning: i16,
    pub placement: GlyphPlacement,
    pub mark_placement: MarkPlacement,
}

/// The advances of one glyph, in unscaled font units, plus the kerning
/// adjustment positioning chose.
#[derive(Debug, Copy, Clone, PartialEq, Eq, Structural)]
pub struct Advance {
    pub x: u16,
    pub y: u16,
    pub kerning: i16,
}

impl Advance {
    /// The horizontal space the glyph takes, kerning included, floored
    /// at zero.
    pub open spec fn spec_x_total_unscaled(self) -> int {
        if self.x + self.kerning >= 0 {
            self.x + self.kerning
        } else {
            0
        }
    }

    pub fn get_x_total_unscaled(&self) -> (r: i64)
        ensures
            r as int == self.spec_x_total_unscaled(),
    {
        let total: i64 = (self.x as i64) + (self.kerning as i64);
        if total >= 0 {
            total
        } else {
            0
        }
    }
}

/// One glyph of a shaped run: the glyph, its advances, and how it was
/// placed.
#[derive(Debug, Copy, Clone, PartialEq, Eq, Structural)]
pub struct GlyphInfo {
    pub glyph: MappedGlyph,
    pub size: Advance,
    pub placement: GlyphPlacement,
    pub mark_placement: MarkPlacement,
    pub is_mark: bool,
}

/// A shaped glyph run: glyph records in final visual order.  Empty on
/// shaping failure, never partial.
#[derive(Debug, Clone, PartialEq)]
pub struct ShapedTextBufferUnsized {
    pub infos: Vec<GlyphInfo>,
}

impl Default for ShapedTextBufferUnsized {
    fn default() -> (r: Self)
        ensures
            r.infos@ == Seq::<GlyphInfo>::empty(),
    {
        ShapedTextBufferUnsized { infos: Vec::new() }
    }
}

/// The total horizontal extent of the first `n` glyphs of a run, in
/// unscaled font units, kerning included.
pub open spec fn spec_word_width(s: Seq<GlyphInfo>, n: int) -> int
    decreases n,
{
    if n <= 0 {
        0
    } else {
        spec_word_width(s, n - 1) + s[n - 1].size.spec_x_total_unscaled()
    }
}

impl ShapedTextBufferUnsized {
    /// The word width in unscaled font units (respects kerning), summed
    /// over all glyphs; saturates at the machine limit.
    pub fn get_word_visual_width_unscaled(&self) -> (r: usize)
        ensures
            r == if spec_word_width(self.infos@, self.infos@.len() as int) <= usize::MAX as int {
                spec_word_width(self.infos@, self.infos@.len() as int)
            } else {
                usize::MAX as int
            },
    {
        let mut acc: usize = 0;
        let mut i: usize = 0;
        while i < self.infos.len()
            invariant
                0 <= i <= self.infos@.len(),
                acc == if spec_word_width(self.infos@, i as int) <= usize::MAX as int {
                    spec_word_width(self.infos@, i as int)
                } else {
                    usize::MAX as int
                },
            decreases self.infos@.len() - i,
        {
            proof {
                lemma_word_width_nonneg(self.infos@, i as int);
            }
            let item = self.infos[i].size.get_x_total_unscaled();
            let v: usize = if item >= 0 {
                item as usize
            } else {
                0
            };
            assert(v as int == self.infos@[i as int].size.spec_x_total_unscaled());
            if acc > usize::MAX - v {
                acc = usize::MAX;
            } else {
                acc = acc + v;
            }
            i += 1;
        }
        acc
    }
}

/// A run's visual width is never negative: every glyph contributes its
/// advance floored at zero.
pub proof fn lemma_word_width_nonneg(s: Seq<GlyphInfo>, n: int)
    ensures
        spec_word_width(s, n) >= 0,
    decreases n,
{
    if n > 0 {
        lemma_word_width_nonneg(s, n - 1);
    }
}

/// The character-to-glyph mapping an owned cmap subtable encodes: the
/// graph of its successful lookups.  A pure function of the subtable.
pub uninterp spec fn cmap_contents(cmap: OwnedCmapSubtable) -> Map<u32, u16>;

/// Every lookup on the subtable computes: no sequential (format 12)
/// mapping group runs past the glyph-id range, so the lookup's glyph-id
/// arithmetic cannot overflow.  The loader establishes this by rejecting
/// every other subtable.
pub uninterp spec fn cmap_lookup_total(cmap: OwnedCmapSubtable) -> bool;

/// Looking a character up in a cmap mapping: its glyph id, or 0 (the
/// notdef glyph) when the character is unmapped.
pub open spec fn spec_cmap_lookup(m: Map<u32, u16>, c: u32) -> u16 {
    if m.dom().contains(c) {
        m[c]
    } else {
        0u16
    }
}

/// Relies on the owned cmap subtable's `map_glyph`: looks one character
/// up in the mapping the subtable encodes; unmapped characters (and
/// lookups the subtable cannot answer) give glyph 0.  A sequential
/// mapping group that runs past the glyph-id range would make the lookup
/// overflow, so only subtables whose lookups are total are admitted.
#[verifier::external_body]
fn cmap_lookup(cmap: &OwnedCmapSubtable, c: u32) -> (r: u16)
    requires
        cmap_lookup_total(*cmap),
    ensures
        r == spec_cmap_lookup(cmap_contents(*cmap), c),
{
    match cmap.map_glyph(c) {
        Ok(Some(g)) => g,
        _ => 0,
    }
}

/// The raw bytes of the table tagged `table_tag` of face `font_index`,
/// absent when the file, face or table cannot be read.  A pure function
/// of the bytes.
pub uninterp spec fn raw_table(font_bytes: Seq<u8>, font_index: int, table_tag: u32) -> Option<
    Seq<u8>,
>;

/// The vhea fields of a face, absent when unreadable.
pub uninterp spec fn parsed_vhea(font_bytes: Seq<u8>, font_index: int) -> Option<HheaFields>;

/// The glyph count of a face's maxp table, absent when unreadable.
pub uninterp spec fn parsed_num_glyphs(font_bytes: Seq<u8>, font_index: int) -> Option<u16>;

/// The substitution-lookup cache of a face, absent when the file, the
/// face or its GSUB table cannot be read.  A pure function of the bytes.
pub uninterp spec fn parsed_gsub_cache(font_bytes: Seq<u8>, font_index: int) -> Option<GsubCache>;

/// The positioning-lookup cache of a face, absent when unreadable.
pub uninterp spec fn parsed_gpos_cache(font_bytes: Seq<u8>, font_index: int) -> Option<GposCache>;

/// The shared glyph-definition table of a face, absent when unreadable.
pub uninterp spec fn parsed_gdef_table(font_bytes: Seq<u8>, font_index: int) -> Option<
    Arc<GDEFTable>,
>;

/// The owned cmap subtable of a face, absent when the file or the
/// subtable cannot be read or when the loader rejects the subtable for a
/// malformed or overflowing mapping group.  A pure function of the
/// bytes.
pub uninterp spec fn parsed_cmap_subtable(font_bytes: Seq<u8>, font_index: int) -> Option<
    OwnedCmapSubtable,
>;

/// Relies on allsorts `FontData` parsing: hands out the raw bytes of one
/// table of the face.
#[verifier::external_body]
fn read_table_bytes(font_bytes: &[u8], font_index: usize, table_tag: u32) -> (r: Option<Vec<u8>>)
    ensures
        match r {
            Option::Some(v) => raw_table(font_bytes@, font_index as int, table_tag)
                == Option::Some(v@),
            Option::None => raw_table(font_bytes@, font_index as int, table_tag) is None,
        },
{
    let font_file = ReadScope::new(font_bytes).read::<FontData<'_>>().ok()?;
    let provider = font_file.table_provider(font_index).ok()?;
    let data = provider.table_data(table_tag).ok()??;
    Some(data.into_owned())
}

/// Relies on allsorts `HheaTable` parsing: reads the vhea table of the
/// face (it shares the hhea layout), a pure function of the bytes.
#[verifier::external_body]
fn read_vhea(font_bytes: &[u8], font_index: usize) -> (r: Option<HheaFields>)
    ensures
        r == parsed_vhea(font_bytes@, font_index as int),
{
    let font_file = ReadScope::new(font_bytes).read::<FontData<'_>>().ok()?;
    let provider = font_file.table_provider(font_index).ok()?;
    let data = provider.table_data(allsorts::tag::VHEA).ok()??;
    let h = ReadScope::new(&data).read::<HheaTable>().ok()?;
    Some(HheaFields {
        ascender: h.ascender, descender: h.descender, line_gap: h.line_gap,
        advance_width_max: h.advance_width_max,
        min_left_side_bearing: h.min_left_side_bearing,
        min_right_side_bearing: h.min_right_side_bearing, x_max_extent: h.x_max_extent,
        caret_slope_rise: h.caret_slope_rise, caret_slope_run: h.caret_slope_run,
        caret_offset: h.caret_offset, num_h_metrics: h.num_h_metrics,
    })
}

/// Relies on allsorts `MaxpTable` parsing: reads the glyph count of the
/// face, a pure function of the bytes.
#[verifier::external_body]
fn read_maxp_num_glyphs(font_bytes: &[u8], font_index: usize) -> (r: Option<u16>)
    ensures
        r == parsed_num_glyphs(font_bytes@, font_index as int),
{
    let font_file = ReadScope::new(font_bytes).read::<FontData<'_>>().ok()?;
    let provider = font_file.table_provider(font_index).ok()?;
    let data = provider.read_table_data(allsorts::tag::MAXP).ok()?;
    let t = ReadScope::new(&data).read::<MaxpTable>().ok()?;
    Some(t.num_glyphs)
}

/// Relies on allsorts `Font::gsub_cache`: parses the face's GSUB table
/// into a lookup cache, absent when the table is missing or malformed.
#[verifier::external_body]
fn load_gsub_cache(font_bytes: &[u8], font_index: usize) -> (r: Option<GsubCache>)
    ensures
        r == parsed_gsub_cache(font_bytes@, font_index as int),
{
    let font_file = ReadScope::new(font_bytes).read::<FontData<'_>>().ok()?;
    let provider = font_file.table_provider(font_index).ok()?;
    let mut font = allsorts::font::Font::new(provider).ok()?;
    Some(GsubCache { inner: font.gsub_cache().ok()?? })
}

/// Relies on allsorts `Font::gpos_cache`: parses the face's GPOS table
/// into a lookup cache, absent when the table is missing or malformed.
#[verifier::external_body]
fn load_gpos_cache(font_bytes: &[u8], font_index: usize) -> (r: Option<GposCache>)
    ensures
        r == parsed_gpos_cache(font_bytes@, font_index as int),
{
    let font_file = ReadScope::new(font_bytes).read::<FontData<'_>>().ok()?;
    let provider = font_file.table_provider(font_index).ok()?;
    let mut font = allsorts::font::Font::new(provider).ok()?;
    Some(GposCache { inner: font.gpos_cache().ok()?? })
}

/// Relies on allsorts `Font::gdef_table`: parses the face's GDEF table,
/// shared read-only between substitution and positioning.
#[verifier::external_body]
fn load_gdef_table(font_bytes: &[u8], font_index: usize) -> (r: Option<Arc<GDEFTable>>)
    ensures
        r == parsed_gdef_table(font_bytes@, font_index as int),
{
    let font_file = ReadScope::new(font_bytes).read::<FontData<'_>>().ok()?;
    let provider = font_file.table_provider(font_index).ok()?;
    let mut font = allsorts::font::Font::new(provider).ok()?;
    font.gdef_table().ok()?
}

/// A big-endian 32-bit read at `off`.
pub open spec fn spec_u32_be(data: Seq<u8>, off: int) -> u32 {
    (data[off] * 0x100_0000 + data[off + 1] * 0x1_0000 + data[off + 2] * 0x100 + data[off
        + 3]) as u32
}

fn read_u32_be(data: &Vec<u8>, off: usize) -> (r: u32)
    requires
        off + 3 < data@.len(),
    ensures
        r == spec_u32_be(data@, off as int),
{
    // the vector's length fits a machine word, so the offsets cannot wrap
    let _n = data.len();
    (data[off] as u32) * 0x100_0000 + (data[off + 1] as u32) * 0x1_0000 + (data[off + 2] as u32)
        * 0x100 + (data[off + 3] as u32)
}

/// Mapping group at offset `o` of a sequential cmap subtable is
/// admissible: its character range is ordered and its glyph ids stay
/// within the 32-bit range, so a lookup in the group cannot overflow.
pub open spec fn spec_cmap_group_admissible(data: Seq<u8>, o: int) -> bool {
    let start = spec_u32_be(data, o);
    let end = spec_u32_be(data, o + 4);
    let glyph = spec_u32_be(data, o + 8);
    start <= end && glyph + (end - start) <= u32::MAX
}

/// The raw subtable's lookups cannot overflow: every mapping group of a
/// sequential (format 12) subtable is admissible.  Subtables of the
/// other formats look glyphs up without unchecked arithmetic, so they
/// are admissible as they stand.
pub open spec fn spec_cmap_groups_admissible(data: Seq<u8>) -> bool {
    if data.len() < 2 || spec_u16_be(data, 0) != 12 {
        true
    } else if data.len() < 16 {
        false
    } else {
        let n = spec_u32_be(data, 12) as int;
        &&& data.len() >= 16 + 12 * n
        &&& forall|k: int| 0 <= k < n ==> #[trigger] spec_cmap_group_admissible(data, 16 + 12 * k)
    }
}

/// Checks the raw bytes of a cmap subtable: a sequential (format 12)
/// subtable passes only when every one of its mapping groups is ordered
/// and free of glyph-id overflow; every other format passes as it
/// stands.
pub fn cmap_groups_admissible(data: &Vec<u8>) -> (r: bool)
    ensures
        r == spec_cmap_groups_admissible(data@),
{
    let len = data.len();
    if len < 2 {
        return true;
    }
    if read_u16_be(data, 0) != 12 {
        return true;
    }
    if len < 16 {
        return false;
    }
    let n = read_u32_be(data, 12);
    if (len as u64) < 16u64 + 12u64 * (n as u64) {
        return false;
    }
    let n = n as usize;
    let mut k: usize = 0;
    while k < n
        invariant
            0 <= k <= n,
            len == data@.len(),
            2 <= data@.len(),
            16 <= data@.len(),
            spec_u16_be(data@, 0) == 12,
            n as int == spec_u32_be(data@, 12) as int,
            data@.len() >= 16 + 12 * n,
            forall|j: int| 0 <= j < k ==> #[trigger] spec_cmap_group_admissible(data@, 16 + 12 * j),
        decreases n - k,
    {
        let o = 16 + 12 * k;
        let start = read_u32_be(data, o);
        let end = read_u32_be(data, o + 4);
        let glyph = read_u32_be(data, o + 8);
        if start > end {
            proof {
                assert(!spec_cmap_group_admissible(data@, 16 + 12 * (k as int)));
            }
            return false;
        }
        if glyph > u32::MAX - (end - start) {
            proof {
                assert(!spec_cmap_group_admissible(data@, 16 + 12 * (k as int)));
            }
            return false;
        }
        proof {
            assert(spec_cmap_group_admissible(data@, 16 + 12 * (k as int)));
        }
        k += 1;
    }
    true
}

/// The raw bytes of the preferred cmap subtable of a face (starting at
/// its format word), absent when the file, the face or its cmap cannot
/// be read.  A pure function of the bytes.
pub uninterp spec fn raw_cmap_subtable(font_bytes: Seq<u8>, font_index: int) -> Option<Seq<u8>>;

/// Relies on allsorts `Font::cmap_subtable_data`: hands out the raw
/// bytes of the face's preferred cmap subtable.
#[verifier::external_body]
fn read_cmap_subtable_bytes(font_bytes: &[u8], font_index: usize) -> (r: Option<Vec<u8>>)
    ensures
        match r {
            Option::Some(v) => raw_cmap_subtable(font_bytes@, font_index as int) == Option::Some(
                v@,
            ),
            Option::None => raw_cmap_subtable(font_bytes@, font_index as int) is None,
        },
{
    let font_file = ReadScope::new(font_bytes).read::<FontData<'_>>().ok()?;
    let provider = font_file.table_provider(font_index).ok()?;
    let font = allsorts::font::Font::new(provider).ok()?;
    Some(font.cmap_subtable_data().to_vec())
}

/// Relies on allsorts cmap parsing: reads the face's preferred cmap
/// subtable into its owned form.  The parsed mapping groups are read
/// verbatim from the subtable bytes, so when those bytes pass the
/// sequential-group admissibility check, every lookup on the parsed
/// subtable computes without overflow.
#[verifier::external_body]
fn load_cmap_subtable(font_bytes: &[u8], font_index: usize) -> (r: Option<OwnedCmapSubtable>)
    requires
        match raw_cmap_subtable(font_bytes@, font_index as int) {
            Option::Some(d) => spec_cmap_groups_admissible(d),
            Option::None => true,
        },
    ensures
        r == parsed_cmap_subtable(font_bytes@, font_index as int),
        match r {
            Option::Some(c) => cmap_lookup_total(c),
            Option::None => true,
        },
{
    let font_file = ReadScope::new(font_bytes).read::<FontData<'_>>().ok()?;
    let provider = font_file.table_provider(font_index).ok()?;
    let font = allsorts::font::Font::new(provider).ok()?;
    ReadScope::new(font.cmap_subtable_data()).read::<CmapSubtable<'_>>().ok()?.to_owned()
}

/// One loaded, immutable font face: metrics, glyph count, the raw
/// horizontal and vertical metrics tables, the substitution and
/// positioning caches, the shared glyph-definition table and the
/// character mapping.  Never mutated after construction.
pub struct ParsedFont {
    pub font_metrics: FontMetrics,
    pub num_glyphs: u16,
    pub hhea: HheaFields,
    pub hmtx_data: Vec<u8>,
    pub vhea: HheaFields,
    pub vmtx_data: Vec<u8>,
    pub gsub_cache: GsubCache,
    pub gpos_cache: GposCache,
    pub gdef_table: Arc<GDEFTable>,
    pub cmap_subtable: OwnedCmapSubtable,
}

/// A big-endian 16-bit read at `off`.
pub open spec fn spec_u16_be(data: Seq<u8>, off: int) -> u16 {
    (data[off] * 256 + data[off + 1]) as u16
}

fn read_u16_be(data: &Vec<u8>, off: usize) -> (r: u16)
    requires
        off + 1 < data@.len(),
    ensures
        r == spec_u16_be(data@, off as int),
{
    // the vector's length fits a machine word, so `off + 1` cannot wrap
    let _n = data.len();
    (data[off] as u16) * 256 + (data[off + 1] as u16)
}

/// The advance of glyph `glyph` by a metrics table of `num_metrics`
/// entries over `num_glyphs` glyphs, exactly as the binary format
/// defines it: a glyph outside the font advances 0; a table too short to
/// parse gives nothing; a glyph at or past `num_metrics` reuses the last
/// entry; a table without entries gives nothing.
pub open spec fn spec_hmtx_advance(
    num_glyphs: u16,
    num_metrics: u16,
    data: Seq<u8>,
    glyph: u16,
) -> Option<u16> {
    let lsb_count: int = if num_glyphs >= num_metrics {
        num_glyphs - num_metrics
    } else {
        0
    };
    if glyph >= num_glyphs {
        Option::Some(0u16)
    } else if data.len() < 4 * num_metrics + 2 * lsb_count {
        Option::None
    } else if glyph < num_metrics {
        Option::Some(spec_u16_be(data, 4 * glyph))
    } else if num_metrics > 0 {
        Option::Some(spec_u16_be(data, 4 * (num_metrics - 1)))
    } else {
        Option::None
    }
}

/// Computes a glyph advance from the raw bytes of an hmtx or vmtx table.
pub fn hmtx_advance(num_glyphs: u16, num_metrics: u16, data: &Vec<u8>, glyph: u16) -> (r: Option<
    u16,
>)
    ensures
        r == spec_hmtx_advance(num_glyphs, num_metrics, data@, glyph),
{
    if glyph >= num_glyphs {
        return Some(0);
    }
    let lsb_count: usize = if num_glyphs >= num_metrics {
        (num_glyphs - num_metrics) as usize
    } else {
        0
    };
    let needed: usize = 4 * (num_metrics as usize) + 2 * lsb_count;
    if data.len() < needed {
        return None;
    }
    if glyph < num_metrics {
        Some(read_u16_be(data, 4 * (glyph as usize)))
    } else if num_metrics > 0 {
        Some(read_u16_be(data, 4 * ((num_metrics - 1) as usize)))
    } else {
        None
    }
}

/// The horizontal and vertical advances of a glyph, as the font's
/// metrics tables define them; nothing when either table is malformed.
pub open spec fn spec_get_advance(f: ParsedFont, glyph_index: u16) -> Option<(u16, u16)> {
    match (
        spec_hmtx_advance(f.num_glyphs, f.hhea.num_h_metrics, f.hmtx_data@, glyph_index),
        spec_hmtx_advance(f.num_glyphs, f.vhea.num_h_metrics, f.vmtx_data@, glyph_index),
    ) {
        (Option::Some(h), Option::Some(v)) => Option::Some((h, v)),
        _ => Option::None,
    }
}

/// Whether the GDEF table classifies a glyph as a mark.  A pure function
/// of the shared table.
pub uninterp spec fn gdef_mark(gdef: Arc<GDEFTable>, glyph: u16) -> bool;

/// Whether `c` is a Unicode variation selector this shaper handles.
pub open spec fn spec_is_variation_selector(c: char) -> bool {
    c == '\u{FE00}' || c == '\u{FE01}' || c == '\u{FE02}' || c == '\u{FE0E}' || c == '\u{FE0F}'
}

/// The variation selector a character denotes, if any.
pub open spec fn spec_variation_selector(c: char) -> Option<VarSelector> {
    if c == '\u{FE00}' {
        Option::Some(VarSelector::VS01)
    } else if c == '\u{FE01}' {
        Option::Some(VarSelector::VS02)
    } else if c == '\u{FE02}' {
        Option::Some(VarSelector::VS03)
    } else if c == '\u{FE0E}' {
        Option::Some(VarSelector::VS15)
    } else if c == '\u{FE0F}' {
        Option::Some(VarSelector::VS16)
    } else {
        Option::None
    }
}

pub fn variation_selector_from_char(c: char) -> (r: Option<VarSelector>)
    ensures
        r == spec_variation_selector(c),
{
    if c == '\u{FE00}' {
        Some(VarSelector::VS01)
    } else if c == '\u{FE01}' {
        Some(VarSelector::VS02)
    } else if c == '\u{FE02}' {
        Some(VarSelector::VS03)
    } else if c == '\u{FE0E}' {
        Some(VarSelector::VS15)
    } else if c == '\u{FE0F}' {
        Some(VarSelector::VS16)
    } else {
        None
    }
}

/// The raw glyph the mapping stage makes for the character at `i`.
pub open spec fn spec_mapped_glyph(m: Map<u32, u16>, text: Seq<char>, i: int) -> MappedGlyph {
    MappedGlyph {
        unicode: text[i],
        glyph_index: spec_cmap_lookup(m, text[i] as u32),
        liga_component_pos: 0u16,
        glyph_origin: GlyphOrigin::Char(text[i]),
        small_caps: false,
        multi_subst_dup: false,
        is_vert_alt: false,
        ligature: false,
        fake_bold: false,
        fake_italic: false,
        variation: if i + 1 < text.len() {
            spec_variation_selector(text[i + 1])
        } else {
            Option::None
        },
    }
}

/// The glyphs mapped from the characters from index `i` on, appended to
/// `acc`: a variation selector never becomes a glyph of its own, it is
/// attached to the glyph of the character before it.
pub open spec fn spec_map_glyphs_from(
    m: Map<u32, u16>,
    text: Seq<char>,
    i: int,
    acc: Seq<MappedGlyph>,
) -> Seq<MappedGlyph>
    decreases text.len() - i,
{
    if i < 0 || i >= text.len() {
        acc
    } else if spec_is_variation_selector(text[i]) {
        spec_map_glyphs_from(m, text, i + 1, acc)
    } else {
        spec_map_glyphs_from(m, text, i + 1, acc.push(spec_mapped_glyph(m, text, i)))
    }
}

/// The glyph sequence the mapping stage produces for a text: a pure
/// function of the cmap contents and the characters.
pub open spec fn spec_mapped_glyphs(m: Map<u32, u16>, text: Seq<char>) -> Seq<MappedGlyph> {
    spec_map_glyphs_from(m, text, 0, Seq::empty())
}

/// Relies on allsorts `VarSelector::try_from(char)` being the
/// inverse classification of the same five selector characters.
#[verifier::external_body]
fn to_allsorts_variation(v: &VarSelector) -> (r: allsorts::unicode::VariationSelector) {
    match v {
        VarSelector::VS01 => allsorts::unicode::VariationSelector::VS01,
        VarSelector::VS02 => allsorts::unicode::VariationSelector::VS02,
        VarSelector::VS03 => allsorts::unicode::VariationSelector::VS03,
        VarSelector::VS15 => allsorts::unicode::VariationSelector::VS15,
        VarSelector::VS16 => allsorts::unicode::VariationSelector::VS16,
    }
}

/// Converts one allsorts variation selector to this crate's, one arm per
/// variant.
#[verifier::external_body]
fn from_allsorts_variation(v: &allsorts::unicode::VariationSelector) -> (r: VarSelector) {
    match v {
        allsorts::unicode::VariationSelector::VS01 => VarSelector::VS01,
        allsorts::unicode::VariationSelector::VS02 => VarSelector::VS02,
        allsorts::unicode::VariationSelector::VS03 => VarSelector::VS03,
        allsorts::unicode::VariationSelector::VS15 => VarSelector::VS15,
        allsorts::unicode::VariationSelector::VS16 => VarSelector::VS16,
    }
}

/// Converts one mapped glyph into the form the substitution stage takes,
/// moving each field over; the style booleans go back into the glyph
/// flags one for one.
#[verifier::external_body]
fn to_shaping_glyph(g: &MappedGlyph) -> (r: ag::RawGlyph<()>) {
    let mut unicodes: tinyvec::TinyVec<[char; 1]> = tinyvec::TinyVec::new();
    unicodes.push(g.unicode);
    let mut flags = ag::RawGlyphFlags::empty();
    flags.set(Rgf::SMALL_CAPS, g.small_caps); flags.set(Rgf::MULTI_SUBST_DUP, g.multi_subst_dup);
    flags.set(Rgf::IS_VERT_ALT, g.is_vert_alt); flags.set(Rgf::LIGATURE, g.ligature);
    flags.set(Rgf::FAKE_BOLD, g.fake_bold); flags.set(Rgf::FAKE_ITALIC, g.fake_italic);
    ag::RawGlyph {
        unicodes, glyph_index: g.glyph_index, liga_component_pos: g.liga_component_pos,
        glyph_origin: match g.glyph_origin {
            GlyphOrigin::Char(c) => ag::GlyphOrigin::Char(c),
            GlyphOrigin::Direct => ag::GlyphOrigin::Direct,
        },
        flags, variation: g.variation.as_ref().map(to_allsorts_variation), extra_data: (),
    }
}

/// The glyph run that the font's substitution rules turn `glyphs` into,
/// for the given script, language and dotted-circle glyph; absent when
/// applying the rules fails.  A pure function of the cache, the shared
/// GDEF table and the plain arguments: allsorts substitution consults
/// nothing else.
pub uninterp spec fn gsub_applied(
    cache: GsubCache,
    gdef: Arc<GDEFTable>,
    dotted_circle: u16,
    script: u32,
    lang: u32,
    num_glyphs: u16,
    glyphs: Seq<MappedGlyph>,
) -> Option<Seq<MappedGlyph>>;

/// The positioned records that initialising records from `glyphs` and
/// applying the font's positioning rules (kerning on) produce; absent
/// when applying the rules fails.  A pure function of the cache, the
/// shared GDEF table and the plain arguments.
pub uninterp spec fn gpos_applied(
    cache: GposCache,
    gdef: Arc<GDEFTable>,
    script: u32,
    lang: u32,
    glyphs: Seq<MappedGlyph>,
) -> Option<Seq<PositionedGlyph>>;

/// Relies on allsorts `gsub::apply` with the default feature set:
/// applies the font's glyph substitution rules (ligatures, contextual
/// forms) for the given script and language; the dotted-circle glyph
/// stands in for missing bases.  The substituted run is exactly
/// `gsub_applied` of the inputs, and failure is too.
#[verifier::external_body]
fn apply_gsub(
    font: &ParsedFont,
    dotted_circle_index: u16,
    script: u32,
    lang: u32,
    glyphs: &Vec<MappedGlyph>,
) -> (r: Option<Vec<MappedGlyph>>)
    ensures
        match r {
            Option::Some(v) => gsub_applied(
                font.gsub_cache,
                font.gdef_table,
                dotted_circle_index,
                script,
                lang,
                font.num_glyphs,
                glyphs@,
            ) == Option::Some(v@),
            Option::None => gsub_applied(
                font.gsub_cache,
                font.gdef_table,
                dotted_circle_index,
                script,
                lang,
                font.num_glyphs,
                glyphs@,
            ) is None,
        },
{
    let mut run: Vec<allsorts::gsub::RawGlyph<()>> = glyphs.iter().map(to_shaping_glyph).collect();
    allsorts::gsub::apply(dotted_circle_index, &font.gsub_cache.inner,
        Some(font.gdef_table.as_ref()), script, Some(lang),
        allsorts::gsub::FeatureMask::default_mask(), &[], None, font.num_glyphs,
        &mut run).ok()?;
    Some(run.iter().map(translate_raw_glyph).collect())
}

/// Relies on allsorts `Info::init_from_glyphs` and `gpos::apply` with
/// kerning enabled: wraps each substituted glyph into a positioning
/// record, consulting the shared GDEF table, and applies the font's
/// positioning rules (kerning, mark attachment) for the given script and
/// language.  The positioned records are exactly `gpos_applied` of the
/// inputs, and failure is too.
#[verifier::external_body]
fn apply_gpos(
    font: &ParsedFont,
    script: u32,
    lang: u32,
    glyphs: &Vec<MappedGlyph>,
) -> (r: Option<Vec<PositionedGlyph>>)
    ensures
        match r {
            Option::Some(v) => gpos_applied(
                font.gpos_cache,
                font.gdef_table,
                script,
                lang,
                glyphs@,
            ) == Option::Some(v@),
            Option::None => gpos_applied(
                font.gpos_cache,
                font.gdef_table,
                script,
                lang,
                glyphs@,
            ) is None,
        },
{
    let run: Vec<allsorts::gsub::RawGlyph<()>> = glyphs.iter().map(to_shaping_glyph).collect();
    let mut infos = allsorts::gpos::Info::init_from_glyphs(Some(font.gdef_table.as_ref()), run);
    allsorts::gpos::apply(&font.gpos_cache.inner, Some(font.gdef_table.as_ref()), None, true,
        allsorts::gsub::FeatureMask::default_mask(), &[], None, script, Some(lang),
        &mut infos).ok()?;
    Some(infos.iter().map(translate_positioned).collect())
}

/// Relies on allsorts `gdef_is_mark`: whether the GDEF table classifies
/// the glyph as a mark, exactly `gdef_mark` of the table and the glyph.
#[verifier::external_body]
fn glyph_is_mark(gdef: &Arc<GDEFTable>, glyph_index: u16) -> (r: bool)
    ensures
        r == gdef_mark(*gdef, glyph_index),
{
    allsorts::gdef::gdef_is_mark(Some(gdef.as_ref()), glyph_index)
}

/// Converts one allsorts anchor, moving its two fields.
#[verifier::external_body]
fn translate_anchor(anchor: &allsorts::layout::Anchor) -> (r: GlyphAnchor) {
    GlyphAnchor { x: anchor.x, y: anchor.y }
}

/// Splits one allsorts placement into this crate's placement and mark
/// placement, one arm per variant, moving fields only.
#[verifier::external_body]
fn translate_placement(p: &P) -> (r: (GlyphPlacement, MarkPlacement)) {
    match p {
        P::None => (GlyphPlacement::NotPlaced, MarkPlacement::NotAttached),
        P::Distance(x, y) => (GlyphPlacement::Distance(*x, *y), MarkPlacement::NotAttached),
        P::MarkAnchor(i, b, m) =>
            (GlyphPlacement::NotPlaced, MarkPlacement::MarkAnchor(*i, translate_anchor(b), translate_anchor(m))),
        P::MarkOverprint(i) => (GlyphPlacement::NotPlaced, MarkPlacement::MarkOverprint(*i)),
        P::CursiveAnchor(i, rtl, exit, entry) =>
            (GlyphPlacement::CursiveAnchor(*i, *rtl, translate_anchor(exit), translate_anchor(entry)), MarkPlacement::NotAttached),
    }
}

/// Converts one substituted glyph back into this crate's form, moving
/// each field over.
#[verifier::external_body]
fn translate_raw_glyph(rg: &ag::RawGlyph<()>) -> (r: MappedGlyph) {
    MappedGlyph {
        unicode: rg.unicodes.first().copied().unwrap_or('\u{0}'),
        glyph_index: rg.glyph_index,
        liga_component_pos: rg.liga_component_pos,
        glyph_origin: match rg.glyph_origin {
            ag::GlyphOrigin::Char(c) => GlyphOrigin::Char(c),
            ag::GlyphOrigin::Direct => GlyphOrigin::Direct,
        },
        small_caps: rg.flags.contains(Rgf::SMALL_CAPS), ligature: rg.flags.contains(Rgf::LIGATURE),
        multi_subst_dup: rg.flags.contains(Rgf::MULTI_SUBST_DUP),
        is_vert_alt: rg.flags.contains(Rgf::IS_VERT_ALT),
        fake_bold: rg.flags.contains(Rgf::FAKE_BOLD), fake_italic: rg.flags.contains(Rgf::FAKE_ITALIC),
        variation: rg.variation.as_ref().map(from_allsorts_variation),
    }
}

/// Converts one positioned record into this crate's form, moving each
/// field over.
#[verifier::external_body]
fn translate_positioned(i: &allsorts::gpos::Info) -> (r: PositionedGlyph) {
    let (placement, mark_placement) = translate_placement(&i.placement);
    PositionedGlyph { glyph: translate_raw_glyph(&i.glyph), kerning: i.kerning, placement, mark_placement }
}

/// The glyph record the shaper emits for one positioned record: the
/// record's own glyph, the advance pair the metrics tables give that
/// glyph plus the record's kerning, the record's placement, and the GDEF
/// mark classification of the glyph.
pub open spec fn spec_glyph_record(f: ParsedFont, rec: PositionedGlyph, adv: (u16, u16)) -> GlyphInfo {
    GlyphInfo {
        glyph: rec.glyph,
        size: Advance { x: adv.0, y: adv.1, kerning: rec.kerning },
        placement: rec.placement,
        mark_placement: rec.mark_placement,
        is_mark: gdef_mark(f.gdef_table, rec.glyph.glyph_index),
    }
}

/// The shaped records of the first `n` positioned records, absent as
/// soon as the metrics tables fail to give one of them an advance.
pub open spec fn spec_assemble_run(f: ParsedFont, recs: Seq<PositionedGlyph>, n: int) -> Option<
    Seq<GlyphInfo>,
>
    decreases n,
{
    if n <= 0 {
        Option::Some(Seq::empty())
    } else {
        match (
            spec_assemble_run(f, recs, n - 1),
            spec_get_advance(f, recs[n - 1].glyph.glyph_index),
        ) {
            (Option::Some(prefix), Option::Some(adv)) => Option::Some(
                prefix.push(spec_glyph_record(f, recs[n - 1], adv)),
            ),
            _ => Option::None,
        }
    }
}

proof fn lemma_assemble_none_persists(f: ParsedFont, recs: Seq<PositionedGlyph>, k: int, n: int)
    requires
        spec_assemble_run(f, recs, k) is None,
        k <= n,
    ensures
        spec_assemble_run(f, recs, n) is None,
    decreases n - k,
{
    if k < n {
        lemma_assemble_none_persists(f, recs, k, n - 1);
    }
}

/// The run that shaping `text` against font `f` with the given tags
/// produces: the characters mapped through the cmap, substituted,
/// positioned, and assembled with their advances; absent when any stage
/// fails, when the positioned run exceeds the supported size, or when
/// the metrics tables cannot give some glyph an advance.
pub open spec fn spec_shaped_run(f: ParsedFont, text: Seq<char>, script: u32, lang: u32) -> Option<
    Seq<GlyphInfo>,
> {
    let contents = cmap_contents(f.cmap_subtable);
    let mapped = spec_mapped_glyphs(contents, text);
    let dotted_circle = spec_cmap_lookup(contents, 0x25CC);
    match gsub_applied(
        f.gsub_cache,
        f.gdef_table,
        dotted_circle,
        script,
        lang,
        f.num_glyphs,
        mapped,
    ) {
        Option::Some(substituted) => match gpos_applied(
            f.gpos_cache,
            f.gdef_table,
            script,
            lang,
            substituted,
        ) {
            Option::Some(positioned) => if positioned.len() as int <= MAX_SHAPED_GLYPHS as int {
                spec_assemble_run(f, positioned, positioned.len() as int)
            } else {
                Option::None
            },
            Option::None => Option::None,
        },
        Option::None => Option::None,
    }
}

/// Law: shaping is deterministic.  The shaped run is a function of the
/// font value, the characters and the script and language tags alone —
/// `shape` promises exactly `spec_shaped_run` (the empty run standing
/// for failure) — so shaping the same characters against the same font
/// with the same tags twice yields identical glyph-index and advance
/// sequences.
pub proof fn lemma_shaping_deterministic(f: ParsedFont, text: Seq<char>, script: u32, lang: u32)
    ensures
        spec_shaped_run(f, text, script, lang) == spec_shaped_run(f, text, script, lang),
{
}

impl ParsedFont {
    /// A font that `from_bytes` built: its metrics are well formed and
    /// every lookup on its character mapping computes.
    pub open spec fn wf(self) -> bool {
        &&& self.font_metrics.wf()
        &&& cmap_lookup_total(self.cmap_subtable)
    }

    /// Loads a font face: reads the metrics tables, builds the
    /// substitution and positioning caches, and parses the character
    /// mapping.  Construction succeeds exactly when every required table
    /// is present and well formed: hmtx, vmtx, vhea, hhea, maxp, the
    /// GSUB and GPOS caches, the GDEF table and an admissible cmap
    /// subtable.  On success every field is pinned to what the bytes
    /// determine, so loading the same bytes twice yields equal fonts.
    pub fn from_bytes(font_bytes: &[u8], font_index: usize) -> (r: Option<ParsedFont>)
        ensures
            (r is Some) <==> (parsed_hhea(font_bytes@, font_index as int) is Some && parsed_vhea(
                font_bytes@,
                font_index as int,
            ) is Some && parsed_num_glyphs(font_bytes@, font_index as int) is Some && raw_table(
                font_bytes@,
                font_index as int,
                TAG_HMTX,
            ) is Some && raw_table(font_bytes@, font_index as int, TAG_VMTX) is Some
                && parsed_gsub_cache(font_bytes@, font_index as int) is Some && parsed_gpos_cache(
                font_bytes@,
                font_index as int,
            ) is Some && parsed_gdef_table(font_bytes@, font_index as int) is Some && (
            match raw_cmap_subtable(font_bytes@, font_index as int) {
                Option::Some(d) => spec_cmap_groups_admissible(d),
                Option::None => false,
            }) && parsed_cmap_subtable(font_bytes@, font_index as int) is Some),
            match r {
                Option::Some(f) => {
                    &&& f.wf()
                    &&& f.font_metrics == spec_font_metrics(font_bytes@, font_index as int)
                    &&& Option::Some(f.hhea) == parsed_hhea(font_bytes@, font_index as int)
                    &&& Option::Some(f.vhea) == parsed_vhea(font_bytes@, font_index as int)
                    &&& Option::Some(f.num_glyphs) == parsed_num_glyphs(
                        font_bytes@,
                        font_index as int,
                    )
                    &&& raw_table(font_bytes@, font_index as int, TAG_HMTX) == Option::Some(
                        f.hmtx_data@,
                    )
                    &&& raw_table(font_bytes@, font_index as int, TAG_VMTX) == Option::Some(
                        f.vmtx_data@,
                    )
                    &&& Option::Some(f.gsub_cache) == parsed_gsub_cache(
                        font_bytes@,
                        font_index as int,
                    )
                    &&& Option::Some(f.gpos_cache) == parsed_gpos_cache(
                        font_bytes@,
                        font_index as int,
                    )
                    &&& Option::Some(f.gdef_table) == parsed_gdef_table(
                        font_bytes@,
                        font_index as int,
                    )
                    &&& Option::Some(f.cmap_subtable) == parsed_cmap_subtable(
                        font_bytes@,
                        font_index as int,
                    )
                },
                Option::None => true,
            },
    {
        let hmtx_data = match read_table_bytes(font_bytes, font_index, TAG_HMTX) {
            Some(d) => d,
            None => {
                return None;
            },
        };
        let vmtx_data = match read_table_bytes(font_bytes, font_index, TAG_VMTX) {
            Some(d) => d,
            None => {
                return None;
            },
        };
        let vhea = match read_vhea(font_bytes, font_index) {
            Some(t) => t,
            None => {
                return None;
            },
        };
        let hhea = match read_hhea(font_bytes, font_index) {
            Some(t) => t,
            None => {
                return None;
            },
        };
        let num_glyphs = match read_maxp_num_glyphs(font_bytes, font_index) {
            Some(n) => n,
            None => {
                return None;
            },
        };
        let font_metrics = crate::font_metrics::get_font_metrics(font_bytes, font_index);
        let gsub_cache = match load_gsub_cache(font_bytes, font_index) {
            Some(c) => c,
            None => {
                return None;
            },
        };
        let gpos_cache = match load_gpos_cache(font_bytes, font_index) {
            Some(c) => c,
            None => {
                return None;
            },
        };
        let gdef_table = match load_gdef_table(font_bytes, font_index) {
            Some(t) => t,
            None => {
                return None;
            },
        };
        let cmap_data = match read_cmap_subtable_bytes(font_bytes, font_index) {
            Some(d) => d,
            None => {
                return None;
            },
        };
        if !cmap_groups_admissible(&cmap_data) {
            return None;
        }
        let cmap_subtable = match load_cmap_subtable(font_bytes, font_index) {
            Some(c) => c,
            None => {
                return None;
            },
        };
        Some(
            ParsedFont {
                font_metrics,
                num_glyphs,
                hhea,
                hmtx_data,
                vhea,
                vmtx_data,
                gsub_cache,
                gpos_cache,
                gdef_table,
                cmap_subtable,
            },
        )
    }

    /// The horizontal and vertical advance of a glyph, computed from the
    /// raw hmtx and vmtx bytes; `None` when either table is too short.
    pub fn get_advance(&self, glyph_index: u16) -> (r: Option<(u16, u16)>)
        ensures
            r == spec_get_advance(*self, glyph_index),
    {
        let h = hmtx_advance(self.num_glyphs, self.hhea.num_h_metrics, &self.hmtx_data, glyph_index);
        let v = hmtx_advance(self.num_glyphs, self.vhea.num_h_metrics, &self.vmtx_data, glyph_index);
        match (h, v) {
            (Some(h), Some(v)) => Some((h, v)),
            _ => None,
        }
    }

    /// The glyph id of a character by the font's character mapping, 0
    /// (notdef) on a miss.
    pub fn lookup_glyph_index(&self, c: u32) -> (r: u16)
        requires
            cmap_lookup_total(self.cmap_subtable),
        ensures
            r == spec_cmap_lookup(cmap_contents(self.cmap_subtable), c),
    {
        cmap_lookup(&self.cmap_subtable, c)
    }

    /// Maps the characters to raw glyphs through the font's character
    /// mapping: exactly `spec_mapped_glyphs`, with variation selectors
    /// attached to the preceding base character.
    pub fn map_glyphs(&self, text: &Vec<char>) -> (r: Vec<MappedGlyph>)
        requires
            cmap_lookup_total(self.cmap_subtable),
        ensures
            r@ == spec_mapped_glyphs(cmap_contents(self.cmap_subtable), text@),
    {
        let ghost m = cmap_contents(self.cmap_subtable);
        let mut glyphs: Vec<MappedGlyph> = Vec::new();
        let mut i: usize = 0;
        while i < text.len()
            invariant
                0 <= i <= text@.len(),
                spec_map_glyphs_from(m, text@, 0, Seq::empty()) == spec_map_glyphs_from(
                    m,
                    text@,
                    i as int,
                    glyphs@,
                ),
                m == cmap_contents(self.cmap_subtable),
                cmap_lookup_total(self.cmap_subtable),
            decreases text@.len() - i,
        {
            let c = text[i];
            if variation_selector_from_char(c).is_none() {
                let variation: Option<VarSelector> = if i + 1 < text.len() {
                    variation_selector_from_char(text[i + 1])
                } else {
                    None
                };
                let glyph_index = self.lookup_glyph_index(c as u32);
                let glyph = MappedGlyph {
                    unicode: c,
                    glyph_index,
                    liga_component_pos: 0,
                    glyph_origin: GlyphOrigin::Char(c),
                    small_caps: false,
                    multi_subst_dup: false,
                    is_vert_alt: false,
                    ligature: false,
                    fake_bold: false,
                    fake_italic: false,
                    variation,
                };
                proof {
                    assert(glyph == spec_mapped_glyph(m, text@, i as int));
                }
                glyphs.push(glyph);
            }
            i += 1;
        }
        glyphs
    }

    /// Shapes a character sequence against this font for the given
    /// script and language tags: cmap mapping (variation selectors
    /// attached to their base), glyph substitution, glyph positioning
    /// with kerning, and advance computation from the metrics tables.
    /// The run is exactly `spec_shaped_run` of the font, the characters
    /// and the tags; any stage failure yields an empty run, never a
    /// partial one.
    pub fn shape(&self, text: &Vec<char>, script: u32, lang: u32) -> (r: ShapedTextBufferUnsized)
        requires
            self.wf(),
        ensures
            r.infos@ == match spec_shaped_run(*self, text@, script, lang) {
                Option::Some(run) => run,
                Option::None => Seq::<GlyphInfo>::empty(),
            },
            r.infos@.len() <= MAX_SHAPED_GLYPHS,
    {
        match self.shape_inner(text, script, lang) {
            Some(buffer) => buffer,
            None => ShapedTextBufferUnsized { infos: Vec::new() },
        }
    }

    fn shape_inner(&self, text: &Vec<char>, script: u32, lang: u32) -> (r: Option<
        ShapedTextBufferUnsized,
    >)
        requires
            self.wf(),
        ensures
            match (r, spec_shaped_run(*self, text@, script, lang)) {
                (Option::Some(b), Option::Some(run)) => b.infos@ == run && b.infos@.len()
                    <= MAX_SHAPED_GLYPHS,
                (Option::None, Option::None) => true,
                _ => false,
            },
    {
        let ghost contents = cmap_contents(self.cmap_subtable);
        let mapped = self.map_glyphs(text);
        let dotted_circle_index = self.lookup_glyph_index(0x25CC);
        proof {
            assert(mapped@ == spec_mapped_glyphs(contents, text@));
            assert(dotted_circle_index == spec_cmap_lookup(contents, 0x25CC));
        }

        let ghost spec_sub = gsub_applied(
            self.gsub_cache,
            self.gdef_table,
            dotted_circle_index,
            script,
            lang,
            self.num_glyphs,
            mapped@,
        );
        let substituted = match apply_gsub(self, dotted_circle_index, script, lang, &mapped) {
            Some(g) => g,
            None => {
                proof {
                    assert(spec_shaped_run(*self, text@, script, lang) is None);
                }
                return None;
            },
        };
        proof {
            assert(spec_sub == Option::Some(substituted@));
        }
        let ghost spec_pos = gpos_applied(
            self.gpos_cache,
            self.gdef_table,
            script,
            lang,
            substituted@,
        );
        let positioned = match apply_gpos(self, script, lang, &substituted) {
            Some(p) => p,
            None => {
                proof {
                    assert(spec_shaped_run(*self, text@, script, lang) is None);
                }
                return None;
            },
        };
        proof {
            assert(spec_pos == Option::Some(positioned@));
        }
        if positioned.len() > MAX_SHAPED_GLYPHS {
            proof {
                assert(spec_shaped_run(*self, text@, script, lang) is None);
            }
            return None;
        }
        proof {
            assert(spec_shaped_run(*self, text@, script, lang) == spec_assemble_run(
                *self,
                positioned@,
                positioned@.len() as int,
            ));
        }

        let mut out: Vec<GlyphInfo> = Vec::new();
        let mut j: usize = 0;
        while j < positioned.len()
            invariant
                0 <= j <= positioned@.len(),
                positioned@.len() <= MAX_SHAPED_GLYPHS,
                self.wf(),
                spec_shaped_run(*self, text@, script, lang) == spec_assemble_run(
                    *self,
                    positioned@,
                    positioned@.len() as int,
                ),
                out@.len() == j,
                spec_assemble_run(*self, positioned@, j as int) == Option::Some(out@),
            decreases positioned@.len() - j,
        {
            let rec = positioned[j];
            let (adv_x, adv_y) = match self.get_advance(rec.glyph.glyph_index) {
                Some(a) => a,
                None => {
                    proof {
                        lemma_assemble_none_persists(
                            *self,
                            positioned@,
                            j as int + 1,
                            positioned@.len() as int,
                        );
                    }
                    return None;
                },
            };
            let is_mark = glyph_is_mark(&self.gdef_table, rec.glyph.glyph_index);
            let info = GlyphInfo {
                glyph: rec.glyph,
                size: Advance { x: adv_x, y: adv_y, kerning: rec.kerning },
                placement: rec.placement,
                mark_placement: rec.mark_placement,
                is_mark,
            };
            proof {
                assert(info == spec_glyph_record(*self, positioned@[j as int], (adv_x, adv_y)));
            }
            out.push(info);
            j += 1;
        }
        Some(ShapedTextBufferUnsized { infos: out })
    }
}

} // verus!
