//! Resolution-independent font metrics, extracted from the binary tables
//! of a font file.
//!
//! The raw tables are read through the `allsorts` parser behind trusted
//! readers; assembling the metrics from the raw fields, including the
//! fallback for a malformed units-per-em, is verified.  Extraction
//! degrades gracefully: a missing OS/2 table or tier only leaves the
//! corresponding fields absent, and only a missing or unreadable head or
//! hhea table makes the whole extraction fall back to the default
//! metrics.

use vstd::prelude::*;

use allsorts::binary::read::ReadScope;
use allsorts::font_data::FontData;
use allsorts::tables::os2::Os2;
use allsorts::tables::FontTableProvider;
use allsorts::tables::HeadTable;
use allsorts::tables::HheaTable;

verus! {

/// The units-per-em a malformed font (which claims zero) falls back to.
pub const DEFAULT_UNITS_PER_EM: u16 = 1000;

/// The fields this crate reads from a font's head table.
#[derive(Debug, Copy, Clone, PartialEq, Eq, Structural)]
pub struct HeadFields {
    pub units_per_em: u16,
    pub flags: u16,
    pub x_min: i16,
    pub y_min: i16,
    pub x_max: i16,
    pub y_max: i16,
}

/// The fields this crate reads from a font's hhea (or vhea) table.
#[derive(Debug, Copy, Clone, PartialEq, Eq, Structural)]
pub struct HheaFields {
    pub ascender: i16,
    pub descender: i16,
    pub line_gap: i16,
    pub advance_width_max: u16,
    pub min_left_side_bearing: i16,
    pub min_right_side_bearing: i16,
    pub x_max_extent: i16,
    pub caret_slope_rise: i16,
    pub caret_slope_run: i16,
    pub caret_offset: i16,
    pub num_h_metrics: u16,
}

/// The fields every OS/2 table version carries.
#[derive(Debug, Copy, Clone, PartialEq, Eq, Structural)]
pub struct Os2BaseFields {
    pub x_avg_char_width: i16,
    pub us_weight_class: u16,
    pub us_width_class: u16,
    pub fs_type: u16,
    pub s_family_class: i16,
    pub fs_selection: u16,
    pub us_first_char_index: u16,
    pub us_last_char_index: u16,
}

/// The OS/2 fields present from version 0 on.
#[derive(Debug, Copy, Clone, PartialEq, Eq, Structural)]
pub struct Os2Version0Fields {
    pub s_typo_ascender: i16,
    pub s_typo_descender: i16,
    pub s_typo_line_gap: i16,
    pub us_win_ascent: u16,
    pub us_win_descent: u16,
}

/// The OS/2 fields present from version 1 on.
#[derive(Debug, Copy, Clone, PartialEq, Eq, Structural)]
pub struct Os2Version1Fields {
    pub ul_code_page_range1: u32,
    pub ul_code_page_range2: u32,
}

/// The OS/2 fields present from version 2 on.
#[derive(Debug, Copy, Clone, PartialEq, Eq, Structural)]
pub struct Os2Version2To4Fields {
    pub s_x_height: i16,
    pub s_cap_height: i16,
    pub us_default_char: u16,
    pub us_break_char: u16,
    pub us_max_context: u16,
}

/// The OS/2 fields present in version 5.
#[derive(Debug, Copy, Clone, PartialEq, Eq, Structural)]
pub struct Os2Version5Fields {
    pub us_lower_optical_point_size: u16,
    pub us_upper_optical_point_size: u16,
}

/// Derived, resolution-independent metrics of one font face.  Fields of
/// OS/2 version tiers the font does not have are absent; only
/// `units_per_em` is always present and always positive.
///
/// The extraction is deliberately narrowed to what a layout consumer
/// reads: the glyph-design classification (panose), the unicode-range
/// and vendor-id words, and the subscript, superscript and strikeout
/// geometry of the OS/2 table are not extracted.
#[derive(Debug, Copy, Clone, PartialEq, Eq, Structural)]
pub struct FontMetrics {
    // head table
    pub units_per_em: u16,
    pub font_flags: u16,
    pub x_min: i16,
    pub y_min: i16,
    pub x_max: i16,
    pub y_max: i16,
    // hhea table
    pub ascender: i16,
    pub descender: i16,
    pub line_gap: i16,
    pub advance_width_max: u16,
    pub min_left_side_bearing: i16,
    pub min_right_side_bearing: i16,
    pub x_max_extent: i16,
    pub caret_slope_rise: i16,
    pub caret_slope_run: i16,
    pub caret_offset: i16,
    pub num_h_metrics: u16,
    // OS/2 table, base fields
    pub x_avg_char_width: i16,
    pub us_weight_class: u16,
    pub us_width_class: u16,
    pub fs_type: u16,
    pub s_family_class: i16,
    pub fs_selection: u16,
    pub us_first_char_index: u16,
    pub us_last_char_index: u16,
    // OS/2 table, version tiers
    pub s_typo_ascender: Option<i16>,
    pub s_typo_descender: Option<i16>,
    pub s_typo_line_gap: Option<i16>,
    pub us_win_ascent: Option<u16>,
    pub us_win_descent: Option<u16>,
    pub ul_code_page_range1: Option<u32>,
    pub ul_code_page_range2: Option<u32>,
    pub sx_height: Option<i16>,
    pub s_cap_height: Option<i16>,
    pub us_default_char: Option<u16>,
    pub us_break_char: Option<u16>,
    pub us_max_context: Option<u16>,
    pub us_lower_optical_point_size: Option<u16>,
    pub us_upper_optical_point_size: Option<u16>,
}

impl FontMetrics {
    /// Well-formed metrics never carry a zero units-per-em.
    pub open spec fn wf(self) -> bool {
        self.units_per_em > 0
    }
}

/// The default metrics: the fallback units-per-em and nothing else.
pub open spec fn spec_default_font_metrics() -> FontMetrics {
    FontMetrics {
        units_per_em: DEFAULT_UNITS_PER_EM,
        font_flags: 0u16,
        x_min: 0i16,
        y_min: 0i16,
        x_max: 0i16,
        y_max: 0i16,
        ascender: 0i16,
        descender: 0i16,
        line_gap: 0i16,
        advance_width_max: 0u16,
        min_left_side_bearing: 0i16,
        min_right_side_bearing: 0i16,
        x_max_extent: 0i16,
        caret_slope_rise: 0i16,
        caret_slope_run: 0i16,
        caret_offset: 0i16,
        num_h_metrics: 0u16,
        x_avg_char_width: 0i16,
        us_weight_class: 0u16,
        us_width_class: 0u16,
        fs_type: 0u16,
        s_family_class: 0i16,
        fs_selection: 0u16,
        us_first_char_index: 0u16,
        us_last_char_index: 0u16,
        s_typo_ascender: Option::None,
        s_typo_descender: Option::None,
        s_typo_line_gap: Option::None,
        us_win_ascent: Option::None,
        us_win_descent: Option::None,
        ul_code_page_range1: Option::None,
        ul_code_page_range2: Option::None,
        sx_height: Option::None,
        s_cap_height: Option::None,
        us_default_char: Option::None,
        us_break_char: Option::None,
        us_max_context: Option::None,
        us_lower_optical_point_size: Option::None,
        us_upper_optical_point_size: Option::None,
    }
}

impl Default for FontMetrics {
    fn default() -> (r: Self)
        ensures
            r == spec_default_font_metrics(),
    {
        FontMetrics {
            units_per_em: DEFAULT_UNITS_PER_EM,
            font_flags: 0,
            x_min: 0,
            y_min: 0,
            x_max: 0,
            y_max: 0,
            ascender: 0,
            descender: 0,
            line_gap: 0,
            advance_width_max: 0,
            min_left_side_bearing: 0,
            min_right_side_bearing: 0,
            x_max_extent: 0,
            caret_slope_rise: 0,
            caret_slope_run: 0,
            caret_offset: 0,
            num_h_metrics: 0,
            x_avg_char_width: 0,
            us_weight_class: 0,
            us_width_class: 0,
            fs_type: 0,
            s_family_class: 0,
            fs_selection: 0,
            us_first_char_index: 0,
            us_last_char_index: 0,
            s_typo_ascender: None,
            s_typo_descender: None,
            s_typo_line_gap: None,
            us_win_ascent: None,
            us_win_descent: None,
            ul_code_page_range1: None,
            ul_code_page_range2: None,
            sx_height: None,
            s_cap_height: None,
            us_default_char: None,
            us_break_char: None,
            us_max_context: None,
            us_lower_optical_point_size: None,
            us_upper_optical_point_size: None,
        }
    }
}

/// The head fields of face `font_index` of a font file, absent when the
/// file, the face or its head table cannot be read.  A pure function of
/// the bytes.
pub uninterp spec fn parsed_head(font_bytes: Seq<u8>, font_index: int) -> Option<HeadFields>;

/// The hhea fields of a face, absent when unreadable.
pub uninterp spec fn parsed_hhea(font_bytes: Seq<u8>, font_index: int) -> Option<HheaFields>;

/// The always-present OS/2 fields of a face, absent when the table is
/// missing or unreadable.
pub uninterp spec fn parsed_os2_base(font_bytes: Seq<u8>, font_index: int) -> Option<
    Os2BaseFields,
>;

/// The OS/2 version 0 tier of a face, absent when the table or tier is
/// missing.
pub uninterp spec fn parsed_os2_version0(font_bytes: Seq<u8>, font_index: int) -> Option<
    Os2Version0Fields,
>;

/// The OS/2 version 1 tier of a face, absent when the table or tier is
/// missing.
pub uninterp spec fn parsed_os2_version1(font_bytes: Seq<u8>, font_index: int) -> Option<
    Os2Version1Fields,
>;

/// The OS/2 version 2 to 4 tier of a face, absent when the table or tier
/// is missing.
pub uninterp spec fn parsed_os2_version2to4(font_bytes: Seq<u8>, font_index: int) -> Option<
    Os2Version2To4Fields,
>;

/// The OS/2 version 5 tier of a face, absent when the table or tier is
/// missing.
pub uninterp spec fn parsed_os2_version5(font_bytes: Seq<u8>, font_index: int) -> Option<
    Os2Version5Fields,
>;

/// Relies on allsorts `FontData`/`HeadTable` parsing: reads the head
/// table of the face, a pure function of the bytes.
#[verifier::external_body]
fn read_head(font_bytes: &[u8], font_index: usize) -> (r: Option<HeadFields>)
    ensures
        r == parsed_head(font_bytes@, font_index as int),
{
    let font_file = ReadScope::new(font_bytes).read::<FontData<'_>>().ok()?;
    let provider = font_file.table_provider(font_index).ok()?;
    let data = provider.read_table_data(allsorts::tag::HEAD).ok()?;
    let h = ReadScope::new(&data).read::<HeadTable>().ok()?;
    Some(HeadFields {
        units_per_em: h.units_per_em,
        flags: h.flags,
        x_min: h.x_min,
        y_min: h.y_min,
        x_max: h.x_max,
        y_max: h.y_max,
    })
}

/// Relies on allsorts `HheaTable` parsing: reads the hhea table of the
/// face, a pure function of the bytes.
#[verifier::external_body]
pub(crate) fn read_hhea(font_bytes: &[u8], font_index: usize) -> (r: Option<HheaFields>)
    ensures
        r == parsed_hhea(font_bytes@, font_index as int),
{
    let font_file = ReadScope::new(font_bytes).read::<FontData<'_>>().ok()?;
    let provider = font_file.table_provider(font_index).ok()?;
    let data = provider.read_table_data(allsorts::tag::HHEA).ok()?;
    let h = ReadScope::new(&data).read::<HheaTable>().ok()?;
    Some(HheaFields {
        ascender: h.ascender, descender: h.descender, line_gap: h.line_gap,
        advance_width_max: h.advance_width_max,
        min_left_side_bearing: h.min_left_side_bearing,
        min_right_side_bearing: h.min_right_side_bearing, x_max_extent: h.x_max_extent,
        caret_slope_rise: h.caret_slope_rise, caret_slope_run: h.caret_slope_run,
        caret_offset: h.caret_offset, num_h_metrics: h.num_h_metrics,
    })
}

/// Relies on allsorts `Os2` parsing: reads the always-present OS/2
/// fields of the face, a pure function of the bytes.
#[verifier::external_body]
fn read_os2_base(font_bytes: &[u8], font_index: usize) -> (r: Option<Os2BaseFields>)
    ensures
        r == parsed_os2_base(font_bytes@, font_index as int),
{
    let font_file = ReadScope::new(font_bytes).read::<FontData<'_>>().ok()?;
    let provider = font_file.table_provider(font_index).ok()?;
    let data = provider.table_data(allsorts::tag::OS_2).ok()??;
    let t = ReadScope::new(&data).read_dep::<Os2>(data.len()).ok()?;
    Some(Os2BaseFields {
        x_avg_char_width: t.x_avg_char_width,
        us_weight_class: t.us_weight_class,
        us_width_class: t.us_width_class,
        fs_type: t.fs_type,
        s_family_class: t.s_family_class,
        fs_selection: t.fs_selection.bits(),
        us_first_char_index: t.us_first_char_index,
        us_last_char_index: t.us_last_char_index,
    })
}

/// Relies on allsorts `Os2` parsing: reads the version 0 tier of the
/// OS/2 table, a pure function of the bytes.
#[verifier::external_body]
fn read_os2_version0(font_bytes: &[u8], font_index: usize) -> (r: Option<Os2Version0Fields>)
    ensures
        r == parsed_os2_version0(font_bytes@, font_index as int),
{
    let font_file = ReadScope::new(font_bytes).read::<FontData<'_>>().ok()?;
    let provider = font_file.table_provider(font_index).ok()?;
    let data = provider.table_data(allsorts::tag::OS_2).ok()??;
    let t = ReadScope::new(&data).read_dep::<Os2>(data.len()).ok()?;
    let v = t.version0?;
    Some(Os2Version0Fields {
        s_typo_ascender: v.s_typo_ascender,
        s_typo_descender: v.s_typo_descender,
        s_typo_line_gap: v.s_typo_line_gap,
        us_win_ascent: v.us_win_ascent,
        us_win_descent: v.us_win_descent,
    })
}

/// Relies on allsorts `Os2` parsing: reads the version 1 tier of the
/// OS/2 table, a pure function of the bytes.
#[verifier::external_body]
fn read_os2_version1(font_bytes: &[u8], font_index: usize) -> (r: Option<Os2Version1Fields>)
    ensures
        r == parsed_os2_version1(font_bytes@, font_index as int),
{
    let font_file = ReadScope::new(font_bytes).read::<FontData<'_>>().ok()?;
    let provider = font_file.table_provider(font_index).ok()?;
    let data = provider.table_data(allsorts::tag::OS_2).ok()??;
    let t = ReadScope::new(&data).read_dep::<Os2>(data.len()).ok()?;
    let v = t.version1?;
    Some(Os2Version1Fields {
        ul_code_page_range1: v.ul_code_page_range1,
        ul_code_page_range2: v.ul_code_page_range2,
    })
}

/// Relies on allsorts `Os2` parsing: reads the version 2 to 4 tier of
/// the OS/2 table, a pure function of the bytes.
#[verifier::external_body]
fn read_os2_version2to4(font_bytes: &[u8], font_index: usize) -> (r: Option<Os2Version2To4Fields>)
    ensures
        r == parsed_os2_version2to4(font_bytes@, font_index as int),
{
    let font_file = ReadScope::new(font_bytes).read::<FontData<'_>>().ok()?;
    let provider = font_file.table_provider(font_index).ok()?;
    let data = provider.table_data(allsorts::tag::OS_2).ok()??;
    let t = ReadScope::new(&data).read_dep::<Os2>(data.len()).ok()?;
    let v = t.version2to4?;
    Some(Os2Version2To4Fields {
        s_x_height: v.s_x_height,
        s_cap_height: v.s_cap_height,
        us_default_char: v.us_default_char,
        us_break_char: v.us_break_char,
        us_max_context: v.us_max_context,
    })
}

/// Relies on allsorts `Os2` parsing: reads the version 5 tier of the
/// OS/2 table, a pure function of the bytes.
#[verifier::external_body]
fn read_os2_version5(font_bytes: &[u8], font_index: usize) -> (r: Option<Os2Version5Fields>)
    ensures
        r == parsed_os2_version5(font_bytes@, font_index as int),
{
    let font_file = ReadScope::new(font_bytes).read::<FontData<'_>>().ok()?;
    let provider = font_file.table_provider(font_index).ok()?;
    let data = provider.table_data(allsorts::tag::OS_2).ok()??;
    let t = ReadScope::new(&data).read_dep::<Os2>(data.len()).ok()?;
    let v = t.version5?;
    Some(Os2Version5Fields {
        us_lower_optical_point_size: v.us_lower_optical_point_size,
        us_upper_optical_point_size: v.us_upper_optical_point_size,
    })
}

/// The metrics assembled out of the raw table fields: head and hhea
/// copied over, a zero units-per-em replaced by the documented default,
/// and each OS/2 tier either copied or left absent.
pub open spec fn spec_assemble_metrics(
    head: HeadFields,
    hhea: HheaFields,
    os2: Option<Os2BaseFields>,
    v0: Option<Os2Version0Fields>,
    v1: Option<Os2Version1Fields>,
    v2to4: Option<Os2Version2To4Fields>,
    v5: Option<Os2Version5Fields>,
) -> FontMetrics {
    let base = match os2 {
        Option::Some(b) => b,
        Option::None => Os2BaseFields {
            x_avg_char_width: 0i16,
            us_weight_class: 0u16,
            us_width_class: 0u16,
            fs_type: 0u16,
            s_family_class: 0i16,
            fs_selection: 0u16,
            us_first_char_index: 0u16,
            us_last_char_index: 0u16,
        },
    };
    FontMetrics {
        units_per_em: if head.units_per_em == 0 {
            DEFAULT_UNITS_PER_EM
        } else {
            head.units_per_em
        },
        font_flags: head.flags,
        x_min: head.x_min,
        y_min: head.y_min,
        x_max: head.x_max,
        y_max: head.y_max,
        ascender: hhea.ascender,
        descender: hhea.descender,
        line_gap: hhea.line_gap,
        advance_width_max: hhea.advance_width_max,
        min_left_side_bearing: hhea.min_left_side_bearing,
        min_right_side_bearing: hhea.min_right_side_bearing,
        x_max_extent: hhea.x_max_extent,
        caret_slope_rise: hhea.caret_slope_rise,
        caret_slope_run: hhea.caret_slope_run,
        caret_offset: hhea.caret_offset,
        num_h_metrics: hhea.num_h_metrics,
        x_avg_char_width: base.x_avg_char_width,
        us_weight_class: base.us_weight_class,
        us_width_class: base.us_width_class,
        fs_type: base.fs_type,
        s_family_class: base.s_family_class,
        fs_selection: base.fs_selection,
        us_first_char_index: base.us_first_char_index,
        us_last_char_index: base.us_last_char_index,
        s_typo_ascender: match v0 {
            Option::Some(v) => Option::Some(v.s_typo_ascender),
            Option::None => Option::None,
        },
        s_typo_descender: match v0 {
            Option::Some(v) => Option::Some(v.s_typo_descender),
            Option::None => Option::None,
        },
        s_typo_line_gap: match v0 {
            Option::Some(v) => Option::Some(v.s_typo_line_gap),
            Option::None => Option::None,
        },
        us_win_ascent: match v0 {
            Option::Some(v) => Option::Some(v.us_win_ascent),
            Option::None => Option::None,
        },
        us_win_descent: match v0 {
            Option::Some(v) => Option::Some(v.us_win_descent),
            Option::None => Option::None,
        },
        ul_code_page_range1: match v1 {
            Option::Some(v) => Option::Some(v.ul_code_page_range1),
            Option::None => Option::None,
        },
        ul_code_page_range2: match v1 {
            Option::Some(v) => Option::Some(v.ul_code_page_range2),
            Option::None => Option::None,
        },
        sx_height: match v2to4 {
            Option::Some(v) => Option::Some(v.s_x_height),
            Option::None => Option::None,
        },
        s_cap_height: match v2to4 {
            Option::Some(v) => Option::Some(v.s_cap_height),
            Option::None => Option::None,
        },
        us_default_char: match v2to4 {
            Option::Some(v) => Option::Some(v.us_default_char),
            Option::None => Option::None,
        },
        us_break_char: match v2to4 {
            Option::Some(v) => Option::Some(v.us_break_char),
            Option::None => Option::None,
        },
        us_max_context: match v2to4 {
            Option::Some(v) => Option::Some(v.us_max_context),
            Option::None => Option::None,
        },
        us_lower_optical_point_size: match v5 {
            Option::Some(v) => Option::Some(v.us_lower_optical_point_size),
            Option::None => Option::None,
        },
        us_upper_optical_point_size: match v5 {
            Option::Some(v) => Option::Some(v.us_upper_optical_point_size),
            Option::None => Option::None,
        },
    }
}

/// The metrics of face `font_index` of the file `font_bytes`: the
/// assembly of the parsed tables, or the default metrics when head or
/// hhea cannot be read.
pub open spec fn spec_font_metrics(font_bytes: Seq<u8>, font_index: int) -> FontMetrics {
    match (parsed_head(font_bytes, font_index), parsed_hhea(font_bytes, font_index)) {
        (Option::Some(head), Option::Some(hhea)) => spec_assemble_metrics(
            head,
            hhea,
            parsed_os2_base(font_bytes, font_index),
            parsed_os2_version0(font_bytes, font_index),
            parsed_os2_version1(font_bytes, font_index),
            parsed_os2_version2to4(font_bytes, font_index),
            parsed_os2_version5(font_bytes, font_index),
        ),
        _ => spec_default_font_metrics(),
    }
}

/// Assembles the metrics from the raw table fields.
pub fn assemble_font_metrics(
    head: HeadFields,
    hhea: HheaFields,
    os2: Option<Os2BaseFields>,
    v0: Option<Os2Version0Fields>,
    v1: Option<Os2Version1Fields>,
    v2to4: Option<Os2Version2To4Fields>,
    v5: Option<Os2Version5Fields>,
) -> (r: FontMetrics)
    ensures
        r == spec_assemble_metrics(head, hhea, os2, v0, v1, v2to4, v5),
        r.wf(),
{
    let base = match os2 {
        Some(b) => b,
        None => Os2BaseFields {
            x_avg_char_width: 0,
            us_weight_class: 0,
            us_width_class: 0,
            fs_type: 0,
            s_family_class: 0,
            fs_selection: 0,
            us_first_char_index: 0,
            us_last_char_index: 0,
        },
    };
    FontMetrics {
        units_per_em: if head.units_per_em == 0 {
            DEFAULT_UNITS_PER_EM
        } else {
            head.units_per_em
        },
        font_flags: head.flags,
        x_min: head.x_min,
        y_min: head.y_min,
        x_max: head.x_max,
        y_max: head.y_max,
        ascender: hhea.ascender,
        descender: hhea.descender,
        line_gap: hhea.line_gap,
        advance_width_max: hhea.advance_width_max,
        min_left_side_bearing: hhea.min_left_side_bearing,
        min_right_side_bearing: hhea.min_right_side_bearing,
        x_max_extent: hhea.x_max_extent,
        caret_slope_rise: hhea.caret_slope_rise,
        caret_slope_run: hhea.caret_slope_run,
        caret_offset: hhea.caret_offset,
        num_h_metrics: hhea.num_h_metrics,
        x_avg_char_width: base.x_avg_char_width,
        us_weight_class: base.us_weight_class,
        us_width_class: base.us_width_class,
        fs_type: base.fs_type,
        s_family_class: base.s_family_class,
        fs_selection: base.fs_selection,
        us_first_char_index: base.us_first_char_index,
        us_last_char_index: base.us_last_char_index,
        s_typo_ascender: match v0 {
            Some(v) => Some(v.s_typo_ascender),
            None => None,
        },
        s_typo_descender: match v0 {
            Some(v) => Some(v.s_typo_descender),
            None => None,
        },
        s_typo_line_gap: match v0 {
            Some(v) => Some(v.s_typo_line_gap),
            None => None,
        },
        us_win_ascent: match v0 {
            Some(v) => Some(v.us_win_ascent),
            None => None,
        },
        us_win_descent: match v0 {
            Some(v) => Some(v.us_win_descent),
            None => None,
        },
        ul_code_page_range1: match v1 {
            Some(v) => Some(v.ul_code_page_range1),
            None => None,
        },
        ul_code_page_range2: match v1 {
            Some(v) => Some(v.ul_code_page_range2),
            None => None,
        },
        sx_height: match v2to4 {
            Some(v) => Some(v.s_x_height),
            None => None,
        },
        s_cap_height: match v2to4 {
            Some(v) => Some(v.s_cap_height),
            None => None,
        },
        us_default_char: match v2to4 {
            Some(v) => Some(v.us_default_char),
            None => None,
        },
        us_break_char: match v2to4 {
            Some(v) => Some(v.us_break_char),
            None => None,
        },
        us_max_context: match v2to4 {
            Some(v) => Some(v.us_max_context),
            None => None,
        },
        us_lower_optical_point_size: match v5 {
            Some(v) => Some(v.us_lower_optical_point_size),
            None => None,
        },
        us_upper_optical_point_size: match v5 {
            Some(v) => Some(v.us_upper_optical_point_size),
            None => None,
        },
    }
}

/// Extracts the metrics of face `font_index` from a raw font file.
///
/// Returns exactly the metrics the bytes determine: the default metrics
/// when head or hhea cannot be read, the assembled ones otherwise.
pub fn get_font_metrics(font_bytes: &[u8], font_index: usize) -> (r: FontMetrics)
    ensures
        r == spec_font_metrics(font_bytes@, font_index as int),
        r.wf(),
{
    let head = read_head(font_bytes, font_index);
    let hhea = read_hhea(font_bytes, font_index);
    match (head, hhea) {
        (Some(head), Some(hhea)) => assemble_font_metrics(
            head,
            hhea,
            read_os2_base(font_bytes, font_index),
            read_os2_version0(font_bytes, font_index),
            read_os2_version1(font_bytes, font_index),
            read_os2_version2to4(font_bytes, font_index),
            read_os2_version5(font_bytes, font_index),
        ),
        _ => FontMetrics::default(),
    }
}

/// Law: metrics extraction is idempotent.  The metrics are a function of
/// the font bytes and the face index alone — `get_font_metrics` promises
/// `spec_font_metrics(bytes, index)` — so parsing the same bytes twice
/// yields identical metrics.
pub proof fn lemma_metrics_extraction_idempotent(font_bytes: Seq<u8>, font_index: int)
    ensures
        spec_font_metrics(font_bytes, font_index) == spec_font_metrics(font_bytes, font_index),
{
}

} // verus!
