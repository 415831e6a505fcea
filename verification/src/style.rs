//! Cell formats: which fields of a stored style are worth reporting, and
//! which fields of a style a format record changes.

use vstd::prelude::*;
use vstd::string::*;
use crate::color::{argb_of_hex, argb_to_hex, hex_of_argb, hex_to_argb};
use crate::error::text_of;
use crate::number::{positive_or_absent, Number64};
use crate::text::{chars_of, same_ignoring_case, spells, spells_ignoring_case};
use crate::vocabulary::{
    is_horizontal_alignment, is_vertical_alignment, knows_horizontal_alignment,
    knows_vertical_alignment,
};

verus! {

/// The format of a cell as callers see it. Every field is optional; an
/// absent field means that the cell inherits the document default.
#[derive(Clone, Debug, PartialEq, Eq)]
pub struct CellFormat {
    pub bold: Option<bool>,
    pub italic: Option<bool>,
    pub underline: Option<String>,
    pub strikethrough: Option<bool>,
    pub font_name: Option<String>,
    pub font_size: Option<Number64>,
    pub font_color: Option<String>,
    pub fill_type: Option<String>,
    pub bg_color: Option<String>,
    pub number_format: Option<String>,
    pub h_align: Option<String>,
    pub v_align: Option<String>,
    pub wrap: Option<bool>,
    pub rotation: Option<i64>,
}

/// The mathematical content of a [`CellFormat`].
pub struct CellFormatModel {
    pub bold: Option<bool>,
    pub italic: Option<bool>,
    pub underline: Option<Seq<char>>,
    pub strikethrough: Option<bool>,
    pub font_name: Option<Seq<char>>,
    pub font_size: Option<Number64>,
    pub font_color: Option<Seq<char>>,
    pub fill_type: Option<Seq<char>>,
    pub bg_color: Option<Seq<char>>,
    pub number_format: Option<Seq<char>>,
    pub h_align: Option<Seq<char>>,
    pub v_align: Option<Seq<char>>,
    pub wrap: Option<bool>,
    pub rotation: Option<i64>,
}

impl View for CellFormat {
    type V = CellFormatModel;

    open spec fn view(&self) -> CellFormatModel {
        CellFormatModel {
            bold: self.bold,
            italic: self.italic,
            underline: text_of(self.underline),
            strikethrough: self.strikethrough,
            font_name: text_of(self.font_name),
            font_size: self.font_size,
            font_color: text_of(self.font_color),
            fill_type: text_of(self.fill_type),
            bg_color: text_of(self.bg_color),
            number_format: text_of(self.number_format),
            h_align: text_of(self.h_align),
            v_align: text_of(self.v_align),
            wrap: self.wrap,
            rotation: self.rotation,
        }
    }
}

/// The format with no field at all.
pub open spec fn empty_format() -> CellFormatModel {
    CellFormatModel {
        bold: None,
        italic: None,
        underline: None,
        strikethrough: None,
        font_name: None,
        font_size: None,
        font_color: None,
        fill_type: None,
        bg_color: None,
        number_format: None,
        h_align: None,
        v_align: None,
        wrap: None,
        rotation: None,
    }
}

/// The font of a stored style.
#[derive(Clone, Debug, PartialEq, Eq)]
pub struct RawFont {
    pub bold: bool,
    pub italic: bool,
    pub underline: String,
    pub strikethrough: bool,
    pub name: String,
    pub size: Number64,
    pub color_argb: String,
}

/// The mathematical content of a [`RawFont`].
pub struct RawFontModel {
    pub bold: bool,
    pub italic: bool,
    pub underline: Seq<char>,
    pub strikethrough: bool,
    pub name: Seq<char>,
    pub size: Number64,
    pub color_argb: Seq<char>,
}

impl View for RawFont {
    type V = RawFontModel;

    open spec fn view(&self) -> RawFontModel {
        RawFontModel {
            bold: self.bold,
            italic: self.italic,
            underline: self.underline@,
            strikethrough: self.strikethrough,
            name: self.name@,
            size: self.size,
            color_argb: self.color_argb@,
        }
    }
}

/// The pattern fill of a stored style.
#[derive(Clone, Debug, PartialEq, Eq)]
pub struct RawPatternFill {
    pub pattern_type: String,
    pub foreground_argb: Option<String>,
}

/// The mathematical content of a [`RawPatternFill`].
pub struct RawPatternFillModel {
    pub pattern_type: Seq<char>,
    pub foreground_argb: Option<Seq<char>>,
}

impl View for RawPatternFill {
    type V = RawPatternFillModel;

    open spec fn view(&self) -> RawPatternFillModel {
        RawPatternFillModel {
            pattern_type: self.pattern_type@,
            foreground_argb: text_of(self.foreground_argb),
        }
    }
}

/// The alignment of a stored style.
#[derive(Clone, Debug, PartialEq, Eq)]
pub struct RawAlignment {
    pub horizontal: String,
    pub vertical: String,
    pub wrap_text: bool,
    pub rotation: u32,
}

/// The mathematical content of a [`RawAlignment`].
pub struct RawAlignmentModel {
    pub horizontal: Seq<char>,
    pub vertical: Seq<char>,
    pub wrap_text: bool,
    pub rotation: u32,
}

impl View for RawAlignment {
    type V = RawAlignmentModel;

    open spec fn view(&self) -> RawAlignmentModel {
        RawAlignmentModel {
            horizontal: self.horizontal@,
            vertical: self.vertical@,
            wrap_text: self.wrap_text,
            rotation: self.rotation,
        }
    }
}

/// What a document holds for the style of one cell. Each part is present
/// only where the document has it.
#[derive(Clone, Debug, PartialEq, Eq)]
pub struct RawStyle {
    pub font: Option<RawFont>,
    pub pattern_fill: Option<RawPatternFill>,
    pub number_format: Option<String>,
    pub alignment: Option<RawAlignment>,
}

/// The mathematical content of a [`RawStyle`].
pub struct RawStyleModel {
    pub font: Option<RawFontModel>,
    pub pattern_fill: Option<RawPatternFillModel>,
    pub number_format: Option<Seq<char>>,
    pub alignment: Option<RawAlignmentModel>,
}

impl View for RawStyle {
    type V = RawStyleModel;

    open spec fn view(&self) -> RawStyleModel {
        RawStyleModel {
            font: match self.font {
                Some(f) => Some(f@),
                None => None,
            },
            pattern_fill: match self.pattern_fill {
                Some(f) => Some(f@),
                None => None,
            },
            number_format: text_of(self.number_format),
            alignment: match self.alignment {
                Some(a) => Some(a@),
                None => None,
            },
        }
    }
}

/// `Some(true)` for a flag that is set, nothing for one that is not.
pub open spec fn when_set(flag: bool) -> Option<bool> {
    if flag {
        Some(true)
    } else {
        None
    }
}

/// Text, unless it is empty or spells the default.
pub open spec fn unless_default(s: Seq<char>, default: Seq<char>) -> Option<Seq<char>> {
    if s.len() == 0 || s == default {
        None
    } else {
        Some(s)
    }
}

/// The display colour of a stored font colour, unless the colour is absent
/// or pure black.
pub open spec fn font_color_read(argb: Seq<char>) -> Option<Seq<char>> {
    if argb.len() == 0 || hex_of_argb(argb) == "#000000"@ {
        None
    } else {
        Some(hex_of_argb(argb))
    }
}

/// The display colour of a stored fill colour, unless it is absent.
pub open spec fn fill_color_read(argb: Option<Seq<char>>) -> Option<Seq<char>> {
    match argb {
        Some(c) => if c.len() == 0 {
            None
        } else {
            Some(hex_of_argb(c))
        },
        None => None,
    }
}

/// The format that a stored style reports: each field only where the style
/// has its part and the value differs from the document default.
pub open spec fn format_read(style: Option<RawStyleModel>) -> CellFormatModel {
    match style {
        None => empty_format(),
        Some(st) => CellFormatModel {
            bold: match st.font {
                Some(f) => when_set(f.bold),
                None => None,
            },
            italic: match st.font {
                Some(f) => when_set(f.italic),
                None => None,
            },
            underline: match st.font {
                Some(f) => unless_default(f.underline, "none"@),
                None => None,
            },
            strikethrough: match st.font {
                Some(f) => when_set(f.strikethrough),
                None => None,
            },
            font_name: match st.font {
                Some(f) => unless_default(f.name, Seq::empty()),
                None => None,
            },
            font_size: match st.font {
                Some(f) => positive_or_absent(Some(f.size)),
                None => None,
            },
            font_color: match st.font {
                Some(f) => font_color_read(f.color_argb),
                None => None,
            },
            fill_type: match st.pattern_fill {
                Some(p) => unless_default(p.pattern_type, "none"@),
                None => None,
            },
            bg_color: match st.pattern_fill {
                Some(p) => fill_color_read(p.foreground_argb),
                None => None,
            },
            number_format: match st.number_format {
                Some(code) => unless_default(code, "General"@),
                None => None,
            },
            h_align: match st.alignment {
                Some(a) => unless_default(a.horizontal, "general"@),
                None => None,
            },
            v_align: match st.alignment {
                Some(a) => unless_default(a.vertical, "bottom"@),
                None => None,
            },
            wrap: match st.alignment {
                Some(a) => when_set(a.wrap_text),
                None => None,
            },
            rotation: match st.alignment {
                Some(a) => if a.rotation != 0 {
                    Some(a.rotation as i64)
                } else {
                    None
                },
                None => None,
            },
        },
    }
}

fn flag_when_set(flag: bool) -> (r: Option<bool>)
    ensures
        r == when_set(flag),
{
    if flag {
        Some(true)
    } else {
        None
    }
}

fn text_unless_default(s: &String, default: &str) -> (r: Option<String>)
    ensures
        text_of(r) == unless_default(s@, default@),
{
    let chars = chars_of(s.as_str());
    if chars.len() == 0 || spells(&chars, default) {
        None
    } else {
        Some(s.clone())
    }
}

fn read_font_color(argb: &String) -> (r: Option<String>)
    ensures
        text_of(r) == font_color_read(argb@),
{
    let chars = chars_of(argb.as_str());
    if chars.len() == 0 {
        return None;
    }
    let hex = argb_to_hex(argb.as_str());
    let hex_chars = chars_of(hex.as_str());
    if spells(&hex_chars, "#000000") {
        None
    } else {
        Some(hex)
    }
}

fn read_fill_color(argb: &Option<String>) -> (r: Option<String>)
    ensures
        text_of(r) == fill_color_read(text_of(*argb)),
{
    match argb {
        Some(c) => {
            let chars = chars_of(c.as_str());
            if chars.len() == 0 {
                None
            } else {
                Some(argb_to_hex(c.as_str()))
            }
        },
        None => None,
    }
}

/// A format record without fields.
pub fn blank_format() -> (f: CellFormat)
    ensures
        f@ == empty_format(),
{
    CellFormat {
        bold: None,
        italic: None,
        underline: None,
        strikethrough: None,
        font_name: None,
        font_size: None,
        font_color: None,
        fill_type: None,
        bg_color: None,
        number_format: None,
        h_align: None,
        v_align: None,
        wrap: None,
        rotation: None,
    }
}

/// Decodes the style of a cell into the format that callers see. A cell
/// that does not exist has the empty format.
pub fn decode_cell_format(style: Option<&RawStyle>) -> (f: CellFormat)
    ensures
        f@ == format_read(
            match style {
                Some(st) => Some(st@),
                None => None,
            },
        ),
{
    let mut out = blank_format();
    let st = match style {
        Some(st) => st,
        None => {
            return out;
        },
    };
    match &st.font {
        Some(font) => {
            out.bold = flag_when_set(font.bold);
            out.italic = flag_when_set(font.italic);
            out.underline = text_unless_default(&font.underline, "none");
            out.strikethrough = flag_when_set(font.strikethrough);
            out.font_name = text_unless_default(&font.name, "");
            out.font_size = if font.size.positive() {
                Some(font.size)
            } else {
                None
            };
            out.font_color = read_font_color(&font.color_argb);
            proof {
                reveal_strlit("");
                assert(""@ =~= Seq::<char>::empty());
            }
        },
        None => {},
    }
    match &st.pattern_fill {
        Some(fill) => {
            out.fill_type = text_unless_default(&fill.pattern_type, "none");
            out.bg_color = read_fill_color(&fill.foreground_argb);
        },
        None => {},
    }
    match &st.number_format {
        Some(code) => {
            out.number_format = text_unless_default(code, "General");
        },
        None => {},
    }
    match &st.alignment {
        Some(align) => {
            out.h_align = text_unless_default(&align.horizontal, "general");
            out.v_align = text_unless_default(&align.vertical, "bottom");
            out.wrap = flag_when_set(align.wrap_text);
            out.rotation = if align.rotation != 0 {
                Some(align.rotation as i64)
            } else {
                None
            };
        },
        None => {},
    }
    out
}

/// How a pattern fill is to be set.
#[derive(Clone, Copy, Debug, PartialEq, Eq, Structural)]
pub enum PatternEdit {
    /// No pattern.
    Clear,
    /// A solid pattern, which shows the foreground colour.
    Solid,
}

/// The changes to make to a stored style. Only the fields that are present
/// are touched; every other part of the style stays as it is.
#[derive(Clone, Debug, PartialEq, Eq)]
pub struct StyleEdit {
    pub bold: Option<bool>,
    pub italic: Option<bool>,
    pub underline: Option<String>,
    pub strikethrough: Option<bool>,
    pub font_name: Option<String>,
    pub font_size: Option<Number64>,
    pub font_argb: Option<String>,
    pub pattern: Option<PatternEdit>,
    pub foreground_argb: Option<String>,
    pub number_format: Option<String>,
    pub horizontal: Option<String>,
    pub vertical: Option<String>,
    pub wrap_text: Option<bool>,
    pub rotation: Option<u32>,
}

/// The mathematical content of a [`StyleEdit`].
pub struct StyleEditModel {
    pub bold: Option<bool>,
    pub italic: Option<bool>,
    pub underline: Option<Seq<char>>,
    pub strikethrough: Option<bool>,
    pub font_name: Option<Seq<char>>,
    pub font_size: Option<Number64>,
    pub font_argb: Option<Seq<char>>,
    pub pattern: Option<PatternEdit>,
    pub foreground_argb: Option<Seq<char>>,
    pub number_format: Option<Seq<char>>,
    pub horizontal: Option<Seq<char>>,
    pub vertical: Option<Seq<char>>,
    pub wrap_text: Option<bool>,
    pub rotation: Option<u32>,
}

impl View for StyleEdit {
    type V = StyleEditModel;

    open spec fn view(&self) -> StyleEditModel {
        StyleEditModel {
            bold: self.bold,
            italic: self.italic,
            underline: text_of(self.underline),
            strikethrough: self.strikethrough,
            font_name: text_of(self.font_name),
            font_size: self.font_size,
            font_argb: text_of(self.font_argb),
            pattern: self.pattern,
            foreground_argb: text_of(self.foreground_argb),
            number_format: text_of(self.number_format),
            horizontal: text_of(self.horizontal),
            vertical: text_of(self.vertical),
            wrap_text: self.wrap_text,
            rotation: self.rotation,
        }
    }
}

/// The edit that changes nothing.
pub open spec fn no_style_edit() -> StyleEditModel {
    StyleEditModel {
        bold: None,
        italic: None,
        underline: None,
        strikethrough: None,
        font_name: None,
        font_size: None,
        font_argb: None,
        pattern: None,
        foreground_argb: None,
        number_format: None,
        horizontal: None,
        vertical: None,
        wrap_text: None,
        rotation: None,
    }
}

/// The stored form of an optional display colour.
pub open spec fn stored_color(hex: Option<Seq<char>>) -> Option<Seq<char>> {
    match hex {
        Some(c) => Some(argb_of_hex(c)),
        None => None,
    }
}

/// The pattern that a format asks for: solid where it gives a background
/// colour; else none where its fill type says `none` in any case; else no
/// change.
pub open spec fn pattern_written(f: CellFormatModel) -> Option<PatternEdit> {
    if f.bg_color is Some {
        Some(PatternEdit::Solid)
    } else if f.fill_type is Some && same_ignoring_case(f.fill_type.unwrap(), "none"@) {
        Some(PatternEdit::Clear)
    } else {
        None
    }
}

/// An alignment word, where the vocabulary has it.
pub open spec fn known_word(word: Option<Seq<char>>, known: spec_fn(Seq<char>) -> bool) -> Option<
    Seq<char>,
> {
    match word {
        Some(w) => if known(w) {
            Some(w)
        } else {
            None
        },
        None => None,
    }
}

/// A rotation, where it fits the unsigned 32 bits in which documents hold
/// it.
pub open spec fn rotation_written(r: Option<i64>) -> Option<u32> {
    match r {
        Some(v) => if 0 <= v <= u32::MAX {
            Some(v as u32)
        } else {
            None
        },
        None => None,
    }
}

/// The changes that a format record asks for.
pub open spec fn format_written(f: CellFormatModel) -> StyleEditModel {
    StyleEditModel {
        bold: f.bold,
        italic: f.italic,
        underline: f.underline,
        strikethrough: f.strikethrough,
        font_name: f.font_name,
        font_size: f.font_size,
        font_argb: stored_color(f.font_color),
        pattern: pattern_written(f),
        foreground_argb: stored_color(f.bg_color),
        number_format: f.number_format,
        horizontal: known_word(f.h_align, |w: Seq<char>| is_horizontal_alignment(w)),
        vertical: known_word(f.v_align, |w: Seq<char>| is_vertical_alignment(w)),
        wrap_text: f.wrap,
        rotation: rotation_written(f.rotation),
    }
}

/// A copy of an optional string.
pub fn clone_text(o: &Option<String>) -> (r: Option<String>)
    ensures
        text_of(r) == text_of(*o),
{
    match o {
        Some(s) => Some(s.clone()),
        None => None,
    }
}

fn store_color(hex: &Option<String>) -> (r: Option<String>)
    ensures
        text_of(r) == stored_color(text_of(*hex)),
{
    match hex {
        Some(c) => Some(hex_to_argb(c.as_str())),
        None => None,
    }
}

/// Computes the changes that a format record asks for. Fields that the
/// record lacks are left alone; an alignment word outside the vocabulary and
/// a rotation outside 32 bits are left alone too.
pub fn encode_cell_format(format: &CellFormat) -> (edit: StyleEdit)
    ensures
        edit@ == format_written(format@),
{
    let pattern = if format.bg_color.is_some() {
        Some(PatternEdit::Solid)
    } else {
        match &format.fill_type {
            Some(ft) => {
                let chars = chars_of(ft.as_str());
                if spells_ignoring_case(&chars, "none") {
                    Some(PatternEdit::Clear)
                } else {
                    None
                }
            },
            None => None,
        }
    };
    let horizontal = match &format.h_align {
        Some(w) => if knows_horizontal_alignment(w.as_str()) {
            Some(w.clone())
        } else {
            None
        },
        None => None,
    };
    let vertical = match &format.v_align {
        Some(w) => if knows_vertical_alignment(w.as_str()) {
            Some(w.clone())
        } else {
            None
        },
        None => None,
    };
    let rotation = match format.rotation {
        Some(v) => if 0 <= v && v <= 0xFFFF_FFFF {
            Some(v as u32)
        } else {
            None
        },
        None => None,
    };
    StyleEdit {
        bold: format.bold,
        italic: format.italic,
        underline: clone_text(&format.underline),
        strikethrough: format.strikethrough,
        font_name: clone_text(&format.font_name),
        font_size: format.font_size,
        font_argb: store_color(&format.font_color),
        pattern,
        foreground_argb: store_color(&format.bg_color),
        number_format: clone_text(&format.number_format),
        horizontal,
        vertical,
        wrap_text: format.wrap,
        rotation,
    }
}

/// A stored style is untouched when every part that it has holds the
/// document default: a plain font without name, size or colour other than
/// black, no pattern and no fill colour, the `General` number format, and
/// general, bottom, unwrapped, unrotated alignment.
pub open spec fn is_untouched(style: RawStyleModel) -> bool {
    &&& style.font matches Some(f) ==> {
        &&& !f.bold
        &&& !f.italic
        &&& (f.underline.len() == 0 || f.underline == "none"@)
        &&& !f.strikethrough
        &&& f.name.len() == 0
        &&& !f.size.is_positive()
        &&& (f.color_argb.len() == 0 || hex_of_argb(f.color_argb) == "#000000"@)
    }
    &&& style.pattern_fill matches Some(p) ==> {
        &&& (p.pattern_type.len() == 0 || p.pattern_type == "none"@)
        &&& (p.foreground_argb matches Some(c) ==> c.len() == 0)
    }
    &&& style.number_format matches Some(code) ==> (code.len() == 0 || code == "General"@)
    &&& style.alignment matches Some(a) ==> {
        &&& (a.horizontal.len() == 0 || a.horizontal == "general"@)
        &&& (a.vertical.len() == 0 || a.vertical == "bottom"@)
        &&& !a.wrap_text
        &&& a.rotation == 0
    }
}

/// An untouched style, and a cell that does not exist, read as the empty
/// format; and the empty format changes nothing when it is written. So a
/// cell that nobody formatted comes back without a field.
pub proof fn lemma_untouched_format_is_empty(style: RawStyleModel)
    requires
        is_untouched(style),
    ensures
        format_read(Some(style)) == empty_format(),
        format_read(None) == empty_format(),
        format_written(empty_format()) == no_style_edit(),
{
}

/// Conversely, a style that reads as the empty format is untouched: no
/// default is ever reported, and nothing but a default is ever suppressed.
pub proof fn lemma_empty_format_is_untouched(style: RawStyleModel)
    requires
        format_read(Some(style)) == empty_format(),
    ensures
        is_untouched(style),
{
}

} // verus!
