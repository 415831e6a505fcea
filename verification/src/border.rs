//! Cell borders: five stored edges, six named edges for callers.

use vstd::prelude::*;
use vstd::string::*;
use crate::color::{argb_of_hex, argb_to_hex, hex_of_argb, hex_to_argb};
use crate::error::{agrees, text_of, CodecError, Failure};
use crate::text::{chars_of, lowercase, lowered, spells, string_of};

verus! {

/// The canonical name of a border style, whatever the case in which it is
/// written; `none` for a word that names no style.
pub open spec fn canonical_border_style(style: Seq<char>) -> Seq<char> {
    let lc = lowered(style);
    if lc == "thin"@ {
        "thin"@
    } else if lc == "medium"@ {
        "medium"@
    } else if lc == "thick"@ {
        "thick"@
    } else if lc == "double"@ {
        "double"@
    } else if lc == "dashed"@ {
        "dashed"@
    } else if lc == "dotted"@ {
        "dotted"@
    } else if lc == "hair"@ {
        "hair"@
    } else if lc == "mediumdashed"@ {
        "mediumDashed"@
    } else if lc == "dashdot"@ {
        "dashDot"@
    } else if lc == "mediumdashdot"@ {
        "mediumDashDot"@
    } else if lc == "dashdotdot"@ {
        "dashDotDot"@
    } else if lc == "mediumdashdotdot"@ {
        "mediumDashDotDot"@
    } else if lc == "slantdashdot"@ {
        "slantDashDot"@
    } else {
        "none"@
    }
}

/// A word that names a border style, `none` included, in any case.
pub open spec fn is_border_style(style: Seq<char>) -> bool {
    canonical_border_style(style) != "none"@ || lowered(style) == "none"@
}

/// Maps a border style word to its canonical name; `none` for a word that
/// names no style.
pub fn umya_border_style_to_str(style: &str) -> (out: String)
    ensures
        out@ == canonical_border_style(style@),
{
    let chars = chars_of(style);
    let lc = lowercase(&chars);
    if spells(&lc, "thin") {
        String::from_str("thin")
    } else if spells(&lc, "medium") {
        String::from_str("medium")
    } else if spells(&lc, "thick") {
        String::from_str("thick")
    } else if spells(&lc, "double") {
        String::from_str("double")
    } else if spells(&lc, "dashed") {
        String::from_str("dashed")
    } else if spells(&lc, "dotted") {
        String::from_str("dotted")
    } else if spells(&lc, "hair") {
        String::from_str("hair")
    } else if spells(&lc, "mediumdashed") {
        String::from_str("mediumDashed")
    } else if spells(&lc, "dashdot") {
        String::from_str("dashDot")
    } else if spells(&lc, "mediumdashdot") {
        String::from_str("mediumDashDot")
    } else if spells(&lc, "dashdotdot") {
        String::from_str("dashDotDot")
    } else if spells(&lc, "mediumdashdotdot") {
        String::from_str("mediumDashDotDot")
    } else if spells(&lc, "slantdashdot") {
        String::from_str("slantDashDot")
    } else {
        String::from_str("none")
    }
}

/// One edge of a border as callers see it.
#[derive(Clone, Debug, PartialEq, Eq)]
pub struct BorderEdge {
    pub style: String,
    pub color: String,
}

/// The mathematical content of a [`BorderEdge`].
pub struct BorderEdgeModel {
    pub style: Seq<char>,
    pub color: Seq<char>,
}

impl View for BorderEdge {
    type V = BorderEdgeModel;

    open spec fn view(&self) -> BorderEdgeModel {
        BorderEdgeModel { style: self.style@, color: self.color@ }
    }
}

/// One edge of a border as a document holds it.
#[derive(Clone, Debug, PartialEq, Eq)]
pub struct RawEdge {
    pub style: String,
    pub color_argb: String,
}

/// The mathematical content of a [`RawEdge`].
pub struct RawEdgeModel {
    pub style: Seq<char>,
    pub color_argb: Seq<char>,
}

impl View for RawEdge {
    type V = RawEdgeModel;

    open spec fn view(&self) -> RawEdgeModel {
        RawEdgeModel { style: self.style@, color_argb: self.color_argb@ }
    }
}

/// The borders of a stored style. A document has one diagonal edge.
#[derive(Clone, Debug, PartialEq, Eq)]
pub struct RawBorders {
    pub top: RawEdge,
    pub bottom: RawEdge,
    pub left: RawEdge,
    pub right: RawEdge,
    pub diagonal: RawEdge,
}

/// The mathematical content of a [`RawBorders`].
pub struct RawBordersModel {
    pub top: RawEdgeModel,
    pub bottom: RawEdgeModel,
    pub left: RawEdgeModel,
    pub right: RawEdgeModel,
    pub diagonal: RawEdgeModel,
}

impl View for RawBorders {
    type V = RawBordersModel;

    open spec fn view(&self) -> RawBordersModel {
        RawBordersModel {
            top: self.top@,
            bottom: self.bottom@,
            left: self.left@,
            right: self.right@,
            diagonal: self.diagonal@,
        }
    }
}

/// The border of a cell as callers see it.
#[derive(Clone, Debug, PartialEq, Eq)]
pub struct CellBorder {
    pub top: Option<BorderEdge>,
    pub bottom: Option<BorderEdge>,
    pub left: Option<BorderEdge>,
    pub right: Option<BorderEdge>,
    pub diagonal_up: Option<BorderEdge>,
    pub diagonal_down: Option<BorderEdge>,
}

/// The mathematical content of a [`CellBorder`].
pub struct CellBorderModel {
    pub top: Option<BorderEdgeModel>,
    pub bottom: Option<BorderEdgeModel>,
    pub left: Option<BorderEdgeModel>,
    pub right: Option<BorderEdgeModel>,
    pub diagonal_up: Option<BorderEdgeModel>,
    pub diagonal_down: Option<BorderEdgeModel>,
}

/// The optional edge behind an optional edge record.
pub open spec fn edge_of(e: Option<BorderEdge>) -> Option<BorderEdgeModel> {
    match e {
        Some(x) => Some(x@),
        None => None,
    }
}

impl View for CellBorder {
    type V = CellBorderModel;

    open spec fn view(&self) -> CellBorderModel {
        CellBorderModel {
            top: edge_of(self.top),
            bottom: edge_of(self.bottom),
            left: edge_of(self.left),
            right: edge_of(self.right),
            diagonal_up: edge_of(self.diagonal_up),
            diagonal_down: edge_of(self.diagonal_down),
        }
    }
}

/// What a stored edge reports: nothing where its style is empty or `none`;
/// else its canonical style and its display colour, black where the edge
/// stores no colour.
pub open spec fn edge_read(e: RawEdgeModel) -> Option<BorderEdgeModel> {
    if e.style.len() == 0 || e.style == "none"@ {
        None
    } else {
        Some(
            BorderEdgeModel {
                style: canonical_border_style(e.style),
                color: if e.color_argb.len() == 0 {
                    "#000000"@
                } else {
                    hex_of_argb(e.color_argb)
                },
            },
        )
    }
}

/// What stored borders report. The one diagonal edge is reported as
/// `diagonal_up`; `diagonal_down` is never reported.
pub open spec fn border_read(b: Option<RawBordersModel>) -> CellBorderModel {
    match b {
        None => CellBorderModel {
            top: None,
            bottom: None,
            left: None,
            right: None,
            diagonal_up: None,
            diagonal_down: None,
        },
        Some(b) => CellBorderModel {
            top: edge_read(b.top),
            bottom: edge_read(b.bottom),
            left: edge_read(b.left),
            right: edge_read(b.right),
            diagonal_up: edge_read(b.diagonal),
            diagonal_down: None,
        },
    }
}

fn read_edge(e: &RawEdge) -> (r: Option<BorderEdge>)
    ensures
        edge_of(r) == edge_read(e@),
{
    let style = chars_of(e.style.as_str());
    if style.len() == 0 || spells(&style, "none") {
        return None;
    }
    let argb = chars_of(e.color_argb.as_str());
    let color = if argb.len() == 0 {
        String::from_str("#000000")
    } else {
        argb_to_hex(e.color_argb.as_str())
    };
    Some(BorderEdge { style: umya_border_style_to_str(e.style.as_str()), color })
}

/// Decodes the borders of a cell. A cell without borders, or one that does
/// not exist, has no edge.
pub fn decode_cell_border(borders: Option<&RawBorders>) -> (out: CellBorder)
    ensures
        out@ == border_read(
            match borders {
                Some(b) => Some(b@),
                None => None,
            },
        ),
{
    match borders {
        None => CellBorder {
            top: None,
            bottom: None,
            left: None,
            right: None,
            diagonal_up: None,
            diagonal_down: None,
        },
        Some(b) => CellBorder {
            top: read_edge(&b.top),
            bottom: read_edge(&b.bottom),
            left: read_edge(&b.left),
            right: read_edge(&b.right),
            diagonal_up: read_edge(&b.diagonal),
            diagonal_down: None,
        },
    }
}

/// One edge of a border record: a style, a colour, both or neither.
#[derive(Clone, Debug, PartialEq, Eq)]
pub struct EdgePayload {
    pub style: Option<String>,
    pub color: Option<String>,
}

/// The mathematical content of a [`EdgePayload`].
pub struct EdgePayloadModel {
    pub style: Option<Seq<char>>,
    pub color: Option<Seq<char>>,
}

impl View for EdgePayload {
    type V = EdgePayloadModel;

    open spec fn view(&self) -> EdgePayloadModel {
        EdgePayloadModel { style: text_of(self.style), color: text_of(self.color) }
    }
}

/// A border record: any subset of the six named edges.
#[derive(Clone, Debug, PartialEq, Eq)]
pub struct BorderPayload {
    pub top: Option<EdgePayload>,
    pub bottom: Option<EdgePayload>,
    pub left: Option<EdgePayload>,
    pub right: Option<EdgePayload>,
    pub diagonal_up: Option<EdgePayload>,
    pub diagonal_down: Option<EdgePayload>,
}

/// The mathematical content of a [`BorderPayload`].
pub struct BorderPayloadModel {
    pub top: Option<EdgePayloadModel>,
    pub bottom: Option<EdgePayloadModel>,
    pub left: Option<EdgePayloadModel>,
    pub right: Option<EdgePayloadModel>,
    pub diagonal_up: Option<EdgePayloadModel>,
    pub diagonal_down: Option<EdgePayloadModel>,
}

/// The optional edge behind an optional edge of a record.
pub open spec fn edge_payload_of(e: Option<EdgePayload>) -> Option<EdgePayloadModel> {
    match e {
        Some(x) => Some(x@),
        None => None,
    }
}

impl View for BorderPayload {
    type V = BorderPayloadModel;

    open spec fn view(&self) -> BorderPayloadModel {
        BorderPayloadModel {
            top: edge_payload_of(self.top),
            bottom: edge_payload_of(self.bottom),
            left: edge_payload_of(self.left),
            right: edge_payload_of(self.right),
            diagonal_up: edge_payload_of(self.diagonal_up),
            diagonal_down: edge_payload_of(self.diagonal_down),
        }
    }
}

/// The changes to one stored edge: a style to set, a colour to set, each
/// present or not.
#[derive(Clone, Debug, PartialEq, Eq)]
pub struct EdgeEdit {
    pub style: Option<String>,
    pub color_argb: Option<String>,
}

/// The mathematical content of a [`EdgeEdit`].
pub struct EdgeEditModel {
    pub style: Option<Seq<char>>,
    pub color_argb: Option<Seq<char>>,
}

impl View for EdgeEdit {
    type V = EdgeEditModel;

    open spec fn view(&self) -> EdgeEditModel {
        EdgeEditModel { style: text_of(self.style), color_argb: text_of(self.color_argb) }
    }
}

/// The changes to the five stored edges.
#[derive(Clone, Debug, PartialEq, Eq)]
pub struct BordersEdit {
    pub top: EdgeEdit,
    pub bottom: EdgeEdit,
    pub left: EdgeEdit,
    pub right: EdgeEdit,
    pub diagonal: EdgeEdit,
}

/// The mathematical content of a [`BordersEdit`].
pub struct BordersEditModel {
    pub top: EdgeEditModel,
    pub bottom: EdgeEditModel,
    pub left: EdgeEditModel,
    pub right: EdgeEditModel,
    pub diagonal: EdgeEditModel,
}

impl View for BordersEdit {
    type V = BordersEditModel;

    open spec fn view(&self) -> BordersEditModel {
        BordersEditModel {
            top: self.top@,
            bottom: self.bottom@,
            left: self.left@,
            right: self.right@,
            diagonal: self.diagonal@,
        }
    }
}

/// The style word of an edge that names no border style, if the edge has
/// one.
pub open spec fn bad_style(e: Option<EdgePayloadModel>) -> Option<Seq<char>> {
    match e {
        Some(p) => match p.style {
            Some(s) => if is_border_style(s) {
                None
            } else {
                Some(s)
            },
            None => None,
        },
        None => None,
    }
}

/// The changes that an edge of a record asks for, on top of `base`: its
/// style in canonical form and its colour in stored form, each only where
/// the edge gives it.
pub open spec fn edge_written(base: EdgeEditModel, e: Option<EdgePayloadModel>) -> EdgeEditModel {
    match e {
        None => base,
        Some(p) => EdgeEditModel {
            style: match p.style {
                Some(s) => Some(canonical_border_style(s)),
                None => base.style,
            },
            color_argb: match p.color {
                Some(c) => Some(argb_of_hex(c)),
                None => base.color_argb,
            },
        },
    }
}

/// The edge edit that changes nothing.
pub open spec fn no_edge_edit() -> EdgeEditModel {
    EdgeEditModel { style: None, color_argb: None }
}

/// The first style word of a record that names no border style, in the
/// order top, bottom, left, right, diagonal up, diagonal down.
pub open spec fn first_bad_style(p: BorderPayloadModel) -> Option<Seq<char>> {
    if bad_style(p.top) is Some {
        bad_style(p.top)
    } else if bad_style(p.bottom) is Some {
        bad_style(p.bottom)
    } else if bad_style(p.left) is Some {
        bad_style(p.left)
    } else if bad_style(p.right) is Some {
        bad_style(p.right)
    } else if bad_style(p.diagonal_up) is Some {
        bad_style(p.diagonal_up)
    } else {
        bad_style(p.diagonal_down)
    }
}

/// The changes that a border record asks for, or the style word that makes
/// it invalid. Both diagonal names write the one diagonal edge; where both
/// are given, what `diagonal_down` gives prevails.
pub open spec fn border_written(p: BorderPayloadModel) -> Result<BordersEditModel, Failure> {
    match first_bad_style(p) {
        Some(s) => Err(Failure::InvalidEnumValue(s)),
        None => Ok(
            BordersEditModel {
                top: edge_written(no_edge_edit(), p.top),
                bottom: edge_written(no_edge_edit(), p.bottom),
                left: edge_written(no_edge_edit(), p.left),
                right: edge_written(no_edge_edit(), p.right),
                diagonal: edge_written(
                    edge_written(no_edge_edit(), p.diagonal_up),
                    p.diagonal_down,
                ),
            },
        ),
    }
}

fn knows_border_style(style: &str) -> (r: bool)
    ensures
        r == is_border_style(style@),
{
    let canon = umya_border_style_to_str(style);
    let canon_chars = chars_of(canon.as_str());
    let chars = chars_of(style);
    let lc = lowercase(&chars);
    !spells(&canon_chars, "none") || spells(&lc, "none")
}

fn write_edge(base: EdgeEdit, e: &Option<EdgePayload>) -> (r: Result<EdgeEdit, CodecError>)
    ensures
        match bad_style(edge_payload_of(*e)) {
            Some(s) => r is Err && r->Err_0@ == Failure::InvalidEnumValue(s),
            None => r is Ok && r->Ok_0@ == edge_written(base@, edge_payload_of(*e)),
        },
{
    let p = match e {
        Some(p) => p,
        None => {
            return Ok(base);
        },
    };
    let style = match &p.style {
        Some(s) => {
            if !knows_border_style(s.as_str()) {
                return Err(CodecError::InvalidEnumValue(s.clone()));
            }
            Some(umya_border_style_to_str(s.as_str()))
        },
        None => base.style,
    };
    let color_argb = match &p.color {
        Some(c) => Some(hex_to_argb(c.as_str())),
        None => base.color_argb,
    };
    Ok(EdgeEdit { style, color_argb })
}

fn no_edit() -> (r: EdgeEdit)
    ensures
        r@ == no_edge_edit(),
{
    EdgeEdit { style: None, color_argb: None }
}

/// Computes the changes that a border record asks for. Only the edges that
/// the record names are touched. A style word that names no border style
/// makes the record invalid, and is quoted.
pub fn encode_cell_border(border: &BorderPayload) -> (r: Result<BordersEdit, CodecError>)
    ensures
        agrees(r, border_written(border@)),
{
    let top = match write_edge(no_edit(), &border.top) {
        Ok(e) => e,
        Err(e) => {
            return Err(e);
        },
    };
    let bottom = match write_edge(no_edit(), &border.bottom) {
        Ok(e) => e,
        Err(e) => {
            return Err(e);
        },
    };
    let left = match write_edge(no_edit(), &border.left) {
        Ok(e) => e,
        Err(e) => {
            return Err(e);
        },
    };
    let right = match write_edge(no_edit(), &border.right) {
        Ok(e) => e,
        Err(e) => {
            return Err(e);
        },
    };
    let up = match write_edge(no_edit(), &border.diagonal_up) {
        Ok(e) => e,
        Err(e) => {
            return Err(e);
        },
    };
    let diagonal = match write_edge(up, &border.diagonal_down) {
        Ok(e) => e,
        Err(e) => {
            return Err(e);
        },
    };
    Ok(BordersEdit { top, bottom, left, right, diagonal })
}

} // verus!
