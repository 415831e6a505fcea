//! What hangs on cells: hyperlinks, comments and images.

use vstd::prelude::*;
use vstd::string::*;
use crate::conditional::non_empty;
use crate::error::{agrees, slice_of, text_of, CodecError, Failure};
use crate::reference::{cell_at, cell_of, is_cell_reference};
use crate::text::{chars_of, replace_all, replaced, string_of};

verus! {

/// Drawing units in one pixel, at 96 pixels to the inch: 914 400 / 96.
pub const EMU_PER_PX: i32 = 9525;

/// A link target with each `&amp;` turned back into `&`.
pub open spec fn unescaped(target: Seq<char>) -> Seq<char> {
    replaced(target, seq!['&', 'a', 'm', 'p', ';'], seq!['&'])
}

/// A hyperlink as a document holds it on a cell.
#[derive(Clone, Debug, PartialEq, Eq)]
pub struct RawHyperlink {
    pub cell: String,
    pub url: String,
    pub tooltip: String,
    pub location: bool,
}

/// The mathematical content of a [`RawHyperlink`].
pub struct RawHyperlinkModel {
    pub cell: Seq<char>,
    pub url: Seq<char>,
    pub tooltip: Seq<char>,
    pub location: bool,
}

impl View for RawHyperlink {
    type V = RawHyperlinkModel;

    open spec fn view(&self) -> RawHyperlinkModel {
        RawHyperlinkModel {
            cell: self.cell@,
            url: self.url@,
            tooltip: self.tooltip@,
            location: self.location,
        }
    }
}

/// A hyperlink as callers see it.
#[derive(Clone, Debug, PartialEq, Eq)]
pub struct Hyperlink {
    pub cell: String,
    pub target: Option<String>,
    pub tooltip: Option<String>,
    pub internal: bool,
}

/// The mathematical content of a [`Hyperlink`].
pub struct HyperlinkModel {
    pub cell: Seq<char>,
    pub target: Option<Seq<char>>,
    pub tooltip: Option<Seq<char>>,
    pub internal: bool,
}

impl View for Hyperlink {
    type V = HyperlinkModel;

    open spec fn view(&self) -> HyperlinkModel {
        HyperlinkModel {
            cell: self.cell@,
            target: text_of(self.target),
            tooltip: text_of(self.tooltip),
            internal: self.internal,
        }
    }
}

/// The record of a stored hyperlink: its target unescaped, and target and
/// tooltip only where they are not empty.
pub open spec fn hyperlink_read(raw: RawHyperlinkModel) -> HyperlinkModel {
    HyperlinkModel {
        cell: raw.cell,
        target: if raw.url.len() == 0 {
            None
        } else {
            Some(unescaped(raw.url))
        },
        tooltip: non_empty(Some(raw.tooltip)),
        internal: raw.location,
    }
}

fn unescape(target: &Vec<char>) -> (out: Vec<char>)
    ensures
        out@ == unescaped(target@),
{
    let pat: Vec<char> = vec!['&', 'a', 'm', 'p', ';'];
    let to: Vec<char> = vec!['&'];
    assert(pat@ =~= seq!['&', 'a', 'm', 'p', ';']);
    assert(to@ =~= seq!['&']);
    replace_all(target, &pat, &to)
}

fn present(s: &String) -> (r: Option<String>)
    ensures
        text_of(r) == non_empty(Some(s@)),
{
    if chars_of(s.as_str()).len() == 0 {
        None
    } else {
        Some(s.clone())
    }
}

fn read_hyperlink(raw: &RawHyperlink) -> (r: Hyperlink)
    ensures
        r@ == hyperlink_read(raw@),
{
    let url = chars_of(raw.url.as_str());
    let target = if url.len() == 0 {
        None
    } else {
        let plain = unescape(&url);
        Some(string_of(&plain))
    };
    Hyperlink {
        cell: raw.cell.clone(),
        target,
        tooltip: present(&raw.tooltip),
        internal: raw.location,
    }
}

/// Decodes the hyperlinks of a sheet, one record each, in order.
pub fn decode_hyperlinks(links: &Vec<RawHyperlink>) -> (out: Vec<Hyperlink>)
    ensures
        out@.len() == links@.len(),
        forall|i: int| 0 <= i < links@.len() ==> out@[i]@ == hyperlink_read(links@[i]@),
{
    let mut out: Vec<Hyperlink> = Vec::new();
    let mut i: usize = 0;
    while i < links.len()
        invariant
            i <= links.len(),
            out@.len() == i,
            forall|k: int| 0 <= k < i ==> out@[k]@ == hyperlink_read(links@[k]@),
        decreases links.len() - i,
    {
        out.push(read_hyperlink(&links[i]));
        i = i + 1;
    }
    out
}

/// The hyperlink to store on the cell at a one-based column and row.
#[derive(Clone, Debug, PartialEq, Eq)]
pub struct HyperlinkEdit {
    pub column: u32,
    pub row: u32,
    pub url: String,
    pub tooltip: Option<String>,
    pub location: bool,
}

/// The mathematical content of a [`HyperlinkEdit`].
pub struct HyperlinkEditModel {
    pub column: u32,
    pub row: u32,
    pub url: Seq<char>,
    pub tooltip: Option<Seq<char>>,
    pub location: bool,
}

impl View for HyperlinkEdit {
    type V = HyperlinkEditModel;

    open spec fn view(&self) -> HyperlinkEditModel {
        HyperlinkEditModel {
            column: self.column,
            row: self.row,
            url: self.url@,
            tooltip: text_of(self.tooltip),
            location: self.location,
        }
    }
}

/// The hyperlink that a request asks to store, or the reference that makes
/// it invalid. A tooltip is stored only where it is not empty.
pub open spec fn hyperlink_written(
    a1: Seq<char>,
    target: Seq<char>,
    tooltip: Option<Seq<char>>,
    internal: bool,
) -> Result<HyperlinkEditModel, Failure> {
    if !is_cell_reference(a1) {
        Err(Failure::InvalidReference(a1))
    } else {
        Ok(
            HyperlinkEditModel {
                column: cell_of(a1).0,
                row: cell_of(a1).1,
                url: target,
                tooltip: non_empty(tooltip),
                location: internal,
            },
        )
    }
}

fn present_slice(o: Option<&str>) -> (r: Option<String>)
    ensures
        text_of(r) == non_empty(slice_of(o)),
{
    match o {
        Some(t) => if chars_of(t).len() == 0 {
            None
        } else {
            Some(String::from_str(t))
        },
        None => None,
    }
}

/// Computes the hyperlink to store on a cell.
pub fn encode_hyperlink(a1: &str, target: &str, tooltip: Option<&str>, internal: bool) -> (r: Result<
    HyperlinkEdit,
    CodecError,
>)
    ensures
        agrees(r, hyperlink_written(a1@, target@, slice_of(tooltip), internal)),
{
    let (column, row) = match cell_at(a1) {
        Ok(at) => at,
        Err(e) => {
            return Err(e);
        },
    };
    Ok(
        HyperlinkEdit {
            column,
            row,
            url: String::from_str(target),
            tooltip: present_slice(tooltip),
            location: internal,
        },
    )
}

/// A comment as a document holds it: its rich text where it has any, its
/// plain text where the document gives one.
#[derive(Clone, Debug, PartialEq, Eq)]
pub struct RawComment {
    pub cell: String,
    pub rich_text: Option<String>,
    pub plain_text: Option<String>,
    pub author: String,
}

/// The mathematical content of a [`RawComment`].
pub struct RawCommentModel {
    pub cell: Seq<char>,
    pub rich_text: Option<Seq<char>>,
    pub plain_text: Option<Seq<char>>,
    pub author: Seq<char>,
}

impl View for RawComment {
    type V = RawCommentModel;

    open spec fn view(&self) -> RawCommentModel {
        RawCommentModel {
            cell: self.cell@,
            rich_text: text_of(self.rich_text),
            plain_text: text_of(self.plain_text),
            author: self.author@,
        }
    }
}

/// A comment as callers see it. Threaded comments are not supported, so
/// `threaded` is always false.
#[derive(Clone, Debug, PartialEq, Eq)]
pub struct Comment {
    pub cell: String,
    pub text: String,
    pub author: Option<String>,
    pub threaded: bool,
}

/// The mathematical content of a [`Comment`].
pub struct CommentModel {
    pub cell: Seq<char>,
    pub text: Seq<char>,
    pub author: Option<Seq<char>>,
    pub threaded: bool,
}

impl View for Comment {
    type V = CommentModel;

    open spec fn view(&self) -> CommentModel {
        CommentModel {
            cell: self.cell@,
            text: self.text@,
            author: text_of(self.author),
            threaded: self.threaded,
        }
    }
}

/// The text of a stored comment: its rich text first, else its plain text,
/// else nothing.
pub open spec fn comment_text(raw: RawCommentModel) -> Seq<char> {
    match raw.rich_text {
        Some(t) => t,
        None => match raw.plain_text {
            Some(t) => t,
            None => Seq::empty(),
        },
    }
}

/// The record of a stored comment.
pub open spec fn comment_read(raw: RawCommentModel) -> CommentModel {
    CommentModel {
        cell: raw.cell,
        text: comment_text(raw),
        author: non_empty(Some(raw.author)),
        threaded: false,
    }
}

/// Extracts the text of a stored comment.
pub fn extract_comment_text(raw: &RawComment) -> (out: String)
    ensures
        out@ == comment_text(raw@),
{
    match &raw.rich_text {
        Some(t) => t.clone(),
        None => match &raw.plain_text {
            Some(t) => t.clone(),
            None => String::new(),
        },
    }
}

/// Decodes the comments of a sheet, one record each, in order.
pub fn decode_comments(comments: &Vec<RawComment>) -> (out: Vec<Comment>)
    ensures
        out@.len() == comments@.len(),
        forall|i: int| 0 <= i < comments@.len() ==> out@[i]@ == comment_read(comments@[i]@),
{
    let mut out: Vec<Comment> = Vec::new();
    let mut i: usize = 0;
    while i < comments.len()
        invariant
            i <= comments.len(),
            out@.len() == i,
            forall|k: int| 0 <= k < i ==> out@[k]@ == comment_read(comments@[k]@),
        decreases comments.len() - i,
    {
        let raw = &comments[i];
        out.push(
            Comment {
                cell: raw.cell.clone(),
                text: extract_comment_text(raw),
                author: present(&raw.author),
                threaded: false,
            },
        );
        i = i + 1;
    }
    out
}

/// The comment to store, as rich text, on the cell at a one-based column
/// and row.
#[derive(Clone, Debug, PartialEq, Eq)]
pub struct CommentEdit {
    pub column: u32,
    pub row: u32,
    pub text: String,
    pub author: Option<String>,
}

/// The mathematical content of a [`CommentEdit`].
pub struct CommentEditModel {
    pub column: u32,
    pub row: u32,
    pub text: Seq<char>,
    pub author: Option<Seq<char>>,
}

impl View for CommentEdit {
    type V = CommentEditModel;

    open spec fn view(&self) -> CommentEditModel {
        CommentEditModel {
            column: self.column,
            row: self.row,
            text: self.text@,
            author: text_of(self.author),
        }
    }
}

/// The comment that a request asks to store, or the reference that makes
/// it invalid. An author is stored only where it is not empty.
pub open spec fn comment_written(a1: Seq<char>, text: Seq<char>, author: Option<Seq<char>>) -> Result<
    CommentEditModel,
    Failure,
> {
    if !is_cell_reference(a1) {
        Err(Failure::InvalidReference(a1))
    } else {
        Ok(
            CommentEditModel {
                column: cell_of(a1).0,
                row: cell_of(a1).1,
                text,
                author: non_empty(author),
            },
        )
    }
}

/// Computes the comment to store on a cell.
pub fn encode_comment(a1: &str, text: &str, author: Option<&str>) -> (r: Result<
    CommentEdit,
    CodecError,
>)
    ensures
        agrees(r, comment_written(a1@, text@, slice_of(author))),
{
    let (column, row) = match cell_at(a1) {
        Ok(at) => at,
        Err(e) => {
            return Err(e);
        },
    };
    Ok(CommentEdit { column, row, text: String::from_str(text), author: present_slice(author) })
}

/// An image as a document holds it: the anchor cell, the name of the media
/// part, whether it is anchored to two cells, and the offsets of its corner
/// in drawing units.
#[derive(Clone, Debug, PartialEq, Eq)]
pub struct RawImage {
    pub cell: String,
    pub name: String,
    pub two_cell: bool,
    pub col_off: i32,
    pub row_off: i32,
}

/// The mathematical content of a [`RawImage`].
pub struct RawImageModel {
    pub cell: Seq<char>,
    pub name: Seq<char>,
    pub two_cell: bool,
    pub col_off: i32,
    pub row_off: i32,
}

impl View for RawImage {
    type V = RawImageModel;

    open spec fn view(&self) -> RawImageModel {
        RawImageModel {
            cell: self.cell@,
            name: self.name@,
            two_cell: self.two_cell,
            col_off: self.col_off,
            row_off: self.row_off,
        }
    }
}

/// An image as callers see it, with its offset in pixels.
#[derive(Clone, Debug, PartialEq, Eq)]
pub struct Image {
    pub cell: String,
    pub path: Option<String>,
    pub anchor: String,
    pub offset: Option<(i32, i32)>,
}

/// The mathematical content of a [`Image`].
pub struct ImageModel {
    pub cell: Seq<char>,
    pub path: Option<Seq<char>>,
    pub anchor: Seq<char>,
    pub offset: Option<(i32, i32)>,
}

impl View for Image {
    type V = ImageModel;

    open spec fn view(&self) -> ImageModel {
        ImageModel {
            cell: self.cell@,
            path: text_of(self.path),
            anchor: self.anchor@,
            offset: self.offset,
        }
    }
}

/// Whole pixels in a number of drawing units, cut towards zero.
pub open spec fn pixels_of(emu: i32) -> int {
    if emu >= 0 {
        emu as int / 9525
    } else {
        -((-(emu as int)) / 9525)
    }
}

/// The record of a stored image: its path inside the package where it has a
/// name, its kind of anchor, and its offset in pixels unless that is zero
/// both ways.
pub open spec fn image_read(raw: RawImageModel) -> ImageModel {
    ImageModel {
        cell: raw.cell,
        path: if raw.name.len() == 0 {
            None
        } else {
            Some("/xl/media/"@ + raw.name)
        },
        anchor: if raw.two_cell {
            "twoCell"@
        } else {
            "oneCell"@
        },
        offset: if pixels_of(raw.col_off) != 0 || pixels_of(raw.row_off) != 0 {
            Some((pixels_of(raw.col_off) as i32, pixels_of(raw.row_off) as i32))
        } else {
            None
        },
    }
}

fn to_pixels(emu: i32) -> (px: i32)
    ensures
        px == pixels_of(emu),
{
    let wide: i64 = emu as i64;
    if wide >= 0 {
        (wide / 9525) as i32
    } else {
        (-((-wide) / 9525)) as i32
    }
}

fn read_image(raw: &RawImage) -> (r: Image)
    ensures
        r@ == image_read(raw@),
{
    let path = if chars_of(raw.name.as_str()).len() == 0 {
        None
    } else {
        Some(String::from_str("/xl/media/").concat(raw.name.as_str()))
    };
    let anchor = if raw.two_cell {
        String::from_str("twoCell")
    } else {
        String::from_str("oneCell")
    };
    let x = to_pixels(raw.col_off);
    let y = to_pixels(raw.row_off);
    let offset = if x != 0 || y != 0 {
        Some((x, y))
    } else {
        None
    };
    Image { cell: raw.cell.clone(), path, anchor, offset }
}

/// Decodes the images of a sheet, one record each, in order.
pub fn decode_images(images: &Vec<RawImage>) -> (out: Vec<Image>)
    ensures
        out@.len() == images@.len(),
        forall|i: int| 0 <= i < images@.len() ==> out@[i]@ == image_read(images@[i]@),
{
    let mut out: Vec<Image> = Vec::new();
    let mut i: usize = 0;
    while i < images.len()
        invariant
            i <= images.len(),
            out@.len() == i,
            forall|k: int| 0 <= k < i ==> out@[k]@ == image_read(images@[k]@),
        decreases images.len() - i,
    {
        out.push(read_image(&images[i]));
        i = i + 1;
    }
    out
}

/// The image to embed: the one-based column and row of its anchor cell,
/// the file it comes from, and the offsets of its corner in drawing units.
#[derive(Clone, Debug, PartialEq, Eq)]
pub struct ImageEdit {
    pub column: u32,
    pub row: u32,
    pub path: String,
    pub col_off: i32,
    pub row_off: i32,
}

/// The mathematical content of a [`ImageEdit`].
pub struct ImageEditModel {
    pub column: u32,
    pub row: u32,
    pub path: Seq<char>,
    pub col_off: i32,
    pub row_off: i32,
}

impl View for ImageEdit {
    type V = ImageEditModel;

    open spec fn view(&self) -> ImageEditModel {
        ImageEditModel {
            column: self.column,
            row: self.row,
            path: self.path@,
            col_off: self.col_off,
            row_off: self.row_off,
        }
    }
}

/// Whether a number of pixels, in drawing units, fits 32 bits.
pub open spec fn fits_in_units(px: i32) -> bool {
    i32::MIN <= px * 9525 <= i32::MAX
}

/// The image that a request asks to embed, or why it is rejected: a
/// malformed anchor reference comes first, then an offset that overflows in
/// drawing units, then a source file that does not exist.
pub open spec fn image_written(
    cell: Seq<char>,
    path: Seq<char>,
    offset: Option<(i32, i32)>,
    source_exists: bool,
) -> Result<ImageEditModel, Failure> {
    if !is_cell_reference(cell) {
        Err(Failure::InvalidReference(cell))
    } else if offset is Some && !(fits_in_units(offset.unwrap().0) && fits_in_units(
        offset.unwrap().1,
    )) {
        Err(Failure::NumericOverflow)
    } else if !source_exists {
        Err(Failure::ResourceNotFound(path))
    } else {
        Ok(
            ImageEditModel {
                column: cell_of(cell).0,
                row: cell_of(cell).1,
                path,
                col_off: match offset {
                    Some(o) => (o.0 * 9525) as i32,
                    None => 0,
                },
                row_off: match offset {
                    Some(o) => (o.1 * 9525) as i32,
                    None => 0,
                },
            },
        )
    }
}

fn to_units(px: i32) -> (r: Option<i32>)
    ensures
        r is Some <==> fits_in_units(px),
        r is Some ==> r.unwrap() == px * 9525,
{
    let wide: i64 = px as i64 * 9525;
    if wide < -2147483648 || wide > 2147483647 {
        None
    } else {
        Some(wide as i32)
    }
}

/// Computes the image to embed at a cell, with its pixel offset turned into
/// drawing units. `source_exists` says whether the file at `path` exists.
pub fn encode_image(cell: &str, path: &str, offset: Option<(i32, i32)>, source_exists: bool) -> (r:
    Result<ImageEdit, CodecError>)
    ensures
        agrees(r, image_written(cell@, path@, offset, source_exists)),
{
    let (column, row) = match cell_at(cell) {
        Ok(at) => at,
        Err(e) => {
            return Err(e);
        },
    };
    let (col_off, row_off) = match offset {
        Some((x, y)) => {
            let cx = match to_units(x) {
                Some(v) => v,
                None => {
                    return Err(CodecError::NumericOverflow);
                },
            };
            let cy = match to_units(y) {
                Some(v) => v,
                None => {
                    return Err(CodecError::NumericOverflow);
                },
            };
            (cx, cy)
        },
        None => (0, 0),
    };
    if !source_exists {
        return Err(CodecError::ResourceNotFound(String::from_str(path)));
    }
    Ok(ImageEdit { column, row, path: String::from_str(path), col_off, row_off })
}

/// An offset that was written in pixels is read back as the same pixels.
pub proof fn lemma_offset_round_trip(px: i32)
    requires
        fits_in_units(px),
    ensures
        pixels_of((px * 9525) as i32) == px,
{
    if px >= 0 {
        assert((px * 9525) / 9525 == px) by (nonlinear_arith);
    } else {
        assert(((-px) * 9525) / 9525 == -px) by (nonlinear_arith);
        assert(-(px * 9525) == (-px) * 9525) by (nonlinear_arith);
    }
}

} // verus!
