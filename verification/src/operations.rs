//! Operations on a sheet of a document. Each names the sheet, checks that
//! the document has it, checks the reference where it takes one, and only
//! then lets one codec function decode what was read or compute what to
//! store. So an operation on an unknown sheet fails before anything changes.
//!
//! `sheet_known` says whether the document has the sheet. What was read
//! from the sheet is given beside it; for an unknown sheet it is whatever
//! the caller has, and is not looked at.

use vstd::prelude::*;
use vstd::string::*;
use crate::attachment::{
    comment_read, comment_written, decode_comments, decode_hyperlinks, decode_images,
    encode_comment, encode_hyperlink, encode_image, hyperlink_read, hyperlink_written,
    image_read, image_written, Comment, CommentEdit, Hyperlink, HyperlinkEdit, Image, ImageEdit,
    RawComment, RawHyperlink, RawImage,
};
use crate::border::{
    border_read, border_written, decode_cell_border, encode_cell_border, BorderPayload,
    BordersEdit, CellBorder, RawBorders,
};
use crate::cell::{
    decode_cell_value, decoded, CellEdit, CellModel, CellValue, RawCell, RawCellModel,
};
use crate::cell_laws::{comes_back, lemma_cell_round_trip, stored_after};
use crate::dates::is_date_shaped;
use crate::conditional::{
    blocks_of, blocks_read, decode_conditional_formats, encode_conditional_format, rule_written,
    rules_of, ConditionalFormatRule, RawFormatting, RuleEdit, RulePayload,
};
use crate::error::{agrees, slice_of, text_of, CodecError, Failure};
use crate::number::{positive_or_absent, Number64};
use crate::payload::{
    edit_of_payload, encode_cell_payload, lemma_payload_round_trip, payload_of, CellPayload,
};
use crate::reference::{
    column_number, is_cell_reference, is_column_text, locate_cell, located, require_sheet,
};
use crate::structural::{
    canonical_range, decode_column_width, decode_freeze_panes, decode_merged_ranges,
    decode_row_height, encode_column_width, encode_freeze_panes, encode_merge, encode_row_height,
    encode_unmerge, is_range_text, panes_read, panes_written, row_zero, size_at, still_merged,
    views_of, Dimension, PaneEdit,
};
use crate::style::{
    decode_cell_format, encode_cell_format, format_read, format_written, CellFormat, RawStyle,
    StyleEdit, StyleEditModel,
};
use crate::text::texts;
use crate::validation::{
    decode_data_validations, encode_data_validation, validation_read, validation_written,
    DataValidationRule, RawValidation, ValidationEdit, ValidationPayload,
};

verus! {

/// Something to store, with the one-based column and row of the cell that
/// takes it.
#[derive(Clone, Debug, PartialEq, Eq)]
pub struct Located<T> {
    pub column: u32,
    pub row: u32,
    pub item: T,
}

/// The mathematical content of a [`Located`].
pub struct LocatedModel<V> {
    pub column: u32,
    pub row: u32,
    pub item: V,
}

impl<T: View> View for Located<T> {
    type V = LocatedModel<T::V>;

    open spec fn view(&self) -> LocatedModel<T::V> {
        LocatedModel { column: self.column, row: self.row, item: self.item@ }
    }
}

/// The outcome of an operation on a sheet: the failure of an unknown sheet
/// first, else the outcome on the sheet.
pub open spec fn on_sheet<V>(known: bool, sheet: Seq<char>, outcome: Result<V, Failure>) -> Result<
    V,
    Failure,
> {
    if known {
        outcome
    } else {
        Err(Failure::UnknownSheet(sheet))
    }
}

/// The outcome of an operation that stores at a cell: the failure to
/// locate the cell first, else the failure to compute what to store, else
/// what to store with the cell.
pub open spec fn at_cell<V>(at: Result<(u32, u32), Failure>, outcome: Result<V, Failure>) -> Result<
    LocatedModel<V>,
    Failure,
> {
    match at {
        Err(e) => Err(e),
        Ok(cell) => match outcome {
            Err(e) => Err(e),
            Ok(item) => Ok(LocatedModel { column: cell.0, row: cell.1, item }),
        },
    }
}

/// The outcome of an operation that reads at a cell: the failure to locate
/// the cell first, else what was decoded.
pub open spec fn from_cell<V>(at: Result<(u32, u32), Failure>, value: V) -> Result<V, Failure> {
    match at {
        Err(e) => Err(e),
        Ok(_) => Ok(value),
    }
}

/// The optional content behind an optional reference.
pub open spec fn content_of<T: View>(o: Option<&T>) -> Option<T::V> {
    match o {
        Some(x) => Some(x@),
        None => None,
    }
}

/// Reads the value of a cell. `cell` is what the document holds at the
/// cell, nothing where it holds none.
pub fn read_cell_value(sheet_known: bool, sheet: &str, a1: &str, cell: Option<&RawCell>) -> (r:
    Result<CellValue, CodecError>)
    ensures
        agrees(
            r,
            from_cell(
                located(sheet_known, sheet@, a1@),
                match cell {
                    Some(raw) => decoded(raw@),
                    None => CellModel::Blank,
                },
            ),
        ),
{
    match locate_cell(sheet_known, sheet, a1) {
        Ok(_) => Ok(decode_cell_value(cell)),
        Err(e) => Err(e),
    }
}

/// Computes what to store in a cell for a cell record, and where. Sheet,
/// reference and record are all checked before anything is handed back, so
/// nothing is stored for a request that is rejected.
pub fn write_cell_value(sheet_known: bool, sheet: &str, a1: &str, payload: &CellPayload) -> (r:
    Result<Located<CellEdit>, CodecError>)
    ensures
        agrees(r, at_cell(located(sheet_known, sheet@, a1@), edit_of_payload(payload@))),
{
    let (column, row) = match locate_cell(sheet_known, sheet, a1) {
        Ok(at) => at,
        Err(e) => {
            return Err(e);
        },
    };
    match encode_cell_payload(payload) {
        Ok(item) => Ok(Located { column, row, item }),
        Err(e) => Err(e),
    }
}

/// Reads the format of a cell. `style` is the style of the cell in the
/// document, nothing where the cell does not exist.
pub fn read_cell_format(sheet_known: bool, sheet: &str, a1: &str, style: Option<&RawStyle>) -> (r:
    Result<CellFormat, CodecError>)
    ensures
        agrees(r, from_cell(located(sheet_known, sheet@, a1@), format_read(content_of(style)))),
{
    match locate_cell(sheet_known, sheet, a1) {
        Ok(_) => Ok(decode_cell_format(style)),
        Err(e) => Err(e),
    }
}

/// Computes the changes to the style of a cell for a format record, and
/// where.
pub fn write_cell_format(sheet_known: bool, sheet: &str, a1: &str, format: &CellFormat) -> (r:
    Result<Located<StyleEdit>, CodecError>)
    ensures
        agrees(
            r,
            at_cell(
                located(sheet_known, sheet@, a1@),
                Ok::<StyleEditModel, Failure>(format_written(format@)),
            ),
        ),
{
    match locate_cell(sheet_known, sheet, a1) {
        Ok((column, row)) => Ok(Located { column, row, item: encode_cell_format(format) }),
        Err(e) => Err(e),
    }
}

/// Reads the border of a cell. `borders` is what the style of the cell
/// holds, nothing where the cell or its borders do not exist.
pub fn read_cell_border(
    sheet_known: bool,
    sheet: &str,
    a1: &str,
    borders: Option<&RawBorders>,
) -> (r: Result<CellBorder, CodecError>)
    ensures
        agrees(r, from_cell(located(sheet_known, sheet@, a1@), border_read(content_of(borders)))),
{
    match locate_cell(sheet_known, sheet, a1) {
        Ok(_) => Ok(decode_cell_border(borders)),
        Err(e) => Err(e),
    }
}

/// Computes the changes to the borders of a cell for a border record, and
/// where.
pub fn write_cell_border(sheet_known: bool, sheet: &str, a1: &str, border: &BorderPayload) -> (r:
    Result<Located<BordersEdit>, CodecError>)
    ensures
        agrees(r, at_cell(located(sheet_known, sheet@, a1@), border_written(border@))),
{
    let (column, row) = match locate_cell(sheet_known, sheet, a1) {
        Ok(at) => at,
        Err(e) => {
            return Err(e);
        },
    };
    match encode_cell_border(border) {
        Ok(item) => Ok(Located { column, row, item }),
        Err(e) => Err(e),
    }
}

/// The highest row of a sheet that holds a cell, as the document reports
/// it.
pub fn sheet_max_row(sheet_known: bool, sheet: &str, highest_row: u32) -> (r: Result<
    u32,
    CodecError,
>)
    ensures
        sheet_known ==> r == Ok::<u32, CodecError>(highest_row),
        !sheet_known ==> r is Err && r->Err_0@ == Failure::UnknownSheet(sheet@),
{
    match require_sheet(sheet_known, sheet) {
        Ok(_) => Ok(highest_row),
        Err(e) => Err(e),
    }
}

/// The highest column of a sheet that holds a cell, as the document
/// reports it.
pub fn sheet_max_column(sheet_known: bool, sheet: &str, highest_column: u32) -> (r: Result<
    u32,
    CodecError,
>)
    ensures
        sheet_known ==> r == Ok::<u32, CodecError>(highest_column),
        !sheet_known ==> r is Err && r->Err_0@ == Failure::UnknownSheet(sheet@),
{
    match require_sheet(sheet_known, sheet) {
        Ok(_) => Ok(highest_column),
        Err(e) => Err(e),
    }
}

/// Reads the height of a row out of the row sizes of a sheet.
pub fn read_row_height(sheet_known: bool, sheet: &str, rows: &Vec<Dimension>, row: u32) -> (r:
    Result<Option<Number64>, CodecError>)
    ensures
        !sheet_known ==> r is Err && r->Err_0@ == Failure::UnknownSheet(sheet@),
        sheet_known && row == 0 ==> r is Err && r->Err_0@ == Failure::InvalidReference(
            row_zero(),
        ),
        sheet_known && row >= 1 ==> r == Ok::<Option<Number64>, CodecError>(
            positive_or_absent(size_at(rows@, row)),
        ),
{
    match require_sheet(sheet_known, sheet) {
        Ok(_) => decode_row_height(rows, row),
        Err(e) => Err(e),
    }
}

/// Computes the size to store for a row of a sheet.
pub fn set_row_height(sheet_known: bool, sheet: &str, row: u32, height: Number64) -> (r: Result<
    Dimension,
    CodecError,
>)
    ensures
        !sheet_known ==> r is Err && r->Err_0@ == Failure::UnknownSheet(sheet@),
        sheet_known && row == 0 ==> r is Err && r->Err_0@ == Failure::InvalidReference(
            row_zero(),
        ),
        sheet_known && row >= 1 ==> r == Ok::<Dimension, CodecError>(
            Dimension { index: row, size: height },
        ),
{
    match require_sheet(sheet_known, sheet) {
        Ok(_) => encode_row_height(row, height),
        Err(e) => Err(e),
    }
}

/// Reads the width of a column, named by its letters, out of the column
/// sizes of a sheet.
pub fn read_column_width(
    sheet_known: bool,
    sheet: &str,
    columns: &Vec<Dimension>,
    col_str: &str,
) -> (r: Result<Option<Number64>, CodecError>)
    ensures
        !sheet_known ==> r is Err && r->Err_0@ == Failure::UnknownSheet(sheet@),
        sheet_known && !is_column_text(col_str@) ==> r is Err && r->Err_0@
            == Failure::InvalidReference(col_str@),
        sheet_known && is_column_text(col_str@) ==> r == Ok::<Option<Number64>, CodecError>(
            positive_or_absent(size_at(columns@, column_number(col_str@) as u32)),
        ),
{
    match require_sheet(sheet_known, sheet) {
        Ok(_) => decode_column_width(columns, col_str),
        Err(e) => Err(e),
    }
}

/// Computes the size to store for a column of a sheet, named by its
/// letters.
pub fn set_column_width(sheet_known: bool, sheet: &str, col_str: &str, width: Number64) -> (r:
    Result<Dimension, CodecError>)
    ensures
        !sheet_known ==> r is Err && r->Err_0@ == Failure::UnknownSheet(sheet@),
        sheet_known && !is_column_text(col_str@) ==> r is Err && r->Err_0@
            == Failure::InvalidReference(col_str@),
        sheet_known && is_column_text(col_str@) ==> r == Ok::<Dimension, CodecError>(
            Dimension { index: column_number(col_str@) as u32, size: width },
        ),
{
    match require_sheet(sheet_known, sheet) {
        Ok(_) => encode_column_width(col_str, width),
        Err(e) => Err(e),
    }
}

/// Computes the range to add to the merged ranges of a sheet, in
/// canonical form.
pub fn merge_cells(sheet_known: bool, sheet: &str, range_str: &str) -> (r: Result<
    String,
    CodecError,
>)
    ensures
        !sheet_known ==> r is Err && r->Err_0@ == Failure::UnknownSheet(sheet@),
        sheet_known && !is_range_text(range_str@) ==> r is Err && r->Err_0@
            == Failure::InvalidReference(range_str@),
        sheet_known && is_range_text(range_str@) ==> r is Ok && r->Ok_0@ == canonical_range(
            range_str@,
        ),
{
    match require_sheet(sheet_known, sheet) {
        Ok(_) => encode_merge(range_str),
        Err(e) => Err(e),
    }
}

/// Computes the merged ranges of a sheet that stay when a range is
/// unmerged.
pub fn unmerge_cells(sheet_known: bool, sheet: &str, ranges: &Vec<String>, range_str: &str) -> (r:
    Result<Vec<String>, CodecError>)
    ensures
        !sheet_known ==> r is Err && r->Err_0@ == Failure::UnknownSheet(sheet@),
        sheet_known ==> r is Ok && texts(r->Ok_0@) == still_merged(texts(ranges@), range_str@),
{
    match require_sheet(sheet_known, sheet) {
        Ok(_) => Ok(encode_unmerge(ranges, range_str)),
        Err(e) => Err(e),
    }
}

/// Lists the merged ranges of a sheet.
pub fn get_merged_ranges(sheet_known: bool, sheet: &str, ranges: &Vec<String>) -> (r: Result<
    Vec<String>,
    CodecError,
>)
    ensures
        !sheet_known ==> r is Err && r->Err_0@ == Failure::UnknownSheet(sheet@),
        sheet_known ==> r is Ok && texts(r->Ok_0@) == texts(ranges@),
{
    match require_sheet(sheet_known, sheet) {
        Ok(_) => Ok(decode_merged_ranges(ranges)),
        Err(e) => Err(e),
    }
}

/// Reads the freeze anchor of a sheet out of its views.
pub fn get_freeze_panes(sheet_known: bool, sheet: &str, views: &Vec<Option<String>>) -> (r:
    Result<Option<String>, CodecError>)
    ensures
        !sheet_known ==> r is Err && r->Err_0@ == Failure::UnknownSheet(sheet@),
        sheet_known ==> r is Ok && text_of(r->Ok_0) == panes_read(views_of(views@)),
{
    match require_sheet(sheet_known, sheet) {
        Ok(_) => Ok(decode_freeze_panes(views)),
        Err(e) => Err(e),
    }
}

/// Computes what to do with the panes of a sheet for an anchor reference.
pub fn set_freeze_panes(sheet_known: bool, sheet: &str, a1: Option<&str>) -> (r: Result<
    PaneEdit,
    CodecError,
>)
    ensures
        agrees(r, on_sheet(sheet_known, sheet@, panes_written(slice_of(a1)))),
{
    match require_sheet(sheet_known, sheet) {
        Ok(_) => encode_freeze_panes(a1),
        Err(e) => Err(e),
    }
}

/// Reads the hyperlinks of a sheet.
pub fn read_hyperlinks(sheet_known: bool, sheet: &str, links: &Vec<RawHyperlink>) -> (r: Result<
    Vec<Hyperlink>,
    CodecError,
>)
    ensures
        !sheet_known ==> r is Err && r->Err_0@ == Failure::UnknownSheet(sheet@),
        sheet_known ==> r is Ok && r->Ok_0@.len() == links@.len() && forall|i: int|
            0 <= i < links@.len() ==> (#[trigger] r->Ok_0@[i])@ == hyperlink_read(links@[i]@),
{
    match require_sheet(sheet_known, sheet) {
        Ok(_) => Ok(decode_hyperlinks(links)),
        Err(e) => Err(e),
    }
}

/// Computes the hyperlink to store on a cell of a sheet.
pub fn add_hyperlink(
    sheet_known: bool,
    sheet: &str,
    a1: &str,
    target: &str,
    tooltip: Option<&str>,
    internal: bool,
) -> (r: Result<HyperlinkEdit, CodecError>)
    ensures
        agrees(
            r,
            on_sheet(
                sheet_known,
                sheet@,
                hyperlink_written(a1@, target@, slice_of(tooltip), internal),
            ),
        ),
{
    match require_sheet(sheet_known, sheet) {
        Ok(_) => encode_hyperlink(a1, target, tooltip, internal),
        Err(e) => Err(e),
    }
}

/// Reads the comments of a sheet.
pub fn read_comments(sheet_known: bool, sheet: &str, comments: &Vec<RawComment>) -> (r: Result<
    Vec<Comment>,
    CodecError,
>)
    ensures
        !sheet_known ==> r is Err && r->Err_0@ == Failure::UnknownSheet(sheet@),
        sheet_known ==> r is Ok && r->Ok_0@.len() == comments@.len() && forall|i: int|
            0 <= i < comments@.len() ==> (#[trigger] r->Ok_0@[i])@ == comment_read(comments@[i]@),
{
    match require_sheet(sheet_known, sheet) {
        Ok(_) => Ok(decode_comments(comments)),
        Err(e) => Err(e),
    }
}

/// Computes the comment to store on a cell of a sheet.
pub fn add_comment(sheet_known: bool, sheet: &str, a1: &str, text: &str, author: Option<&str>) -> (r:
    Result<CommentEdit, CodecError>)
    ensures
        agrees(r, on_sheet(sheet_known, sheet@, comment_written(a1@, text@, slice_of(author)))),
{
    match require_sheet(sheet_known, sheet) {
        Ok(_) => encode_comment(a1, text, author),
        Err(e) => Err(e),
    }
}

/// Reads the data validations of a sheet.
pub fn read_data_validations(sheet_known: bool, sheet: &str, list: &Vec<RawValidation>) -> (r:
    Result<Vec<DataValidationRule>, CodecError>)
    ensures
        !sheet_known ==> r is Err && r->Err_0@ == Failure::UnknownSheet(sheet@),
        sheet_known ==> r is Ok && r->Ok_0@.len() == list@.len() && forall|i: int|
            0 <= i < list@.len() ==> (#[trigger] r->Ok_0@[i])@ == validation_read(list@[i]@),
{
    match require_sheet(sheet_known, sheet) {
        Ok(_) => Ok(decode_data_validations(list)),
        Err(e) => Err(e),
    }
}

/// Validates a validation record and computes the validation to add to a
/// sheet.
pub fn add_data_validation(sheet_known: bool, sheet: &str, payload: &ValidationPayload) -> (r:
    Result<ValidationEdit, CodecError>)
    ensures
        agrees(r, on_sheet(sheet_known, sheet@, validation_written(payload@))),
{
    match require_sheet(sheet_known, sheet) {
        Ok(_) => encode_data_validation(payload),
        Err(e) => Err(e),
    }
}

/// Reads the conditional-formatting rules of a sheet out of its formatting
/// blocks.
pub fn read_conditional_formats(sheet_known: bool, sheet: &str, blocks: &Vec<RawFormatting>) -> (r:
    Result<Vec<ConditionalFormatRule>, CodecError>)
    ensures
        !sheet_known ==> r is Err && r->Err_0@ == Failure::UnknownSheet(sheet@),
        sheet_known ==> r is Ok && rules_of(r->Ok_0@) == blocks_read(blocks_of(blocks@)),
{
    match require_sheet(sheet_known, sheet) {
        Ok(_) => Ok(decode_conditional_formats(blocks)),
        Err(e) => Err(e),
    }
}

/// Validates a rule record and computes the formatting block to add to a
/// sheet.
pub fn add_conditional_format(sheet_known: bool, sheet: &str, payload: &RulePayload) -> (r: Result<
    RuleEdit,
    CodecError,
>)
    ensures
        agrees(r, on_sheet(sheet_known, sheet@, rule_written(payload@))),
{
    match require_sheet(sheet_known, sheet) {
        Ok(_) => encode_conditional_format(payload),
        Err(e) => Err(e),
    }
}

/// Reads the images of a sheet.
pub fn read_images(sheet_known: bool, sheet: &str, images: &Vec<RawImage>) -> (r: Result<
    Vec<Image>,
    CodecError,
>)
    ensures
        !sheet_known ==> r is Err && r->Err_0@ == Failure::UnknownSheet(sheet@),
        sheet_known ==> r is Ok && r->Ok_0@.len() == images@.len() && forall|i: int|
            0 <= i < images@.len() ==> (#[trigger] r->Ok_0@[i])@ == image_read(images@[i]@),
{
    match require_sheet(sheet_known, sheet) {
        Ok(_) => Ok(decode_images(images)),
        Err(e) => Err(e),
    }
}

/// Computes the image to embed at a cell of a sheet. `source_exists` says
/// whether the file at `path` exists.
pub fn add_image(
    sheet_known: bool,
    sheet: &str,
    cell: &str,
    path: &str,
    offset: Option<(i32, i32)>,
    source_exists: bool,
) -> (r: Result<ImageEdit, CodecError>)
    ensures
        agrees(
            r,
            on_sheet(sheet_known, sheet@, image_written(cell@, path@, offset, source_exists)),
        ),
{
    match require_sheet(sheet_known, sheet) {
        Ok(_) => encode_image(cell, path, offset, source_exists),
        Err(e) => Err(e),
    }
}

/// Writing a value to a cell and reading the cell gives the value again:
/// for a sheet that the document has, a well-formed reference, and a value
/// that can come back, the write is accepted, and once its edit has been
/// carried out on the cell, the read gives the value.
pub proof fn lemma_write_then_read(
    sheet: Seq<char>,
    a1: Seq<char>,
    v: CellModel,
    before: RawCellModel,
    after: RawCellModel,
)
    requires
        is_cell_reference(a1),
        comes_back(v),
        v is Number && before.format_code is Some ==> !is_date_shaped(before.format_code.unwrap()),
        stored_after(before, edit_of_payload(payload_of(v))->Ok_0, after),
    ensures
        at_cell(located(true, sheet, a1), edit_of_payload(payload_of(v))) is Ok,
        from_cell(located(true, sheet, a1), decoded(after)) == Ok::<CellModel, Failure>(v),
{
    lemma_payload_round_trip(v);
    lemma_cell_round_trip(v, before, after);
}

} // verus!
