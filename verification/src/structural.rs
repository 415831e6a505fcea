//! Structure of a sheet: row heights and column widths, merged ranges,
//! frozen panes.

use vstd::prelude::*;
use vstd::string::*;
use crate::error::{agrees, slice_of, text_of, CodecError, Failure};
use crate::number::{positive_or_absent, Number64};
use crate::reference::{
    a1_to_row_col, cell_name, cell_of, col_letter_to_u32, column_letters, column_number,
    column_part, decimal_text, digits_number, is_cell_reference, is_column_text,
    lemma_column_number_nonneg, lemma_reference_text_names_the_cell, reference_text, row_part,
};
use crate::text::{
    chars_eq, chars_of, has_char, spells, string_of, texts, trim, trimmed, uppercase, uppered,
};

verus! {

/// The size that a document holds for one row or column: the one-based
/// index, and the height or width.
#[derive(Clone, Copy, Debug, PartialEq, Eq, Structural)]
pub struct Dimension {
    pub index: u32,
    pub size: Number64,
}

/// The size of the first dimension with the given index.
pub open spec fn size_at(dims: Seq<Dimension>, index: u32) -> Option<Number64>
    decreases dims.len(),
{
    if dims.len() == 0 {
        None
    } else if dims[0].index == index {
        Some(dims[0].size)
    } else {
        size_at(dims.drop_first(), index)
    }
}

fn find_size(dims: &Vec<Dimension>, index: u32) -> (r: Option<Number64>)
    ensures
        r == size_at(dims@, index),
{
    let mut i: usize = 0;
    assert(dims@.subrange(0, dims.len() as int) =~= dims@);
    while i < dims.len()
        invariant
            i <= dims.len(),
            size_at(dims@, index) == size_at(dims@.subrange(i as int, dims.len() as int), index),
        decreases dims.len() - i,
    {
        if dims[i].index == index {
            return Some(dims[i].size);
        }
        assert(dims@.subrange(i as int, dims.len() as int).drop_first() =~= dims@.subrange(
            i + 1,
            dims.len() as int,
        ));
        i = i + 1;
    }
    None
}

/// The text of row 0, which no sheet has.
pub open spec fn row_zero() -> Seq<char> {
    "0"@
}

/// Reads the height of a row out of the row sizes of a sheet. A height of
/// zero or less means that none was set, and is reported as absent. Row 0
/// is an invalid reference.
pub fn decode_row_height(rows: &Vec<Dimension>, row: u32) -> (r: Result<
    Option<Number64>,
    CodecError,
>)
    ensures
        row >= 1 ==> r == Ok::<Option<Number64>, CodecError>(
            positive_or_absent(size_at(rows@, row)),
        ),
        row == 0 ==> r is Err && r->Err_0@ == Failure::InvalidReference(row_zero()),
{
    if row == 0 {
        return Err(CodecError::InvalidReference(String::from_str("0")));
    }
    match find_size(rows, row) {
        Some(h) => if h.positive() {
            Ok(Some(h))
        } else {
            Ok(None)
        },
        None => Ok(None),
    }
}

/// Computes the size to store for a row. Row 0 is an invalid reference.
pub fn encode_row_height(row: u32, height: Number64) -> (r: Result<Dimension, CodecError>)
    ensures
        row >= 1 ==> r == Ok::<Dimension, CodecError>(Dimension { index: row, size: height }),
        row == 0 ==> r is Err && r->Err_0@ == Failure::InvalidReference(row_zero()),
{
    if row == 0 {
        return Err(CodecError::InvalidReference(String::from_str("0")));
    }
    Ok(Dimension { index: row, size: height })
}

/// Reads the width of a column, named by its letters, out of the column
/// sizes of a sheet. A width of zero or less means that none was set, and is
/// reported as absent.
pub fn decode_column_width(columns: &Vec<Dimension>, col_str: &str) -> (r: Result<
    Option<Number64>,
    CodecError,
>)
    ensures
        is_column_text(col_str@) ==> r == Ok::<Option<Number64>, CodecError>(
            positive_or_absent(size_at(columns@, column_number(col_str@) as u32)),
        ),
        !is_column_text(col_str@) ==> r is Err && r->Err_0@ == Failure::InvalidReference(
            col_str@,
        ),
{
    let index = match col_letter_to_u32(col_str) {
        Ok(i) => i,
        Err(e) => {
            return Err(e);
        },
    };
    match find_size(columns, index) {
        Some(w) => if w.positive() {
            Ok(Some(w))
        } else {
            Ok(None)
        },
        None => Ok(None),
    }
}

/// Computes the size to store for a column, named by its letters.
pub fn encode_column_width(col_str: &str, width: Number64) -> (r: Result<Dimension, CodecError>)
    ensures
        is_column_text(col_str@) ==> r == Ok::<Dimension, CodecError>(
            Dimension { index: column_number(col_str@) as u32, size: width },
        ),
        !is_column_text(col_str@) ==> r is Err && r->Err_0@ == Failure::InvalidReference(
            col_str@,
        ),
{
    match col_letter_to_u32(col_str) {
        Ok(index) => Ok(Dimension { index, size: width }),
        Err(e) => Err(e),
    }
}

/// The form in which range references are compared: trimmed, with every
/// letter in upper case.
pub open spec fn canonical_range(s: Seq<char>) -> Seq<char> {
    uppered(trimmed(s))
}

/// Whether two range references name the same range.
pub open spec fn same_range(a: Seq<char>, b: Seq<char>) -> bool {
    canonical_range(a) == canonical_range(b)
}

/// How many times `c` occurs in `s`.
pub open spec fn count_char(s: Seq<char>, c: char) -> nat
    decreases s.len(),
{
    if s.len() == 0 {
        0
    } else {
        count_char(s.drop_last(), c) + if s.last() == c {
            1nat
        } else {
            0nat
        }
    }
}

/// A range reference has one corner or two: at most one colon.
pub open spec fn is_range_text(s: Seq<char>) -> bool {
    count_char(s, ':') <= 1
}

fn canonicalize(s: &str) -> (out: Vec<char>)
    ensures
        out@ == canonical_range(s@),
{
    let chars = chars_of(s);
    let t = trim(&chars);
    uppercase(&t)
}

/// Whether a stored range reference is the one that `target` names, with
/// case and surrounding white space ignored.
pub fn range_matches(stored: &str, target: &str) -> (r: bool)
    ensures
        r == same_range(stored@, target@),
{
    let a = canonicalize(stored);
    let b = canonicalize(target);
    chars_eq(&a, &b)
}

/// Checks a range reference that is to be merged, and hands back its
/// canonical form for storing. A reference with more than one colon is
/// invalid.
pub fn encode_merge(range_str: &str) -> (r: Result<String, CodecError>)
    ensures
        is_range_text(range_str@) ==> r is Ok && r->Ok_0@ == canonical_range(range_str@),
        !is_range_text(range_str@) ==> r is Err && r->Err_0@ == Failure::InvalidReference(
            range_str@,
        ),
{
    let chars = chars_of(range_str);
    let mut colons: usize = 0;
    let mut i: usize = 0;
    assert(chars@.subrange(0, 0) =~= Seq::<char>::empty());
    while i < chars.len()
        invariant
            i <= chars.len(),
            colons == count_char(chars@.subrange(0, i as int), ':'),
            colons <= i,
        decreases chars.len() - i,
    {
        assert(chars@.subrange(0, i + 1).drop_last() =~= chars@.subrange(0, i as int));
        if chars[i] == ':' {
            colons = colons + 1;
        }
        i = i + 1;
    }
    assert(chars@.subrange(0, i as int) =~= chars@);
    if colons <= 1 {
        let canon = canonicalize(range_str);
        Ok(string_of(&canon))
    } else {
        Err(CodecError::InvalidReference(String::from_str(range_str)))
    }
}

/// The ranges that stay merged when `target` is unmerged: all that do not
/// name the same range, in their order.
pub open spec fn still_merged(ranges: Seq<Seq<char>>, target: Seq<char>) -> Seq<Seq<char>>
    decreases ranges.len(),
{
    if ranges.len() == 0 {
        Seq::empty()
    } else if same_range(ranges.last(), target) {
        still_merged(ranges.drop_last(), target)
    } else {
        still_merged(ranges.drop_last(), target).push(ranges.last())
    }
}

/// Removes from the merged ranges of a sheet every range that `range_str`
/// names, with case and surrounding white space ignored.
pub fn encode_unmerge(ranges: &Vec<String>, range_str: &str) -> (out: Vec<String>)
    ensures
        texts(out@) == still_merged(texts(ranges@), range_str@),
{
    let target = canonicalize(range_str);
    let mut out: Vec<String> = Vec::new();
    let mut i: usize = 0;
    let ghost all = texts(ranges@);
    assert(all.subrange(0, 0) =~= Seq::<Seq<char>>::empty());
    assert(texts(out@) =~= Seq::<Seq<char>>::empty());
    while i < ranges.len()
        invariant
            i <= ranges.len(),
            all == texts(ranges@),
            target@ == canonical_range(range_str@),
            texts(out@) == still_merged(all.subrange(0, i as int), range_str@),
        decreases ranges.len() - i,
    {
        let ghost prev = out@;
        let stored = canonicalize(ranges[i].as_str());
        proof {
            let upto = all.subrange(0, i + 1);
            assert(upto.drop_last() =~= all.subrange(0, i as int));
            assert(upto.last() == ranges@[i as int]@);
        }
        if !chars_eq(&stored, &target) {
            out.push(ranges[i].clone());
            assert(texts(out@) =~= texts(prev).push(ranges@[i as int]@));
        }
        i = i + 1;
    }
    assert(all.subrange(0, i as int) =~= all);
    out
}

/// Lists the merged ranges of a sheet, as the document holds them.
pub fn decode_merged_ranges(ranges: &Vec<String>) -> (out: Vec<String>)
    ensures
        texts(out@) == texts(ranges@),
{
    let mut out: Vec<String> = Vec::new();
    let mut i: usize = 0;
    while i < ranges.len()
        invariant
            i <= ranges.len(),
            out@.len() == i,
            forall|k: int| 0 <= k < i ==> out@[k]@ == ranges@[k]@,
        decreases ranges.len() - i,
    {
        out.push(ranges[i].clone());
        i = i + 1;
    }
    assert(texts(out@) =~= texts(ranges@));
    out
}

/// After unmerging, no range that stays names the target, and every range
/// that stays was merged before.
pub proof fn lemma_unmerged_is_gone(ranges: Seq<Seq<char>>, target: Seq<char>)
    ensures
        forall|i: int|
            0 <= i < still_merged(ranges, target).len() ==> !same_range(
                #[trigger] still_merged(ranges, target)[i],
                target,
            ) && ranges.contains(still_merged(ranges, target)[i]),
        still_merged(ranges, target).len() <= ranges.len(),
    decreases ranges.len(),
{
    if ranges.len() > 0 {
        lemma_unmerged_is_gone(ranges.drop_last(), target);
        let rest = still_merged(ranges.drop_last(), target);
        let kept = still_merged(ranges, target);
        assert forall|i: int| 0 <= i < kept.len() implies !same_range(#[trigger] kept[i], target)
            && ranges.contains(kept[i]) by {
            if i < rest.len() {
                assert(kept[i] == rest[i]);
                let j = choose|j: int|
                    0 <= j < ranges.drop_last().len() && ranges.drop_last()[j] == rest[i];
                assert(ranges[j] == kept[i]);
            } else {
                assert(kept[i] == ranges.last());
                assert(ranges[ranges.len() - 1] == kept[i]);
            }
        }
    }
}

/// Unmerging the same range twice is unmerging it once.
pub proof fn lemma_unmerge_is_idempotent(ranges: Seq<Seq<char>>, target: Seq<char>)
    ensures
        still_merged(still_merged(ranges, target), target) == still_merged(ranges, target),
    decreases ranges.len(),
{
    if ranges.len() > 0 {
        lemma_unmerge_is_idempotent(ranges.drop_last(), target);
        if !same_range(ranges.last(), target) {
            let rest = still_merged(ranges.drop_last(), target);
            assert(rest.push(ranges.last()).drop_last() =~= rest);
        }
    }
}

/// How the panes of a frozen view behave.
#[derive(Clone, Copy, Debug, PartialEq, Eq, Structural)]
pub enum PaneState {
    Frozen,
    FrozenSplit,
    Split,
}

/// The quadrant of a split view that holds the cursor.
#[derive(Clone, Copy, Debug, PartialEq, Eq, Structural)]
pub enum ActivePane {
    BottomLeft,
    BottomRight,
    TopLeft,
    TopRight,
}

/// What to do with the panes of a sheet.
#[derive(Clone, Debug, PartialEq, Eq)]
pub enum PaneEdit {
    /// Remove all pane state.
    Clear,
    /// Freeze `x_split` columns and `y_split` rows, with `top_left` the
    /// first cell that scrolls, in canonical A1 text.
    Freeze { x_split: u32, y_split: u32, top_left: String, state: PaneState, active: ActivePane },
}

/// The mathematical content of a [`PaneEdit`].
pub enum PaneEditModel {
    Clear,
    Freeze { x_split: u32, y_split: u32, top_left: Seq<char>, state: PaneState, active: ActivePane },
}

impl View for PaneEdit {
    type V = PaneEditModel;

    open spec fn view(&self) -> PaneEditModel {
        match self {
            PaneEdit::Clear => PaneEditModel::Clear,
            PaneEdit::Freeze { x_split, y_split, top_left, state, active } => PaneEditModel::Freeze {
                x_split: *x_split,
                y_split: *y_split,
                top_left: top_left@,
                state: *state,
                active: *active,
            },
        }
    }
}

/// What an anchor asks for. No anchor, a blank anchor and an anchor at the
/// origin clear the panes. Any other anchor freezes the columns to its left
/// and the rows above it; the active pane is the bottom left where only rows
/// are frozen, and the bottom right wherever a column is frozen, never the
/// top right. The anchor is stored in canonical text.
pub open spec fn panes_written(a1: Option<Seq<char>>) -> Result<PaneEditModel, Failure> {
    if a1 is None || trimmed(a1.unwrap()).len() == 0 {
        Ok(PaneEditModel::Clear)
    } else {
        let anchor = trimmed(a1.unwrap());
        if !is_cell_reference(anchor) {
            Err(Failure::InvalidReference(anchor))
        } else {
            let x = column_number(column_part(anchor)) - 1;
            let y = digits_number(row_part(anchor)) - 1;
            if x == 0 && y == 0 {
                Ok(PaneEditModel::Clear)
            } else {
                Ok(
                    PaneEditModel::Freeze {
                        x_split: x as u32,
                        y_split: y as u32,
                        top_left: reference_text((x + 1) as u32, (y + 1) as u32),
                        state: PaneState::Frozen,
                        active: if y > 0 && x == 0 {
                            ActivePane::BottomLeft
                        } else {
                            ActivePane::BottomRight
                        },
                    },
                )
            }
        }
    }
}

/// Computes what to do with the panes of a sheet for an anchor reference.
pub fn encode_freeze_panes(a1: Option<&str>) -> (r: Result<PaneEdit, CodecError>)
    ensures
        agrees(r, panes_written(slice_of(a1))),
{
    let given = match a1 {
        Some(s) => s,
        None => {
            return Ok(PaneEdit::Clear);
        },
    };
    let chars = chars_of(given);
    let anchor_chars = trim(&chars);
    if anchor_chars.len() == 0 {
        return Ok(PaneEdit::Clear);
    }
    let anchor = string_of(&anchor_chars);
    proof {
        if is_cell_reference(anchor@) {
            lemma_column_number_nonneg(column_part(anchor@));
        }
    }
    let (row0, col0) = match a1_to_row_col(anchor.as_str()) {
        Ok(at) => at,
        Err(e) => {
            return Err(e);
        },
    };
    if col0 == 0 && row0 == 0 {
        return Ok(PaneEdit::Clear);
    }
    let active = if row0 > 0 && col0 == 0 {
        ActivePane::BottomLeft
    } else {
        ActivePane::BottomRight
    };
    Ok(
        PaneEdit::Freeze {
            x_split: col0,
            y_split: row0,
            top_left: cell_name(col0 + 1, row0 + 1),
            state: PaneState::Frozen,
            active,
        },
    )
}

/// The anchor that the views of a sheet report: the top-left cell of the
/// first view that has a pane, unless that is empty or the origin `A1`.
pub open spec fn panes_read(views: Seq<Option<Seq<char>>>) -> Option<Seq<char>>
    decreases views.len(),
{
    if views.len() == 0 {
        None
    } else {
        match views[0] {
            Some(cell) => if cell.len() == 0 || cell == "A1"@ {
                None
            } else {
                Some(cell)
            },
            None => panes_read(views.drop_first()),
        }
    }
}

/// The top-left cells behind the views of a sheet.
pub open spec fn views_of(v: Seq<Option<String>>) -> Seq<Option<Seq<char>>> {
    Seq::new(v.len(), |i: int| text_of(v[i]))
}

/// Reads the freeze anchor of a sheet. Each entry of `views` is one view of
/// the sheet: the top-left cell of its pane, or nothing where it has no
/// pane.
pub fn decode_freeze_panes(views: &Vec<Option<String>>) -> (r: Option<String>)
    ensures
        text_of(r) == panes_read(views_of(views@)),
{
    let mut i: usize = 0;
    let ghost all = views_of(views@);
    assert(all.subrange(0, views.len() as int) =~= all);
    while i < views.len()
        invariant
            i <= views.len(),
            all == views_of(views@),
            panes_read(all) == panes_read(all.subrange(i as int, views.len() as int)),
        decreases views.len() - i,
    {
        let ghost rest = all.subrange(i as int, views.len() as int);
        assert(rest[0] == text_of(views@[i as int]));
        match &views[i] {
            Some(cell) => {
                let chars = chars_of(cell.as_str());
                if chars.len() == 0 || spells(&chars, "A1") {
                    return None;
                }
                return Some(cell.clone());
            },
            None => {
                assert(rest.drop_first() =~= all.subrange(i + 1, views.len() as int));
            },
        }
        i = i + 1;
    }
    None
}

/// A non-origin anchor always freezes: the horizontal split is its column
/// index less one, the vertical split its row index less one, the state is
/// frozen, and the active pane is the bottom right exactly when a column is
/// frozen, the bottom left otherwise. The stored anchor text names the cell
/// of the anchor, and is what a view with that pane reads back. No anchor
/// clears the panes.
pub proof fn lemma_anchor_freezes(anchor: Seq<char>)
    requires
        trimmed(anchor) == anchor,
        is_cell_reference(anchor),
        column_number(column_part(anchor)) > 1 || digits_number(row_part(anchor)) > 1,
    ensures
        panes_written(Some(anchor)) matches Ok(
            PaneEditModel::Freeze { x_split, y_split, top_left, state, active },
        ) && x_split == column_number(column_part(anchor)) - 1 && y_split == digits_number(
            row_part(anchor),
        ) - 1 && is_cell_reference(top_left) && cell_of(top_left) == cell_of(anchor) && panes_read(
            seq![Some(top_left)],
        ) == Some(top_left) && state == PaneState::Frozen && (active == ActivePane::BottomRight
            <==> x_split > 0) && (active == ActivePane::BottomLeft <==> x_split == 0),
        panes_written(None) == Ok::<PaneEditModel, Failure>(PaneEditModel::Clear),
{
    lemma_column_number_nonneg(column_part(anchor));
    let at = cell_of(anchor);
    lemma_reference_text_names_the_cell(at.0, at.1);
    lemma_reference_text_names_the_cell(1, 1);
    let top_left = reference_text(at.0, at.1);
    reveal_strlit("A1");
    reveal_with_fuel(column_letters, 2);
    assert(column_letters(1) =~= seq!['A']);
    assert(decimal_text(1) =~= seq!['1']);
    assert(reference_text(1, 1) =~= "A1"@);
    assert(top_left != "A1"@);
    assert(top_left.len() > 0);
}

} // verus!
