//! What holds between storing a cell value and reading it back.

use vstd::prelude::*;
use crate::cell::{
    classified, date_reading, decoded, encoded, error_of_formula, formula_body, formula_of_error,
    is_error_shaped, normalized_newlines, CellEditModel, CellModel, RawCellModel,
};
use crate::dates::{
    date_text, datetime_text, in_calendar, is_below_sixty, is_date_shaped, iso_date_offset,
    iso_datetime_offset,
    moment_of_serial, LEAP_BUG_END_MS, MS_PER_DAY,
};
use crate::error::Failure;
use crate::text::{has_char, lowered, occurs_at, replaced, same_ignoring_case};

verus! {

/// What a document holds for a cell once an edit has been carried out on
/// it. The document decides what it keeps beside the edit: the scaled form
/// of a stored number, the text beside a number. Behind a stored serial it
/// keeps the quotient of the milliseconds by those of a day, which is below
/// 60 exactly where the milliseconds are below those of 60 days.
pub open spec fn stored_after(
    before: RawCellModel,
    edit: CellEditModel,
    after: RawCellModel,
) -> bool {
    match edit {
        CellEditModel::Keep => after == before,
        CellEditModel::Text(s) => {
            &&& after.formula.len() == 0
            &&& after.number is None
            &&& after.text == s
            &&& after.format_code == before.format_code
        },
        CellEditModel::Number(n) => {
            &&& after.formula.len() == 0
            &&& after.number is Some
            &&& after.number.unwrap().value.bits == n
            &&& after.format_code == before.format_code
        },
        CellEditModel::Flag(b) => {
            &&& after.formula.len() == 0
            &&& after.number is None
            &&& after.text == if b {
                "TRUE"@
            } else {
                "FALSE"@
            }
            &&& after.format_code == before.format_code
        },
        CellEditModel::Formula(f) => {
            &&& after.formula == f
            &&& after.number == before.number
            &&& after.text == before.text
            &&& after.format_code == before.format_code
        },
        CellEditModel::Serial(ms, code) => {
            &&& after.formula.len() == 0
            &&& after.number is Some
            &&& after.number.unwrap().millis == ms
            &&& (is_below_sixty(after.number.unwrap().value) <==> ms < LEAP_BUG_END_MS)
            &&& after.format_code == Some(code)
        },
    }
}

/// The table between error tokens and the formulas that produce them is one
/// to one: a token maps to a body exactly when the body maps to the token.
pub proof fn lemma_error_table_is_bijective(token: Seq<char>, body: Seq<char>)
    ensures
        formula_of_error(token) == Some(body) <==> error_of_formula(body) == Some(token),
{
    reveal_strlit("1/0");
    reveal_strlit("NA()");
    reveal_strlit("\"text\"+1");
    reveal_strlit("#DIV/0!");
    reveal_strlit("#N/A");
    reveal_strlit("#VALUE!");
    assert("1/0"@.len() == 3 && "NA()"@.len() == 4 && "\"text\"+1"@.len() == 8);
    assert("#DIV/0!"@.len() == 7 && "#N/A"@.len() == 4 && "#VALUE!"@.len() == 7);
    assert("#DIV/0!"@[1] == 'D' && "#VALUE!"@[1] == 'V');
    if formula_of_error(token) == Some(body) {
        assert(error_of_formula(body) == Some(token));
    }
    if error_of_formula(body) == Some(token) {
        assert(formula_of_error(token) == Some(body));
    }
}

/// No formula of the table starts with `=`: each is a body as it stands.
pub proof fn lemma_table_formulas_are_bodies(token: Seq<char>)
    requires
        formula_of_error(token) is Some,
    ensures
        formula_of_error(token).unwrap().len() > 0,
        formula_body(formula_of_error(token).unwrap()) == formula_of_error(token).unwrap(),
{
    reveal_strlit("1/0");
    reveal_strlit("NA()");
    reveal_strlit("\"text\"+1");
}

/// Text without a carriage return has normal line endings already.
pub proof fn lemma_plain_text_is_normalized(s: Seq<char>)
    requires
        !has_char(s, '\r'),
    ensures
        normalized_newlines(s) == s,
{
    lemma_replace_absent(s, seq!['\r', '\n'], seq!['\n']);
    lemma_replace_absent(s, seq!['\r'], seq!['\n']);
}

/// Replacing a pattern whose first character does not occur changes
/// nothing.
pub proof fn lemma_replace_absent(s: Seq<char>, pat: Seq<char>, to: Seq<char>)
    requires
        pat.len() > 0,
        !has_char(s, pat[0]),
    ensures
        replaced(s, pat, to) == s,
    decreases s.len(),
{
    if s.len() > 0 {
        if occurs_at(s, pat, 0) {
            assert(s.subrange(0, pat.len() as int)[0] == s[0]);
            assert(s[0] == pat[0]);
            assert(false);
        }
        let t = s.drop_first();
        assert forall|i: int| 0 <= i < t.len() implies t[i] != pat[0] by {
            assert(t[i] == s[i + 1]);
        }
        lemma_replace_absent(t, pat, to);
        assert(seq![s[0]] + t =~= s);
    }
}

/// Storing a blank changes nothing, so whatever the cell meant before it
/// still means: a blank never fabricates content.
pub proof fn lemma_blank_round_trip(before: RawCellModel, after: RawCellModel)
    requires
        stored_after(before, encoded(CellModel::Blank)->Ok_0, after),
    ensures
        encoded(CellModel::Blank) == Ok::<CellEditModel, Failure>(CellEditModel::Keep),
        after == before,
        decoded(after) == decoded(before),
{
}

/// Text reads back as the same text, provided that it is not empty, holds
/// no carriage return, and is neither shaped like an error token nor the
/// word of a truth value.
pub proof fn lemma_string_round_trip(s: Seq<char>, before: RawCellModel, after: RawCellModel)
    requires
        s.len() > 0,
        !has_char(s, '\r'),
        !is_error_shaped(s),
        !same_ignoring_case(s, "true"@),
        !same_ignoring_case(s, "false"@),
        stored_after(before, encoded(CellModel::String(s))->Ok_0, after),
    ensures
        decoded(after) == CellModel::String(s),
{
    lemma_plain_text_is_normalized(s);
}

/// A number reads back as the same number, provided that the cell's format
/// code does not make a date of it.
pub proof fn lemma_number_round_trip(n: u64, before: RawCellModel, after: RawCellModel)
    requires
        before.format_code is Some ==> !is_date_shaped(before.format_code.unwrap()),
        stored_after(before, encoded(CellModel::Number(n))->Ok_0, after),
    ensures
        decoded(after) == CellModel::Number(n),
{
}

/// A truth value reads back as the same truth value.
pub proof fn lemma_boolean_round_trip(b: bool, before: RawCellModel, after: RawCellModel)
    requires
        stored_after(before, encoded(CellModel::Boolean(b))->Ok_0, after),
    ensures
        decoded(after) == CellModel::Boolean(b),
{
    reveal_strlit("TRUE");
    reveal_strlit("FALSE");
    reveal_strlit("true");
    reveal_strlit("false");
    reveal_strlit("#N/A");
    let t = after.text;
    lemma_replace_absent(t, seq!['\r', '\n'], seq!['\n']);
    lemma_replace_absent(t, seq!['\r'], seq!['\n']);
    if b {
        assert(lowered("TRUE"@) =~= lowered("true"@));
    } else {
        assert(lowered("FALSE"@) =~= lowered("false"@));
        assert(lowered("FALSE"@).len() != lowered("true"@).len());
    }
}

/// A formula reads back as the same formula, provided that its body is not
/// empty, does not start with `=`, is not one of the formulas that stand for
/// an error token, and is shown as itself.
pub proof fn lemma_formula_round_trip(body: Seq<char>, before: RawCellModel, after: RawCellModel)
    requires
        body.len() > 0,
        body[0] != '=',
        error_of_formula(body) is None,
        stored_after(before, encoded(CellModel::Formula(body, body))->Ok_0, after),
    ensures
        decoded(after) == CellModel::Formula(body, body),
{
}

/// An error token of the fixed vocabulary is stored as its formula and
/// reads back as the same token.
pub proof fn lemma_known_error_round_trip(
    token: Seq<char>,
    before: RawCellModel,
    after: RawCellModel,
)
    requires
        formula_of_error(token) is Some,
        stored_after(before, encoded(CellModel::Error(token))->Ok_0, after),
    ensures
        encoded(CellModel::Error(token)) == Ok::<CellEditModel, Failure>(
            CellEditModel::Formula(formula_of_error(token).unwrap()),
        ),
        decoded(after) == CellModel::Error(token),
{
    lemma_table_formulas_are_bodies(token);
    lemma_error_table_is_bijective(token, formula_of_error(token).unwrap());
}

/// Any other error-shaped token is stored as literal text and reads back as
/// the same token, provided that it holds no carriage return.
pub proof fn lemma_literal_error_round_trip(
    token: Seq<char>,
    before: RawCellModel,
    after: RawCellModel,
)
    requires
        formula_of_error(token) is None,
        is_error_shaped(token),
        !has_char(token, '\r'),
        stored_after(before, encoded(CellModel::Error(token))->Ok_0, after),
    ensures
        decoded(after) == CellModel::Error(token),
{
    lemma_plain_text_is_normalized(token);
}

/// The two format codes that the codec stamps are date-shaped.
pub proof fn lemma_stamped_codes_are_date_shaped()
    ensures
        is_date_shaped("yyyy-mm-dd"@),
        is_date_shaped("yyyy-mm-dd h:mm:ss"@),
{
    reveal_strlit("yyyy-mm-dd");
    reveal_strlit("yyyy-mm-dd h:mm:ss");
    let a = lowered("yyyy-mm-dd"@);
    assert(a[0] == 'y' && a[8] == 'd');
    let b = lowered("yyyy-mm-dd h:mm:ss"@);
    assert(b[0] == 'y' && b[8] == 'd');
}

/// A date from day 60 of the 1900 date system on reads back as the same
/// day, written as chrono writes it.
pub proof fn lemma_date_round_trip(s: Seq<char>, before: RawCellModel, after: RawCellModel)
    requires
        iso_date_offset(s) is Some,
        in_calendar(iso_date_offset(s).unwrap()),
        iso_date_offset(s).unwrap() % (MS_PER_DAY as int) == 0,
        iso_date_offset(s).unwrap() >= LEAP_BUG_END_MS,
        stored_after(before, encoded(CellModel::Date(s))->Ok_0, after),
    ensures
        decoded(after) == CellModel::Date(date_text(iso_date_offset(s).unwrap())),
{
    lemma_stamped_codes_are_date_shaped();
}

/// A date-time from day 60 of the 1900 date system on reads back as the
/// same moment, written as chrono writes it: as a date-time where its time
/// of day is not midnight, as a date where it is.
pub proof fn lemma_datetime_round_trip(s: Seq<char>, before: RawCellModel, after: RawCellModel)
    requires
        iso_datetime_offset(s) is Some,
        iso_datetime_offset(s).unwrap() >= LEAP_BUG_END_MS,
        stored_after(before, encoded(CellModel::DateTime(s))->Ok_0, after),
    ensures
        iso_datetime_offset(s).unwrap() % (MS_PER_DAY as int) != 0 ==> decoded(after)
            == CellModel::DateTime(datetime_text(iso_datetime_offset(s).unwrap())),
        iso_datetime_offset(s).unwrap() % (MS_PER_DAY as int) == 0 ==> decoded(after)
            == CellModel::Date(date_text(iso_datetime_offset(s).unwrap())),
{
    lemma_stamped_codes_are_date_shaped();
}

/// The values that come back as they went in: text that is not empty,
/// holds no carriage return and is neither shaped like an error token nor
/// the word of a truth value; every number and truth value; a formula shown
/// as itself whose body is not empty, does not start with `=` and stands for
/// no error token; an error token of the fixed vocabulary, or of the shape
/// of one and without a carriage return; a date or a date-time, not at
/// midnight, from day 60 on, written as chrono writes its moment.
pub open spec fn comes_back(v: CellModel) -> bool {
    match v {
        CellModel::Blank => false,
        CellModel::String(s) => {
            &&& s.len() > 0
            &&& !has_char(s, '\r')
            &&& !is_error_shaped(s)
            &&& !same_ignoring_case(s, "true"@)
            &&& !same_ignoring_case(s, "false"@)
        },
        CellModel::Number(_) => true,
        CellModel::Boolean(_) => true,
        CellModel::Formula(text, display) => {
            &&& text.len() > 0
            &&& text[0] != '='
            &&& error_of_formula(text) is None
            &&& display == text
        },
        CellModel::Error(token) => {
            ||| formula_of_error(token) is Some
            ||| (is_error_shaped(token) && !has_char(token, '\r'))
        },
        CellModel::Date(s) => {
            &&& iso_date_offset(s) matches Some(ms)
            &&& in_calendar(ms)
            &&& ms % (MS_PER_DAY as int) == 0
            &&& ms >= LEAP_BUG_END_MS
            &&& date_text(ms) == s
        },
        CellModel::DateTime(s) => {
            &&& iso_datetime_offset(s) matches Some(ms)
            &&& ms % (MS_PER_DAY as int) != 0
            &&& ms >= LEAP_BUG_END_MS
            &&& datetime_text(ms) == s
        },
    }
}

/// Whatever the tag, a value that can come back does: once the edit for it
/// has been carried out on a cell, the cell decodes to the value. For a
/// number the cell must not have had a date-shaped format code.
pub proof fn lemma_cell_round_trip(v: CellModel, before: RawCellModel, after: RawCellModel)
    requires
        comes_back(v),
        v is Number && before.format_code is Some ==> !is_date_shaped(before.format_code.unwrap()),
        stored_after(before, encoded(v)->Ok_0, after),
    ensures
        encoded(v) is Ok,
        decoded(after) == v,
{
    match v {
        CellModel::Blank => {},
        CellModel::String(s) => {
            lemma_string_round_trip(s, before, after);
        },
        CellModel::Number(n) => {
            lemma_number_round_trip(n, before, after);
        },
        CellModel::Boolean(b) => {
            lemma_boolean_round_trip(b, before, after);
        },
        CellModel::Formula(text, display) => {
            lemma_formula_round_trip(text, before, after);
        },
        CellModel::Error(token) => {
            if formula_of_error(token) is Some {
                lemma_known_error_round_trip(token, before, after);
            } else {
                lemma_literal_error_round_trip(token, before, after);
            }
        },
        CellModel::Date(s) => {
            lemma_date_round_trip(s, before, after);
        },
        CellModel::DateTime(s) => {
            lemma_datetime_round_trip(s, before, after);
        },
    }
}

} // verus!
