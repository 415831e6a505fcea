//! Cell values: what a stored cell means, and what to store for a value.

use vstd::prelude::*;
use vstd::string::*;
use umya_spreadsheet::NumberingFormat;
use crate::dates::{
    at_midnight, date_text, datetime_text, excel_serial_to_naive_datetime, is_date_shaped,
    iso_date_offset, iso_datetime_offset, looks_like_date_format, moment_of_serial,
    naive_datetime_to_excel_serial, parse_iso_date, parse_iso_datetime,
};
use crate::error::{agrees, CodecError, Failure};
use crate::number::Number64;
use crate::text::{
    chars_of, replace_all, replaced, same_ignoring_case, spells, spells_ignoring_case, string_of,
};

verus! {

/// The canonical value of a cell. Exactly one tag is active.
#[derive(Clone, Debug, PartialEq, Eq)]
pub enum CellValue {
    /// No content.
    Blank,
    /// Text, with every line ending a single line feed.
    String(String),
    /// A number.
    Number(Number64),
    /// A truth value.
    Boolean(bool),
    /// A calendar day as `YYYY-MM-DD`.
    Date(String),
    /// A calendar moment as `YYYY-MM-DDTHH:MM:SS`.
    DateTime(String),
    /// A formula: its body without a leading `=`, and the text shown for it.
    Formula { text: String, display: String },
    /// An error token such as `#DIV/0!`.
    Error(String),
}

/// The mathematical content of a [`CellValue`].
pub enum CellModel {
    Blank,
    String(Seq<char>),
    Number(u64),
    Boolean(bool),
    Date(Seq<char>),
    DateTime(Seq<char>),
    Formula(Seq<char>, Seq<char>),
    Error(Seq<char>),
}

impl View for CellValue {
    type V = CellModel;

    open spec fn view(&self) -> CellModel {
        match self {
            CellValue::Blank => CellModel::Blank,
            CellValue::String(s) => CellModel::String(s@),
            CellValue::Number(n) => CellModel::Number(n.bits),
            CellValue::Boolean(b) => CellModel::Boolean(*b),
            CellValue::Date(s) => CellModel::Date(s@),
            CellValue::DateTime(s) => CellModel::DateTime(s@),
            CellValue::Formula { text, display } => CellModel::Formula(text@, display@),
            CellValue::Error(s) => CellModel::Error(s@),
        }
    }
}

/// The number of a stored cell: the number itself and, for reading it as a
/// date serial, the number scaled to whole milliseconds: times 86 400 000,
/// rounded to the nearest integer, held at the ends of 64 bits where it
/// leaves them, and zero for a NaN. The caller does the scaling; whether the
/// serial is below 60 is decided on the number itself.
#[derive(Clone, Copy, Debug, PartialEq, Eq, Structural)]
pub struct RawNumber {
    pub value: Number64,
    pub millis: i64,
}

/// What a document holds for one cell.
#[derive(Clone, Debug, PartialEq, Eq)]
pub struct RawCell {
    /// The formula text; empty where the cell has none.
    pub formula: String,
    /// The typed number, where the cell holds one.
    pub number: Option<RawNumber>,
    /// The number-format code of the cell's style, where it has one.
    pub format_code: Option<String>,
    /// The literal text of the cell's value.
    pub text: String,
}

/// The mathematical content of a [`RawCell`].
pub struct RawCellModel {
    pub formula: Seq<char>,
    pub number: Option<RawNumber>,
    pub format_code: Option<Seq<char>>,
    pub text: Seq<char>,
}

impl View for RawCell {
    type V = RawCellModel;

    open spec fn view(&self) -> RawCellModel {
        RawCellModel {
            formula: self.formula@,
            number: self.number,
            format_code: match self.format_code {
                Some(c) => Some(c@),
                None => None,
            },
            text: self.text@,
        }
    }
}

/// What to store in a cell.
#[derive(Clone, Debug, PartialEq, Eq)]
pub enum CellEdit {
    /// Leave the cell as it is, and do not create it.
    Keep,
    /// Store text and drop any formula.
    Text(String),
    /// Store a number and drop any formula.
    Number(Number64),
    /// Store a truth value and drop any formula.
    Flag(bool),
    /// Store a formula body.
    Formula(String),
    /// Store a date serial, given in whole milliseconds, drop any formula,
    /// and stamp the number-format code.
    Serial { millis: i64, format_code: String },
}

/// The mathematical content of a [`CellEdit`].
pub enum CellEditModel {
    Keep,
    Text(Seq<char>),
    Number(u64),
    Flag(bool),
    Formula(Seq<char>),
    Serial(int, Seq<char>),
}

impl View for CellEdit {
    type V = CellEditModel;

    open spec fn view(&self) -> CellEditModel {
        match self {
            CellEdit::Keep => CellEditModel::Keep,
            CellEdit::Text(s) => CellEditModel::Text(s@),
            CellEdit::Number(n) => CellEditModel::Number(n.bits),
            CellEdit::Flag(b) => CellEditModel::Flag(*b),
            CellEdit::Formula(s) => CellEditModel::Formula(s@),
            CellEdit::Serial { millis, format_code } => CellEditModel::Serial(
                *millis as int,
                format_code@,
            ),
        }
    }
}

/// The error token that a formula body is known to produce.
pub open spec fn error_of_formula(body: Seq<char>) -> Option<Seq<char>> {
    if body == "1/0"@ {
        Some("#DIV/0!"@)
    } else if body == "NA()"@ {
        Some("#N/A"@)
    } else if body == "\"text\"+1"@ {
        Some("#VALUE!"@)
    } else {
        None
    }
}

/// The formula body that is known to produce an error token.
pub open spec fn formula_of_error(token: Seq<char>) -> Option<Seq<char>> {
    if token == "#DIV/0!"@ {
        Some("1/0"@)
    } else if token == "#N/A"@ {
        Some("NA()"@)
    } else if token == "#VALUE!"@ {
        Some("\"text\"+1"@)
    } else {
        None
    }
}

/// A formula without one leading `=`.
pub open spec fn formula_body(f: Seq<char>) -> Seq<char> {
    if f.len() > 0 && f[0] == '=' {
        f.drop_first()
    } else {
        f
    }
}

/// Text with every `\r\n` and every remaining `\r` turned into `\n`.
pub open spec fn normalized_newlines(s: Seq<char>) -> Seq<char> {
    replaced(replaced(s, seq!['\r', '\n'], seq!['\n']), seq!['\r'], seq!['\n'])
}

/// Text of the shape of an error token: `#N/A`, or `#` … `!`.
pub open spec fn is_error_shaped(s: Seq<char>) -> bool {
    s == "#N/A"@ || (s.len() > 0 && s[0] == '#' && s.last() == '!')
}

/// What literal text means: an error token, a truth value, nothing, or
/// itself, in that order of precedence.
pub open spec fn classified(s: Seq<char>) -> CellModel {
    if is_error_shaped(s) {
        CellModel::Error(s)
    } else if same_ignoring_case(s, "true"@) {
        CellModel::Boolean(true)
    } else if same_ignoring_case(s, "false"@) {
        CellModel::Boolean(false)
    } else if s.len() == 0 {
        CellModel::Blank
    } else {
        CellModel::String(s)
    }
}

/// The date or date-time that a stored number means, where its format code
/// is date-shaped and the calendar holds its moment: a date at midnight
/// exactly, a date-time otherwise. A number below 60 is read one day later.
pub open spec fn date_reading(raw: RawCellModel) -> Option<CellModel> {
    if raw.number is Some && raw.format_code is Some && is_date_shaped(raw.format_code.unwrap())
        && moment_of_serial(raw.number.unwrap().value, raw.number.unwrap().millis as int)
        is Some {
        let m = moment_of_serial(
            raw.number.unwrap().value,
            raw.number.unwrap().millis as int,
        ).unwrap();
        if at_midnight(m) {
            Some(CellModel::Date(date_text(m)))
        } else {
            Some(CellModel::DateTime(datetime_text(m)))
        }
    } else {
        None
    }
}

/// What a stored cell means. A formula dominates; then a number, read as a
/// date where its format says so; then the literal text.
pub open spec fn decoded(raw: RawCellModel) -> CellModel {
    if raw.formula.len() > 0 {
        let body = formula_body(raw.formula);
        match error_of_formula(body) {
            Some(token) => CellModel::Error(token),
            None => CellModel::Formula(body, body),
        }
    } else if raw.number is Some {
        match date_reading(raw) {
            Some(v) => v,
            None => CellModel::Number(raw.number.unwrap().value.bits),
        }
    } else {
        classified(normalized_newlines(raw.text))
    }
}

/// What to store for a value, or why the value cannot be stored.
pub open spec fn encoded(v: CellModel) -> Result<CellEditModel, Failure> {
    match v {
        CellModel::Blank => Ok(CellEditModel::Keep),
        CellModel::String(s) => Ok(CellEditModel::Text(s)),
        CellModel::Number(n) => Ok(CellEditModel::Number(n)),
        CellModel::Boolean(b) => Ok(CellEditModel::Flag(b)),
        CellModel::Formula(text, _) => Ok(CellEditModel::Formula(formula_body(text))),
        CellModel::Error(token) => match formula_of_error(token) {
            Some(f) => Ok(CellEditModel::Formula(f)),
            None => Ok(CellEditModel::Text(token)),
        },
        CellModel::Date(s) => match iso_date_offset(s) {
            Some(ms) => Ok(CellEditModel::Serial(ms, "yyyy-mm-dd"@)),
            None => Err(Failure::InvalidDateFormat(s)),
        },
        CellModel::DateTime(s) => match iso_datetime_offset(s) {
            Some(ms) => Ok(CellEditModel::Serial(ms, "yyyy-mm-dd h:mm:ss"@)),
            None => Err(Failure::InvalidDateFormat(s)),
        },
    }
}

/// Reads `NumberingFormat::FORMAT_DATE_YYYYMMDD`, the code that the document
/// model offers for dates. Trusted: the constant is `yyyy-mm-dd`.
#[verifier::external_body]
fn date_format_code() -> (r: String)
    ensures
        r@ == "yyyy-mm-dd"@,
{
    NumberingFormat::FORMAT_DATE_YYYYMMDD.to_string()
}

fn known_error_formula(body: &Vec<char>) -> (r: Option<String>)
    ensures
        r is Some <==> error_of_formula(body@) is Some,
        r is Some ==> r.unwrap()@ == error_of_formula(body@).unwrap(),
{
    if spells(body, "1/0") {
        Some(String::from_str("#DIV/0!"))
    } else if spells(body, "NA()") {
        Some(String::from_str("#N/A"))
    } else if spells(body, "\"text\"+1") {
        Some(String::from_str("#VALUE!"))
    } else {
        None
    }
}

fn known_formula_error(token: &Vec<char>) -> (r: Option<String>)
    ensures
        r is Some <==> formula_of_error(token@) is Some,
        r is Some ==> r.unwrap()@ == formula_of_error(token@).unwrap(),
{
    if spells(token, "#DIV/0!") {
        Some(String::from_str("1/0"))
    } else if spells(token, "#N/A") {
        Some(String::from_str("NA()"))
    } else if spells(token, "#VALUE!") {
        Some(String::from_str("\"text\"+1"))
    } else {
        None
    }
}

fn strip_equals(chars: &Vec<char>) -> (out: Vec<char>)
    ensures
        out@ == formula_body(chars@),
{
    let from: usize = if chars.len() > 0 && chars[0] == '=' {
        1
    } else {
        0
    };
    let mut out: Vec<char> = Vec::new();
    let mut i: usize = from;
    while i < chars.len()
        invariant
            from <= i <= chars.len(),
            out@ == chars@.subrange(from as int, i as int),
        decreases chars.len() - i,
    {
        out.push(chars[i]);
        assert(out@ =~= chars@.subrange(from as int, i + 1));
        i = i + 1;
    }
    assert(chars@.subrange(0, chars.len() as int) =~= chars@);
    assert(from == 1 ==> chars@.subrange(1, chars.len() as int) =~= chars@.drop_first());
    out
}

fn normalize_newlines(chars: &Vec<char>) -> (out: Vec<char>)
    ensures
        out@ == normalized_newlines(chars@),
{
    let crlf: Vec<char> = vec!['\r', '\n'];
    let cr: Vec<char> = vec!['\r'];
    let lf: Vec<char> = vec!['\n'];
    assert(crlf@ =~= seq!['\r', '\n']);
    assert(cr@ =~= seq!['\r']);
    assert(lf@ =~= seq!['\n']);
    let first = replace_all(chars, &crlf, &lf);
    replace_all(&first, &cr, &lf)
}

fn classify(chars: Vec<char>) -> (v: CellValue)
    ensures
        v@ == classified(chars@),
{
    let n = chars.len();
    if spells(&chars, "#N/A") || (n > 0 && chars[0] == '#' && chars[n - 1] == '!') {
        CellValue::Error(string_of(&chars))
    } else if spells_ignoring_case(&chars, "true") {
        CellValue::Boolean(true)
    } else if spells_ignoring_case(&chars, "false") {
        CellValue::Boolean(false)
    } else if n == 0 {
        CellValue::Blank
    } else {
        CellValue::String(string_of(&chars))
    }
}

fn read_as_date(raw: &RawCell) -> (r: Option<CellValue>)
    ensures
        r is Some <==> date_reading(raw@) is Some,
        r is Some ==> r.unwrap()@ == date_reading(raw@).unwrap(),
{
    let num = match raw.number {
        Some(n) => n,
        None => {
            return None;
        },
    };
    let shaped = match &raw.format_code {
        Some(code) => looks_like_date_format(code.as_str()),
        None => false,
    };
    if !shaped {
        return None;
    }
    match excel_serial_to_naive_datetime(num.value, num.millis) {
        Some(m) => {
            if m.is_midnight() {
                Some(CellValue::Date(m.date_string()))
            } else {
                Some(CellValue::DateTime(m.datetime_string()))
            }
        },
        None => None,
    }
}

/// Decodes a stored cell into its canonical value. A cell that does not
/// exist is blank.
pub fn decode_cell_value(cell: Option<&RawCell>) -> (v: CellValue)
    ensures
        v@ == match cell {
            Some(raw) => decoded(raw@),
            None => CellModel::Blank,
        },
{
    let raw = match cell {
        Some(raw) => raw,
        None => {
            return CellValue::Blank;
        },
    };
    let formula = chars_of(raw.formula.as_str());
    if formula.len() > 0 {
        let body = strip_equals(&formula);
        return match known_error_formula(&body) {
            Some(token) => CellValue::Error(token),
            None => {
                let text = string_of(&body);
                let display = text.clone();
                CellValue::Formula { text, display }
            },
        };
    }
    match raw.number {
        Some(num) => match read_as_date(raw) {
            Some(v) => v,
            None => CellValue::Number(num.value),
        },
        None => {
            let text = chars_of(raw.text.as_str());
            classify(normalize_newlines(&text))
        },
    }
}

/// Computes what to store for a canonical value. A date or date-time whose
/// text chrono does not accept, or whose moment lies outside the calendar,
/// is an invalid date, which carries the text.
pub fn encode_cell_value(v: &CellValue) -> (r: Result<CellEdit, CodecError>)
    ensures
        agrees(r, encoded(v@)),
{
    match v {
        CellValue::Blank => Ok(CellEdit::Keep),
        CellValue::String(s) => Ok(CellEdit::Text(s.clone())),
        CellValue::Number(n) => Ok(CellEdit::Number(*n)),
        CellValue::Boolean(b) => Ok(CellEdit::Flag(*b)),
        CellValue::Formula { text, display } => {
            let chars = chars_of(text.as_str());
            let body = strip_equals(&chars);
            Ok(CellEdit::Formula(string_of(&body)))
        },
        CellValue::Error(token) => {
            let chars = chars_of(token.as_str());
            match known_formula_error(&chars) {
                Some(f) => Ok(CellEdit::Formula(f)),
                None => Ok(CellEdit::Text(token.clone())),
            }
        },
        CellValue::Date(s) => match parse_iso_date(s.as_str()) {
            Some(m) => match naive_datetime_to_excel_serial(m) {
                Some(millis) => Ok(CellEdit::Serial { millis, format_code: date_format_code() }),
                None => Err(CodecError::InvalidDateFormat(s.clone())),
            },
            None => Err(CodecError::InvalidDateFormat(s.clone())),
        },
        CellValue::DateTime(s) => match parse_iso_datetime(s.as_str()) {
            Some(m) => match naive_datetime_to_excel_serial(m) {
                Some(millis) => Ok(
                    CellEdit::Serial {
                        millis,
                        format_code: String::from_str("yyyy-mm-dd h:mm:ss"),
                    },
                ),
                None => Err(CodecError::InvalidDateFormat(s.clone())),
            },
            None => Err(CodecError::InvalidDateFormat(s.clone())),
        },
    }
}

} // verus!
