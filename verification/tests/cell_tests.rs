use sheet_codec::cell::{
    encode_cell_value, decode_cell_value, CellEdit, CellValue, RawCell, RawNumber,
};
use sheet_codec::error::CodecError;
use sheet_codec::number::Number64;
use sheet_codec::payload::{
    cell_payload, parse_cell_payload, encode_cell_payload, CellPayload, PayloadValue,
};
use sheet_codec::reference::{locate_cell, require_sheet};

fn num(f: f64) -> Number64 {
    Number64::from_bits(f.to_bits())
}

fn raw_number(f: f64) -> RawNumber {
    RawNumber { value: num(f), millis: (f * 86_400_000.0).round() as i64 }
}

fn text_cell(text: &str) -> RawCell {
    RawCell { formula: String::new(), number: None, format_code: None, text: text.to_string() }
}

fn formula_cell(formula: &str) -> RawCell {
    RawCell {
        formula: formula.to_string(),
        number: Some(raw_number(7.0)),
        format_code: Some("yyyy-mm-dd".to_string()),
        text: "7".to_string(),
    }
}

fn number_cell(f: f64, code: Option<&str>) -> RawCell {
    RawCell {
        formula: String::new(),
        number: Some(raw_number(f)),
        format_code: code.map(str::to_string),
        text: f.to_string(),
    }
}

/// What the document holds after an edit, as the document model behaves.
fn apply(before: &RawCell, edit: &CellEdit) -> RawCell {
    let mut after = before.clone();
    match edit {
        CellEdit::Keep => {}
        CellEdit::Text(s) => {
            after.formula = String::new();
            after.number = None;
            after.text = s.clone();
        }
        CellEdit::Number(n) => {
            after.formula = String::new();
            after.number = Some(raw_number(f64::from_bits(n.bits)));
            after.text = f64::from_bits(n.bits).to_string();
        }
        CellEdit::Flag(b) => {
            after.formula = String::new();
            after.number = None;
            after.text = if *b { "TRUE" } else { "FALSE" }.to_string();
        }
        CellEdit::Formula(f) => {
            after.formula = f.clone();
        }
        CellEdit::Serial { millis, format_code } => {
            after.formula = String::new();
            after.number = Some(raw_number(*millis as f64 / 86_400_000.0));
            after.format_code = Some(format_code.clone());
        }
    }
    after
}

fn round_trip(v: &CellValue) -> CellValue {
    let edit = encode_cell_value(v).unwrap();
    decode_cell_value(Some(&apply(&text_cell(""), &edit)))
}

#[test]
fn missing_cell_is_blank() {
    assert_eq!(decode_cell_value(None), CellValue::Blank);
}

#[test]
fn formula_dominates_every_other_signal() {
    assert_eq!(
        decode_cell_value(Some(&formula_cell("SUM(A1:A3)"))),
        CellValue::Formula { text: "SUM(A1:A3)".to_string(), display: "SUM(A1:A3)".to_string() }
    );
    assert_eq!(
        decode_cell_value(Some(&formula_cell("=A1+1"))),
        CellValue::Formula { text: "A1+1".to_string(), display: "A1+1".to_string() }
    );
}

#[test]
fn well_known_error_formulas_decode_to_tokens() {
    assert_eq!(decode_cell_value(Some(&formula_cell("1/0"))), CellValue::Error("#DIV/0!".into()));
    assert_eq!(decode_cell_value(Some(&formula_cell("=1/0"))), CellValue::Error("#DIV/0!".into()));
    assert_eq!(decode_cell_value(Some(&formula_cell("NA()"))), CellValue::Error("#N/A".into()));
    assert_eq!(
        decode_cell_value(Some(&formula_cell("\"text\"+1"))),
        CellValue::Error("#VALUE!".into())
    );
    assert_eq!(
        decode_cell_value(Some(&formula_cell("1/00"))),
        CellValue::Formula { text: "1/00".into(), display: "1/00".into() }
    );
}

#[test]
fn numbers_without_a_date_format_stay_numbers() {
    assert_eq!(decode_cell_value(Some(&number_cell(42.5, None))), CellValue::Number(num(42.5)));
    assert_eq!(
        decode_cell_value(Some(&number_cell(42.5, Some("General")))),
        CellValue::Number(num(42.5))
    );
    assert_eq!(
        decode_cell_value(Some(&number_cell(45306.0, Some("0.00")))),
        CellValue::Number(num(45306.0))
    );
}

#[test]
fn date_formatted_numbers_decode_to_dates() {
    assert_eq!(
        decode_cell_value(Some(&number_cell(45306.0, Some("yyyy-mm-dd")))),
        CellValue::Date("2024-01-15".into())
    );
    assert_eq!(
        decode_cell_value(Some(&number_cell(45306.4375, Some("DD/MM/YYYY")))),
        CellValue::DateTime("2024-01-15T10:30:00".into())
    );
    assert_eq!(
        decode_cell_value(Some(&number_cell(1.0, Some("yyyy-mm-dd")))),
        CellValue::Date("1900-01-01".into())
    );
}

#[test]
fn date_formatted_numbers_outside_the_calendar_stay_numbers() {
    assert_eq!(
        decode_cell_value(Some(&number_cell(1.0e300, Some("yyyy-mm-dd")))),
        CellValue::Number(num(1.0e300))
    );
    assert_eq!(
        decode_cell_value(Some(&number_cell(-1.0e300, Some("yyyy-mm-dd")))),
        CellValue::Number(num(-1.0e300))
    );
}

#[test]
fn literal_text_is_classified_in_order() {
    assert_eq!(decode_cell_value(Some(&text_cell("#N/A"))), CellValue::Error("#N/A".into()));
    assert_eq!(decode_cell_value(Some(&text_cell("#REF!"))), CellValue::Error("#REF!".into()));
    assert_eq!(decode_cell_value(Some(&text_cell("#!"))), CellValue::Error("#!".into()));
    assert_eq!(decode_cell_value(Some(&text_cell("TRUE"))), CellValue::Boolean(true));
    assert_eq!(decode_cell_value(Some(&text_cell("true"))), CellValue::Boolean(true));
    assert_eq!(decode_cell_value(Some(&text_cell("False"))), CellValue::Boolean(false));
    assert_eq!(decode_cell_value(Some(&text_cell(""))), CellValue::Blank);
    assert_eq!(decode_cell_value(Some(&text_cell("hello"))), CellValue::String("hello".into()));
    assert_eq!(decode_cell_value(Some(&text_cell("#"))), CellValue::String("#".into()));
    assert_eq!(decode_cell_value(Some(&text_cell("#NAME?"))), CellValue::String("#NAME?".into()));
    assert_eq!(decode_cell_value(Some(&text_cell("truth"))), CellValue::String("truth".into()));
}

#[test]
fn line_endings_are_normalized() {
    assert_eq!(
        decode_cell_value(Some(&text_cell("a\r\nb\rc\nd\r\r\n"))),
        CellValue::String("a\nb\nc\nd\n\n".into())
    );
}

#[test]
fn encode_one_branch_per_tag() {
    assert_eq!(encode_cell_value(&CellValue::Blank), Ok(CellEdit::Keep));
    assert_eq!(encode_cell_value(&CellValue::String("x".into())), Ok(CellEdit::Text("x".into())));
    assert_eq!(encode_cell_value(&CellValue::Number(num(1.5))), Ok(CellEdit::Number(num(1.5))));
    assert_eq!(encode_cell_value(&CellValue::Boolean(true)), Ok(CellEdit::Flag(true)));
    assert_eq!(
        encode_cell_value(&CellValue::Formula { text: "=A1".into(), display: "".into() }),
        Ok(CellEdit::Formula("A1".into()))
    );
    assert_eq!(
        encode_cell_value(&CellValue::Formula { text: "A1".into(), display: "".into() }),
        Ok(CellEdit::Formula("A1".into()))
    );
    assert_eq!(
        encode_cell_value(&CellValue::Error("#DIV/0!".into())),
        Ok(CellEdit::Formula("1/0".into()))
    );
    assert_eq!(
        encode_cell_value(&CellValue::Error("#N/A".into())),
        Ok(CellEdit::Formula("NA()".into()))
    );
    assert_eq!(
        encode_cell_value(&CellValue::Error("#VALUE!".into())),
        Ok(CellEdit::Formula("\"text\"+1".into()))
    );
    assert_eq!(
        encode_cell_value(&CellValue::Error("#REF!".into())),
        Ok(CellEdit::Text("#REF!".into()))
    );
    assert_eq!(
        encode_cell_value(&CellValue::Date("2024-01-15".into())),
        Ok(CellEdit::Serial { millis: 3_914_438_400_000, format_code: "yyyy-mm-dd".into() })
    );
    assert_eq!(
        encode_cell_value(&CellValue::DateTime("2024-01-15T10:30:00".into())),
        Ok(CellEdit::Serial {
            millis: 3_914_476_200_000,
            format_code: "yyyy-mm-dd h:mm:ss".into()
        })
    );
}

#[test]
fn unparsable_dates_are_reported() {
    assert_eq!(
        encode_cell_value(&CellValue::Date("yesterday".into())),
        Err(CodecError::InvalidDateFormat("yesterday".into()))
    );
    assert_eq!(
        encode_cell_value(&CellValue::DateTime("2024-01-15".into())),
        Err(CodecError::InvalidDateFormat("2024-01-15".into()))
    );
}

#[test]
fn error_tokens_round_trip() {
    for token in ["#DIV/0!", "#N/A", "#VALUE!", "#REF!", "#NUM!"] {
        let v = CellValue::Error(token.to_string());
        assert_eq!(round_trip(&v), v);
    }
}

#[test]
fn every_tag_round_trips() {
    let values = [
        CellValue::String("hello\nworld".into()),
        CellValue::Number(num(-12.75)),
        CellValue::Boolean(true),
        CellValue::Boolean(false),
        CellValue::Date("2024-01-15".into()),
        CellValue::DateTime("2024-01-15T10:30:00".into()),
        CellValue::Formula { text: "SUM(A1:A3)".into(), display: "SUM(A1:A3)".into() },
        CellValue::Error("#DIV/0!".into()),
    ];
    for v in values {
        assert_eq!(round_trip(&v), v);
    }
}

#[test]
fn blank_changes_nothing() {
    let before = number_cell(3.0, None);
    let edit = encode_cell_value(&CellValue::Blank).unwrap();
    assert_eq!(apply(&before, &edit), before);
    assert_eq!(round_trip(&CellValue::Blank), CellValue::Blank);
}

#[test]
fn midnight_datetime_reads_back_as_date() {
    let v = CellValue::DateTime("2024-01-15T00:00:00".into());
    assert_eq!(round_trip(&v), CellValue::Date("2024-01-15".into()));
}

#[test]
fn values_become_records() {
    let p = cell_payload(&CellValue::Blank);
    assert_eq!(p, CellPayload { kind: Some("blank".into()), value: None, formula: None });
    let p = cell_payload(&CellValue::Number(num(2.0)));
    assert_eq!(p.kind.as_deref(), Some("number"));
    assert_eq!(p.value, Some(PayloadValue::Number(num(2.0))));
    let p = cell_payload(&CellValue::Formula { text: "A1".into(), display: "A1".into() });
    assert_eq!(p.kind.as_deref(), Some("formula"));
    assert_eq!(p.formula.as_deref(), Some("A1"));
    assert_eq!(p.value, Some(PayloadValue::Text("A1".into())));
    for (v, kind) in [
        (CellValue::String("s".into()), "string"),
        (CellValue::Boolean(true), "boolean"),
        (CellValue::Date("2024-01-15".into()), "date"),
        (CellValue::DateTime("2024-01-15T10:30:00".into()), "datetime"),
        (CellValue::Error("#N/A".into()), "error"),
    ] {
        let p = cell_payload(&v);
        assert_eq!(p.kind.as_deref(), Some(kind));
        assert_eq!(parse_cell_payload(&p), Ok(v));
    }
}

fn record(kind: &str, value: Option<PayloadValue>) -> CellPayload {
    CellPayload { kind: Some(kind.to_string()), value, formula: None }
}

#[test]
fn records_are_validated() {
    let no_type = CellPayload { kind: None, value: None, formula: None };
    assert_eq!(
        parse_cell_payload(&no_type),
        Err(CodecError::MissingRequiredField("type".into()))
    );
    for kind in ["string", "number", "boolean", "error", "date", "datetime"] {
        assert_eq!(
            parse_cell_payload(&record(kind, None)),
            Err(CodecError::MissingRequiredField("value".into()))
        );
    }
    assert_eq!(
        parse_cell_payload(&record("formula", None)),
        Err(CodecError::MissingRequiredField("formula".into()))
    );
    assert_eq!(
        parse_cell_payload(&record("formula", Some(PayloadValue::Text("A1".into())))),
        Ok(CellValue::Formula { text: "A1".into(), display: "A1".into() })
    );
    assert_eq!(
        parse_cell_payload(&record("currency", Some(PayloadValue::Flag(true)))),
        Err(CodecError::UnsupportedValueType("currency".into()))
    );
    assert_eq!(
        parse_cell_payload(&record("Blank", None)),
        Err(CodecError::UnsupportedValueType("Blank".into()))
    );
    assert_eq!(
        parse_cell_payload(&record("number", Some(PayloadValue::Text("1".into())))),
        Err(CodecError::UnsupportedValueType("number".into()))
    );
    assert_eq!(
        parse_cell_payload(&record("date", Some(PayloadValue::Flag(true)))),
        Err(CodecError::UnsupportedValueType("date".into()))
    );
}

#[test]
fn writing_a_record_checks_before_it_edits() {
    assert_eq!(encode_cell_payload(&record("blank", None)), Ok(CellEdit::Keep));
    assert_eq!(
        encode_cell_payload(&record("error", Some(PayloadValue::Text("#DIV/0!".into())))),
        Ok(CellEdit::Formula("1/0".into()))
    );
    assert_eq!(
        encode_cell_payload(&record("date", Some(PayloadValue::Text("nope".into())))),
        Err(CodecError::InvalidDateFormat("nope".into()))
    );
    assert_eq!(
        encode_cell_payload(&record("number", None)),
        Err(CodecError::MissingRequiredField("value".into()))
    );
    assert_eq!(
        encode_cell_payload(&record("string", None)),
        Err(CodecError::MissingRequiredField("value".into()))
    );
    assert_eq!(
        encode_cell_payload(&record("string", Some(PayloadValue::Text(String::new())))),
        Ok(CellEdit::Text(String::new()))
    );
}

#[test]
fn cells_are_located_before_anything_else() {
    assert_eq!(locate_cell(true, "Sheet1", "B3"), Ok((2, 3)));
    assert_eq!(
        locate_cell(false, "Nope", "not a ref"),
        Err(CodecError::UnknownSheet("Nope".into()))
    );
    assert_eq!(
        locate_cell(true, "Sheet1", "not a ref"),
        Err(CodecError::InvalidReference("not a ref".into()))
    );
    assert_eq!(require_sheet(true, "Sheet1"), Ok(()));
    assert_eq!(require_sheet(false, "Nope"), Err(CodecError::UnknownSheet("Nope".into())));
}
