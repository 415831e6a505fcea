use sheet_codec::cell::{encode_cell_value, decode_cell_value, CellEdit, CellValue, RawCell, RawNumber};
use sheet_codec::number::Number64;
use sheet_codec::reference::locate_cell;
use sheet_codec::structural::{decode_merged_ranges, encode_merge, range_matches};
use sheet_codec::style::{blank_format, decode_cell_format, encode_cell_format, RawFont, RawStyle};
use umya_spreadsheet::structs::{Cell, Style};

fn num(f: f64) -> Number64 {
    Number64::from_bits(f.to_bits())
}

fn raw_cell(cell: &Cell) -> RawCell {
    RawCell {
        formula: cell.get_formula().to_string(),
        number: cell.get_value_number().map(|f| RawNumber {
            value: num(f),
            millis: (f * 86_400_000.0).round() as i64,
        }),
        format_code: cell
            .get_style()
            .get_number_format()
            .map(|nf| nf.get_format_code().to_string()),
        text: cell.get_value().into_owned(),
    }
}

fn store(cell: &mut Cell, edit: CellEdit) {
    match edit {
        CellEdit::Keep => {}
        CellEdit::Text(s) => {
            cell.set_value_string(s);
        }
        CellEdit::Number(n) => {
            cell.set_value_number(f64::from_bits(n.bits));
        }
        CellEdit::Flag(b) => {
            cell.set_value_bool(b);
        }
        CellEdit::Formula(f) => {
            cell.set_formula(f);
        }
        CellEdit::Serial { millis, format_code } => {
            cell.set_value_number(millis as f64 / 86_400_000.0);
            cell.get_style_mut().get_number_format_mut().set_format_code(format_code);
        }
    }
}

fn through_a_document(v: &CellValue) -> CellValue {
    let mut cell = Cell::default();
    store(&mut cell, encode_cell_value(v).unwrap());
    decode_cell_value(Some(&raw_cell(&cell)))
}

#[test]
fn a_fresh_document_cell_is_blank() {
    let cell = Cell::default();
    let raw = raw_cell(&cell);
    assert_eq!(raw.formula, "");
    assert_eq!(raw.number, None);
    assert_eq!(raw.text, "");
    assert_eq!(decode_cell_value(Some(&raw)), CellValue::Blank);
}

#[test]
fn the_document_keeps_what_an_edit_stores() {
    let mut cell = Cell::default();
    cell.set_formula("A1+1");
    store(&mut cell, CellEdit::Text("plain".into()));
    let raw = raw_cell(&cell);
    assert_eq!((raw.formula.as_str(), raw.number, raw.text.as_str()), ("", None, "plain"));

    store(&mut cell, CellEdit::Flag(true));
    let raw = raw_cell(&cell);
    assert_eq!((raw.formula.as_str(), raw.number, raw.text.as_str()), ("", None, "TRUE"));
    store(&mut cell, CellEdit::Flag(false));
    assert_eq!(raw_cell(&cell).text, "FALSE");

    store(&mut cell, CellEdit::Number(num(2.5)));
    let raw = raw_cell(&cell);
    assert_eq!(raw.formula, "");
    assert_eq!(raw.number.map(|n| n.value), Some(num(2.5)));

    store(&mut cell, CellEdit::Formula("SUM(A1:A2)".into()));
    let raw = raw_cell(&cell);
    assert_eq!(raw.formula, "SUM(A1:A2)");
    assert_eq!(raw.number.map(|n| n.value), Some(num(2.5)));

    store(
        &mut cell,
        CellEdit::Serial { millis: 3_914_476_200_000, format_code: "yyyy-mm-dd h:mm:ss".into() },
    );
    let raw = raw_cell(&cell);
    assert_eq!(raw.formula, "");
    assert_eq!(raw.number.map(|n| n.millis), Some(3_914_476_200_000));
    assert_eq!(raw.format_code.as_deref(), Some("yyyy-mm-dd h:mm:ss"));
}

#[test]
fn every_tag_round_trips_through_a_document() {
    let values = [
        CellValue::String("hello\nworld".into()),
        CellValue::Number(num(-12.75)),
        CellValue::Number(num(0.0)),
        CellValue::Boolean(true),
        CellValue::Boolean(false),
        CellValue::Date("2024-01-15".into()),
        CellValue::Date("1900-02-28".into()),
        CellValue::DateTime("2024-01-15T10:30:00".into()),
        CellValue::DateTime("1999-12-31T23:59:59".into()),
        CellValue::Formula { text: "SUM(A1:A3)".into(), display: "SUM(A1:A3)".into() },
        CellValue::Error("#DIV/0!".into()),
        CellValue::Error("#N/A".into()),
        CellValue::Error("#VALUE!".into()),
        CellValue::Error("#REF!".into()),
    ];
    for v in values {
        assert_eq!(through_a_document(&v), v);
    }
    assert_eq!(through_a_document(&CellValue::Blank), CellValue::Blank);
}

#[test]
fn dates_before_day_sixty_come_back_a_day_later() {
    assert_eq!(
        through_a_document(&CellValue::Date("1900-01-01".into())),
        CellValue::Date("1900-01-02".into())
    );
}

#[test]
fn the_stamped_date_code_is_that_of_the_document_model() {
    let edit = encode_cell_value(&CellValue::Date("2024-01-15".into())).unwrap();
    match edit {
        CellEdit::Serial { format_code, .. } => {
            assert_eq!(format_code, umya_spreadsheet::NumberingFormat::FORMAT_DATE_YYYYMMDD)
        }
        other => panic!("{other:?}"),
    }
}

fn raw_style(style: &Style) -> RawStyle {
    RawStyle {
        font: style.get_font().map(|font| RawFont {
            bold: *font.get_bold(),
            italic: *font.get_italic(),
            underline: font.get_underline().to_string(),
            strikethrough: *font.get_strikethrough(),
            name: font.get_name().to_string(),
            size: num(*font.get_size()),
            color_argb: font.get_color().get_argb().to_string(),
        }),
        pattern_fill: None,
        number_format: style.get_number_format().map(|nf| nf.get_format_code().to_string()),
        alignment: None,
    }
}

#[test]
fn an_untouched_document_cell_has_the_empty_format() {
    let cell = Cell::default();
    assert_eq!(decode_cell_format(Some(&raw_style(cell.get_style()))), blank_format());
    let edit = encode_cell_format(&blank_format());
    assert!(edit.bold.is_none() && edit.font_argb.is_none() && edit.number_format.is_none());
}

#[test]
fn a_formatted_document_cell_reports_what_was_set() {
    let mut f = blank_format();
    f.bold = Some(true);
    f.font_color = Some("#FF0000".into());
    f.number_format = Some("0.00".into());
    let edit = encode_cell_format(&f);
    let mut cell = Cell::default();
    let style = cell.get_style_mut();
    style.get_font_mut().set_bold(edit.bold.unwrap());
    style.get_font_mut().get_color_mut().set_argb(edit.font_argb.unwrap());
    style.get_number_format_mut().set_format_code(edit.number_format.unwrap());
    let read = decode_cell_format(Some(&raw_style(cell.get_style())));
    assert_eq!(read.bold, Some(true));
    assert_eq!(read.font_color.as_deref(), Some("#FF0000"));
    assert_eq!(read.number_format.as_deref(), Some("0.00"));
}

#[test]
fn merged_ranges_in_a_document() {
    let mut book = umya_spreadsheet::new_file();
    let ws = book.get_sheet_by_name_mut("Sheet1").unwrap();
    ws.add_merge_cells(encode_merge("A1:B2").unwrap());
    ws.add_merge_cells(encode_merge("C3:D4").unwrap());
    let stored: Vec<String> = ws.get_merge_cells().iter().map(|r| r.get_range()).collect();
    assert_eq!(decode_merged_ranges(&stored), vec!["A1:B2", "C3:D4"]);
    ws.get_merge_cells_mut().retain(|r| !range_matches(&r.get_range(), " a1:b2 "));
    let stored: Vec<String> = ws.get_merge_cells().iter().map(|r| r.get_range()).collect();
    assert_eq!(stored, vec!["C3:D4"]);
}

#[test]
fn located_cells_address_the_document() {
    let mut book = umya_spreadsheet::new_file();
    let at = locate_cell(true, "Sheet1", "b3").unwrap();
    let ws = book.get_sheet_by_name_mut("Sheet1").unwrap();
    ws.get_cell_mut(at).set_value_string("here");
    assert_eq!(ws.get_cell("B3").map(|c| c.get_value().into_owned()), Some("here".to_string()));
}
