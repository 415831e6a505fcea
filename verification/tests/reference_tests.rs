use sheet_codec::error::CodecError;
use sheet_codec::reference::{a1_to_row_col, col_letter_to_u32, u32_to_col_letter};

#[test]
fn b3_is_row_two_column_one() {
    assert_eq!(a1_to_row_col("B3"), Ok((2, 1)));
}

#[test]
fn aa1_is_column_twenty_six() {
    assert_eq!(a1_to_row_col("AA1"), Ok((0, 26)));
}

#[test]
fn lower_case_letters_name_the_same_column() {
    assert_eq!(a1_to_row_col("b3"), Ok((2, 1)));
    assert_eq!(col_letter_to_u32("aa"), Ok(27));
}

#[test]
fn malformed_references_are_rejected() {
    for bad in ["", "1A", "A0", "A", "12", "A1B", "A 1", "A-1", "$A$1"] {
        assert_eq!(
            a1_to_row_col(bad),
            Err(CodecError::InvalidReference(bad.to_string())),
            "{bad:?}"
        );
    }
}

#[test]
fn leading_zeros_in_the_row_are_read() {
    assert_eq!(a1_to_row_col("C007"), Ok((6, 2)));
}

#[test]
fn row_and_column_limits() {
    assert_eq!(a1_to_row_col("A4294967295"), Ok((4294967294, 0)));
    assert!(a1_to_row_col("A4294967296").is_err());
    assert_eq!(col_letter_to_u32("MWLQKWU"), Ok(4294967295));
    assert!(col_letter_to_u32("MWLQKWV").is_err());
    assert!(a1_to_row_col("MWLQKWV1").is_err());
    assert!(a1_to_row_col("ZZZZZZZZZZZZZZZZZZZZ1").is_err());
}

#[test]
fn column_letters_to_index() {
    assert_eq!(col_letter_to_u32("A"), Ok(1));
    assert_eq!(col_letter_to_u32("Z"), Ok(26));
    assert_eq!(col_letter_to_u32("AA"), Ok(27));
    assert_eq!(col_letter_to_u32("XFD"), Ok(16384));
    assert_eq!(col_letter_to_u32(""), Err(CodecError::InvalidReference(String::new())));
    assert_eq!(col_letter_to_u32("A1"), Err(CodecError::InvalidReference("A1".to_string())));
}

#[test]
fn index_to_column_letters() {
    assert_eq!(u32_to_col_letter(0), "");
    assert_eq!(u32_to_col_letter(1), "A");
    assert_eq!(u32_to_col_letter(26), "Z");
    assert_eq!(u32_to_col_letter(27), "AA");
    assert_eq!(u32_to_col_letter(702), "ZZ");
    assert_eq!(u32_to_col_letter(703), "AAA");
    assert_eq!(u32_to_col_letter(16384), "XFD");
    assert_eq!(u32_to_col_letter(u32::MAX), "MWLQKWU");
}

#[test]
fn column_letters_round_trip() {
    for n in [1u32, 2, 25, 26, 27, 52, 53, 701, 702, 703, 18278, 18279, 1_000_000, u32::MAX] {
        assert_eq!(col_letter_to_u32(&u32_to_col_letter(n)), Ok(n));
    }
}

#[test]
fn error_messages_quote_the_input() {
    let e = a1_to_row_col("1A").unwrap_err();
    assert_eq!(e.message(), "Invalid reference: 1A");
    assert_eq!(CodecError::NumericOverflow.message(), "Numeric overflow");
    assert_eq!(CodecError::UnknownSheet("S".to_string()).message(), "Unknown sheet: S");
    assert_eq!(CodecError::InvalidEnumValue("x".to_string()).message(), "Invalid value: x");
    assert_eq!(
        CodecError::MissingRequiredField("type".to_string()).message(),
        "Missing required field: type"
    );
    assert_eq!(
        CodecError::UnsupportedValueType("t".to_string()).message(),
        "Unsupported value type: t"
    );
    assert_eq!(
        CodecError::InvalidDateFormat("d".to_string()).message(),
        "Invalid ISO date or date-time: d"
    );
    assert_eq!(
        CodecError::ResourceNotFound("a.png".to_string()).message(),
        "Resource not found: a.png"
    );
    assert_eq!(
        CodecError::UnderlyingIOFailure("save: denied".to_string()).message(),
        "I/O failure: save: denied"
    );
}
