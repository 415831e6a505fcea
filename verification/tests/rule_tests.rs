use sheet_codec::conditional::{
    encode_conditional_format, default_color_scale, default_data_bar, decode_conditional_formats,
    show_gradient, Gradient, RawFormatting, RawRule, RulePayload, Threshold,
};
use sheet_codec::error::CodecError;
use sheet_codec::validation::{
    encode_data_validation, normalize_operator, normalize_validation_type, decode_data_validations,
    RawValidation, ValidationPayload,
};

fn rule_payload(range: &str, rule_type: &str) -> RulePayload {
    RulePayload {
        range: Some(range.into()),
        rule_type: Some(rule_type.into()),
        operator: None,
        formula: None,
        priority: None,
        stop_if_true: None,
        bg_color: None,
        data_bar: None,
        color_scale: None,
    }
}

fn raw_rule(rule_type: &str) -> RawRule {
    RawRule {
        rule_type: rule_type.into(),
        operator: "lessThan".into(),
        priority: 1,
        stop_if_true: false,
        formula: None,
        background_argb: None,
        data_bar: None,
        color_scale: None,
    }
}

fn th(kind: &str, value: &str) -> Threshold {
    Threshold { kind: kind.into(), value: value.into() }
}

#[test]
fn data_bar_without_a_bar_gets_the_default() {
    let edit = encode_conditional_format(&rule_payload("A1:A10", "dataBar")).unwrap();
    assert_eq!(edit.sqref, "A1:A10");
    assert_eq!(edit.rule_type, "dataBar");
    assert_eq!(edit.color_scale, None);
    let bar = edit.data_bar.clone().unwrap();
    assert_eq!(bar, default_data_bar());
    assert_eq!(bar.thresholds, vec![th("num", "0"), th("num", "10")]);
    assert_eq!(bar.colors, vec!["FF638EC6".to_string()]);

    let stored = RawFormatting {
        sqref: edit.sqref.clone(),
        rules: vec![RawRule { data_bar: edit.data_bar.clone(), ..raw_rule("dataBar") }],
    };
    let read = decode_conditional_formats(&vec![stored]);
    assert_eq!(read.len(), 1);
    let shown = read[0].data_bar.clone().unwrap();
    assert_eq!(shown.thresholds, vec![th("num", "0"), th("num", "10")]);
    assert_eq!(shown.colors, vec!["#638EC6".to_string()]);
}

#[test]
fn color_scale_without_a_scale_gets_the_default() {
    let edit = encode_conditional_format(&rule_payload("B1:B5", "colorScale")).unwrap();
    assert_eq!(edit.data_bar, None);
    let scale = edit.color_scale.unwrap();
    assert_eq!(scale, default_color_scale());
    assert_eq!(scale.thresholds, vec![th("min", ""), th("percentile", "50"), th("max", "")]);
    assert_eq!(scale.colors, vec!["FFF8696B", "FFFFEB84", "FF63BE7B"]);
    assert_eq!(show_gradient(&scale).colors, vec!["#F8696B", "#FFEB84", "#63BE7B"]);
}

#[test]
fn supplied_sub_objects_are_kept() {
    let mut p = rule_payload("A1", "dataBar");
    p.data_bar = Some(Gradient {
        thresholds: vec![th("min", ""), th("max", "")],
        colors: vec!["#FF0000".into()],
    });
    let edit = encode_conditional_format(&p).unwrap();
    let bar = edit.data_bar.unwrap();
    assert_eq!(bar.thresholds, vec![th("min", ""), th("max", "")]);
    assert_eq!(bar.colors, vec!["FFFF0000".to_string()]);
}

#[test]
fn other_rule_types_get_no_sub_object() {
    let mut p = rule_payload("A1:B2", "cellIs");
    p.operator = Some("greaterThan".into());
    p.formula = Some("5".into());
    p.priority = Some(3);
    p.stop_if_true = Some(true);
    p.bg_color = Some("#FFCC00".into());
    let edit = encode_conditional_format(&p).unwrap();
    assert_eq!(edit.data_bar, None);
    assert_eq!(edit.color_scale, None);
    assert_eq!(edit.operator.as_deref(), Some("greaterThan"));
    assert_eq!(edit.formula.as_deref(), Some("5"));
    assert_eq!(edit.priority, Some(3));
    assert_eq!(edit.stop_if_true, Some(true));
    assert_eq!(edit.background_argb.as_deref(), Some("FFFFCC00"));
}

#[test]
fn every_rule_type_and_operator_of_the_document_model_is_known() {
    for t in [
        "aboveAverage", "beginsWith", "cellIs", "colorScale", "containsBlanks", "containsErrors",
        "containsText", "dataBar", "duplicateValues", "endsWith", "expression", "iconSet",
        "notContainsBlanks", "notContainsErrors", "notContainsText", "timePeriod", "top10",
        "uniqueValues",
    ] {
        assert!(encode_conditional_format(&rule_payload("A1", t)).is_ok(), "{t}");
    }
    for op in [
        "beginsWith", "between", "containsText", "endsWith", "equal", "greaterThan",
        "greaterThanOrEqual", "lessThan", "lessThanOrEqual", "notBetween", "notContains",
        "notEqual",
    ] {
        let mut p = rule_payload("A1", "cellIs");
        p.operator = Some(op.into());
        assert!(encode_conditional_format(&p).is_ok(), "{op}");
    }
}

#[test]
fn malformed_rules_are_rejected() {
    let mut p = rule_payload("A1", "cellIs");
    p.range = None;
    p.rule_type = None;
    assert_eq!(
        encode_conditional_format(&p),
        Err(CodecError::MissingRequiredField("range".into()))
    );
    p.range = Some("A1".into());
    assert_eq!(
        encode_conditional_format(&p),
        Err(CodecError::MissingRequiredField("rule_type".into()))
    );
    assert_eq!(
        encode_conditional_format(&rule_payload("A1", "databar")),
        Err(CodecError::InvalidEnumValue("databar".into()))
    );
    let mut p = rule_payload("A1", "cellIs");
    p.operator = Some("greater_than".into());
    assert_eq!(
        encode_conditional_format(&p),
        Err(CodecError::InvalidEnumValue("greater_than".into()))
    );
}

#[test]
fn threshold_kinds_are_a_closed_vocabulary() {
    for kind in ["formula", "max", "min", "num", "percent", "percentile"] {
        let mut p = rule_payload("A1", "dataBar");
        p.data_bar = Some(Gradient { thresholds: vec![th(kind, "1")], colors: vec![] });
        assert!(encode_conditional_format(&p).is_ok(), "{kind}");
    }
    let mut p = rule_payload("A1", "colorScale");
    p.data_bar = Some(Gradient { thresholds: vec![th("min", ""), th("Max", "")], colors: vec![] });
    p.color_scale = Some(Gradient { thresholds: vec![th("number", "1")], colors: vec![] });
    assert_eq!(encode_conditional_format(&p), Err(CodecError::InvalidEnumValue("Max".into())));
    p.data_bar = None;
    assert_eq!(encode_conditional_format(&p), Err(CodecError::InvalidEnumValue("number".into())));
    p.operator = Some("bogus".into());
    assert_eq!(encode_conditional_format(&p), Err(CodecError::InvalidEnumValue("bogus".into())));
}

#[test]
fn one_record_per_range_and_rule() {
    let blocks = vec![
        RawFormatting {
            sqref: "A1:A3".into(),
            rules: vec![
                RawRule {
                    formula: Some("A1>1".into()),
                    background_argb: Some("FFFF0000".into()),
                    ..raw_rule("expression")
                },
                RawRule { priority: 2, stop_if_true: true, ..raw_rule("cellIs") },
            ],
        },
        RawFormatting { sqref: "C1".into(), rules: vec![] },
        RawFormatting {
            sqref: String::new(),
            rules: vec![RawRule {
                formula: Some(String::new()),
                background_argb: Some(String::new()),
                ..raw_rule("top10")
            }],
        },
    ];
    let read = decode_conditional_formats(&blocks);
    assert_eq!(read.len(), 3);
    assert_eq!(read[0].range.as_deref(), Some("A1:A3"));
    assert_eq!(read[0].rule_type, "expression");
    assert_eq!(read[0].operator, "lessThan");
    assert_eq!(read[0].formula.as_deref(), Some("A1>1"));
    assert_eq!(read[0].bg_color.as_deref(), Some("#FF0000"));
    assert_eq!(read[1].range.as_deref(), Some("A1:A3"));
    assert_eq!(read[1].rule_type, "cellIs");
    assert_eq!(read[1].priority, 2);
    assert!(read[1].stop_if_true);
    assert_eq!(read[1].formula, None);
    assert_eq!(read[1].bg_color, None);
    assert_eq!(read[2].range, None);
    assert_eq!(read[2].rule_type, "top10");
    assert_eq!(read[2].formula, None);
    assert_eq!(read[2].bg_color, None);
    assert!(decode_conditional_formats(&vec![]).is_empty());
}

#[test]
fn validation_words_are_normalized() {
    assert_eq!(normalize_validation_type("text_length"), "textLength");
    assert_eq!(normalize_validation_type(" TextLength "), "textLength");
    assert_eq!(normalize_validation_type("TEXT_LENGTH"), "textLength");
    assert_eq!(normalize_validation_type("List"), "list");
    assert_eq!(normalize_validation_type(" whole\t"), "whole");
    assert_eq!(normalize_validation_type("Bogus"), "bogus");
    assert_eq!(normalize_operator("greater_than"), "greaterThan");
    assert_eq!(normalize_operator("GREATER_THAN_OR_EQUAL"), "greaterThanOrEqual");
    assert_eq!(normalize_operator(" less_than "), "lessThan");
    assert_eq!(normalize_operator("less_than_or_equal"), "lessThanOrEqual");
    assert_eq!(normalize_operator("not_between"), "notBetween");
    assert_eq!(normalize_operator("Not_Equal"), "notEqual");
    assert_eq!(normalize_operator(" between "), "between");
    assert_eq!(normalize_operator("Between"), "Between");
    assert_eq!(normalize_operator("greaterThan"), "greaterThan");
}

fn validation(range: &str, kind: &str) -> ValidationPayload {
    ValidationPayload {
        range: Some(range.into()),
        validation_type: Some(kind.into()),
        operator: None,
        formula1: None,
        formula2: None,
        allow_blank: None,
        show_input: None,
        show_error: None,
        prompt_title: None,
        prompt: None,
        error_title: None,
        error: None,
    }
}

#[test]
fn validations_are_normalized_and_validated() {
    let mut p = validation("A1:A5", "Text_Length");
    p.operator = Some("greater_than_or_equal".into());
    p.formula1 = Some("3".into());
    p.allow_blank = Some(true);
    p.error = Some("too short".into());
    let edit = encode_data_validation(&p).unwrap();
    assert_eq!(edit.sqref, "A1:A5");
    assert_eq!(edit.validation_type, "textLength");
    assert_eq!(edit.operator.as_deref(), Some("greaterThanOrEqual"));
    assert_eq!(edit.formula1.as_deref(), Some("3"));
    assert_eq!(edit.formula2, None);
    assert_eq!(edit.allow_blank, Some(true));
    assert_eq!(edit.show_input, None);
    assert_eq!(edit.error.as_deref(), Some("too short"));

    for t in ["custom", "date", "decimal", "list", "none", "textlength", "time", "WHOLE"] {
        assert!(encode_data_validation(&validation("A1", t)).is_ok(), "{t}");
    }
    for op in [
        "between", "equal", "greater_than", "greaterThanOrEqual", "less_than",
        "less_than_or_equal", "not_between", "notEqual",
    ] {
        let mut p = validation("A1", "whole");
        p.operator = Some(op.into());
        assert!(encode_data_validation(&p).is_ok(), "{op}");
    }
}

#[test]
fn malformed_validations_quote_the_word_as_written() {
    let mut p = validation("A1", "whole");
    p.range = None;
    assert_eq!(encode_data_validation(&p), Err(CodecError::MissingRequiredField("range".into())));
    let mut p = validation("A1", "whole");
    p.validation_type = None;
    assert_eq!(
        encode_data_validation(&p),
        Err(CodecError::MissingRequiredField("validation_type".into()))
    );
    assert_eq!(
        encode_data_validation(&validation("A1", " Integer ")),
        Err(CodecError::InvalidEnumValue(" Integer ".into()))
    );
    let mut p = validation("A1", "whole");
    p.operator = Some("Greater".into());
    assert_eq!(encode_data_validation(&p), Err(CodecError::InvalidEnumValue("Greater".into())));
    let mut p = validation("A1", "whole");
    p.operator = Some("Between".into());
    assert_eq!(encode_data_validation(&p), Err(CodecError::InvalidEnumValue("Between".into())));
}

#[test]
fn stored_validations_are_read_sparsely() {
    let raw = RawValidation {
        sqref: "B2:B9".into(),
        validation_type: "list".into(),
        operator: "between".into(),
        allow_blank: true,
        show_input: false,
        show_error: true,
        formula1: "\"a,b\"".into(),
        formula2: String::new(),
        error_title: String::new(),
        error: "pick one".into(),
        prompt_title: "Choice".into(),
        prompt: String::new(),
    };
    let empty = RawValidation {
        sqref: String::new(),
        formula1: String::new(),
        error: String::new(),
        prompt_title: String::new(),
        ..raw.clone()
    };
    let read = decode_data_validations(&vec![raw, empty]);
    assert_eq!(read.len(), 2);
    assert_eq!(read[0].range.as_deref(), Some("B2:B9"));
    assert_eq!(read[0].validation_type, "list");
    assert_eq!(read[0].operator, "between");
    assert!(read[0].allow_blank && !read[0].show_input && read[0].show_error);
    assert_eq!(read[0].formula1.as_deref(), Some("\"a,b\""));
    assert_eq!(read[0].formula2, None);
    assert_eq!(read[0].error_title, None);
    assert_eq!(read[0].error.as_deref(), Some("pick one"));
    assert_eq!(read[0].prompt_title.as_deref(), Some("Choice"));
    assert_eq!(read[0].prompt, None);
    assert_eq!(read[1].range, None);
    assert_eq!(read[1].formula1, None);
    assert_eq!(read[1].error, None);
}
