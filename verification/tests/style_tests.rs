use sheet_codec::border::{
    decode_cell_border, umya_border_style_to_str, encode_cell_border, BorderEdge, BorderPayload,
    BordersEdit, CellBorder, EdgeEdit, EdgePayload, RawBorders, RawEdge,
};
use sheet_codec::error::CodecError;
use sheet_codec::number::Number64;
use sheet_codec::style::{
    blank_format, decode_cell_format, encode_cell_format, CellFormat, PatternEdit, RawAlignment,
    RawFont, RawPatternFill, RawStyle, StyleEdit,
};

fn num(f: f64) -> Number64 {
    Number64::from_bits(f.to_bits())
}

fn default_font() -> RawFont {
    RawFont {
        bold: false,
        italic: false,
        underline: "none".into(),
        strikethrough: false,
        name: String::new(),
        size: num(0.0),
        color_argb: String::new(),
    }
}

fn default_style() -> RawStyle {
    RawStyle {
        font: Some(default_font()),
        pattern_fill: Some(RawPatternFill { pattern_type: "none".into(), foreground_argb: None }),
        number_format: Some("General".into()),
        alignment: Some(RawAlignment {
            horizontal: "general".into(),
            vertical: "bottom".into(),
            wrap_text: false,
            rotation: 0,
        }),
    }
}

fn no_edit() -> StyleEdit {
    StyleEdit {
        bold: None,
        italic: None,
        underline: None,
        strikethrough: None,
        font_name: None,
        font_size: None,
        font_argb: None,
        pattern: None,
        foreground_argb: None,
        number_format: None,
        horizontal: None,
        vertical: None,
        wrap_text: None,
        rotation: None,
    }
}

#[test]
fn untouched_cell_format_is_empty() {
    assert_eq!(decode_cell_format(None), blank_format());
    let bare = RawStyle { font: None, pattern_fill: None, number_format: None, alignment: None };
    assert_eq!(decode_cell_format(Some(&bare)), blank_format());
    assert_eq!(decode_cell_format(Some(&default_style())), blank_format());
    assert_eq!(encode_cell_format(&blank_format()), no_edit());
}

#[test]
fn black_font_and_empty_texts_are_suppressed() {
    let mut st = default_style();
    st.font = Some(RawFont {
        color_argb: "FF000000".into(),
        underline: String::new(),
        size: num(-1.0),
        ..default_font()
    });
    st.pattern_fill =
        Some(RawPatternFill { pattern_type: String::new(), foreground_argb: Some(String::new()) });
    st.number_format = Some(String::new());
    st.alignment = Some(RawAlignment {
        horizontal: String::new(),
        vertical: String::new(),
        wrap_text: false,
        rotation: 0,
    });
    assert_eq!(decode_cell_format(Some(&st)), blank_format());
}

#[test]
fn non_default_fields_are_reported() {
    let st = RawStyle {
        font: Some(RawFont {
            bold: true,
            italic: true,
            underline: "single".into(),
            strikethrough: true,
            name: "Arial".into(),
            size: num(12.5),
            color_argb: "FFFF0000".into(),
        }),
        pattern_fill: Some(RawPatternFill {
            pattern_type: "solid".into(),
            foreground_argb: Some("FFFFFF00".into()),
        }),
        number_format: Some("0.00".into()),
        alignment: Some(RawAlignment {
            horizontal: "center".into(),
            vertical: "top".into(),
            wrap_text: true,
            rotation: 45,
        }),
    };
    let expected = CellFormat {
        bold: Some(true),
        italic: Some(true),
        underline: Some("single".into()),
        strikethrough: Some(true),
        font_name: Some("Arial".into()),
        font_size: Some(num(12.5)),
        font_color: Some("#FF0000".into()),
        fill_type: Some("solid".into()),
        bg_color: Some("#FFFF00".into()),
        number_format: Some("0.00".into()),
        h_align: Some("center".into()),
        v_align: Some("top".into()),
        wrap: Some(true),
        rotation: Some(45),
    };
    assert_eq!(decode_cell_format(Some(&st)), expected);
}

#[test]
fn format_is_a_partial_update() {
    let mut f = blank_format();
    f.bold = Some(false);
    f.font_color = Some("#FF0000".into());
    let mut expected = no_edit();
    expected.bold = Some(false);
    expected.font_argb = Some("FFFF0000".into());
    assert_eq!(encode_cell_format(&f), expected);
}

#[test]
fn background_color_sets_a_solid_pattern() {
    let mut f = blank_format();
    f.bg_color = Some("#00FF00".into());
    f.fill_type = Some("none".into());
    let edit = encode_cell_format(&f);
    assert_eq!(edit.pattern, Some(PatternEdit::Solid));
    assert_eq!(edit.foreground_argb.as_deref(), Some("FF00FF00"));

    let mut f = blank_format();
    f.fill_type = Some("NONE".into());
    assert_eq!(encode_cell_format(&f).pattern, Some(PatternEdit::Clear));

    let mut f = blank_format();
    f.fill_type = Some("solid".into());
    assert_eq!(encode_cell_format(&f).pattern, None);
}

#[test]
fn unknown_alignment_and_rotation_are_left_alone() {
    let mut f = blank_format();
    f.h_align = Some("center".into());
    f.v_align = Some("middle".into());
    f.rotation = Some(-1);
    let edit = encode_cell_format(&f);
    assert_eq!(edit.horizontal.as_deref(), Some("center"));
    assert_eq!(edit.vertical, None);
    assert_eq!(edit.rotation, None);

    let mut f = blank_format();
    f.h_align = Some("Center".into());
    f.v_align = Some("top".into());
    f.rotation = Some(4_294_967_295);
    let edit = encode_cell_format(&f);
    assert_eq!(edit.horizontal, None);
    assert_eq!(edit.vertical.as_deref(), Some("top"));
    assert_eq!(edit.rotation, Some(u32::MAX));
    f.rotation = Some(4_294_967_296);
    assert_eq!(encode_cell_format(&f).rotation, None);
}

#[test]
fn every_alignment_of_the_document_model_is_known() {
    for h in
        ["center", "centerContinuous", "distributed", "fill", "general", "justify", "left", "right"]
    {
        let mut f = blank_format();
        f.h_align = Some(h.into());
        assert_eq!(encode_cell_format(&f).horizontal.as_deref(), Some(h));
    }
    for v in ["bottom", "center", "distributed", "justify", "top"] {
        let mut f = blank_format();
        f.v_align = Some(v.into());
        assert_eq!(encode_cell_format(&f).vertical.as_deref(), Some(v));
    }
}

#[test]
fn border_styles_are_canonicalized() {
    assert_eq!(umya_border_style_to_str("thin"), "thin");
    assert_eq!(umya_border_style_to_str("THIN"), "thin");
    assert_eq!(umya_border_style_to_str("mediumdashdotdot"), "mediumDashDotDot");
    assert_eq!(umya_border_style_to_str("MediumDashed"), "mediumDashed");
    assert_eq!(umya_border_style_to_str("slantDashDot"), "slantDashDot");
    assert_eq!(umya_border_style_to_str("dashDot"), "dashDot");
    assert_eq!(umya_border_style_to_str("dashdotdot"), "dashDotDot");
    assert_eq!(umya_border_style_to_str("mediumDashDot"), "mediumDashDot");
    for s in ["medium", "thick", "double", "dashed", "dotted", "hair"] {
        assert_eq!(umya_border_style_to_str(s), s);
    }
    assert_eq!(umya_border_style_to_str("wavy"), "none");
    assert_eq!(umya_border_style_to_str(""), "none");
}

fn raw_edge(style: &str, argb: &str) -> RawEdge {
    RawEdge { style: style.into(), color_argb: argb.into() }
}

#[test]
fn borders_skip_empty_edges_and_report_one_diagonal() {
    assert_eq!(
        decode_cell_border(None),
        CellBorder {
            top: None,
            bottom: None,
            left: None,
            right: None,
            diagonal_up: None,
            diagonal_down: None
        }
    );
    let raw = RawBorders {
        top: raw_edge("thin", "FFFF0000"),
        bottom: raw_edge("none", "FF00FF00"),
        left: raw_edge("", "FF00FF00"),
        right: raw_edge("mediumDashed", ""),
        diagonal: raw_edge("double", "0000FF"),
    };
    let read = decode_cell_border(Some(&raw));
    assert_eq!(read.top, Some(BorderEdge { style: "thin".into(), color: "#FF0000".into() }));
    assert_eq!(read.bottom, None);
    assert_eq!(read.left, None);
    assert_eq!(
        read.right,
        Some(BorderEdge { style: "mediumDashed".into(), color: "#000000".into() })
    );
    assert_eq!(
        read.diagonal_up,
        Some(BorderEdge { style: "double".into(), color: "#0000FF".into() })
    );
    assert_eq!(read.diagonal_down, None);
}

fn no_border() -> BorderPayload {
    BorderPayload {
        top: None,
        bottom: None,
        left: None,
        right: None,
        diagonal_up: None,
        diagonal_down: None,
    }
}

fn untouched() -> EdgeEdit {
    EdgeEdit { style: None, color_argb: None }
}

#[test]
fn border_write_touches_only_supplied_edges() {
    let mut p = no_border();
    p.top = Some(EdgePayload { style: Some("THICK".into()), color: Some("#112233".into()) });
    p.left = Some(EdgePayload { style: None, color: Some("445566".into()) });
    assert_eq!(
        encode_cell_border(&p),
        Ok(BordersEdit {
            top: EdgeEdit { style: Some("thick".into()), color_argb: Some("FF112233".into()) },
            bottom: untouched(),
            left: EdgeEdit { style: None, color_argb: Some("FF445566".into()) },
            right: untouched(),
            diagonal: untouched(),
        })
    );
    let all_untouched = BordersEdit {
        top: untouched(),
        bottom: untouched(),
        left: untouched(),
        right: untouched(),
        diagonal: untouched(),
    };
    assert_eq!(encode_cell_border(&no_border()), Ok(all_untouched));
}

#[test]
fn both_diagonals_write_the_same_edge() {
    let mut p = no_border();
    p.diagonal_down = Some(EdgePayload { style: Some("thin".into()), color: None });
    assert_eq!(encode_cell_border(&p).unwrap().diagonal.style.as_deref(), Some("thin"));

    p.diagonal_up =
        Some(EdgePayload { style: Some("double".into()), color: Some("#FF0000".into()) });
    let edit = encode_cell_border(&p).unwrap();
    assert_eq!(edit.diagonal.style.as_deref(), Some("thin"));
    assert_eq!(edit.diagonal.color_argb.as_deref(), Some("FFFF0000"));
}

#[test]
fn unknown_border_style_is_rejected() {
    let mut p = no_border();
    p.top = Some(EdgePayload { style: Some("thin".into()), color: None });
    p.right = Some(EdgePayload { style: Some("wavy".into()), color: None });
    assert_eq!(encode_cell_border(&p), Err(CodecError::InvalidEnumValue("wavy".into())));
    let mut p = no_border();
    p.bottom = Some(EdgePayload { style: Some("None".into()), color: None });
    assert_eq!(encode_cell_border(&p).unwrap().bottom.style.as_deref(), Some("none"));
}
