use sheet_codec::color::{argb_to_hex, hex_to_argb};

#[test]
fn argb_to_hex_strips_alpha() {
    assert_eq!(argb_to_hex("FFAABBCC"), "#AABBCC");
}

#[test]
fn hex_to_argb_adds_alpha() {
    assert_eq!(hex_to_argb("#AABBCC"), "FFAABBCC");
}

#[test]
fn argb_to_hex_other_shapes() {
    assert_eq!(argb_to_hex("AABBCC"), "#AABBCC");
    assert_eq!(argb_to_hex("  FFAABBCC \n"), "#AABBCC");
    assert_eq!(argb_to_hex("#ABC"), "#ABC");
    assert_eq!(argb_to_hex("ABC"), "#ABC");
    assert_eq!(argb_to_hex(""), "#");
    assert_eq!(argb_to_hex("#ABCDE"), "##ABCDE");
    assert_eq!(argb_to_hex("#1234567"), "#234567");
}

#[test]
fn hex_to_argb_other_shapes() {
    assert_eq!(hex_to_argb("AABBCC"), "FFAABBCC");
    assert_eq!(hex_to_argb("80AABBCC"), "80AABBCC");
    assert_eq!(hex_to_argb("#80AABBCC"), "80AABBCC");
    assert_eq!(hex_to_argb("# AABBCC "), "FFAABBCC");
    assert_eq!(hex_to_argb(""), "FF");
    assert_eq!(hex_to_argb("##AABBCC"), "FF#AABBCC");
}

#[test]
fn colors_round_trip() {
    for c in ["#000000", "#FFFFFF", "#638EC6", "#F8696B", "#a1b2c3"] {
        assert_eq!(argb_to_hex(&hex_to_argb(c)), c);
    }
}
