//! Colours: the alpha-prefixed form that documents store and the `#RRGGBB`
//! form that callers exchange. Lengths are counted in characters.

use vstd::prelude::*;
use vstd::string::*;
use crate::text::{chars_of, string_of, trim, trimmed, is_whitespace};

verus! {

/// The display form of a stored colour: the text is trimmed; eight
/// characters lose their first two and gain `#`; six gain `#`; anything else
/// gains `#` unless it has one already.
pub open spec fn hex_of_argb(argb: Seq<char>) -> Seq<char> {
    let s = trimmed(argb);
    if s.len() == 8 {
        seq!['#'] + s.subrange(2, 8)
    } else if s.len() == 6 {
        seq!['#'] + s
    } else if s.len() > 0 && s[0] == '#' {
        s
    } else {
        seq!['#'] + s
    }
}

/// The stored form of a display colour: one leading `#` is dropped and the
/// rest trimmed; eight characters stand as they are; anything else is
/// prefixed with full opacity, `FF`.
pub open spec fn argb_of_hex(hex: Seq<char>) -> Seq<char> {
    let body = if hex.len() > 0 && hex[0] == '#' {
        hex.drop_first()
    } else {
        hex
    };
    let s = trimmed(body);
    if s.len() == 8 {
        s
    } else {
        seq!['F', 'F'] + s
    }
}

/// Text with no white space at either end.
pub open spec fn is_tight(s: Seq<char>) -> bool {
    s.len() == 0 || (!is_whitespace(s[0]) && !is_whitespace(s.last()))
}

/// Converts a stored colour such as `FFAABBCC` to `#AABBCC`.
pub fn argb_to_hex(argb: &str) -> (out: String)
    ensures
        out@ == hex_of_argb(argb@),
{
    let raw = chars_of(argb);
    let s = trim(&raw);
    let mut out: Vec<char> = Vec::new();
    if s.len() == 8 {
        out.push('#');
        let mut i: usize = 2;
        while i < 8
            invariant
                s.len() == 8,
                2 <= i <= 8,
                out@ == seq!['#'] + s@.subrange(2, i as int),
            decreases 8 - i,
        {
            out.push(s[i]);
            assert(out@ =~= seq!['#'] + s@.subrange(2, i + 1));
            i = i + 1;
        }
        string_of(&out)
    } else if s.len() != 6 && s.len() > 0 && s[0] == '#' {
        string_of(&s)
    } else {
        out.push('#');
        let mut i: usize = 0;
        while i < s.len()
            invariant
                i <= s.len(),
                out@ == seq!['#'] + s@.subrange(0, i as int),
            decreases s.len() - i,
        {
            out.push(s[i]);
            assert(out@ =~= seq!['#'] + s@.subrange(0, i + 1));
            i = i + 1;
        }
        assert(s@.subrange(0, s.len() as int) =~= s@);
        string_of(&out)
    }
}

/// Converts a display colour such as `#AABBCC` to `FFAABBCC`.
pub fn hex_to_argb(hex: &str) -> (out: String)
    ensures
        out@ == argb_of_hex(hex@),
{
    let raw = chars_of(hex);
    let mut body: Vec<char> = Vec::new();
    let from: usize = if raw.len() > 0 && raw[0] == '#' {
        1
    } else {
        0
    };
    let mut i: usize = from;
    while i < raw.len()
        invariant
            from <= i <= raw.len(),
            body@ == raw@.subrange(from as int, i as int),
        decreases raw.len() - i,
    {
        body.push(raw[i]);
        assert(body@ =~= raw@.subrange(from as int, i + 1));
        i = i + 1;
    }
    assert(raw@.subrange(0, raw.len() as int) =~= raw@);
    assert(from == 1 ==> raw@.subrange(1, raw.len() as int) =~= raw@.drop_first());
    let s = trim(&body);
    if s.len() == 8 {
        string_of(&s)
    } else {
        let mut out: Vec<char> = Vec::new();
        out.push('F');
        out.push('F');
        let mut k: usize = 0;
        while k < s.len()
            invariant
                k <= s.len(),
                out@ == seq!['F', 'F'] + s@.subrange(0, k as int),
            decreases s.len() - k,
        {
            out.push(s[k]);
            assert(out@ =~= seq!['F', 'F'] + s@.subrange(0, k + 1));
            k = k + 1;
        }
        assert(s@.subrange(0, s.len() as int) =~= s@);
        string_of(&out)
    }
}

/// Tight text is its own trimmed form.
pub proof fn lemma_tight_is_trimmed(s: Seq<char>)
    requires
        is_tight(s),
    ensures
        trimmed(s) == s,
{
    reveal_with_fuel(crate::text::trim_start, 2);
    reveal_with_fuel(crate::text::trim_end, 2);
}

/// A six-character colour survives the way to the stored form and back:
/// for tight `rgb` of six characters, `#rgb` becomes `FFrgb` and `FFrgb`
/// becomes `#rgb` again.
pub proof fn lemma_hex_round_trip(rgb: Seq<char>)
    requires
        rgb.len() == 6,
        is_tight(rgb),
    ensures
        argb_of_hex(seq!['#'] + rgb) == seq!['F', 'F'] + rgb,
        hex_of_argb(seq!['F', 'F'] + rgb) == seq!['#'] + rgb,
        hex_of_argb(argb_of_hex(seq!['#'] + rgb)) == seq!['#'] + rgb,
{
    let hex = seq!['#'] + rgb;
    assert(hex.drop_first() =~= rgb);
    lemma_tight_is_trimmed(rgb);
    let argb = seq!['F', 'F'] + rgb;
    assert(argb.last() == rgb.last());
    assert(is_tight(argb));
    lemma_tight_is_trimmed(argb);
    assert(argb.subrange(2, 8) =~= rgb);
}

/// An opaque eight-character stored colour survives the way to the display
/// form and back.
pub proof fn lemma_argb_round_trip(rgb: Seq<char>)
    requires
        rgb.len() == 6,
        is_tight(rgb),
    ensures
        argb_of_hex(hex_of_argb(seq!['F', 'F'] + rgb)) == seq!['F', 'F'] + rgb,
{
    lemma_hex_round_trip(rgb);
}

} // verus!
