//! A1 notation: column letters, row digits, and their zero-based indices.

use vstd::prelude::*;
use vstd::string::*;
use crate::error::{CodecError, Failure};
use crate::text::{chars_of, string_of};

verus! {

/// An ASCII letter of either case.
pub open spec fn is_letter(c: char) -> bool {
    ('a' <= c && c <= 'z') || ('A' <= c && c <= 'Z')
}

/// An ASCII decimal digit.
pub open spec fn is_digit(c: char) -> bool {
    '0' <= c && c <= '9'
}

/// The place of a letter in the alphabet, from 1, whatever its case.
pub open spec fn letter_value(c: char) -> int {
    if 'a' <= c && c <= 'z' {
        c as int - 'a' as int + 1
    } else {
        c as int - 'A' as int + 1
    }
}

/// The value of a decimal digit.
pub open spec fn digit_value(c: char) -> int {
    c as int - '0' as int
}

/// Every character of `s` is a letter.
pub open spec fn all_letters(s: Seq<char>) -> bool {
    forall|i: int| 0 <= i < s.len() ==> is_letter(#[trigger] s[i])
}

/// Every character of `s` is a digit.
pub open spec fn all_digits(s: Seq<char>) -> bool {
    forall|i: int| 0 <= i < s.len() ==> is_digit(#[trigger] s[i])
}

/// The column that a run of letters names in bijective base 26: `A` is 1,
/// `Z` is 26, `AA` is 27.
pub open spec fn column_number(s: Seq<char>) -> int
    decreases s.len(),
{
    if s.len() == 0 {
        0
    } else {
        column_number(s.drop_last()) * 26 + letter_value(s.last())
    }
}

/// The number that a run of decimal digits writes.
pub open spec fn digits_number(s: Seq<char>) -> int
    decreases s.len(),
{
    if s.len() == 0 {
        0
    } else {
        digits_number(s.drop_last()) * 10 + digit_value(s.last())
    }
}

/// How many letters stand at the start of `s`.
pub open spec fn leading_letters(s: Seq<char>) -> int
    decreases s.len(),
{
    if s.len() == 0 || !is_letter(s[0]) {
        0
    } else {
        1 + leading_letters(s.drop_first())
    }
}

/// The letters at the start of a reference.
pub open spec fn column_part(s: Seq<char>) -> Seq<char> {
    s.subrange(0, leading_letters(s))
}

/// What follows the letters at the start of a reference.
pub open spec fn row_part(s: Seq<char>) -> Seq<char> {
    s.subrange(leading_letters(s), s.len() as int)
}

/// A column string is one or more letters naming a column that fits 32 bits.
pub open spec fn is_column_text(s: Seq<char>) -> bool {
    s.len() > 0 && all_letters(s) && column_number(s) <= u32::MAX
}

/// A cell reference is one or more letters followed by one or more digits,
/// with a column that fits 32 bits and a row between 1 and the 32-bit limit.
pub open spec fn is_cell_reference(s: Seq<char>) -> bool {
    &&& is_column_text(column_part(s))
    &&& row_part(s).len() > 0
    &&& all_digits(row_part(s))
    &&& 1 <= digits_number(row_part(s)) <= u32::MAX
}

/// The letters of column `n`, upper case; empty for 0.
pub open spec fn column_letters(n: nat) -> Seq<char>
    decreases n,
{
    if n == 0 {
        Seq::empty()
    } else {
        column_letters(((n - 1) / 26) as nat).push((('A' as int + (n - 1) % 26) as u8) as char)
    }
}

/// A prefix of letters followed by a non-letter, or by the end, is the whole
/// run of leading letters.
pub proof fn lemma_leading_letters_is(s: Seq<char>, k: int)
    requires
        0 <= k <= s.len(),
        all_letters(s.subrange(0, k)),
        k < s.len() ==> !is_letter(s[k]),
    ensures
        leading_letters(s) == k,
    decreases s.len(),
{
    if s.len() == 0 {
    } else if k == 0 {
    } else {
        assert(s.subrange(0, k)[0] == s[0]);
        let t = s.drop_first();
        assert forall|i: int| 0 <= i < k - 1 implies is_letter(
            #[trigger] t.subrange(0, k - 1)[i],
        ) by {
            assert(t.subrange(0, k - 1)[i] == s.subrange(0, k)[i + 1]);
        }
        if k - 1 < t.len() {
            assert(t[k - 1] == s[k]);
        }
        lemma_leading_letters_is(t, k - 1);
    }
}

/// A run of letters names a column from 1 on; the empty run names none.
pub proof fn lemma_column_number_nonneg(s: Seq<char>)
    requires
        all_letters(s),
    ensures
        0 <= column_number(s),
        s.len() > 0 ==> 1 <= column_number(s),
    decreases s.len(),
{
    if s.len() > 0 {
        assert forall|i: int| 0 <= i < s.len() - 1 implies is_letter(#[trigger] s.drop_last()[i]) by {
            assert(s.drop_last()[i] == s[i]);
        }
        lemma_column_number_nonneg(s.drop_last());
        assert(is_letter(s[s.len() - 1]));
    }
}

/// The number that digits write never shrinks as digits are added.
pub proof fn lemma_digits_number_grows(s: Seq<char>, k: int)
    requires
        0 <= k <= s.len(),
        all_digits(s),
    ensures
        0 <= digits_number(s.subrange(0, k)) <= digits_number(s),
    decreases s.len() - k,
{
    if k == s.len() {
        assert(s.subrange(0, k) =~= s);
        lemma_digits_number_nonneg(s);
    } else {
        let t = s.subrange(0, k + 1);
        assert(t.drop_last() =~= s.subrange(0, k));
        assert(t.last() == s[k]);
        assert(is_digit(s[k]));
        lemma_digits_number_grows(s, k + 1);
        assert(all_digits(s.subrange(0, k))) by {
            assert forall|i: int| 0 <= i < k implies is_digit(#[trigger] s.subrange(0, k)[i]) by {
                assert(s.subrange(0, k)[i] == s[i]);
            }
        }
        lemma_digits_number_nonneg(s.subrange(0, k));
    }
}

/// Digits write a number that is not negative.
pub proof fn lemma_digits_number_nonneg(s: Seq<char>)
    requires
        all_digits(s),
    ensures
        0 <= digits_number(s),
    decreases s.len(),
{
    if s.len() > 0 {
        assert forall|i: int| 0 <= i < s.len() - 1 implies is_digit(#[trigger] s.drop_last()[i]) by {
            assert(s.drop_last()[i] == s[i]);
        }
        lemma_digits_number_nonneg(s.drop_last());
        assert(is_digit(s[s.len() - 1]));
    }
}

fn letter_of(c: char) -> (v: Option<u32>)
    ensures
        v is Some <==> is_letter(c),
        v is Some ==> v.unwrap() == letter_value(c),
{
    if 'a' <= c && c <= 'z' {
        Some(c as u32 - 'a' as u32 + 1)
    } else if 'A' <= c && c <= 'Z' {
        Some(c as u32 - 'A' as u32 + 1)
    } else {
        None
    }
}

/// Reads the letters of `chars` from `from` on. Returns where they end and
/// the column they name, or `None` for the column when it leaves 32 bits.
fn scan_letters(chars: &Vec<char>, from: usize) -> (r: (usize, Option<u32>))
    requires
        from <= chars.len(),
    ensures
        from <= r.0 <= chars.len(),
        all_letters(chars@.subrange(from as int, r.0 as int)),
        r.0 < chars.len() ==> !is_letter(chars@[r.0 as int]),
        r.1 is Some <==> column_number(chars@.subrange(from as int, r.0 as int)) <= u32::MAX,
        r.1 is Some ==> r.1.unwrap() == column_number(chars@.subrange(from as int, r.0 as int)),
{
    let mut i: usize = from;
    let mut col: u64 = 0;
    let mut fits = true;
    let ghost run = |k: int| chars@.subrange(from as int, k);
    assert(run(from as int) =~= Seq::<char>::empty());
    while i < chars.len()
        invariant
            from <= i <= chars.len(),
            run == |k: int| chars@.subrange(from as int, k),
            all_letters(run(i as int)),
            fits ==> col == column_number(run(i as int)) && col <= u32::MAX,
            !fits ==> column_number(run(i as int)) > u32::MAX,
        ensures
            from <= i <= chars.len(),
            all_letters(run(i as int)),
            i < chars.len() ==> !is_letter(chars@[i as int]),
            fits ==> col == column_number(run(i as int)) && col <= u32::MAX,
            !fits ==> column_number(run(i as int)) > u32::MAX,
        decreases chars.len() - i,
    {
        let c = chars[i];
        match letter_of(c) {
            None => {
                break ;
            },
            Some(v) => {
                proof {
                    let next = run(i + 1);
                    assert(next.drop_last() =~= run(i as int));
                    assert(next.last() == c);
                    assert forall|k: int| 0 <= k < next.len() implies is_letter(
                        #[trigger] next[k],
                    ) by {
                        if k < next.len() - 1 {
                            assert(next[k] == run(i as int)[k]);
                        }
                    }
                }
                if fits {
                    let wide: u64 = col * 26 + v as u64;
                    if wide > u32::MAX as u64 {
                        fits = false;
                    } else {
                        col = wide;
                    }
                }
                i = i + 1;
            },
        }
    }
    if fits {
        (i, Some(col as u32))
    } else {
        (i, None)
    }
}

/// Reads `chars` from `from` to the end as decimal digits. Returns `None`
/// when a character is no digit or the number leaves 32 bits.
fn scan_digits(chars: &Vec<char>, from: usize) -> (r: Option<u32>)
    requires
        from <= chars.len(),
    ensures
        r is Some <==> all_digits(chars@.subrange(from as int, chars.len() as int))
            && digits_number(chars@.subrange(from as int, chars.len() as int)) <= u32::MAX,
        r is Some ==> r.unwrap() == digits_number(
            chars@.subrange(from as int, chars.len() as int),
        ),
{
    let mut i: usize = from;
    let mut n: u64 = 0;
    let ghost whole = chars@.subrange(from as int, chars.len() as int);
    assert(whole.subrange(0, 0) =~= Seq::<char>::empty());
    while i < chars.len()
        invariant
            from <= i <= chars.len(),
            whole == chars@.subrange(from as int, chars.len() as int),
            all_digits(whole.subrange(0, i - from)),
            n == digits_number(whole.subrange(0, i - from)),
            n <= u32::MAX,
        decreases chars.len() - i,
    {
        let c = chars[i];
        assert(whole[i - from] == c);
        if !('0' <= c && c <= '9') {
            return None;
        }
        proof {
            let next = whole.subrange(0, i - from + 1);
            assert(next.drop_last() =~= whole.subrange(0, i - from));
            assert(next.last() == c);
            assert forall|k: int| 0 <= k < next.len() implies is_digit(#[trigger] next[k]) by {
                if k < next.len() - 1 {
                    assert(next[k] == whole.subrange(0, i - from)[k]);
                }
            }
        }
        let wide: u64 = n * 10 + (c as u32 - '0' as u32) as u64;
        if wide > u32::MAX as u64 {
            proof {
                if all_digits(whole) {
                    lemma_digits_number_grows(whole, i - from + 1);
                }
            }
            return None;
        }
        n = wide;
        i = i + 1;
    }
    assert(whole.subrange(0, i - from) =~= whole);
    Some(n as u32)
}

/// Converts a column string such as `A` or `AA` to its 1-based index. Both
/// cases of a letter name the same column. Anything but a non-empty run of
/// letters whose column fits 32 bits is an invalid reference, which carries
/// the text as given.
pub fn col_letter_to_u32(col_str: &str) -> (r: Result<u32, CodecError>)
    ensures
        is_column_text(col_str@) ==> r == Ok::<u32, CodecError>(column_number(col_str@) as u32),
        !is_column_text(col_str@) ==> r is Err && r->Err_0@ == Failure::InvalidReference(
            col_str@,
        ),
{
    let chars = chars_of(col_str);
    let (end, col) = scan_letters(&chars, 0);
    assert(chars@.subrange(0, chars.len() as int) =~= chars@);
    proof {
        if end < chars.len() && all_letters(chars@) {
            assert(is_letter(chars@[end as int]));
        }
    }
    if end == chars.len() && end > 0 {
        match col {
            Some(c) => Ok(c),
            None => Err(CodecError::InvalidReference(String::from_str(col_str))),
        }
    } else {
        Err(CodecError::InvalidReference(String::from_str(col_str)))
    }
}

/// Converts an A1 reference such as `B3` to zero-based `(row, column)`.
/// Anything but letters followed by digits, a row of 0, or a part that leaves
/// 32 bits is an invalid reference, which carries the text as given.
pub fn a1_to_row_col(a1: &str) -> (r: Result<(u32, u32), CodecError>)
    ensures
        is_cell_reference(a1@) ==> r == Ok::<(u32, u32), CodecError>(
            (
                (digits_number(row_part(a1@)) - 1) as u32,
                (column_number(column_part(a1@)) - 1) as u32,
            ),
        ),
        !is_cell_reference(a1@) ==> r is Err && r->Err_0@ == Failure::InvalidReference(a1@),
{
    let chars = chars_of(a1);
    let (end, col) = scan_letters(&chars, 0);
    proof {
        lemma_leading_letters_is(chars@, end as int);
        lemma_column_number_nonneg(column_part(a1@));
    }
    if end == 0 || end == chars.len() {
        return Err(CodecError::InvalidReference(String::from_str(a1)));
    }
    let col1 = match col {
        Some(c) => c,
        None => {
            return Err(CodecError::InvalidReference(String::from_str(a1)));
        },
    };
    match scan_digits(&chars, end) {
        Some(row1) => {
            if row1 == 0 {
                Err(CodecError::InvalidReference(String::from_str(a1)))
            } else {
                Ok((row1 - 1, col1 - 1))
            }
        },
        None => Err(CodecError::InvalidReference(String::from_str(a1))),
    }
}

/// The letters of the 1-based column `col`, upper case; the empty string
/// for 0.
pub fn u32_to_col_letter(col: u32) -> (out: String)
    ensures
        out@ == column_letters(col as nat),
{
    let mut n: u32 = col;
    let mut rev: Vec<char> = Vec::new();
    assert(column_letters(col as nat) =~= column_letters(n as nat) + rev@.reverse());
    while n > 0
        invariant
            column_letters(col as nat) == column_letters(n as nat) + rev@.reverse(),
        decreases n,
    {
        let rem: u8 = ((n - 1) % 26) as u8;
        let c: char = (65u8 + rem) as char;
        proof {
            let ghost before = rev@;
            assert(before.push(c).reverse() =~= seq![c] + before.reverse());
            assert(column_letters(n as nat) == column_letters(((n - 1) / 26) as nat).push(c));
            assert(column_letters(((n - 1) / 26) as nat).push(c) + before.reverse()
                =~= column_letters(((n - 1) / 26) as nat) + (seq![c] + before.reverse()));
        }
        rev.push(c);
        n = (n - 1) / 26;
    }
    assert(column_letters(0) + rev@.reverse() =~= rev@.reverse());
    let mut fwd: Vec<char> = Vec::new();
    let mut i: usize = rev.len();
    while i > 0
        invariant
            i <= rev.len(),
            fwd@ == rev@.reverse().subrange(0, rev.len() - i),
        decreases i,
    {
        i = i - 1;
        fwd.push(rev[i]);
        assert(fwd@ =~= rev@.reverse().subrange(0, rev.len() - i));
    }
    assert(fwd@ =~= rev@.reverse());
    string_of(&fwd)
}

/// Checks, before anything is read or changed, that the document has the
/// sheet that an operation names.
pub fn require_sheet(sheet_known: bool, sheet: &str) -> (r: Result<(), CodecError>)
    ensures
        sheet_known ==> r is Ok,
        !sheet_known ==> r is Err && r->Err_0@ == Failure::UnknownSheet(sheet@),
{
    if sheet_known {
        Ok(())
    } else {
        Err(CodecError::UnknownSheet(String::from_str(sheet)))
    }
}

/// The one-based `(column, row)` that a cell reference names.
pub open spec fn cell_of(a1: Seq<char>) -> (u32, u32) {
    (column_number(column_part(a1)) as u32, digits_number(row_part(a1)) as u32)
}

/// Converts an A1 reference to the one-based `(column, row)` under which
/// documents hold the cell.
pub fn cell_at(a1: &str) -> (r: Result<(u32, u32), CodecError>)
    ensures
        is_cell_reference(a1@) ==> r == Ok::<(u32, u32), CodecError>(cell_of(a1@)),
        !is_cell_reference(a1@) ==> r is Err && r->Err_0@ == Failure::InvalidReference(a1@),
{
    proof {
        if is_cell_reference(a1@) {
            lemma_column_number_nonneg(column_part(a1@));
        }
    }
    match a1_to_row_col(a1) {
        Ok((row0, col0)) => Ok((col0 + 1, row0 + 1)),
        Err(e) => Err(e),
    }
}

/// The cell that an operation on a cell addresses, or why it addresses
/// none: an unknown sheet comes first, then a malformed reference.
pub open spec fn located(known: bool, sheet: Seq<char>, a1: Seq<char>) -> Result<
    (u32, u32),
    Failure,
> {
    if !known {
        Err(Failure::UnknownSheet(sheet))
    } else if !is_cell_reference(a1) {
        Err(Failure::InvalidReference(a1))
    } else {
        Ok(cell_of(a1))
    }
}

/// Resolves the cell that an operation addresses, before anything is read
/// or changed. `sheet_known` says whether the document has the sheet.
pub fn locate_cell(sheet_known: bool, sheet: &str, a1: &str) -> (r: Result<
    (u32, u32),
    CodecError,
>)
    ensures
        match located(sheet_known, sheet@, a1@) {
            Ok(at) => r == Ok::<(u32, u32), CodecError>(at),
            Err(e) => r is Err && r->Err_0@ == e,
        },
{
    if !sheet_known {
        return Err(CodecError::UnknownSheet(String::from_str(sheet)));
    }
    cell_at(a1)
}

/// The character of a decimal digit.
pub open spec fn digit_char(d: nat) -> char {
    (('0' as int + d) as u8) as char
}

/// The decimal digits that write a number, without leading zeros.
pub open spec fn decimal_text(n: nat) -> Seq<char>
    decreases n,
{
    if n < 10 {
        seq![digit_char(n)]
    } else {
        decimal_text(n / 10).push(digit_char(n % 10))
    }
}

/// The canonical A1 text of the cell at a one-based column and row: the
/// upper-case letters of the column, then the digits of the row.
pub open spec fn reference_text(column: u32, row: u32) -> Seq<char> {
    column_letters(column as nat) + decimal_text(row as nat)
}

/// Writes the canonical A1 text of the cell at a one-based column and row.
pub fn cell_name(column: u32, row: u32) -> (out: String)
    ensures
        out@ == reference_text(column, row),
{
    let mut out = u32_to_col_letter(column);
    let mut rev: Vec<char> = Vec::new();
    rev.push((48u8 + (row % 10) as u8) as char);
    let mut n: u32 = row / 10;
    assert(rev@.reverse() =~= seq![digit_char((row % 10) as nat)]);
    assert(Seq::<char>::empty() + rev@.reverse() =~= rev@.reverse());
    while n > 0
        invariant
            decimal_text(row as nat) == (if n > 0 {
                decimal_text(n as nat)
            } else {
                Seq::<char>::empty()
            }) + rev@.reverse(),
        decreases n,
    {
        let c: char = (48u8 + (n % 10) as u8) as char;
        proof {
            let before = rev@;
            let up = (n / 10) as nat;
            assert(before.push(c).reverse() =~= seq![c] + before.reverse());
            if n < 10 {
                assert(decimal_text(n as nat) =~= seq![c]);
                assert(Seq::<char>::empty() + (seq![c] + before.reverse()) =~= seq![c]
                    + before.reverse());
            } else {
                assert(decimal_text(n as nat) == decimal_text(up).push(c));
                assert(decimal_text(up).push(c) + before.reverse() =~= decimal_text(up) + (seq![c]
                    + before.reverse()));
            }
        }
        rev.push(c);
        n = n / 10;
    }
    assert(Seq::<char>::empty() + rev@.reverse() =~= rev@.reverse());
    let ghost letters = out@;
    let mut i: usize = rev.len();
    while i > 0
        invariant
            i <= rev.len(),
            out@ == letters + rev@.reverse().subrange(0, rev.len() - i),
        decreases i,
    {
        i = i - 1;
        out.push(rev[i]);
        assert(out@ =~= letters + rev@.reverse().subrange(0, rev.len() - i));
    }
    assert(rev@.reverse().subrange(0, rev.len() as int) =~= rev@.reverse());
    out
}

/// The letters of a column name that column: for every column from 1 on,
/// the letters are a non-empty run of letters, and reading them gives the
/// column again.
pub proof fn lemma_column_letters_round_trip(n: nat)
    requires
        n >= 1,
    ensures
        column_letters(n).len() > 0,
        all_letters(column_letters(n)),
        column_number(column_letters(n)) == n,
    decreases n,
{
    let up = ((n - 1) / 26) as nat;
    let c = (('A' as int + (n - 1) % 26) as u8) as char;
    let letters = column_letters(n);
    assert(letters == column_letters(up).push(c));
    assert(letters.drop_last() =~= column_letters(up));
    assert(letters.last() == c);
    assert(is_letter(c) && letter_value(c) == (n - 1) % 26 + 1);
    if up >= 1 {
        lemma_column_letters_round_trip(up);
    }
    assert forall|i: int| 0 <= i < letters.len() implies is_letter(#[trigger] letters[i]) by {
        if i < letters.len() - 1 {
            assert(letters[i] == column_letters(up)[i]);
        }
    }
    assert(column_number(column_letters(up)) == up);
}

/// The digits of a number write that number: they are a non-empty run of
/// digits, and reading them gives the number again.
pub proof fn lemma_decimal_text_round_trip(n: nat)
    ensures
        decimal_text(n).len() > 0,
        all_digits(decimal_text(n)),
        digits_number(decimal_text(n)) == n,
    decreases n,
{
    let text = decimal_text(n);
    if n < 10 {
        let c = digit_char(n);
        assert(text =~= seq![c]);
        assert(text.drop_last() =~= Seq::<char>::empty());
        assert(text.last() == c);
        assert(is_digit(c) && digit_value(c) == n);
        assert(digits_number(text.drop_last()) == 0);
    } else {
        let up = n / 10;
        let c = digit_char(n % 10);
        lemma_decimal_text_round_trip(up);
        assert(text == decimal_text(up).push(c));
        assert(text.drop_last() =~= decimal_text(up));
        assert(text.last() == c);
        assert(is_digit(c) && digit_value(c) == n % 10);
        assert forall|i: int| 0 <= i < text.len() implies is_digit(#[trigger] text[i]) by {
            if i < text.len() - 1 {
                assert(text[i] == decimal_text(up)[i]);
            }
        }
    }
}

/// The canonical text of a cell names that cell: for every column and row
/// from 1 on, the text is a cell reference, and reading it gives the column
/// and the row again.
pub proof fn lemma_reference_text_names_the_cell(column: u32, row: u32)
    requires
        column >= 1,
        row >= 1,
    ensures
        is_cell_reference(reference_text(column, row)),
        cell_of(reference_text(column, row)) == (column, row),
{
    let letters = column_letters(column as nat);
    let digits = decimal_text(row as nat);
    let text = reference_text(column, row);
    lemma_column_letters_round_trip(column as nat);
    lemma_decimal_text_round_trip(row as nat);
    let k = letters.len() as int;
    assert(text.subrange(0, k) =~= letters);
    assert(text.subrange(k, text.len() as int) =~= digits);
    assert(text[k] == digits[0]);
    assert(is_digit(digits[0]));
    lemma_leading_letters_is(text, k);
}

} // verus!
