//! Text helpers shared by the structure decoders: the string table of a
//! record, permissive decoding of its entries, and number formatting.

use vstd::prelude::*;
use vstd::string::*;
use vstd::utf8::*;

verus! {

/// The string table of a record as plain text, one entry per decoded string.
pub open spec fn texts(table: Seq<String>) -> Seq<Seq<char>> {
    table.map_values(|s: String| s@)
}

/// The entry that a body byte `index` refers to. References are 1-based;
/// 0 and anything past the end of the table mean "absent" and give the
/// empty text.
pub open spec fn string_at(table: Seq<Seq<char>>, index: u8) -> Seq<char> {
    if 1 <= index <= table.len() {
        table[index - 1]
    } else {
        Seq::empty()
    }
}

/// Resolves a string reference found in a record body against the record's
/// string table.
pub fn get_string(table: &[String], index: u8) -> (r: String)
    ensures
        r@ == string_at(texts(table@), index),
        index == 0 ==> r@ == Seq::<char>::empty(),
        1 <= index <= table@.len() ==> r@ == table@[index - 1]@,
        index > table@.len() ==> r@ == Seq::<char>::empty(),
{
    if index == 0 || index as usize > table.len() {
        String::new()
    } else {
        table[index as usize - 1].clone()
    }
}

/// What permissive UTF-8 decoding makes of a byte string: every maximal
/// invalid sequence is replaced by U+FFFD, everything else is kept.
pub uninterp spec fn lossy_text(bytes: Seq<u8>) -> Seq<char>;

/// `String::from_utf8_lossy`, turned into an owned string. The result is
/// named by [`lossy_text`]; for well-formed UTF-8 it is the encoded text
/// itself. Neither claim is proved here.
#[verifier::external_body]
pub(crate) fn decode_lossy(bytes: &[u8]) -> (r: String)
    ensures
        r@ == lossy_text(bytes@),
        valid_utf8(bytes@) ==> r@ == decode_utf8(bytes@),
{
    String::from_utf8_lossy(bytes).to_string()
}

/// The text of a byte string: the characters that it encodes where it is
/// well-formed UTF-8, and what permissive decoding makes of it where it is
/// not.
pub open spec fn text_of(bytes: Seq<u8>) -> Seq<char> {
    if valid_utf8(bytes) {
        decode_utf8(bytes)
    } else {
        lossy_text(bytes)
    }
}

/// The digit characters of bases up to sixteen, upper case.
pub open spec fn digit(d: int) -> char {
    seq![
        '0', '1', '2', '3', '4', '5', '6', '7', '8', '9', 'A', 'B', 'C', 'D', 'E', 'F',
    ][d]
}

/// Decimal notation of `n`, most significant digit first, without leading
/// zeros (a single `0` for zero).
pub open spec fn decimal(n: nat) -> Seq<char>
    decreases n,
{
    if n < 10 {
        seq![digit(n as int)]
    } else {
        decimal(n / 10).push(digit((n % 10) as int))
    }
}

/// Upper-case hexadecimal notation of `n`, without a prefix and without
/// leading zeros.
pub open spec fn hex_upper(n: nat) -> Seq<char>
    decreases n,
{
    if n < 16 {
        seq![digit(n as int)]
    } else {
        hex_upper(n / 16).push(digit((n % 16) as int))
    }
}

/// Decimal notation of `n`, padded with a zero to at least two digits.
pub open spec fn decimal2(n: nat) -> Seq<char> {
    if n < 10 {
        seq!['0'] + decimal(n)
    } else {
        decimal(n)
    }
}

fn digit_str(d: u64) -> (r: &'static str)
    requires
        d < 16,
    ensures
        r@ == seq![digit(d as int)],
{
    proof {
        reveal_strlit("0");
        reveal_strlit("1");
        reveal_strlit("2");
        reveal_strlit("3");
        reveal_strlit("4");
        reveal_strlit("5");
        reveal_strlit("6");
        reveal_strlit("7");
        reveal_strlit("8");
        reveal_strlit("9");
        reveal_strlit("A");
        reveal_strlit("B");
        reveal_strlit("C");
        reveal_strlit("D");
        reveal_strlit("E");
        reveal_strlit("F");
    }
    let r = match d {
        0 => "0",
        1 => "1",
        2 => "2",
        3 => "3",
        4 => "4",
        5 => "5",
        6 => "6",
        7 => "7",
        8 => "8",
        9 => "9",
        10 => "A",
        11 => "B",
        12 => "C",
        13 => "D",
        14 => "E",
        _ => "F",
    };
    assert(r@ =~= seq![digit(d as int)]);
    r
}

/// Formats `n` in decimal.
pub fn decimal_string(n: u64) -> (r: String)
    ensures
        r@ == decimal(n as nat),
    decreases n,
{
    if n < 10 {
        String::from_str(digit_str(n))
    } else {
        let mut s = decimal_string(n / 10);
        s.append(digit_str(n % 10));
        s
    }
}

/// Formats `n` in upper-case hexadecimal, without a prefix.
pub fn hex_upper_string(n: u64) -> (r: String)
    ensures
        r@ == hex_upper(n as nat),
    decreases n,
{
    if n < 16 {
        String::from_str(digit_str(n))
    } else {
        let mut s = hex_upper_string(n / 16);
        s.append(digit_str(n % 16));
        s
    }
}

/// Formats `n` in decimal with at least two digits.
pub fn decimal2_string(n: u64) -> (r: String)
    ensures
        r@ == decimal2(n as nat),
{
    if n < 10 {
        let mut s = String::from_str("0");
        proof {
            reveal_strlit("0");
        }
        let digits = decimal_string(n);
        s.append(digits.as_str());
        assert(s@ =~= seq!['0'] + decimal(n as nat));
        s
    } else {
        decimal_string(n)
    }
}

/// One line of a two-column table: what is shown, and its value.
#[derive(Debug)]
pub struct Row {
    pub label: String,
    pub value: String,
}

impl View for Row {
    type V = (Seq<char>, Seq<char>);

    open spec fn view(&self) -> (Seq<char>, Seq<char>) {
        (self.label@, self.value@)
    }
}

/// A table as plain text, one pair per line.
pub open spec fn rows_view(rows: Seq<Row>) -> Seq<(Seq<char>, Seq<char>)> {
    rows.map_values(|r: Row| r@)
}

impl Row {
    pub fn new(label: &str, value: String) -> (r: Row)
        ensures
            r@ == (label@, value@),
    {
        Row { label: String::from_str(label), value }
    }
}

} // verus!
