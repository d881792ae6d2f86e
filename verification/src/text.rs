//! Text helpers for log messages and commit titles: decimal formatting,
//! hexadecimal encoding, clipping, and the UTF-16 string convention of the
//! guest language.

use vstd::prelude::*;
use vstd::string::StrSliceExecFns;
use vstd::string::StringExecFns;

verus! {

// ---------------------------------------------------------------------------
// Decimal formatting
// ---------------------------------------------------------------------------

/// The character for one decimal digit.
pub open spec fn digit_char(d: int) -> char
    recommends
        0 <= d < 10,
{
    if d == 0 {
        '0'
    } else if d == 1 {
        '1'
    } else if d == 2 {
        '2'
    } else if d == 3 {
        '3'
    } else if d == 4 {
        '4'
    } else if d == 5 {
        '5'
    } else if d == 6 {
        '6'
    } else if d == 7 {
        '7'
    } else if d == 8 {
        '8'
    } else {
        '9'
    }
}

/// Decimal digits of a non-negative number, most significant first.
pub open spec fn dec_digits(n: int) -> Seq<char>
    recommends
        n >= 0,
    decreases n,
{
    if n < 10 {
        seq![digit_char(n)]
    } else {
        dec_digits(n / 10).push(digit_char(n % 10))
    }
}

/// Decimal rendering of a possibly negative number.
pub open spec fn dec_int(n: int) -> Seq<char> {
    if n < 0 {
        seq!['-'] + dec_digits(-n)
    } else {
        dec_digits(n)
    }
}

fn digit_str(d: u64) -> (r: &'static str)
    requires
        d < 10,
    ensures
        r@ == seq![digit_char(d as int)],
{
    let r: &'static str = if d == 0 {
        "0"
    } else if d == 1 {
        "1"
    } else if d == 2 {
        "2"
    } else if d == 3 {
        "3"
    } else if d == 4 {
        "4"
    } else if d == 5 {
        "5"
    } else if d == 6 {
        "6"
    } else if d == 7 {
        "7"
    } else if d == 8 {
        "8"
    } else {
        "9"
    };
    proof {
        reveal_strlit("0");
        reveal_strlit("1");
        reveal_strlit("2");
        reveal_strlit("3");
        reveal_strlit("4");
        reveal_strlit("5");
        reveal_strlit("6");
        reveal_strlit("7");
        reveal_strlit("8");
        reveal_strlit("9");
        assert(r@ =~= seq![digit_char(d as int)]);
    }
    r
}

/// Renders a number in decimal.
pub fn u64_to_string(n: u64) -> (r: String)
    ensures
        r@ == dec_digits(n as int),
    decreases n,
{
    if n < 10 {
        String::from_str(digit_str(n))
    } else {
        let mut s = u64_to_string(n / 10);
        s.append(digit_str(n % 10));
        proof {
            assert(s@ =~= dec_digits(n as int));
        }
        s
    }
}

/// Renders a number in decimal, with a leading minus sign if negative.
pub fn i64_to_string(n: i64) -> (r: String)
    ensures
        r@ == dec_int(n as int),
{
    if n >= 0 {
        u64_to_string(n as u64)
    } else {
        // Avoids overflow at the smallest value: -(n + 1) fits in i64.
        let magnitude: u64 = ((-(n + 1)) as u64) + 1;
        let mut s = String::from_str("-");
        s.append(u64_to_string(magnitude).as_str());
        proof {
            reveal_strlit("-");
            assert(s@ =~= dec_int(n as int));
        }
        s
    }
}

// ---------------------------------------------------------------------------
// Hexadecimal encoding
// ---------------------------------------------------------------------------

/// The lowercase hexadecimal character for one nibble.
pub open spec fn hex_digit_char(d: int) -> char
    recommends
        0 <= d < 16,
{
    if d < 10 {
        digit_char(d)
    } else if d == 10 {
        'a'
    } else if d == 11 {
        'b'
    } else if d == 12 {
        'c'
    } else if d == 13 {
        'd'
    } else if d == 14 {
        'e'
    } else {
        'f'
    }
}

/// Lowercase hexadecimal rendering of a byte string: two characters per
/// byte, high nibble first.
pub open spec fn hex_of(bytes: Seq<u8>) -> Seq<char>
    decreases bytes.len(),
{
    if bytes.len() == 0 {
        Seq::empty()
    } else {
        seq![
            hex_digit_char(bytes[0] as int / 16),
            hex_digit_char(bytes[0] as int % 16),
        ] + hex_of(bytes.skip(1))
    }
}

/// Relies on `hex::encode`: lowercase hexadecimal, two digits per byte,
/// high nibble first.
#[verifier::external_body]
pub fn hex_encode(bytes: &Vec<u8>) -> (r: String)
    ensures
        r@ == hex_of(bytes@),
{
    hex::encode(bytes)
}

// ---------------------------------------------------------------------------
// Clipping
// ---------------------------------------------------------------------------

/// The clipped form of a character string: unchanged if it has at most
/// `max_len` characters, otherwise its first `max_len - 3` characters
/// followed by an ellipsis.
pub open spec fn clipped(s: Seq<char>, max_len: int) -> Seq<char>
    recommends
        max_len >= 3,
{
    if s.len() <= max_len {
        s
    } else {
        s.subrange(0, max_len - 3) + seq!['.', '.', '.']
    }
}

/// Shortens a string to at most `max_len` characters, marking the cut with
/// an ellipsis.
pub fn clip_string(s: &str, max_len: usize) -> (r: String)
    requires
        max_len >= 3,
    ensures
        r@ == clipped(s@, max_len as int),
{
    let len = s.unicode_len();
    if len <= max_len {
        String::from_str(s)
    } else {
        let mut r = String::from_str(s.substring_char(0, max_len - 3));
        r.append("...");
        proof {
            reveal_strlit("...");
            assert(r@ =~= clipped(s@, max_len as int));
        }
        r
    }
}

// ---------------------------------------------------------------------------
// UTF-16, the guest language's string convention
// ---------------------------------------------------------------------------

/// Whether a sequence of UTF-16 code units is valid: every high surrogate
/// is immediately followed by a low surrogate, and no low surrogate stands
/// alone.
pub open spec fn valid_utf16_units(units: Seq<u16>) -> bool
    decreases units.len(),
{
    if units.len() == 0 {
        true
    } else if units[0] < 0xD800 || units[0] >= 0xE000 {
        valid_utf16_units(units.skip(1))
    } else if units[0] < 0xDC00 {
        // High surrogate: needs a low surrogate right after it.
        &&& units.len() >= 2
        &&& 0xDC00 <= units[1] < 0xE000
        &&& valid_utf16_units(units.skip(2))
    } else {
        // Unpaired low surrogate.
        false
    }
}

/// The characters denoted by a valid sequence of UTF-16 code units.
pub uninterp spec fn utf16_chars(units: Seq<u16>) -> Seq<char>;

/// Relies on `String::from_utf16`: decodes UTF-16 code units, failing
/// exactly on unpaired surrogates.
#[verifier::external_body]
pub fn utf16_to_string(units: &Vec<u16>) -> (r: Option<String>)
    ensures
        r is Some <==> valid_utf16_units(units@),
        r matches Some(s) ==> s@ == utf16_chars(units@),
{
    String::from_utf16(units).ok()
}

/// The UTF-16 code units denoted by little-endian byte pairs. A trailing
/// odd byte carries no unit.
pub open spec fn utf16_units_of(bytes: Seq<u8>) -> Seq<u16> {
    Seq::new(bytes.len() / 2, |i: int| (bytes[2 * i] + 256 * bytes[2 * i + 1]) as u16)
}

/// Reassembles little-endian byte pairs into UTF-16 code units. A trailing
/// odd byte is dropped, as the guest convention always sends whole units.
pub fn le_bytes_to_utf16_units(bytes: &Vec<u8>) -> (r: Vec<u16>)
    ensures
        r@ == utf16_units_of(bytes@),
{
    let mut units: Vec<u16> = Vec::new();
    let mut i: usize = 0;
    while i + 1 < bytes.len()
        invariant
            i % 2 == 0,
            i <= bytes@.len(),
            units@.len() == i / 2,
            forall|j: int|
                0 <= j < units@.len() ==> units@[j] == bytes@[2 * j] + 256 * bytes@[2 * j + 1],
        decreases bytes@.len() - i,
    {
        let unit: u16 = bytes[i] as u16 + 256 * (bytes[i + 1] as u16);
        units.push(unit);
        i = i + 2;
    }
    proof {
        assert(units@ =~= utf16_units_of(bytes@));
    }
    units
}

/// Widens text bytes to UTF-16LE: each byte becomes a code unit, encoded
/// as the byte followed by a zero byte.
pub fn bytes_to_utf16le(bytes: &Vec<u8>) -> (r: Vec<u8>)
    ensures
        r@.len() == 2 * bytes@.len(),
        forall|i: int| 0 <= i < bytes@.len() ==> r@[2 * i] == bytes@[i],
        forall|i: int| 0 <= i < bytes@.len() ==> #[trigger] r@[2 * i + 1] == 0u8,
{
    let len = bytes.len();
    let mut r: Vec<u8> = Vec::new();
    let mut i: usize = 0;
    while i < len
        invariant
            len == bytes@.len(),
            i <= len,
            r@.len() == 2 * i,
            forall|j: int| 0 <= j < i ==> r@[2 * j] == bytes@[j],
            forall|j: int| 0 <= j < i ==> #[trigger] r@[2 * j + 1] == 0u8,
        decreases len - i,
    {
        r.push(bytes[i]);
        r.push(0u8);
        i = i + 1;
    }
    r
}

} // verus!
