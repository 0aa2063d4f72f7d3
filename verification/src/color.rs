//! The color type of the prompt configuration and its string grammar.
//!
//! A color string is, after lowercasing, one of:
//! - a named color (`default`, `black`, `red`, `green`, `yellow`, `blue`,
//!   `magenta`, `cyan`, `white`);
//! - `#` followed by exactly 3 hex digits (each nibble doubled into a byte)
//!   or exactly 6 hex digits (one byte per channel);
//! - a non-empty string of decimal digits naming an ANSI palette index,
//!   which must fit in a `u8` (leading zeros are accepted).

use vstd::prelude::*;
use crate::strutil::str_eq;

verus! {

/// A terminal color: the terminal's default, one of the eight classic named
/// colors, an 8-bit ANSI palette index, or a truecolor RGB triple.
#[derive(Clone, Copy, Debug, PartialEq, Eq, Structural)]
pub enum Color {
    Default,
    Black,
    Red,
    Green,
    Yellow,
    Blue,
    Magenta,
    Cyan,
    White,
    Fixed(u8),
    RGB(u8, u8, u8),
}

/// Why a color string was rejected.
#[derive(Clone, Copy, Debug, PartialEq, Eq, Structural)]
pub enum ColorError {
    /// Not a named color, not a `#`-prefixed hex string of length 4 or 7,
    /// and not a non-empty all-digit string.
    InvalidColorValue,
    /// A correctly shaped `#`-prefixed string with a non-hex character in it.
    InvalidHexDigit,
    /// An all-digit string whose value exceeds 255.
    NumericOverflow,
}

/// A decimal digit.
pub open spec fn is_digit(c: char) -> bool {
    '0' <= c && c <= '9'
}

/// A lowercase hex digit.
pub open spec fn is_hex_digit(c: char) -> bool {
    is_digit(c) || ('a' <= c && c <= 'f')
}

/// The value of a lowercase hex digit.
pub open spec fn hex_digit_value(c: char) -> int {
    if is_digit(c) {
        c as int - '0' as int
    } else {
        c as int - 'a' as int + 10
    }
}

/// The value of a lowercase hex digit, or `None` when `c` is no hex digit.
pub fn hex_value(c: char) -> (r: Option<u8>)
    ensures
        r is Some <==> is_hex_digit(c),
        r matches Some(v) ==> v == hex_digit_value(c),
{
    if '0' <= c && c <= '9' {
        Some((c as u32 - '0' as u32) as u8)
    } else if 'a' <= c && c <= 'f' {
        Some((c as u32 - 'a' as u32 + 10) as u8)
    } else {
        None
    }
}

/// Every character of `s` is a decimal digit.
pub open spec fn all_digits(s: Seq<char>) -> bool {
    forall|i: int| 0 <= i < s.len() ==> is_digit(#[trigger] s[i])
}

/// The value of a digit string read as a decimal number.
pub open spec fn digits_value(s: Seq<char>) -> nat
    decreases s.len(),
{
    if s.len() == 0 {
        0
    } else {
        digits_value(s.drop_last()) * 10 + (s.last() as int - '0' as int) as nat
    }
}

/// The named color that `s` spells, if any. The names are lowercase; a
/// caller that wants case-insensitive matching lowercases first.
pub open spec fn spec_named_color(s: Seq<char>) -> Option<Color> {
    if s == "default"@ {
        Some(Color::Default)
    } else if s == "black"@ {
        Some(Color::Black)
    } else if s == "red"@ {
        Some(Color::Red)
    } else if s == "green"@ {
        Some(Color::Green)
    } else if s == "yellow"@ {
        Some(Color::Yellow)
    } else if s == "blue"@ {
        Some(Color::Blue)
    } else if s == "magenta"@ {
        Some(Color::Magenta)
    } else if s == "cyan"@ {
        Some(Color::Cyan)
    } else if s == "white"@ {
        Some(Color::White)
    } else {
        None
    }
}

/// The byte a shorthand hex digit stands for: the nibble doubled,
/// `n * 16 + n`.
pub open spec fn doubled_nibble(c: char) -> int {
    hex_digit_value(c) * 16 + hex_digit_value(c)
}

/// The byte two hex digits stand for.
pub open spec fn hex_byte(hi: char, lo: char) -> int {
    hex_digit_value(hi) * 16 + hex_digit_value(lo)
}

/// What parsing a lowercased color string yields: a named color; or a
/// `#`-prefixed hex color of overall length 4 (shorthand) or 7, any other
/// length being rejected outright and a non-hex digit inside a well-shaped
/// one being a hex error; or a non-empty digit string as a palette index,
/// rejected when its value exceeds 255; anything else is invalid.
pub open spec fn spec_parse_color(s: Seq<char>) -> Result<Color, ColorError> {
    if spec_named_color(s) is Some {
        Ok(spec_named_color(s)->0)
    } else if s.len() > 0 && s[0] == '#' {
        if s.len() == 4 {
            if is_hex_digit(s[1]) && is_hex_digit(s[2]) && is_hex_digit(s[3]) {
                Ok(Color::RGB(
                    doubled_nibble(s[1]) as u8,
                    doubled_nibble(s[2]) as u8,
                    doubled_nibble(s[3]) as u8,
                ))
            } else {
                Err(ColorError::InvalidHexDigit)
            }
        } else if s.len() == 7 {
            if is_hex_digit(s[1]) && is_hex_digit(s[2]) && is_hex_digit(s[3])
                && is_hex_digit(s[4]) && is_hex_digit(s[5]) && is_hex_digit(s[6]) {
                Ok(Color::RGB(
                    hex_byte(s[1], s[2]) as u8,
                    hex_byte(s[3], s[4]) as u8,
                    hex_byte(s[5], s[6]) as u8,
                ))
            } else {
                Err(ColorError::InvalidHexDigit)
            }
        } else {
            Err(ColorError::InvalidColorValue)
        }
    } else if s.len() > 0 && all_digits(s) {
        if digits_value(s) <= 255 {
            Ok(Color::Fixed(digits_value(s) as u8))
        } else {
            Err(ColorError::NumericOverflow)
        }
    } else {
        Err(ColorError::InvalidColorValue)
    }
}

/// The lowercase form of a string, as Unicode case mapping defines it.
pub uninterp spec fn lower_of(s: Seq<char>) -> Seq<char>;

/// Relies on str::to_lowercase: the lowercase equivalent of a string,
/// which depends on its characters alone.
#[verifier::external_body]
fn lowercase(s: &str) -> (r: String)
    ensures
        r@ == lower_of(s@),
{
    s.to_lowercase()
}

/// Parse a color string. The input is lowercased first, so named colors and
/// hex digits are accepted in any casing; the decimal and `#` checks are
/// unaffected by the lowercasing.
pub fn parse_color(s: &str) -> (r: Result<Color, ColorError>)
    ensures
        r == spec_parse_color(lower_of(s@)),
{
    let low = lowercase(s);
    parse_color_lower(low.as_str())
}

/// Parse a color string that has already been lowercased.
///
/// This is the whole grammar; `parse_color` is the same function behind a
/// lowercasing step.
pub fn parse_color_lower(s: &str) -> (r: Result<Color, ColorError>)
    ensures
        r == spec_parse_color(s@),
{
    if str_eq(s, "default") {
        return Ok(Color::Default);
    }
    if str_eq(s, "black") {
        return Ok(Color::Black);
    }
    if str_eq(s, "red") {
        return Ok(Color::Red);
    }
    if str_eq(s, "green") {
        return Ok(Color::Green);
    }
    if str_eq(s, "yellow") {
        return Ok(Color::Yellow);
    }
    if str_eq(s, "blue") {
        return Ok(Color::Blue);
    }
    if str_eq(s, "magenta") {
        return Ok(Color::Magenta);
    }
    if str_eq(s, "cyan") {
        return Ok(Color::Cyan);
    }
    if str_eq(s, "white") {
        return Ok(Color::White);
    }
    let n = s.unicode_len();
    if n > 0 && s.get_char(0) == '#' {
        if n == 4 {
            match (hex_value(s.get_char(1)), hex_value(s.get_char(2)), hex_value(s.get_char(3))) {
                (Some(a), Some(b), Some(c)) => Ok(Color::RGB(a * 16 + a, b * 16 + b, c * 16 + c)),
                _ => Err(ColorError::InvalidHexDigit),
            }
        } else if n == 7 {
            match (
                hex_value(s.get_char(1)),
                hex_value(s.get_char(2)),
                hex_value(s.get_char(3)),
                hex_value(s.get_char(4)),
                hex_value(s.get_char(5)),
                hex_value(s.get_char(6)),
            ) {
                (Some(r1), Some(r2), Some(g1), Some(g2), Some(b1), Some(b2)) => Ok(
                    Color::RGB(r1 * 16 + r2, g1 * 16 + g2, b1 * 16 + b2),
                ),
                _ => Err(ColorError::InvalidHexDigit),
            }
        } else {
            Err(ColorError::InvalidColorValue)
        }
    } else if n > 0 {
        let mut val: u32 = 0;
        let mut i: usize = 0;
        while i < n
            invariant
                n == s@.len(),
                i <= n,
                n > 0,
                spec_named_color(s@) is None,
                s@[0] != '#',
                all_digits(s@.subrange(0, i as int)),
                digits_value(s@.subrange(0, i as int)) <= 255 ==> val == digits_value(
                    s@.subrange(0, i as int),
                ),
                digits_value(s@.subrange(0, i as int)) > 255 ==> val == 256,
            decreases n - i,
        {
            let c = s.get_char(i);
            if !('0' <= c && c <= '9') {
                assert(!all_digits(s@)) by {
                    assert(!is_digit(s@[i as int]));
                }
                return Err(ColorError::InvalidColorValue);
            }
            let d: u32 = c as u32 - '0' as u32;
            proof {
                assert(s@.subrange(0, i as int + 1).drop_last() =~= s@.subrange(0, i as int));
            }
            if val > 255 {
                val = 256;
            } else {
                val = val * 10 + d;
                if val > 255 {
                    val = 256;
                }
            }
            i = i + 1;
        }
        proof {
            assert(s@.subrange(0, n as int) =~= s@);
        }
        if val <= 255 {
            Ok(Color::Fixed(val as u8))
        } else {
            Err(ColorError::NumericOverflow)
        }
    } else {
        Err(ColorError::InvalidColorValue)
    }
}

/// The character of a decimal digit value.
pub open spec fn digit_char(d: int) -> char {
    if d == 0 {
        '0'
    } else if d == 1 {
        '1'
    } else if d == 2 {
        '2'
    } else if d == 3 {
        '3'
    } else if d == 4 {
        '4'
    } else if d == 5 {
        '5'
    } else if d == 6 {
        '6'
    } else if d == 7 {
        '7'
    } else if d == 8 {
        '8'
    } else {
        '9'
    }
}

/// The lowercase character of a hex digit value.
pub open spec fn hex_char(d: int) -> char {
    if d < 10 {
        digit_char(d)
    } else if d == 10 {
        'a'
    } else if d == 11 {
        'b'
    } else if d == 12 {
        'c'
    } else if d == 13 {
        'd'
    } else if d == 14 {
        'e'
    } else {
        'f'
    }
}

/// The decimal spelling of a byte, without leading zeros.
pub open spec fn spec_decimal_string(n: int) -> Seq<char> {
    if n < 10 {
        seq![digit_char(n)]
    } else if n < 100 {
        seq![digit_char(n / 10), digit_char(n % 10)]
    } else {
        seq![digit_char(n / 100), digit_char(n / 10 % 10), digit_char(n % 10)]
    }
}

/// The canonical configuration spelling of a color: the lowercase name of a
/// named color, the decimal palette index of a fixed color, and the
/// lowercase `#`-prefixed six-digit hex form of an RGB color.
pub open spec fn spec_color_string(c: Color) -> Seq<char> {
    match c {
        Color::Default => "default"@,
        Color::Black => "black"@,
        Color::Red => "red"@,
        Color::Green => "green"@,
        Color::Yellow => "yellow"@,
        Color::Blue => "blue"@,
        Color::Magenta => "magenta"@,
        Color::Cyan => "cyan"@,
        Color::White => "white"@,
        Color::Fixed(n) => spec_decimal_string(n as int),
        Color::RGB(r, g, b) => seq!['#'] + seq![
            hex_char(r as int / 16),
            hex_char(r as int % 16),
            hex_char(g as int / 16),
            hex_char(g as int % 16),
            hex_char(b as int / 16),
            hex_char(b as int % 16),
        ],
    }
}

/// The one-character string of a decimal digit value.
fn digit_str(d: u8) -> (r: &'static str)
    requires
        d < 10,
    ensures
        r@ == seq![digit_char(d as int)],
{
    let r: &'static str = if d == 0 {
        "0"
    } else if d == 1 {
        "1"
    } else if d == 2 {
        "2"
    } else if d == 3 {
        "3"
    } else if d == 4 {
        "4"
    } else if d == 5 {
        "5"
    } else if d == 6 {
        "6"
    } else if d == 7 {
        "7"
    } else if d == 8 {
        "8"
    } else {
        "9"
    };
    proof {
        reveal_strlit("0");
        reveal_strlit("1");
        reveal_strlit("2");
        reveal_strlit("3");
        reveal_strlit("4");
        reveal_strlit("5");
        reveal_strlit("6");
        reveal_strlit("7");
        reveal_strlit("8");
        reveal_strlit("9");
        assert(r@ =~= seq![digit_char(d as int)]);
    }
    r
}

/// The one-character string of a hex digit value, lowercase.
fn hex_str(d: u8) -> (r: &'static str)
    requires
        d < 16,
    ensures
        r@ == seq![hex_char(d as int)],
{
    if d < 10 {
        digit_str(d)
    } else {
        let r: &'static str = if d == 10 {
            "a"
        } else if d == 11 {
            "b"
        } else if d == 12 {
            "c"
        } else if d == 13 {
            "d"
        } else if d == 14 {
            "e"
        } else {
            "f"
        };
        proof {
            reveal_strlit("a");
            reveal_strlit("b");
            reveal_strlit("c");
            reveal_strlit("d");
            reveal_strlit("e");
            reveal_strlit("f");
            assert(r@ =~= seq![hex_char(d as int)]);
        }
        r
    }
}

impl Color {
    /// The canonical configuration string of this color. Parsing it yields
    /// the color back (`lemma_color_round_trip`).
    pub fn to_config_string(&self) -> (r: String)
        ensures
            r@ == spec_color_string(*self),
    {
        match *self {
            Color::Default => String::from_str("default"),
            Color::Black => String::from_str("black"),
            Color::Red => String::from_str("red"),
            Color::Green => String::from_str("green"),
            Color::Yellow => String::from_str("yellow"),
            Color::Blue => String::from_str("blue"),
            Color::Magenta => String::from_str("magenta"),
            Color::Cyan => String::from_str("cyan"),
            Color::White => String::from_str("white"),
            Color::Fixed(n) => {
                if n < 10 {
                    String::from_str(digit_str(n))
                } else if n < 100 {
                    let mut s = String::from_str(digit_str(n / 10));
                    s.append(digit_str(n % 10));
                    proof {
                        assert(s@ =~= spec_decimal_string(n as int));
                    }
                    s
                } else {
                    let mut s = String::from_str(digit_str(n / 100));
                    s.append(digit_str(n / 10 % 10));
                    s.append(digit_str(n % 10));
                    proof {
                        assert(s@ =~= spec_decimal_string(n as int));
                    }
                    s
                }
            },
            Color::RGB(r, g, b) => {
                let mut s = String::from_str("#");
                s.append(hex_str(r / 16));
                s.append(hex_str(r % 16));
                s.append(hex_str(g / 16));
                s.append(hex_str(g % 16));
                s.append(hex_str(b / 16));
                s.append(hex_str(b % 16));
                proof {
                    reveal_strlit("#");
                    assert(s@ =~= spec_color_string(Color::RGB(r, g, b)));
                }
                s
            },
        }
    }
}

/// Casing never affects the result of color parsing: two inputs with the
/// same lowercase form parse to the same color or fail with the same error.
pub proof fn lemma_casing_irrelevant(a: Seq<char>, b: Seq<char>)
    requires
        lower_of(a) == lower_of(b),
    ensures
        spec_parse_color(lower_of(a)) == spec_parse_color(lower_of(b)),
{
}

/// A hex digit character stands for the value it was made from.
proof fn lemma_hex_char_value(d: int)
    requires
        0 <= d < 16,
    ensures
        is_hex_digit(hex_char(d)),
        hex_digit_value(hex_char(d)) == d,
{
}

/// A decimal digit character stands for the value it was made from.
proof fn lemma_digit_char_value(d: int)
    requires
        0 <= d < 10,
    ensures
        is_digit(digit_char(d)),
        digit_char(d) as int - '0' as int == d,
{
}

/// No character of the decimal spelling of a byte is anything but a digit,
/// and reading the spelling back gives the byte.
proof fn lemma_decimal_string_value(n: int)
    requires
        0 <= n <= 255,
    ensures
        spec_decimal_string(n).len() >= 1,
        is_digit(spec_decimal_string(n)[0]),
        all_digits(spec_decimal_string(n)),
        digits_value(spec_decimal_string(n)) == n,
{
    reveal_with_fuel(digits_value, 4);
    let s = spec_decimal_string(n);
    if n < 10 {
        lemma_digit_char_value(n);
        assert(s.drop_last() =~= Seq::<char>::empty());
        assert(digits_value(s) == n);
    } else if n < 100 {
        lemma_digit_char_value(n / 10);
        lemma_digit_char_value(n % 10);
        assert(s.drop_last() =~= seq![digit_char(n / 10)]);
        assert(s.drop_last().drop_last() =~= Seq::<char>::empty());
        assert(digits_value(s.drop_last()) == n / 10);
        assert(digits_value(s) == n / 10 * 10 + n % 10);
        assert(n / 10 * 10 + n % 10 == n);
    } else {
        lemma_digit_char_value(n / 100);
        lemma_digit_char_value(n / 10 % 10);
        lemma_digit_char_value(n % 10);
        assert(s.drop_last() =~= seq![digit_char(n / 100), digit_char(n / 10 % 10)]);
        assert(s.drop_last().drop_last() =~= seq![digit_char(n / 100)]);
        assert(s.drop_last().drop_last().drop_last() =~= Seq::<char>::empty());
        assert(digits_value(s.drop_last().drop_last()) == n / 100);
        assert(digits_value(s.drop_last()) == n / 100 * 10 + n / 10 % 10);
        assert(n / 100 * 10 + n / 10 % 10 == n / 10);
        assert(digits_value(s) == n / 10 * 10 + n % 10);
    }
}

/// Round trip: parsing the canonical string of any color yields that color
/// back, whatever the color.
pub proof fn lemma_color_round_trip(c: Color)
    ensures
        spec_parse_color(spec_color_string(c)) is Ok,
        spec_parse_color(spec_color_string(c))->Ok_0 == c,
{
    reveal_strlit("default");
    reveal_strlit("black");
    reveal_strlit("red");
    reveal_strlit("green");
    reveal_strlit("yellow");
    reveal_strlit("blue");
    reveal_strlit("magenta");
    reveal_strlit("cyan");
    reveal_strlit("white");
    match c {
        Color::Fixed(n) => {
            let s = spec_decimal_string(n as int);
            lemma_decimal_string_value(n as int);
            assert(spec_named_color(s) is None);
            assert(s[0] != '#');
            assert(spec_parse_color(s) == Ok::<Color, ColorError>(Color::Fixed(n)));
        },
        Color::RGB(r, g, b) => {
            let s = spec_color_string(c);
            assert(s.len() == 7);
            assert(s[0] == '#');
            assert(spec_named_color(s) is None);
            lemma_hex_char_value(r as int / 16);
            lemma_hex_char_value(r as int % 16);
            lemma_hex_char_value(g as int / 16);
            lemma_hex_char_value(g as int % 16);
            lemma_hex_char_value(b as int / 16);
            lemma_hex_char_value(b as int % 16);
            assert(hex_byte(s[1], s[2]) == r);
            assert(hex_byte(s[3], s[4]) == g);
            assert(hex_byte(s[5], s[6]) == b);
            assert(spec_parse_color(s) == Ok::<Color, ColorError>(c));
        },
        _ => {
            assert(spec_named_color(spec_color_string(c)) == Some(c));
        },
    }
}

} // verus!
