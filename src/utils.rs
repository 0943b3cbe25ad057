use vstd::prelude::*;

use crate::api::{ApiError, ErrorKind};

verus! {

/// The value of a hexadecimal digit, either case.
pub open spec fn hex_digit_value(c: char) -> Option<int> {
    if '0' <= c && c <= '9' {
        Some(c as int - '0' as int)
    } else if 'a' <= c && c <= 'f' {
        Some(c as int - 'a' as int + 10)
    } else if 'A' <= c && c <= 'F' {
        Some(c as int - 'A' as int + 10)
    } else {
        None
    }
}

/// What follows the optional leading `#` of a color string.
pub open spec fn color_digits(s: Seq<char>) -> Seq<char> {
    if s.len() > 0 && s[0] == '#' {
        s.drop_first()
    } else {
        s
    }
}

/// Whether `s` is a color: six hexadecimal digits, after an optional `#`.
pub open spec fn is_hex_color(s: Seq<char>) -> bool {
    let d = color_digits(s);
    &&& d.len() == 6
    &&& forall|i: int| 0 <= i < 6 ==> (#[trigger] hex_digit_value(d[i])) is Some
}

/// The byte written by the two digits of `d` that start at `i`.
pub open spec fn hex_byte(d: Seq<char>, i: int) -> int {
    16 * hex_digit_value(d[i])->0 + hex_digit_value(d[i + 1])->0
}

/// The red, green and blue channels of a color string.
pub open spec fn color_channels(s: Seq<char>) -> (int, int, int) {
    let d = color_digits(s);
    (hex_byte(d, 0), hex_byte(d, 2), hex_byte(d, 4))
}

/// The lower-case hexadecimal digit of a value below 16.
pub open spec fn hex_char(v: int) -> char {
    if v < 10 {
        ('0' as int + v) as char
    } else {
        ('a' as int + v - 10) as char
    }
}

/// The two lower-case hexadecimal digits of a byte.
pub open spec fn hex_pair(b: u8) -> Seq<char> {
    seq![hex_char(b as int / 16), hex_char(b as int % 16)]
}

/// The six-digit text of a color, as written without the `#`.
pub open spec fn hex_text(r: u8, g: u8, b: u8) -> Seq<char> {
    hex_pair(r) + hex_pair(g) + hex_pair(b)
}

/// Writing a color as six hexadecimal digits, with or without a leading `#`, and
/// reading it back gives the three channels that were written.
pub proof fn lemma_hex_round_trip(r: u8, g: u8, b: u8)
    ensures
        is_hex_color(hex_text(r, g, b)),
        color_channels(hex_text(r, g, b)) == (r as int, g as int, b as int),
        is_hex_color(seq!['#'] + hex_text(r, g, b)),
        color_channels(seq!['#'] + hex_text(r, g, b)) == (r as int, g as int, b as int),
{
    let t = hex_text(r, g, b);
    let h = seq!['#'] + t;
    assert(color_digits(h) =~= t);
    assert(t.len() == 6);
    assert(t[0] != '#');
    assert(color_digits(t) == t);
    assert forall|i: int| 0 <= i < 6 implies (#[trigger] hex_digit_value(t[i])) is Some by {
    }
}

/// The value of one hexadecimal digit.
fn hex_digit(c: char) -> (r: Option<u8>)
    ensures
        r matches Some(v) ==> hex_digit_value(c) == Some(v as int),
        r is None ==> hex_digit_value(c) is None,
{
    if '0' <= c && c <= '9' {
        Some((c as u32 - '0' as u32) as u8)
    } else if 'a' <= c && c <= 'f' {
        Some((c as u32 - 'a' as u32 + 10) as u8)
    } else if 'A' <= c && c <= 'F' {
        Some((c as u32 - 'A' as u32 + 10) as u8)
    } else {
        None
    }
}

/// The byte written by two hexadecimal digits.
fn hex_pair_value(hi: char, lo: char) -> (r: Option<u8>)
    ensures
        r matches Some(v) ==> hex_digit_value(hi) is Some && hex_digit_value(lo) is Some
            && v == 16 * hex_digit_value(hi)->0 + hex_digit_value(lo)->0,
        r is None ==> hex_digit_value(hi) is None || hex_digit_value(lo) is None,
{
    match (hex_digit(hi), hex_digit(lo)) {
        (Some(h), Some(l)) => Some(h * 16 + l),
        _ => None,
    }
}

/// The message of a color string that is not six hexadecimal digits.
pub open spec fn color_format_message() -> Seq<char> {
    "a color is six hexadecimal digits, optionally after a '#'"@
}

/// Converts a hex color, six hexadecimal digits with an optional leading `#`, to its
/// red, green and blue channels.
pub fn hex_to_rgb(hex: &str) -> (r: Result<(u8, u8, u8), ApiError>)
    ensures
        is_hex_color(hex@) <==> r is Ok,
        r matches Ok(c) ==> color_channels(hex@) == (c.0 as int, c.1 as int, c.2 as int),
        r matches Err(e) ==> e.kind == ErrorKind::InvalidColorFormat && e.message@
            == color_format_message(),
{
    let len = hex.unicode_len();
    let start: usize = if len > 0 && hex.get_char(0) == '#' {
        1
    } else {
        0
    };
    let ghost d = color_digits(hex@);
    assert(d =~= hex@.subrange(start as int, len as int));
    if len - start == 6 {
        let channels = (
            hex_pair_value(hex.get_char(start), hex.get_char(start + 1)),
            hex_pair_value(hex.get_char(start + 2), hex.get_char(start + 3)),
            hex_pair_value(hex.get_char(start + 4), hex.get_char(start + 5)),
        );
        if let (Some(red), Some(green), Some(blue)) = channels {
            assert(forall|i: int| 0 <= i < 6 ==> d[i] == hex@[start + i]);
            return Ok((red, green, blue));
        }
        assert(!is_hex_color(hex@)) by {
            assert(forall|i: int| 0 <= i < 6 ==> d[i] == hex@[start + i]);
            if is_hex_color(hex@) {
                assert(hex_digit_value(d[0]) is Some && hex_digit_value(d[1]) is Some);
                assert(hex_digit_value(d[2]) is Some && hex_digit_value(d[3]) is Some);
                assert(hex_digit_value(d[4]) is Some && hex_digit_value(d[5]) is Some);
            }
        }
    }
    Err(
        ApiError {
            kind: ErrorKind::InvalidColorFormat,
            message: String::from_str("a color is six hexadecimal digits, optionally after a '#'"),
        },
    )
}

/// LED index of the cells of the bottom row that have no key.
pub const UNUSED_LED: usize = 60;

/// The Voyager's layout, by row and then column: two blocks of four rows and six
/// columns (LEDs 0 to 23 on the left, 26 to 49 on the right) above a row that holds
/// the two thumb keys of each half (24, 25 and 50, 51).
pub open spec fn voyager_layout() -> Seq<Seq<int>> {
    seq![
        seq![0, 1, 2, 3, 4, 5, 26, 27, 28, 29, 30, 31],
        seq![6, 7, 8, 9, 10, 11, 32, 33, 34, 35, 36, 37],
        seq![12, 13, 14, 15, 16, 17, 38, 39, 40, 41, 42, 43],
        seq![18, 19, 20, 21, 22, 23, 44, 45, 46, 47, 48, 49],
        seq![60, 60, 60, 60, 24, 25, 50, 51, 60, 60, 60, 60],
    ]
}

/// Whether column `x` and row `y` lie in the layout.
pub open spec fn in_layout(x: int, y: int) -> bool {
    0 <= x < 12 && 0 <= y < 5
}

/// The LED at column `x` of row `y`.
pub open spec fn voyager_led(x: int, y: int) -> int {
    voyager_layout()[y][x]
}

/// The message of a position outside the layout.
pub open spec fn position_message() -> Seq<char> {
    "position is outside the keyboard layout"@
}

/// Converts a position on the Voyager (column `x`, row `y`) to the index of the LED
/// under that key.
pub fn pos_to_voyager(x: u16, y: u16) -> (r: Result<usize, ApiError>)
    ensures
        in_layout(x as int, y as int) <==> r is Ok,
        r matches Ok(led) ==> led == voyager_led(x as int, y as int),
        r matches Err(e) ==> e.kind == ErrorKind::PositionOutOfRange && e.message@
            == position_message(),
{
    if x >= 12 || y >= 5 {
        return Err(
            ApiError {
                kind: ErrorKind::PositionOutOfRange,
                message: String::from_str("position is outside the keyboard layout"),
            },
        );
    }
    let col: usize = x as usize;
    let row: usize = y as usize;
    let led: usize = if row < 4 {
        if col < 6 {
            row * 6 + col
        } else {
            20 + row * 6 + col
        }
    } else if col == 4 {
        24
    } else if col == 5 {
        25
    } else if col == 6 {
        50
    } else if col == 7 {
        51
    } else {
        UNUSED_LED
    };
    Ok(led)
}

/// Every position of the layout holds either a real LED, below 52, or the unused
/// marker. The marker stands exactly in the cells of the bottom row beside the thumb
/// keys, and no two positions share a real LED.
pub proof fn lemma_layout_cells(x: int, y: int, x2: int, y2: int)
    requires
        in_layout(x, y),
        in_layout(x2, y2),
    ensures
        voyager_led(x, y) == UNUSED_LED || 0 <= voyager_led(x, y) < 52,
        voyager_led(x, y) == UNUSED_LED <==> (y == 4 && (x < 4 || x >= 8)),
        voyager_led(x, y) != UNUSED_LED && voyager_led(x, y) == voyager_led(x2, y2) ==> x == x2
            && y == y2,
{
    lemma_layout_formula(x, y);
    lemma_layout_formula(x2, y2);
}

/// The layout cell by cell: the blocks count across their rows, the bottom row holds
/// the thumb keys and the marker.
proof fn lemma_layout_formula(x: int, y: int)
    requires
        in_layout(x, y),
    ensures
        voyager_led(x, y) == if y < 4 {
            if x < 6 {
                6 * y + x
            } else {
                20 + 6 * y + x
            }
        } else if x == 4 || x == 5 {
            20 + x
        } else if x == 6 || x == 7 {
            44 + x
        } else {
            60
        },
{
}

} // verus!
