//! Pixel colors: decoding the operating system's color value, the canonical
//! uppercase `#RRGGBB` rendering, and its inverse.

use vstd::prelude::*;
use vstd::string::*;

verus! {

/// The sentinel value an OS pixel query returns when it cannot read a pixel.
pub const INVALID_COLOR: u32 = 0xFFFF_FFFF;

/// A sampled color: the canonical hex rendering, the channel triple, and the
/// virtual-screen coordinates it was read at.
#[derive(Debug, Clone)]
pub struct ColorInfo {
    pub hex: String,
    pub rgb: [u8; 3],
    pub x: i32,
    pub y: i32,
}

/// Uppercase hexadecimal digit for a value below 16.
pub open spec fn hex_digit(v: int) -> char {
    if v == 0 {
        '0'
    } else if v == 1 {
        '1'
    } else if v == 2 {
        '2'
    } else if v == 3 {
        '3'
    } else if v == 4 {
        '4'
    } else if v == 5 {
        '5'
    } else if v == 6 {
        '6'
    } else if v == 7 {
        '7'
    } else if v == 8 {
        '8'
    } else if v == 9 {
        '9'
    } else if v == 10 {
        'A'
    } else if v == 11 {
        'B'
    } else if v == 12 {
        'C'
    } else if v == 13 {
        'D'
    } else if v == 14 {
        'E'
    } else {
        'F'
    }
}

/// Value of an uppercase hexadecimal digit, or `None` for any other character.
pub open spec fn hex_digit_value(c: char) -> Option<int> {
    if c == '0' {
        Some(0)
    } else if c == '1' {
        Some(1)
    } else if c == '2' {
        Some(2)
    } else if c == '3' {
        Some(3)
    } else if c == '4' {
        Some(4)
    } else if c == '5' {
        Some(5)
    } else if c == '6' {
        Some(6)
    } else if c == '7' {
        Some(7)
    } else if c == '8' {
        Some(8)
    } else if c == '9' {
        Some(9)
    } else if c == 'A' {
        Some(10)
    } else if c == 'B' {
        Some(11)
    } else if c == 'C' {
        Some(12)
    } else if c == 'D' {
        Some(13)
    } else if c == 'E' {
        Some(14)
    } else if c == 'F' {
        Some(15)
    } else {
        None
    }
}

/// The canonical uppercase `#RRGGBB` rendering of a channel triple.
pub open spec fn hex_string_of(r: u8, g: u8, b: u8) -> Seq<char> {
    seq![
        '#',
        hex_digit(r as int / 16),
        hex_digit(r as int % 16),
        hex_digit(g as int / 16),
        hex_digit(g as int % 16),
        hex_digit(b as int / 16),
        hex_digit(b as int % 16),
    ]
}

/// Parse a `#RRGGBB` string of uppercase hex digits back into its channels.
pub open spec fn parse_hex_color(s: Seq<char>) -> Option<(u8, u8, u8)> {
    if s.len() == 7 && s[0] == '#' && hex_digit_value(s[1]) is Some && hex_digit_value(s[2]) is Some
        && hex_digit_value(s[3]) is Some && hex_digit_value(s[4]) is Some && hex_digit_value(
        s[5],
    ) is Some && hex_digit_value(s[6]) is Some {
        Some(
            (
                (hex_digit_value(s[1])->Some_0 * 16 + hex_digit_value(s[2])->Some_0) as u8,
                (hex_digit_value(s[3])->Some_0 * 16 + hex_digit_value(s[4])->Some_0) as u8,
                (hex_digit_value(s[5])->Some_0 * 16 + hex_digit_value(s[6])->Some_0) as u8,
            ),
        )
    } else {
        None
    }
}

/// Rendering a triple and parsing the result gives the triple back, for every
/// one of the 16.7 million triples.
pub proof fn lemma_hex_round_trip(r: u8, g: u8, b: u8)
    ensures
        parse_hex_color(hex_string_of(r, g, b)) == Some((r, g, b)),
{
    let s = hex_string_of(r, g, b);
    assert forall|v: int| 0 <= v < 16 implies hex_digit_value(hex_digit(v)) == Some(v) by {}
    assert(s[1] == hex_digit(r as int / 16) && s[2] == hex_digit(r as int % 16));
    assert((r as int / 16) * 16 + r as int % 16 == r as int) by {
        vstd::arithmetic::div_mod::lemma_fundamental_div_mod(r as int, 16);
    }
    assert((g as int / 16) * 16 + g as int % 16 == g as int) by {
        vstd::arithmetic::div_mod::lemma_fundamental_div_mod(g as int, 16);
    }
    assert((b as int / 16) * 16 + b as int % 16 == b as int) by {
        vstd::arithmetic::div_mod::lemma_fundamental_div_mod(b as int, 16);
    }
}

/// The single-character string for an uppercase hexadecimal digit.
fn hex_digit_str(v: u8) -> (s: &'static str)
    requires
        v < 16,
    ensures
        s@ == seq![hex_digit(v as int)],
{
    match v {
        0 => {
            proof {
                reveal_strlit("0");
                assert("0"@ =~= seq![hex_digit(0)]);
            }
            "0"
        },
        1 => {
            proof {
                reveal_strlit("1");
                assert("1"@ =~= seq![hex_digit(1)]);
            }
            "1"
        },
        2 => {
            proof {
                reveal_strlit("2");
                assert("2"@ =~= seq![hex_digit(2)]);
            }
            "2"
        },
        3 => {
            proof {
                reveal_strlit("3");
                assert("3"@ =~= seq![hex_digit(3)]);
            }
            "3"
        },
        4 => {
            proof {
                reveal_strlit("4");
                assert("4"@ =~= seq![hex_digit(4)]);
            }
            "4"
        },
        5 => {
            proof {
                reveal_strlit("5");
                assert("5"@ =~= seq![hex_digit(5)]);
            }
            "5"
        },
        6 => {
            proof {
                reveal_strlit("6");
                assert("6"@ =~= seq![hex_digit(6)]);
            }
            "6"
        },
        7 => {
            proof {
                reveal_strlit("7");
                assert("7"@ =~= seq![hex_digit(7)]);
            }
            "7"
        },
        8 => {
            proof {
                reveal_strlit("8");
                assert("8"@ =~= seq![hex_digit(8)]);
            }
            "8"
        },
        9 => {
            proof {
                reveal_strlit("9");
                assert("9"@ =~= seq![hex_digit(9)]);
            }
            "9"
        },
        10 => {
            proof {
                reveal_strlit("A");
                assert("A"@ =~= seq![hex_digit(10)]);
            }
            "A"
        },
        11 => {
            proof {
                reveal_strlit("B");
                assert("B"@ =~= seq![hex_digit(11)]);
            }
            "B"
        },
        12 => {
            proof {
                reveal_strlit("C");
                assert("C"@ =~= seq![hex_digit(12)]);
            }
            "C"
        },
        13 => {
            proof {
                reveal_strlit("D");
                assert("D"@ =~= seq![hex_digit(13)]);
            }
            "D"
        },
        14 => {
            proof {
                reveal_strlit("E");
                assert("E"@ =~= seq![hex_digit(14)]);
            }
            "E"
        },
        _ => {
            proof {
                reveal_strlit("F");
                assert("F"@ =~= seq![hex_digit(15)]);
            }
            "F"
        },
    }
}

/// Render a channel triple as its canonical uppercase `#RRGGBB` string.
pub fn rgb_to_hex(r: u8, g: u8, b: u8) -> (s: String)
    ensures
        s@ == hex_string_of(r, g, b),
{
    let mut s = String::from_str("#");
    proof {
        reveal_strlit("#");
        assert("#"@ =~= seq!['#']);
    }
    s.append(hex_digit_str(r / 16));
    s.append(hex_digit_str(r % 16));
    s.append(hex_digit_str(g / 16));
    s.append(hex_digit_str(g % 16));
    s.append(hex_digit_str(b / 16));
    s.append(hex_digit_str(b % 16));
    proof {
        assert(s@ =~= hex_string_of(r, g, b));
    }
    s
}

/// The value of an uppercase hexadecimal digit character.
fn hex_digit_of_char(c: char) -> (v: Option<u8>)
    ensures
        match v {
            Some(d) => hex_digit_value(c) == Some(d as int) && d < 16,
            None => hex_digit_value(c) is None,
        },
{
    match c {
        '0' => Some(0),
        '1' => Some(1),
        '2' => Some(2),
        '3' => Some(3),
        '4' => Some(4),
        '5' => Some(5),
        '6' => Some(6),
        '7' => Some(7),
        '8' => Some(8),
        '9' => Some(9),
        'A' => Some(10),
        'B' => Some(11),
        'C' => Some(12),
        'D' => Some(13),
        'E' => Some(14),
        'F' => Some(15),
        _ => None,
    }
}

/// Parse a canonical `#RRGGBB` string back into its channel triple.
pub fn hex_to_rgb(s: &str) -> (rgb: Option<(u8, u8, u8)>)
    ensures
        rgb == parse_hex_color(s@),
{
    if s.unicode_len() != 7 {
        return None;
    }
    if s.get_char(0) != '#' {
        proof {
            reveal_strlit("#");
        }
        return None;
    }
    proof {
        reveal_strlit("#");
    }
    let d1 = hex_digit_of_char(s.get_char(1));
    let d2 = hex_digit_of_char(s.get_char(2));
    let d3 = hex_digit_of_char(s.get_char(3));
    let d4 = hex_digit_of_char(s.get_char(4));
    let d5 = hex_digit_of_char(s.get_char(5));
    let d6 = hex_digit_of_char(s.get_char(6));
    match (d1, d2, d3, d4, d5, d6) {
        (Some(h1), Some(l1), Some(h2), Some(l2), Some(h3), Some(l3)) => Some(
            (h1 * 16 + l1, h2 * 16 + l2, h3 * 16 + l3),
        ),
        _ => None,
    }
}

/// Decode an operating-system color value laid out as 0x00BBGGRR into its
/// red, green and blue channels.
pub fn colorref_to_rgb(color: u32) -> (rgb: (u8, u8, u8))
    ensures
        rgb.0 == color & 0xFF,
        rgb.1 == (color >> 8) & 0xFF,
        rgb.2 == (color >> 16) & 0xFF,
{
    assert((color & 0xFF) < 256 && ((color >> 8) & 0xFF) < 256 && ((color >> 16) & 0xFF) < 256)
        by (bit_vector);
    let r = (color & 0xFF) as u8;
    let g = ((color >> 8) & 0xFF) as u8;
    let b = ((color >> 16) & 0xFF) as u8;
    (r, g, b)
}

/// `ci` is exactly the sample a successful pixel query at `(x, y)` yields for
/// the raw OS color value `color`: channels canonicalized from the reversed
/// byte order, hex derived from the channels.
pub open spec fn color_info_matches(ci: ColorInfo, color: u32, x: i32, y: i32) -> bool {
    let r = (color & 0xFF) as u8;
    let g = ((color >> 8) & 0xFF) as u8;
    let b = ((color >> 16) & 0xFF) as u8;
    &&& ci.hex@ == hex_string_of(r, g, b)
    &&& ci.rgb@ == seq![r, g, b]
    &&& ci.x == x
    &&& ci.y == y
}

/// Build the `ColorInfo` for a raw OS color value read at `(x, y)`.
pub fn make_color_info(color: u32, x: i32, y: i32) -> (ci: ColorInfo)
    ensures
        color_info_matches(ci, color, x, y),
{
    let (r, g, b) = colorref_to_rgb(color);
    let ci = ColorInfo { hex: rgb_to_hex(r, g, b), rgb: [r, g, b], x, y };
    proof {
        assert(ci.rgb@ =~= seq![r, g, b]);
    }
    ci
}

} // verus!
