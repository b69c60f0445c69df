//! Decoding a sampled screen pixel into the `#rrggbb` string handed to the
//! UI.
//!
//! The native pixel query returns `0x00BBGGRR`; the all-ones value is the
//! query's failure sentinel, not white.

use vstd::prelude::*;

use crate::error::HudError;
use crate::text::{spec_int_str, i32_to_string};

verus! {

/// The failure sentinel of the native pixel query.
pub const PIXEL_FAILED: u32 = 0xFFFF_FFFF;

/// The lower-case hexadecimal digit character for `d` in `0 ..= 15`.
pub open spec fn spec_hex_digit(d: int) -> char {
    if d == 0 {
        '0'
    } else if d == 1 {
        '1'
    } else if d == 2 {
        '2'
    } else if d == 3 {
        '3'
    } else if d == 4 {
        '4'
    } else if d == 5 {
        '5'
    } else if d == 6 {
        '6'
    } else if d == 7 {
        '7'
    } else if d == 8 {
        '8'
    } else if d == 9 {
        '9'
    } else if d == 10 {
        'a'
    } else if d == 11 {
        'b'
    } else if d == 12 {
        'c'
    } else if d == 13 {
        'd'
    } else if d == 14 {
        'e'
    } else {
        'f'
    }
}

/// The two lower-case hex digits of a byte, high nibble first.
pub open spec fn spec_byte_hex(b: int) -> Seq<char> {
    seq![spec_hex_digit(b / 16), spec_hex_digit(b % 16)]
}

/// The `#rrggbb` rendering of a native `0x00BBGGRR` color value, lower case.
pub open spec fn spec_color_hex(c: u32) -> Seq<char> {
    "#"@ + spec_byte_hex((c & 0xFF) as int) + spec_byte_hex(((c >> 8) & 0xFF) as int)
        + spec_byte_hex(((c >> 16) & 0xFF) as int)
}

/// The one-character string for hex digit `d`.
fn hex_digit_str(d: u8) -> (r: &'static str)
    requires
        d < 16,
    ensures
        r@ == seq![spec_hex_digit(d as int)],
{
    proof {
        reveal_strlit("0");
        reveal_strlit("1");
        reveal_strlit("2");
        reveal_strlit("3");
        reveal_strlit("4");
        reveal_strlit("5");
        reveal_strlit("6");
        reveal_strlit("7");
        reveal_strlit("8");
        reveal_strlit("9");
        reveal_strlit("a");
        reveal_strlit("b");
        reveal_strlit("c");
        reveal_strlit("d");
        reveal_strlit("e");
        reveal_strlit("f");
    }
    let r = if d == 0 {
        "0"
    } else if d == 1 {
        "1"
    } else if d == 2 {
        "2"
    } else if d == 3 {
        "3"
    } else if d == 4 {
        "4"
    } else if d == 5 {
        "5"
    } else if d == 6 {
        "6"
    } else if d == 7 {
        "7"
    } else if d == 8 {
        "8"
    } else if d == 9 {
        "9"
    } else if d == 10 {
        "a"
    } else if d == 11 {
        "b"
    } else if d == 12 {
        "c"
    } else if d == 13 {
        "d"
    } else if d == 14 {
        "e"
    } else {
        "f"
    };
    proof {
        assert(r@ =~= seq![spec_hex_digit(d as int)]);
    }
    r
}

/// Render a byte as two lower-case hex digits.
pub fn byte_hex(b: u8) -> (r: String)
    ensures
        r@ == spec_byte_hex(b as int),
{
    let mut r = hex_digit_str(b / 16).to_owned();
    r.append(hex_digit_str(b % 16));
    proof {
        assert(r@ =~= spec_byte_hex(b as int));
    }
    r
}

/// Render a native `0x00BBGGRR` color value as `#rrggbb`, lower case.
pub fn color_hex(c: u32) -> (r: String)
    ensures
        r@ == spec_color_hex(c),
{
    let red = (c & 0xFF) as u8;
    let green = ((c >> 8) & 0xFF) as u8;
    let blue = ((c >> 16) & 0xFF) as u8;
    proof {
        assert(c & 0xFF < 256 && (c >> 8) & 0xFF < 256 && (c >> 16) & 0xFF < 256) by (bit_vector);
    }
    let mut r = "#".to_owned();
    r.append(byte_hex(red).as_str());
    r.append(byte_hex(green).as_str());
    r.append(byte_hex(blue).as_str());
    proof {
        assert(r@ =~= spec_color_hex(c));
    }
    r
}

/// The error context reported when the pixel query fails at `(x, y)`.
pub open spec fn spec_pixel_fail_context(x: int, y: int) -> Seq<char> {
    "at ("@ + spec_int_str(x) + ", "@ + spec_int_str(y) + ")"@
}

/// Interpret a sampled pixel value read at cursor position `(x, y)`: the
/// all-ones sentinel is a query failure reported with the coordinates; any
/// other value decodes to its `#rrggbb` string.
pub fn decode_pixel(c: u32, x: i32, y: i32) -> (r: Result<String, HudError>)
    ensures
        c == PIXEL_FAILED ==> (match r {
            Err(HudError::NativeCallFailed(api, ctx)) => api@ == "GetPixel"@ && ctx@
                == spec_pixel_fail_context(x as int, y as int),
            _ => false,
        }),
        c != PIXEL_FAILED ==> (match r {
            Ok(s) => s@ == spec_color_hex(c),
            _ => false,
        }),
{
    if c == PIXEL_FAILED {
        let mut ctx = "at (".to_owned();
        ctx.append(i32_to_string(x).as_str());
        ctx.append(", ");
        ctx.append(i32_to_string(y).as_str());
        ctx.append(")");
        Err(HudError::NativeCallFailed("GetPixel".to_owned(), ctx))
    } else {
        Ok(color_hex(c))
    }
}

} // verus!
