//! Colors as four 8-bit channels, and parsing of hexadecimal color strings.
//!
//! A color string is an optional `#` followed by 3, 4, 6 or 8 hexadecimal
//! digits: `rgb`, `rgba`, `rrggbb` or `rrggbbaa`. In the short forms each
//! digit is doubled, and where no alpha is given the color is opaque.
use vstd::prelude::*;
use vstd::string::*;

verus! {

/// A color: red, green, blue and alpha channels, each 0 to 255.
#[derive(Debug, Clone, Copy, PartialEq, Eq, Structural)]
pub struct Rgba {
    pub r: u8,
    pub g: u8,
    pub b: u8,
    pub a: u8,
}

/// Whether `c` is a hexadecimal digit: `0` to `9`, `a` to `f`, or `A` to `F`.
pub open spec fn is_hex_digit(c: char) -> bool {
    (48 <= c as int && c as int <= 57)  // '0' to '9'
     || (97 <= c as int && c as int <= 102)  // 'a' to 'f'
     || (65 <= c as int && c as int <= 70)  // 'A' to 'F'

}

/// Value of the hexadecimal digit `c`.
pub open spec fn hex_val(c: char) -> int
    recommends
        is_hex_digit(c),
{
    if 48 <= c as int && c as int <= 57 {
        c as int - 48
    } else if 97 <= c as int && c as int <= 102 {
        c as int - 87
    } else {
        c as int - 55
    }
}

/// Value of the byte written as the two hexadecimal digits `hi` then `lo`.
pub open spec fn byte_of(hi: char, lo: char) -> int
    recommends
        is_hex_digit(hi),
        is_hex_digit(lo),
{
    16 * hex_val(hi) + hex_val(lo)
}

/// The color string with a single leading `#`, if any, taken off.
pub open spec fn spec_stripped(s: Seq<char>) -> Seq<char> {
    if s.len() > 0 && s[0] == '#' {
        s.skip(1)
    } else {
        s
    }
}

/// Whether every character of `s` is a hexadecimal digit.
pub open spec fn all_hex(s: Seq<char>) -> bool {
    forall|i: int| 0 <= i < s.len() ==> is_hex_digit(s[i])
}

/// The color a hexadecimal color string denotes, if it denotes one: after an
/// optional `#`, either 3, 4, 6 or 8 hexadecimal digits. Three digits are
/// the channels `rgb` with each digit doubled, four the same with alpha,
/// six the channels `rrggbb`, eight `rrggbbaa`; without an alpha digit the
/// color is opaque.
pub open spec fn spec_hex_color(s: Seq<char>) -> Option<Rgba> {
    let t = spec_stripped(s);
    if !all_hex(t) {
        None
    } else if t.len() == 3 {
        Some(
            Rgba {
                r: byte_of(t[0], t[0]) as u8,
                g: byte_of(t[1], t[1]) as u8,
                b: byte_of(t[2], t[2]) as u8,
                a: 255,
            },
        )
    } else if t.len() == 4 {
        Some(
            Rgba {
                r: byte_of(t[0], t[0]) as u8,
                g: byte_of(t[1], t[1]) as u8,
                b: byte_of(t[2], t[2]) as u8,
                a: byte_of(t[3], t[3]) as u8,
            },
        )
    } else if t.len() == 6 {
        Some(
            Rgba {
                r: byte_of(t[0], t[1]) as u8,
                g: byte_of(t[2], t[3]) as u8,
                b: byte_of(t[4], t[5]) as u8,
                a: 255,
            },
        )
    } else if t.len() == 8 {
        Some(
            Rgba {
                r: byte_of(t[0], t[1]) as u8,
                g: byte_of(t[2], t[3]) as u8,
                b: byte_of(t[4], t[5]) as u8,
                a: byte_of(t[6], t[7]) as u8,
            },
        )
    } else {
        None
    }
}

/// Value of the hexadecimal digit `c`, or `None` where `c` is no such digit.
fn hex_digit_value(c: char) -> (v: Option<u8>)
    ensures
        v is Some <==> is_hex_digit(c),
        is_hex_digit(c) ==> v == Some(hex_val(c) as u8),
{
    let u = c as u32;
    if 48 <= u && u <= 57 {
        Some((u - 48) as u8)
    } else if 97 <= u && u <= 102 {
        Some((u - 87) as u8)
    } else if 65 <= u && u <= 70 {
        Some((u - 55) as u8)
    } else {
        None
    }
}

/// Parses a hexadecimal color string: an optional `#` followed by 3, 4, 6
/// or 8 hexadecimal digits. Returns `None` on any other string.
pub fn parse_hex_color(s: &str) -> (color: Option<Rgba>)
    ensures
        color == spec_hex_color(s@),
{
    let n = s.unicode_len();
    let off: usize = if n > 0 && s.get_char(0) == '#' {
        1
    } else {
        0
    };
    let ghost t = spec_stripped(s@);
    proof {
        assert(t.len() == n - off);
        assert(forall|i: int| 0 <= i < t.len() ==> t[i] == s@[i + off]);
    }
    let m = n - off;
    if m != 3 && m != 4 && m != 6 && m != 8 {
        return None;
    }
    let mut vals: Vec<u8> = Vec::new();
    let mut k: usize = 0;
    while k < m
        invariant
            off <= 1,
            off + m == s@.len(),
            t == spec_stripped(s@),
            t.len() == m,
            forall|i: int| 0 <= i < t.len() ==> t[i] == s@[i + off],
            0 <= k <= m,
            vals@.len() == k,
            forall|i: int| 0 <= i < k ==> is_hex_digit(t[i]),
            forall|i: int| 0 <= i < k ==> vals@[i] == hex_val(t[i]),
        decreases m - k,
    {
        let c = s.get_char(off + k);
        match hex_digit_value(c) {
            Some(v) => {
                vals.push(v);
            },
            None => {
                proof {
                    assert(!is_hex_digit(t[k as int]));
                }
                return None;
            },
        }
        k = k + 1;
    }
    proof {
        assert(all_hex(t));
        assert(forall|i: int| 0 <= i < m ==> 0 <= #[trigger] vals@[i] < 16);
    }
    if m == 3 {
        Some(
            Rgba {
                r: 16 * vals[0] + vals[0],
                g: 16 * vals[1] + vals[1],
                b: 16 * vals[2] + vals[2],
                a: 255,
            },
        )
    } else if m == 4 {
        Some(
            Rgba {
                r: 16 * vals[0] + vals[0],
                g: 16 * vals[1] + vals[1],
                b: 16 * vals[2] + vals[2],
                a: 16 * vals[3] + vals[3],
            },
        )
    } else if m == 6 {
        Some(
            Rgba {
                r: 16 * vals[0] + vals[1],
                g: 16 * vals[2] + vals[3],
                b: 16 * vals[4] + vals[5],
                a: 255,
            },
        )
    } else {
        Some(
            Rgba {
                r: 16 * vals[0] + vals[1],
                g: 16 * vals[2] + vals[3],
                b: 16 * vals[4] + vals[5],
                a: 16 * vals[6] + vals[7],
            },
        )
    }
}

/// The color the scene is cleared with every frame: the sky blue written
/// `5fcde4`.
pub fn clear_color() -> (c: Rgba)
    ensures
        Some(c) == spec_hex_color("5fcde4"@),
        c == (Rgba { r: 0x5f, g: 0xcd, b: 0xe4, a: 0xff }),
{
    proof {
        reveal_strlit("5fcde4");
        lemma_clear_color_string();
    }
    let parsed = parse_hex_color("5fcde4");
    if let Some(c) = parsed {
        c
    } else {
        proof {
            assert(false);
        }
        Rgba { r: 0, g: 0, b: 0, a: 0 }
    }
}

/// The string `5fcde4` denotes the sky blue the scene is cleared with.
pub proof fn lemma_clear_color_string()
    ensures
        spec_hex_color("5fcde4"@) == Some(Rgba { r: 0x5f, g: 0xcd, b: 0xe4, a: 0xff }),
{
    reveal_strlit("5fcde4");
    let s = "5fcde4"@;
    assert(s.len() == 6);
    assert(spec_stripped(s) == s);
    assert forall|i: int| 0 <= i < s.len() implies is_hex_digit(s[i]) by {
        if i == 0 {
            assert(is_hex_digit(s[0]));
        } else if i == 1 {
            assert(is_hex_digit(s[1]));
        } else if i == 2 {
            assert(is_hex_digit(s[2]));
        } else if i == 3 {
            assert(is_hex_digit(s[3]));
        } else if i == 4 {
            assert(is_hex_digit(s[4]));
        } else {
            assert(is_hex_digit(s[5]));
        }
    }
    assert(all_hex(s));
    assert(byte_of(s[0], s[1]) == 0x5f);
    assert(byte_of(s[2], s[3]) == 0xcd);
    assert(byte_of(s[4], s[5]) == 0xe4);
}

} // verus!
