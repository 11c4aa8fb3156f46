//! Screen palettes: parsing hex color strings into pixel colors. A palette
//! always has four colors; entries that are missing or fail to parse fall
//! back to opaque black so that palette selection can never fail.

use vstd::prelude::*;

verus! {

/// One RGBA pixel color.
#[derive(Debug, Clone, Copy, PartialEq, Eq, Structural)]
pub struct PixelColor {
    pub r: u8,
    pub g: u8,
    pub b: u8,
    pub a: u8,
}

/// The color a 32-bit 0xRRGGBBAA word names.
pub open spec fn sp_from_hex(hex: u32) -> PixelColor {
    PixelColor {
        r: ((hex >> 24) & 0xFF) as u8,
        g: ((hex >> 16) & 0xFF) as u8,
        b: ((hex >> 8) & 0xFF) as u8,
        a: (hex & 0xFF) as u8,
    }
}

/// The fallback color: opaque black.
pub open spec fn sp_default_color() -> PixelColor {
    PixelColor { r: 0, g: 0, b: 0, a: 0xFF }
}

proof fn lemma_hex_bytes(hex: u32)
    by (bit_vector)
    ensures
        (hex >> 24) & 0xFF < 256,
        (hex >> 16) & 0xFF < 256,
        (hex >> 8) & 0xFF < 256,
        hex & 0xFF < 256,
{
}

impl PixelColor {
    /// The color a 32-bit 0xRRGGBBAA word names.
    pub fn from_hex(hex: u32) -> (r: PixelColor)
        ensures
            r == sp_from_hex(hex),
    {
        proof {
            lemma_hex_bytes(hex);
        }
        PixelColor {
            r: ((hex >> 24) & 0xFF) as u8,
            g: ((hex >> 16) & 0xFF) as u8,
            b: ((hex >> 8) & 0xFF) as u8,
            a: (hex & 0xFF) as u8,
        }
    }

    /// The four channels in order.
    pub fn as_rgba(&self) -> (t: (u8, u8, u8, u8))
        ensures
            t == (self.r, self.g, self.b, self.a),
    {
        (self.r, self.g, self.b, self.a)
    }
}

/// The value of one hex digit, upper or lower case.
pub open spec fn sp_hex_digit(c: char) -> Option<u8> {
    let v = c as u32;
    if 0x30 <= v && v <= 0x39 {
        Some(((v - 0x30) as u8))
    } else if 0x41 <= v && v <= 0x46 {
        Some(((v - 0x41 + 10) as u8))
    } else if 0x61 <= v && v <= 0x66 {
        Some(((v - 0x61 + 10) as u8))
    } else {
        None
    }
}

/// A hex string folded into a 32-bit value from an accumulator: nothing on
/// a non-hex character or once the value can no longer fit.
pub open spec fn sp_parse_hex(s: Seq<char>, acc: u32) -> Option<u32>
    decreases s.len(),
{
    if s.len() == 0 {
        Some(acc)
    } else {
        match sp_hex_digit(s[0]) {
            None => None,
            Some(d) => if acc <= 0x0FFFFFFF {
                sp_parse_hex(s.drop_first(), ((acc * 16) as u32 + d as u32) as u32)
            } else {
                None
            },
        }
    }
}

/// The palette entry at `i`: the parsed color, or opaque black where the
/// entry is missing or does not parse.
pub open spec fn sp_pallet_color(v: Seq<String>, i: int) -> PixelColor {
    if 0 <= i < v.len() {
        match sp_parse_hex(v[i]@, 0) {
            Some(h) => sp_from_hex(h),
            None => sp_default_color(),
        }
    } else {
        sp_default_color()
    }
}

fn hex_digit(c: char) -> (r: Option<u8>)
    ensures
        r == sp_hex_digit(c),
{
    let v = c as u32;
    if 0x30 <= v && v <= 0x39 {
        Some((v - 0x30) as u8)
    } else if 0x41 <= v && v <= 0x46 {
        Some((v - 0x41 + 10) as u8)
    } else if 0x61 <= v && v <= 0x66 {
        Some((v - 0x61 + 10) as u8)
    } else {
        None
    }
}

/// Parses a whole string as a hex number.
pub fn parse_hex_u32(s: &str) -> (r: Option<u32>)
    ensures
        r == sp_parse_hex(s@, 0),
{
    let len = s.unicode_len();
    let mut acc: u32 = 0;
    let mut i: usize = 0;
    proof {
        assert(s@.skip(0) =~= s@);
    }
    while i < len
        invariant
            len == s@.len(),
            i <= len,
            sp_parse_hex(s@, 0) == sp_parse_hex(s@.skip(i as int), acc),
        decreases len - i,
    {
        let c = s.get_char(i);
        proof {
            assert(s@.skip(i as int)[0] == s@[i as int]);
            assert(s@.skip(i as int).drop_first() =~= s@.skip(i + 1));
        }
        let d = match hex_digit(c) {
            Some(d) => d,
            None => {
                return None;
            },
        };
        if acc > 0x0FFFFFFF {
            return None;
        }
        acc = acc * 16 + (d as u32);
        i = i + 1;
    }
    proof {
        assert(s@.skip(len as int) =~= Seq::<char>::empty());
    }
    Some(acc)
}

fn pallet_color(hex_colors: &Vec<String>, i: usize) -> (r: PixelColor)
    ensures
        r == sp_pallet_color(hex_colors@, i as int),
{
    if i < hex_colors.len() {
        match parse_hex_u32(hex_colors[i].as_str()) {
            Some(h) => PixelColor::from_hex(h),
            None => PixelColor { r: 0, g: 0, b: 0, a: 0xFF },
        }
    } else {
        PixelColor { r: 0, g: 0, b: 0, a: 0xFF }
    }
}

/// Builds the four-color palette named by up to four hex strings; missing
/// or malformed entries fall back to opaque black.
pub fn into_pallet(hex_colors: &Vec<String>) -> (r: [PixelColor; 4])
    ensures
        forall|i: int| 0 <= i < 4 ==> r@[i] == sp_pallet_color(hex_colors@, i),
{
    let c0 = pallet_color(hex_colors, 0);
    let c1 = pallet_color(hex_colors, 1);
    let c2 = pallet_color(hex_colors, 2);
    let c3 = pallet_color(hex_colors, 3);
    let r = [c0, c1, c2, c3];
    proof {
        assert(r@[0] == c0 && r@[1] == c1 && r@[2] == c2 && r@[3] == c3);
    }
    r
}

/// The next palette index, wrapping from the last back to zero.
pub fn get_next_pallet_idx(curr_idx: usize, max_idx: usize) -> (r: usize)
    ensures
        r == (if curr_idx < max_idx {
            curr_idx + 1
        } else {
            0
        }),
{
    if curr_idx < max_idx {
        curr_idx + 1
    } else {
        0
    }
}

} // verus!
