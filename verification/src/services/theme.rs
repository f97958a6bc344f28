//! The accent colour: which accent a laptop model gets, and the CSS that
//! carries an accent to the widgets.
use vstd::prelude::*;
use vstd::string::*;
use vstd::utf8::is_char_boundary;
use crate::text::{
    contains, push_decimal, push_hex2, push_str, spec_contains, spec_decimal, spec_hex2,
    spec_hex_char, spec_to_lowercase, spec_trim, to_lowercase, trim,
};

verus! {

/// The accent for a product name that has already been lower-cased.
pub open spec fn spec_accent_for_lowercase(name: Seq<char>) -> Seq<char> {
    if spec_contains(name, "proart"@) {
        "#00bcd4"@
    } else if spec_contains(name, "rog"@) {
        "#e8002d"@
    } else {
        "#e8a800"@
    }
}

/// The accent colour for a DMI product name: teal for ProArt, crimson for
/// ROG, amber for TUF and every other model. The name is compared in lower
/// case.
pub fn accent_for_product(product_name: &str) -> (r: &'static str)
    ensures
        r@ == spec_accent_for_lowercase(spec_to_lowercase(product_name@)),
{
    let name = to_lowercase(product_name);
    accent_for_lowercase(name.as_str())
}

/// The accent colour for a product name that is already in lower case.
pub fn accent_for_lowercase(name: &str) -> (r: &'static str)
    ensures
        r@ == spec_accent_for_lowercase(name@),
{
    if contains(name, "proart") {
        "#00bcd4"
    } else if contains(name, "rog") {
        "#e8002d"
    } else {
        "#e8a800"
    }
}

/// The accent for the contents of `/sys/class/dmi/id/product_name` (`None`
/// when it could not be read): the accent of the trimmed name, or amber.
pub fn accent_for_dmi(contents: Option<&str>) -> (r: &'static str)
    ensures
        r@ == match contents {
            Some(c) => spec_accent_for_lowercase(spec_to_lowercase(spec_trim(c@))),
            None => "#e8a800"@,
        },
{
    match contents {
        Some(c) => {
            let t = trim(c);
            accent_for_product(t.as_str())
        },
        None => "#e8a800",
    }
}

/// The value of one hexadecimal digit byte.
pub open spec fn spec_hex_digit_value(b: u8) -> Option<nat> {
    if 48 <= b <= 57 {
        Some((b - 48) as nat)
    } else if 97 <= b <= 102 {
        Some((b - 87) as nat)
    } else if 65 <= b <= 70 {
        Some((b - 55) as nat)
    } else {
        None
    }
}

/// `u8::from_str_radix(s, 16)` on a two-byte string `[b0, b1]`: either two
/// hexadecimal digits, or a `+` and one digit.
pub open spec fn spec_parse_hex_pair(b0: u8, b1: u8) -> Option<u8> {
    if b0 == 43 {
        match spec_hex_digit_value(b1) {
            Some(l) => Some(l as u8),
            None => None,
        }
    } else {
        match (spec_hex_digit_value(b0), spec_hex_digit_value(b1)) {
            (Some(h), Some(l)) => Some((h * 16 + l) as u8),
            _ => None,
        }
    }
}

fn hex_digit_value(b: u8) -> (r: Option<u8>)
    ensures
        r == match spec_hex_digit_value(b) {
            Some(v) => Some(v as u8),
            None => None::<u8>,
        },
        r matches Some(v) ==> v < 16,
{
    if 48 <= b && b <= 57 {
        Some(b - 48)
    } else if 97 <= b && b <= 102 {
        Some(b - 87)
    } else if 65 <= b && b <= 70 {
        Some(b - 55)
    } else {
        None
    }
}

/// `u8::from_str_radix` with radix 16 on the two bytes `b0`, `b1`.
pub fn parse_hex_pair(b0: u8, b1: u8) -> (r: Option<u8>)
    ensures
        r == spec_parse_hex_pair(b0, b1),
{
    if b0 == 43 {
        hex_digit_value(b1)
    } else {
        match (hex_digit_value(b0), hex_digit_value(b1)) {
            (Some(h), Some(l)) => Some(h * 16 + l),
            _ => None,
        }
    }
}

/// The red, green and blue channels that the CSS uses for an accent given
/// as the bytes of `#rrggbb`; a channel that does not parse falls back to
/// the amber default (232, 168, 0).
pub open spec fn spec_accent_rgb(bytes: Seq<u8>) -> (u8, u8, u8) {
    (
        match spec_parse_hex_pair(bytes[1], bytes[2]) {
            Some(v) => v,
            None => 232,
        },
        match spec_parse_hex_pair(bytes[3], bytes[4]) {
            Some(v) => v,
            None => 168,
        },
        match spec_parse_hex_pair(bytes[5], bytes[6]) {
            Some(v) => v,
            None => 0,
        },
    )
}

/// The darker end of the accent gradient: green lowered by 30 (not below 0),
/// blue raised by 20 (not above 255).
pub open spec fn spec_gradient_end(r: u8, g: u8, b: u8) -> Seq<char> {
    let g2: u8 = if g >= 30 {
        (g - 30) as u8
    } else {
        0
    };
    let b2: u8 = if b <= 235 {
        (b + 20) as u8
    } else {
        255
    };
    spec_hex2(r) + spec_hex2(g2) + spec_hex2(b2)
}

/// `r,g,b` in decimal.
pub open spec fn spec_rgb_list(r: u8, g: u8, b: u8) -> Seq<char> {
    spec_decimal(r as nat) + ","@ + spec_decimal(g as nat) + ","@ + spec_decimal(b as nat)
}

/// The accent CSS for the accent text `hex` whose channels are `r`, `g`, `b`.
pub open spec fn spec_accent_css(hex: Seq<char>, r: u8, g: u8, b: u8) -> Seq<char> {
    "* { --utu-accent: "@ + hex + "; --utu-accent-end: #"@ + spec_gradient_end(r, g, b)
        + "; --utu-accent-glow: rgba("@ + spec_rgb_list(r, g, b)
        + ",0.05); --utu-accent-dim: rgba("@ + spec_rgb_list(r, g, b) + ",0.15); }"@
}

/// The three two-byte slices `[1..3]`, `[3..5]`, `[5..7]` of `hex` exist and
/// lie on character boundaries.
pub open spec fn spec_accent_slices_ok(hex: &str) -> bool {
    &&& hex.spec_bytes().len() >= 7
    &&& is_char_boundary(hex.spec_bytes(), 1)
    &&& is_char_boundary(hex.spec_bytes(), 3)
    &&& is_char_boundary(hex.spec_bytes(), 5)
    &&& is_char_boundary(hex.spec_bytes(), 7)
}

/// Whether `build_accent_css` can slice `hex`: it has at least seven bytes
/// and bytes 1, 3, 5 and 7 start characters.
pub fn accent_slices_ok(hex: &str) -> (r: bool)
    ensures
        r == spec_accent_slices_ok(hex),
{
    hex.as_bytes().len() >= 7 && hex.is_char_boundary(1) && hex.is_char_boundary(3) && hex.is_char_boundary(5)
        && hex.is_char_boundary(7)
}

fn push_rgb_list(s: &mut String, r: u8, g: u8, b: u8)
    ensures
        final(s)@ == old(s)@ + spec_rgb_list(r, g, b),
{
    push_decimal(s, r as u64);
    push_str(s, ",");
    push_decimal(s, g as u64);
    push_str(s, ",");
    push_decimal(s, b as u64);
    assert(final(s)@ =~= old(s)@ + spec_rgb_list(r, g, b));
}

/// The CSS custom properties for an accent `#rrggbb`: the accent itself, the
/// gradient end, and translucent glow and dim variants.
pub fn build_accent_css(hex: &str) -> (css: String)
    requires
        spec_accent_slices_ok(hex),
    ensures
        ({
            let (r, g, b) = spec_accent_rgb(hex.spec_bytes());
            css@ == spec_accent_css(hex@, r, g, b)
        }),
{
    let bytes = hex.as_bytes();
    let r = match parse_hex_pair(bytes[1], bytes[2]) {
        Some(v) => v,
        None => 232,
    };
    let g = match parse_hex_pair(bytes[3], bytes[4]) {
        Some(v) => v,
        None => 168,
    };
    let b = match parse_hex_pair(bytes[5], bytes[6]) {
        Some(v) => v,
        None => 0,
    };
    let g2: u8 = if g >= 30 {
        g - 30
    } else {
        0
    };
    let b2: u8 = if b <= 235 {
        b + 20
    } else {
        255
    };
    let mut css = String::new();
    push_str(&mut css, "* { --utu-accent: ");
    push_str(&mut css, hex);
    push_str(&mut css, "; --utu-accent-end: #");
    push_hex2(&mut css, r);
    push_hex2(&mut css, g2);
    push_hex2(&mut css, b2);
    push_str(&mut css, "; --utu-accent-glow: rgba(");
    push_rgb_list(&mut css, r, g, b);
    push_str(&mut css, ",0.05); --utu-accent-dim: rgba(");
    push_rgb_list(&mut css, r, g, b);
    push_str(&mut css, ",0.15); }");
    assert(css@ =~= spec_accent_css(hex@, r, g, b));
    css
}

/// The byte of a lower-case hexadecimal digit character.
pub open spec fn spec_hex_byte(d: nat) -> u8 {
    spec_hex_char(d) as u8
}

/// Printing a channel as two lower-case hexadecimal digits and parsing those
/// digits back gives the channel: the accent CSS reads back exactly the
/// colour that `#rrggbb` text written with `{:02x}` holds.
pub proof fn lemma_hex_pair_round_trip(v: u8)
    ensures
        spec_parse_hex_pair(spec_hex_byte((v / 16) as nat), spec_hex_byte((v % 16) as nat))
            == Some(v),
{
}

/// The accent for a lower-cased model name: teal exactly for ProArt names,
/// crimson for ROG names that are not ProArt, and amber for every other
/// model (TUF, Zenbook, Vivobook, unknown names). The three colours differ,
/// so each model gets exactly one of them.
pub proof fn lemma_accent_by_series(name: Seq<char>)
    ensures
        (spec_accent_for_lowercase(name) == "#00bcd4"@) == spec_contains(name, "proart"@),
        (spec_accent_for_lowercase(name) == "#e8002d"@) == (!spec_contains(name, "proart"@)
            && spec_contains(name, "rog"@)),
        (spec_accent_for_lowercase(name) == "#e8a800"@) == (!spec_contains(name, "proart"@)
            && !spec_contains(name, "rog"@)),
{
    reveal_strlit("#00bcd4");
    reveal_strlit("#e8002d");
    reveal_strlit("#e8a800");
    assert("#00bcd4"@[1] != "#e8002d"@[1]);
    assert("#00bcd4"@[1] != "#e8a800"@[1]);
    assert("#e8002d"@[4] != "#e8a800"@[4]);
}

} // verus!
