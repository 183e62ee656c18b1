//! Colors: opaque 8-bit RGB [`Color`] and straight-alpha [`ColorAlpha`].
//!
//! Both are plain `Copy` values. `Color` converts from a packed `0xRRGGBB`
//! integer and from CSS hex text (`"#9634AD"`, `"9634AD"`, `"#abc"`, `"abc"`),
//! and formats itself as lowercase `#rrggbb`.
use vstd::prelude::*;

verus! {

// ── hexadecimal text ─────────────────────────────────────────────────────────

/// An ASCII hexadecimal digit: `0-9`, `a-f` or `A-F`.
pub open spec fn is_hex_digit(c: char) -> bool {
    let u = c as u32;
    (48 <= u && u <= 57) || (97 <= u && u <= 102) || (65 <= u && u <= 70)
}

/// The value (0 to 15) of a hexadecimal digit.
pub open spec fn hex_digit_value(c: char) -> nat {
    let u = c as u32;
    if 48 <= u && u <= 57 {
        (u - 48) as nat
    } else if 97 <= u && u <= 102 {
        (u - 87) as nat
    } else if 65 <= u && u <= 70 {
        (u - 55) as nat
    } else {
        0
    }
}

/// Every character of `s` is a hexadecimal digit.
pub open spec fn all_hex_digits(s: Seq<char>) -> bool {
    forall|i: int| 0 <= i < s.len() ==> is_hex_digit(#[trigger] s[i])
}

/// The number that the hexadecimal digits `s` spell, most significant first.
pub open spec fn hex_value(s: Seq<char>) -> nat
    decreases s.len(),
{
    if s.len() == 0 {
        0
    } else {
        hex_value(s.drop_last()) * 16 + hex_digit_value(s.last())
    }
}

/// `16` to the power `k`.
pub open spec fn pow16(k: nat) -> nat
    decreases k,
{
    if k == 0 {
        1
    } else {
        16 * pow16((k - 1) as nat)
    }
}

/// Lowercase hexadecimal digit for a value below 16.
pub open spec fn lower_hex_char(d: nat) -> char {
    if d < 10 {
        (d + 48) as char
    } else {
        (d + 87) as char
    }
}

/// Two lowercase hexadecimal digits for a byte, zero-padded.
pub open spec fn hex_byte_text(b: u8) -> Seq<char> {
    seq![lower_hex_char((b / 16) as nat), lower_hex_char((b % 16) as nat)]
}

// ── Color ────────────────────────────────────────────────────────────────────

/// 8-bit RGB color.
///
/// Use [`ColorAlpha`] when transparency matters.
#[derive(Debug, Clone, Copy, PartialEq, Eq, Hash, Structural)]
pub struct Color {
    /// Red channel, 0–255.
    pub r: u8,
    /// Green channel, 0–255.
    pub g: u8,
    /// Blue channel, 0–255.
    pub b: u8,
}

/// The color packed in the low 24 bits of `v` as `0xRRGGBB`; higher bits are ignored.
pub open spec fn rgb24(v: nat) -> Color {
    Color { r: ((v / 65536) % 256) as u8, g: ((v / 256) % 256) as u8, b: (v % 256) as u8 }
}

/// The gray-level channel value `0xdd` that the short CSS form `d` stands for.
pub open spec fn doubled_nibble(d: nat) -> u8 {
    (d * 17) as u8
}

/// The text after one leading `#`, if there is one.
pub open spec fn css_hex_digits(s: Seq<char>) -> Seq<char> {
    if s.len() > 0 && s[0] == '#' {
        s.drop_first()
    } else {
        s
    }
}

/// What CSS hex text denotes.
///
/// After an optional leading `#`, six hexadecimal digits spell a number
/// packed as `0xRRGGBB`; three hexadecimal digits `rgb` stand for `rrggbb`;
/// anything else (a sign included) is no color.
pub open spec fn css_hex_color(s: Seq<char>) -> Option<Color> {
    let h = css_hex_digits(s);
    if h.len() == 6 && all_hex_digits(h) {
        Some(rgb24(hex_value(h)))
    } else if h.len() == 3 && all_hex_digits(h) {
        Some(
            Color {
                r: doubled_nibble(hex_digit_value(h[0])),
                g: doubled_nibble(hex_digit_value(h[1])),
                b: doubled_nibble(hex_digit_value(h[2])),
            },
        )
    } else {
        None
    }
}

/// The CSS text `#rrggbb` of a color, lowercase.
pub open spec fn css_hex_text(c: Color) -> Seq<char> {
    seq!['#'] + hex_byte_text(c.r) + hex_byte_text(c.g) + hex_byte_text(c.b)
}

/// 70% of each channel of `c`, rounded down.
pub open spec fn darker_of(c: Color) -> Color {
    Color {
        r: ((c.r as nat * 7) / 10) as u8,
        g: ((c.g as nat * 7) / 10) as u8,
        b: ((c.b as nat * 7) / 10) as u8,
    }
}

/// The translucent color of `c` with alpha `a`.
pub open spec fn alpha_of(c: Color, a: u8) -> ColorAlpha {
    ColorAlpha { r: c.r, g: c.g, b: c.b, a }
}

/// The opaque color of `c`, its alpha dropped.
pub open spec fn opaque_of(c: ColorAlpha) -> Color {
    Color { r: c.r, g: c.g, b: c.b }
}

/// The translucent color packed as `0xAARRGGBB` in the low 32 bits of `v`.
pub open spec fn argb32(v: nat) -> ColorAlpha {
    ColorAlpha {
        r: ((v / 65536) % 256) as u8,
        g: ((v / 256) % 256) as u8,
        b: (v % 256) as u8,
        a: ((v / 16777216) % 256) as u8,
    }
}

impl Color {
    /// Pure black: `(0, 0, 0)`.
    #[allow(non_snake_case)]
    pub fn BLACK() -> (c: Color)
        ensures
            c == (Color { r: 0, g: 0, b: 0 }),
    {
        Color { r: 0, g: 0, b: 0 }
    }

    /// Pure white: `(255, 255, 255)`.
    #[allow(non_snake_case)]
    pub fn WHITE() -> (c: Color)
        ensures
            c == (Color { r: 255, g: 255, b: 255 }),
    {
        Color { r: 255, g: 255, b: 255 }
    }

    /// Saturated red: `(255, 0, 0)`.
    #[allow(non_snake_case)]
    pub fn RED() -> (c: Color)
        ensures
            c == (Color { r: 255, g: 0, b: 0 }),
    {
        Color { r: 255, g: 0, b: 0 }
    }

    /// Saturated green: `(0, 255, 0)`.
    #[allow(non_snake_case)]
    pub fn GREEN() -> (c: Color)
        ensures
            c == (Color { r: 0, g: 255, b: 0 }),
    {
        Color { r: 0, g: 255, b: 0 }
    }

    /// Saturated blue: `(0, 0, 255)`.
    #[allow(non_snake_case)]
    pub fn BLUE() -> (c: Color)
        ensures
            c == (Color { r: 0, g: 0, b: 255 }),
    {
        Color { r: 0, g: 0, b: 255 }
    }

    /// Construct from individual 8-bit channels.
    pub fn new(r: u8, g: u8, b: u8) -> (c: Color)
        ensures
            c == (Color { r, g, b }),
    {
        Color { r, g, b }
    }

    /// Construct from a packed 24-bit hex literal like `0x9634AD`.
    /// Bits above the low 24 are ignored.
    pub fn from_hex(hex: u32) -> (c: Color)
        ensures
            c == rgb24(hex as nat),
    {
        let r = ((hex >> 16u32) & 0xFFu32) as u8;
        let g = ((hex >> 8u32) & 0xFFu32) as u8;
        let b = (hex & 0xFFu32) as u8;
        assert(((hex >> 16u32) & 0xFFu32) == (hex / 65536) % 256) by (bit_vector);
        assert(((hex >> 8u32) & 0xFFu32) == (hex / 256) % 256) by (bit_vector);
        assert((hex & 0xFFu32) == hex % 256) by (bit_vector);
        Color { r, g, b }
    }

    /// Promote to [`ColorAlpha`] with the given alpha channel.
    pub fn with_alpha(self, a: u8) -> (c: ColorAlpha)
        ensures
            c == alpha_of(self, a),
    {
        ColorAlpha { r: self.r, g: self.g, b: self.b, a }
    }

    /// Parse a CSS-style hex string: `"#9634AD"`, `"9634AD"`, `"#abc"`, or `"abc"`.
    ///
    /// Returns `None` for any other text.
    pub fn from_css_hex(s: &str) -> (res: Option<Color>)
        ensures
            res == css_hex_color(s@),
    {
        let n = s.unicode_len();
        let start: usize = if n > 0 && s.get_char(0) == '#' {
            1
        } else {
            0
        };
        let ghost h = css_hex_digits(s@);
        assert(h =~= s@.subrange(start as int, n as int));
        let len = n - start;
        if len == 6 {
            // Only digits are accepted: a sign such as `+` gives no color.
            match parse_hex(s, start, n) {
                Some(v) => Some(Color::from_hex(v)),
                None => None,
            }
        } else if len == 3 {
            let r = hex_digit(s.get_char(start));
            let g = hex_digit(s.get_char(start + 1));
            let b = hex_digit(s.get_char(start + 2));
            assert(h[0] == s@[start as int] && h[1] == s@[start + 1] && h[2] == s@[start + 2]);
            match (r, g, b) {
                (Some(r), Some(g), Some(b)) => {
                    assert(all_hex_digits(h)) by {
                        assert forall|i: int| 0 <= i < h.len() implies is_hex_digit(#[trigger] h[i]) by {
                            assert(i == 0 || i == 1 || i == 2);
                        }
                    }
                    let rr = (r << 4u8) | r;
                    let gg = (g << 4u8) | g;
                    let bb = (b << 4u8) | b;
                    assert(rr == r * 17) by (bit_vector)
                        requires
                            r < 16,
                            rr == (r << 4u8) | r,
                    ;
                    assert(gg == g * 17) by (bit_vector)
                        requires
                            g < 16,
                            gg == (g << 4u8) | g,
                    ;
                    assert(bb == b * 17) by (bit_vector)
                        requires
                            b < 16,
                            bb == (b << 4u8) | b,
                    ;
                    Some(Color { r: rr, g: gg, b: bb })
                },
                _ => {
                    assert(!all_hex_digits(h)) by {
                        if r is None {
                            assert(!is_hex_digit(h[0]));
                        } else if g is None {
                            assert(!is_hex_digit(h[1]));
                        } else {
                            assert(!is_hex_digit(h[2]));
                        }
                    }
                    None
                },
            }
        } else {
            None
        }
    }

    /// Format as a CSS hex string: `#rrggbb`, lowercase.
    pub fn to_css_hex(self) -> (s: String)
        ensures
            s@ == css_hex_text(self),
    {
        let mut s = String::from_str("#");
        proof {
            reveal_strlit("#");
        }
        push_hex_byte(&mut s, self.r);
        push_hex_byte(&mut s, self.g);
        push_hex_byte(&mut s, self.b);
        assert(s@ =~= css_hex_text(self));
        s
    }

    /// A darker variant for outlining a translucent fill: 70% of each
    /// channel, rounded down (`(c · 7) / 10`, the same value that scaling
    /// the channel by `0.7_f32` and truncating gives for every byte).
    pub fn darker_for_outline(&self) -> (c: Color)
        ensures
            c == darker_of(*self),
    {
        Color {
            r: ((self.r as u16 * 7) / 10) as u8,
            g: ((self.g as u16 * 7) / 10) as u8,
            b: ((self.b as u16 * 7) / 10) as u8,
        }
    }

    /// The display text of the color: the same `#rrggbb` as [`Color::to_css_hex`].
    pub fn to_string(&self) -> (s: String)
        ensures
            s@ == css_hex_text(*self),
    {
        self.to_css_hex()
    }
}

/// The value of a hexadecimal digit, or `None` for any other character.
fn hex_digit(c: char) -> (d: Option<u8>)
    ensures
        d is Some <==> is_hex_digit(c),
        d matches Some(v) ==> v as nat == hex_digit_value(c) && v < 16,
{
    let u = c as u32;
    if 48 <= u && u <= 57 {
        Some((u - 48) as u8)
    } else if 97 <= u && u <= 102 {
        Some((u - 87) as u8)
    } else if 65 <= u && u <= 70 {
        Some((u - 55) as u8)
    } else {
        None
    }
}

proof fn lemma_hex_value_step(s: Seq<char>, i: int)
    requires
        0 <= i < s.len(),
    ensures
        hex_value(s.subrange(0, i + 1)) == hex_value(s.subrange(0, i)) * 16 + hex_digit_value(s[i]),
{
    assert(s.subrange(0, i + 1).drop_last() =~= s.subrange(0, i));
}

/// Parse the characters `from..to` of `s` as a base-16 number of at most six digits.
fn parse_hex(s: &str, from: usize, to: usize) -> (res: Option<u32>)
    requires
        from <= to <= s@.len(),
        to - from <= 6,
    ensures
        res is Some <==> all_hex_digits(s@.subrange(from as int, to as int)),
        res matches Some(v) ==> v as nat == hex_value(s@.subrange(from as int, to as int)),
{
    let ghost t = s@.subrange(from as int, to as int);
    let mut v: u32 = 0;
    let mut i = from;
    proof {
        reveal_with_fuel(pow16, 7);
    }
    assert(pow16(6) == 16777216);
    while i < to
        invariant
            from <= i <= to <= s@.len(),
            to - from <= 6,
            t == s@.subrange(from as int, to as int),
            pow16(6) == 16777216,
            all_hex_digits(t.subrange(0, i - from)),
            v as nat == hex_value(t.subrange(0, i - from)),
            (v as nat) < pow16((i - from) as nat),
        decreases to - i,
    {
        let c = s.get_char(i);
        assert(c == t[i - from]);
        match hex_digit(c) {
            Some(d) => {
                proof {
                    lemma_hex_value_step(t, i - from);
                    lemma_pow16_mono((i - from + 1) as nat, 6);
                    assert(t.subrange(0, i - from + 1) =~= t.subrange(0, i - from).push(c));
                }
                v = v * 16 + d as u32;
                i = i + 1;
            },
            None => {
                assert(!all_hex_digits(t));
                return None;
            },
        }
    }
    assert(t.subrange(0, to - from) =~= t);
    Some(v)
}

proof fn lemma_pow16_mono(a: nat, b: nat)
    requires
        a <= b,
    ensures
        pow16(a) <= pow16(b),
    decreases b,
{
    if a < b {
        lemma_pow16_mono(a, (b - 1) as nat);
    }
}

/// Append the two lowercase hexadecimal digits of `b` to `s`.
fn push_hex_byte(s: &mut String, b: u8)
    ensures
        final(s)@ == old(s)@ + hex_byte_text(b),
{
    let digits = "0123456789abcdef";
    proof {
        reveal_strlit("0123456789abcdef");
    }
    let hi = (b / 16) as usize;
    let lo = (b % 16) as usize;
    let hi_text = digits.substring_char(hi, hi + 1);
    let lo_text = digits.substring_char(lo, lo + 1);
    s.append(hi_text);
    s.append(lo_text);
    assert(hi_text@ =~= seq![lower_hex_char(hi as nat)]);
    assert(lo_text@ =~= seq![lower_hex_char(lo as nat)]);
    assert(final(s)@ =~= old(s)@ + hex_byte_text(b));
}

// ── ColorAlpha ───────────────────────────────────────────────────────────────

/// 8-bit RGBA color with **straight** (non-premultiplied) alpha.
#[derive(Debug, Clone, Copy, PartialEq, Eq, Hash, Structural)]
pub struct ColorAlpha {
    /// Red channel, 0–255.
    pub r: u8,
    /// Green channel, 0–255.
    pub g: u8,
    /// Blue channel, 0–255.
    pub b: u8,
    /// Alpha channel, 0–255 (0 = transparent, 255 = opaque).
    pub a: u8,
}

impl ColorAlpha {
    /// Opaque black.
    #[allow(non_snake_case)]
    pub fn BLACK() -> (c: ColorAlpha)
        ensures
            c == (ColorAlpha { r: 0, g: 0, b: 0, a: 255 }),
    {
        ColorAlpha { r: 0, g: 0, b: 0, a: 255 }
    }

    /// Opaque white.
    #[allow(non_snake_case)]
    pub fn WHITE() -> (c: ColorAlpha)
        ensures
            c == (ColorAlpha { r: 255, g: 255, b: 255, a: 255 }),
    {
        ColorAlpha { r: 255, g: 255, b: 255, a: 255 }
    }

    /// Opaque red.
    #[allow(non_snake_case)]
    pub fn RED() -> (c: ColorAlpha)
        ensures
            c == (ColorAlpha { r: 255, g: 0, b: 0, a: 255 }),
    {
        ColorAlpha { r: 255, g: 0, b: 0, a: 255 }
    }

    /// Opaque green.
    #[allow(non_snake_case)]
    pub fn GREEN() -> (c: ColorAlpha)
        ensures
            c == (ColorAlpha { r: 0, g: 255, b: 0, a: 255 }),
    {
        ColorAlpha { r: 0, g: 255, b: 0, a: 255 }
    }

    /// Opaque blue.
    #[allow(non_snake_case)]
    pub fn BLUE() -> (c: ColorAlpha)
        ensures
            c == (ColorAlpha { r: 0, g: 0, b: 255, a: 255 }),
    {
        ColorAlpha { r: 0, g: 0, b: 255, a: 255 }
    }

    /// Construct from individual 8-bit channels.
    pub fn new(r: u8, g: u8, b: u8, a: u8) -> (c: ColorAlpha)
        ensures
            c == (ColorAlpha { r, g, b, a }),
    {
        ColorAlpha { r, g, b, a }
    }

    /// Construct from a packed 32-bit `0xAARRGGBB` hex literal.
    pub fn from_hex(hex: u32) -> (c: ColorAlpha)
        ensures
            c == argb32(hex as nat),
    {
        let rgb = Color::from_hex(hex);
        let a = (hex >> 24u32) as u8;
        assert((hex >> 24u32) == hex / 16777216) by (bit_vector);
        ColorAlpha { r: rgb.r, g: rgb.g, b: rgb.b, a }
    }

    /// Strip the alpha channel, returning a plain [`Color`].
    pub fn without_alpha(self) -> (c: Color)
        ensures
            c == opaque_of(self),
    {
        Color { r: self.r, g: self.g, b: self.b }
    }
}

// ── laws ─────────────────────────────────────────────────────────────────────

proof fn lemma_lower_hex_char(d: nat)
    requires
        d < 16,
    ensures
        is_hex_digit(lower_hex_char(d)),
        hex_digit_value(lower_hex_char(d)) == d,
{
}

proof fn lemma_hex_value_six(h: Seq<char>)
    requires
        h.len() == 6,
    ensures
        hex_value(h) == ((((hex_digit_value(h[0]) * 16 + hex_digit_value(h[1])) * 16
            + hex_digit_value(h[2])) * 16 + hex_digit_value(h[3])) * 16 + hex_digit_value(h[4]))
            * 16 + hex_digit_value(h[5]),
{
    reveal_with_fuel(hex_value, 7);
    assert(h.drop_last().drop_last().drop_last().drop_last().drop_last().drop_last() =~= Seq::<
        char,
    >::empty());
}

proof fn lemma_rgb24_of_channels(r: u8, g: u8, b: u8)
    ensures
        rgb24((r as nat) * 65536 + (g as nat) * 256 + (b as nat)) == (Color { r, g, b }),
{
    let v = (r as nat) * 65536 + (g as nat) * 256 + (b as nat);
    assert(v / 65536 == r as nat && v % 65536 == (g as nat) * 256 + (b as nat)) by (nonlinear_arith)
        requires
            v == (r as nat) * 65536 + (g as nat) * 256 + (b as nat),
            r < 256,
            g < 256,
            b < 256,
    ;
    assert(v / 256 == (r as nat) * 256 + (g as nat) && v % 256 == b as nat) by (nonlinear_arith)
        requires
            v == (r as nat) * 65536 + (g as nat) * 256 + (b as nat),
            r < 256,
            g < 256,
            b < 256,
    ;
    assert(((r as nat) * 256 + (g as nat)) % 256 == g as nat) by (nonlinear_arith)
        requires
            g < 256,
    ;
}

proof fn lemma_byte_digits(x: u8)
    ensures
        (x / 16) as nat * 16 + (x % 16) as nat == x as nat,
        x / 16 < 16,
        x % 16 < 16,
{
}

/// Formatting a color as CSS hex text and parsing the text back gives the
/// same color.
pub proof fn css_hex_roundtrip(c: Color)
    ensures
        css_hex_color(css_hex_text(c)) == Some(c),
{
    let t = css_hex_text(c);
    let h = css_hex_digits(t);
    assert(h =~= hex_byte_text(c.r) + hex_byte_text(c.g) + hex_byte_text(c.b));
    lemma_byte_digits(c.r);
    lemma_byte_digits(c.g);
    lemma_byte_digits(c.b);
    lemma_lower_hex_char((c.r / 16) as nat);
    lemma_lower_hex_char((c.r % 16) as nat);
    lemma_lower_hex_char((c.g / 16) as nat);
    lemma_lower_hex_char((c.g % 16) as nat);
    lemma_lower_hex_char((c.b / 16) as nat);
    lemma_lower_hex_char((c.b % 16) as nat);
    assert(all_hex_digits(h)) by {
        assert forall|i: int| 0 <= i < h.len() implies is_hex_digit(#[trigger] h[i]) by {
            assert(0 <= i < 6);
        }
    }
    lemma_hex_value_six(h);
    let (r, g, b) = (c.r as nat, c.g as nat, c.b as nat);
    assert(hex_value(h) == r * 65536 + g * 256 + b) by (nonlinear_arith)
        requires
            hex_value(h) == (((((c.r / 16) as nat * 16 + (c.r % 16) as nat) * 16 + (c.g / 16) as nat)
                * 16 + (c.g % 16) as nat) * 16 + (c.b / 16) as nat) * 16 + (c.b % 16) as nat,
            (c.r / 16) as nat * 16 + (c.r % 16) as nat == r,
            (c.g / 16) as nat * 16 + (c.g % 16) as nat == g,
            (c.b / 16) as nat * 16 + (c.b % 16) as nat == b,
    ;
    lemma_rgb24_of_channels(c.r, c.g, c.b);
}

/// The short CSS form `#rgb` denotes the same color as the long form
/// `#rrggbb` with every digit doubled.
pub proof fn css_hex_short_form_doubles_digits(x: char, y: char, z: char)
    requires
        is_hex_digit(x),
        is_hex_digit(y),
        is_hex_digit(z),
    ensures
        css_hex_color(seq!['#', x, y, z]) == css_hex_color(seq!['#', x, x, y, y, z, z]),
        css_hex_color(seq!['#', x, y, z]) is Some,
{
    let short = seq!['#', x, y, z];
    let long = seq!['#', x, x, y, y, z, z];
    let hs = css_hex_digits(short);
    let hl = css_hex_digits(long);
    assert(hs =~= seq![x, y, z]);
    assert(hl =~= seq![x, x, y, y, z, z]);
    assert(all_hex_digits(hs)) by {
        assert forall|i: int| 0 <= i < hs.len() implies is_hex_digit(#[trigger] hs[i]) by {
            assert(0 <= i < 3);
        }
    }
    assert(all_hex_digits(hl)) by {
        assert forall|i: int| 0 <= i < hl.len() implies is_hex_digit(#[trigger] hl[i]) by {
            assert(0 <= i < 6);
        }
    }
    lemma_hex_value_six(hl);
    let (a, b, c) = (hex_digit_value(x), hex_digit_value(y), hex_digit_value(z));
    assert(a < 16 && b < 16 && c < 16);
    let ra = (a * 17) as u8;
    let gb = (b * 17) as u8;
    let bc = (c * 17) as u8;
    assert(hex_value(hl) == (ra as nat) * 65536 + (gb as nat) * 256 + (bc as nat)) by (nonlinear_arith)
        requires
            hex_value(hl) == ((((a * 16 + a) * 16 + b) * 16 + b) * 16 + c) * 16 + c,
            a < 16,
            b < 16,
            c < 16,
            ra as nat == a * 17,
            gb as nat == b * 17,
            bc as nat == c * 17,
    ;
    lemma_rgb24_of_channels(ra, gb, bc);
}

/// Adding an alpha channel and stripping it again gives the original color,
/// and stripping the alpha of a color and adding the same alpha back gives
/// the original translucent color.
pub proof fn alpha_roundtrip(c: Color, a: u8, ca: ColorAlpha)
    ensures
        opaque_of(alpha_of(c, a)) == c,
        alpha_of(opaque_of(ca), ca.a) == ca,
{
}

/// A packed `0xAARRGGBB` value carries the color `0xRRGGBB` in its low bits:
/// stripping the alpha of the translucent color gives the opaque color of
/// the same value.
pub proof fn packed_alpha_layout(v: nat)
    ensures
        opaque_of(argb32(v)) == rgb24(v),
{
}


// ── letter case and packing ──────────────────────────────────────────────────

/// The ASCII upper-case form of `c`: `a-z` become `A-Z`, every other
/// character stays as it is.
pub open spec fn ascii_upper(c: char) -> char {
    let u = c as u32;
    if 97 <= u && u <= 122 {
        ((u - 32) as u32) as char
    } else {
        c
    }
}

/// The ASCII upper-case form of every character of `s`.
pub open spec fn upper_text(s: Seq<char>) -> Seq<char> {
    s.map_values(|c: char| ascii_upper(c))
}

proof fn lemma_upper_digit(c: char)
    ensures
        is_hex_digit(ascii_upper(c)) == is_hex_digit(c),
        hex_digit_value(ascii_upper(c)) == hex_digit_value(c),
{
}

proof fn lemma_upper_hex_value(s: Seq<char>)
    ensures
        hex_value(upper_text(s)) == hex_value(s),
        all_hex_digits(upper_text(s)) == all_hex_digits(s),
    decreases s.len(),
{
    let u = upper_text(s);
    assert forall|i: int| 0 <= i < s.len() implies is_hex_digit(#[trigger] u[i]) == is_hex_digit(
        s[i],
    ) by {
        lemma_upper_digit(s[i]);
    }
    if s.len() > 0 {
        assert(u.drop_last() =~= upper_text(s.drop_last()));
        lemma_upper_hex_value(s.drop_last());
        lemma_upper_digit(s.last());
        if all_hex_digits(s) {
            assert(all_hex_digits(u));
        } else {
            let k = choose|k: int| 0 <= k < s.len() && !is_hex_digit(#[trigger] s[k]);
            assert(!is_hex_digit(u[k]));
        }
    } else {
        assert(all_hex_digits(u) && all_hex_digits(s));
    }
}

/// Letter case does not matter in CSS hex text: upper-casing every letter
/// of the text gives the same color, or no color in both cases. Together
/// with [`css_hex_roundtrip`] this makes every text of six digits `0-9`,
/// `a-f`, `A-F` (after an optional `#`) a color.
pub proof fn css_hex_ignores_letter_case(s: Seq<char>)
    ensures
        css_hex_color(upper_text(s)) == css_hex_color(s),
{
    let u = upper_text(s);
    let h = css_hex_digits(s);
    let hu = css_hex_digits(u);
    assert(hu =~= upper_text(h)) by {
        if s.len() > 0 && s[0] == '#' {
            assert(u[0] == '#');
        } else if s.len() > 0 {
            lemma_upper_digit(s[0]);
            assert(u[0] != '#');
        }
    }
    lemma_upper_hex_value(h);
    if h.len() == 3 {
        lemma_upper_digit(h[0]);
        lemma_upper_digit(h[1]);
        lemma_upper_digit(h[2]);
    }
}

/// The digits `A-F` are hexadecimal digits worth 10 to 15, like `a-f`.
pub proof fn upper_hex_letters_have_their_values(k: nat)
    requires
        k < 6,
    ensures
        is_hex_digit(((65 + k) as u32) as char),
        hex_digit_value(((65 + k) as u32) as char) == 10 + k,
        is_hex_digit(((97 + k) as u32) as char),
        hex_digit_value(((97 + k) as u32) as char) == 10 + k,
{
}

/// Packing four bytes as `0xAARRGGBB` and unpacking gives them back: every
/// channel, alpha included, is a whole byte of the packed value.
pub proof fn argb32_unpacks_channels(r: u8, g: u8, b: u8, a: u8)
    ensures
        argb32((a as nat) * 16777216 + (r as nat) * 65536 + (g as nat) * 256 + (b as nat))
            == (ColorAlpha { r, g, b, a }),
{
    let low = (r as nat) * 65536 + (g as nat) * 256 + (b as nat);
    let v = (a as nat) * 16777216 + low;
    assert(low < 16777216) by (nonlinear_arith)
        requires
            low == (r as nat) * 65536 + (g as nat) * 256 + (b as nat),
            r < 256,
            g < 256,
            b < 256,
    ;
    assert(v / 16777216 == a as nat && v % 16777216 == low) by (nonlinear_arith)
        requires
            v == (a as nat) * 16777216 + low,
            low < 16777216,
    ;
    assert(v / 65536 == (a as nat) * 256 + (r as nat) && v / 256 == ((a as nat) * 256 + (r as nat))
        * 256 + (g as nat) && v % 256 == b as nat) by (nonlinear_arith)
        requires
            v == (a as nat) * 16777216 + (r as nat) * 65536 + (g as nat) * 256 + (b as nat),
            r < 256,
            g < 256,
            b < 256,
    ;
    assert(((a as nat) * 256 + (r as nat)) % 256 == r as nat) by (nonlinear_arith)
        requires
            r < 256,
    ;
    assert((((a as nat) * 256 + (r as nat)) * 256 + (g as nat)) % 256 == g as nat) by (
    nonlinear_arith)
        requires
            g < 256,
    ;
}

/// Packing three bytes as `0xRRGGBB` and unpacking gives them back, and bits
/// above the low 24 do not change the color.
pub proof fn rgb24_unpacks_channels(r: u8, g: u8, b: u8, high: nat)
    ensures
        rgb24((r as nat) * 65536 + (g as nat) * 256 + (b as nat)) == (Color { r, g, b }),
        rgb24(high * 16777216 + (r as nat) * 65536 + (g as nat) * 256 + (b as nat)) == (Color {
            r,
            g,
            b,
        }),
{
    lemma_rgb24_of_channels(r, g, b);
    let low = (r as nat) * 65536 + (g as nat) * 256 + (b as nat);
    let v = high * 16777216 + low;
    assert(v / 65536 == high * 256 + (r as nat) && v / 256 == (high * 256 + (r as nat)) * 256
        + (g as nat) && v % 256 == b as nat) by (nonlinear_arith)
        requires
            v == high * 16777216 + (r as nat) * 65536 + (g as nat) * 256 + (b as nat),
            r < 256,
            g < 256,
            b < 256,
    ;
    assert((high * 256 + (r as nat)) % 256 == r as nat) by (nonlinear_arith)
        requires
            r < 256,
    ;
    assert(((high * 256 + (r as nat)) * 256 + (g as nat)) % 256 == g as nat) by (nonlinear_arith)
        requires
            g < 256,
    ;
}

/// The outline color keeps 70% of each channel, rounded down: every channel
/// `d` of the darker color of `c` satisfies `d ≤ 0.7·c < d + 1`.
pub proof fn darker_keeps_seventy_percent(c: Color)
    ensures
        10 * (darker_of(c).r as nat) <= 7 * (c.r as nat) < 10 * (darker_of(c).r as nat) + 10,
        10 * (darker_of(c).g as nat) <= 7 * (c.g as nat) < 10 * (darker_of(c).g as nat) + 10,
        10 * (darker_of(c).b as nat) <= 7 * (c.b as nat) < 10 * (darker_of(c).b as nat) + 10,
{
}

} // verus!
