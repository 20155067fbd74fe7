//! CSS colour normalisation: any colour that `csscolorparser` understands is
//! written as lower-case `#rrggbb` (or `#rrggbbaa` when not opaque); any other
//! text is kept as it is. What the parser reads from a text is stated exactly
//! for CSS hex notation; for other texts only what holds of every answer.

use vstd::prelude::*;
use csscolorparser::ParseColorError;
use crate::text::push_char;

verus! {

#[verifier::external_type_specification]
#[verifier::external_body]
pub struct ExParseColorError(ParseColorError);

/// A colour as four bytes: red, green, blue and alpha (255 is opaque).
#[derive(Clone, Copy, Debug, PartialEq, Eq, Structural)]
pub struct Rgba8 {
    pub r: u8,
    pub g: u8,
    pub b: u8,
    pub a: u8,
}

/// An ASCII hexadecimal digit, either case.
pub open spec fn is_hex_char(c: char) -> bool {
    ('0' <= c <= '9') || ('a' <= c <= 'f') || ('A' <= c <= 'F')
}

/// The value of an ASCII hexadecimal digit.
pub open spec fn hex_value(c: char) -> int {
    if '0' <= c <= '9' {
        c as int - 48
    } else if 'a' <= c <= 'f' {
        c as int - 87
    } else {
        c as int - 55
    }
}

/// The byte written as the two hex digits at `i` and `i + 1`.
pub open spec fn hex_pair(s: Seq<char>, i: int) -> u8 {
    (hex_value(s[i]) * 16 + hex_value(s[i + 1])) as u8
}

/// The byte written as the one hex digit at `i` (`f` is `ff`).
pub open spec fn hex_single(s: Seq<char>, i: int) -> u8 {
    (hex_value(s[i]) * 17) as u8
}

/// The colour that CSS hex notation writes: `#` and 3, 4, 6 or 8 hex digits
/// (`#rgb`, `#rgba`, `#rrggbb`, `#rrggbbaa`); `None` for any other text.
pub open spec fn hex_notation(s: Seq<char>) -> Option<Rgba8> {
    if s.len() >= 1 && s[0] == '#' && forall|i: int| 1 <= i < s.len() ==> is_hex_char(#[trigger] s[i]) {
        let n = s.len() - 1;
        if n == 3 || n == 4 {
            Some(Rgba8 {
                r: hex_single(s, 1),
                g: hex_single(s, 2),
                b: hex_single(s, 3),
                a: if n == 4 { hex_single(s, 4) } else { 255 },
            })
        } else if n == 6 || n == 8 {
            Some(Rgba8 {
                r: hex_pair(s, 1),
                g: hex_pair(s, 3),
                b: hex_pair(s, 5),
                a: if n == 8 { hex_pair(s, 7) } else { 255 },
            })
        } else {
            None
        }
    } else {
        None
    }
}

/// Parses `s` with `csscolorparser::parse` and converts the colour with
/// `Color::to_rgba8`. Claimed, each from the crate's `parse_abs` path that
/// uses basic arithmetic only (channels built as `x / 255` and read back by
/// `x * 255 + 0.5`, truncated, which returns `x`):
/// - CSS hex notation (`#` and 3, 4, 6 or 8 hex digits, `parse_hex`) parses
///   to the bytes it writes;
/// - a named colour of the crate's table (`NAMED_COLORS`, ASCII case
///   ignored) parses to its bytes, opaque;
/// - `rgb(r, g, b)` with decimal channels up to 255 parses to those bytes,
///   opaque, and `rgba(r, g, b, a)` with a decimal alpha parses to those
///   channel bytes (the alpha byte comes from `f32` arithmetic and is not
///   stated); a comma and any spaces may separate the values.
/// Which other texts parse, and to which bytes, is not stated: other formats
/// go through floating-point functions whose results are not promised to be
/// the same on every call.
#[verifier::external_body]
fn parse_rgba8(s: &str) -> (res: Result<Rgba8, ParseColorError>)
    ensures
        admissible_parse(
            s@,
            match res {
                Ok(c) => Some(c),
                Err(_) => None,
            },
        ),
{
    match csscolorparser::parse(s) {
        Ok(c) => {
            let [r, g, b, a] = c.to_rgba8();
            Ok(Rgba8 { r, g, b, a })
        },
        Err(e) => Err(e),
    }
}

/// The lower-case hexadecimal digit of `n` (0 to 15).
pub open spec fn hex_digit(n: int) -> char {
    if n < 10 {
        (n + 48) as char
    } else {
        (n + 87) as char
    }
}

/// A byte as two lower-case hexadecimal digits, as `{:02x}` prints it.
pub open spec fn byte_hex(b: u8) -> Seq<char> {
    seq![hex_digit(b as int / 16), hex_digit(b as int % 16)]
}

/// CSS hex notation of a colour: `#rrggbb` when opaque, else `#rrggbbaa`.
pub open spec fn css_hex(c: Rgba8) -> Seq<char> {
    seq!['#'] + byte_hex(c.r) + byte_hex(c.g) + byte_hex(c.b) + if c.a < 255 {
        byte_hex(c.a)
    } else {
        Seq::<char>::empty()
    }
}

/// The colour `c` with its alpha byte replaced.
pub open spec fn with_alpha(c: Rgba8, a: u8) -> Rgba8 {
    Rgba8 { a: a, ..c }
}

/// The decimal digit character of `d` (0 to 9).
pub open spec fn decimal_digit(d: int) -> char {
    (d + 48) as char
}

/// `n` written in decimal, without leading zeros.
pub open spec fn decimal(n: nat) -> Seq<char>
    decreases n,
{
    if n < 10 {
        seq![decimal_digit(n as int)]
    } else {
        decimal(n / 10) + seq![decimal_digit((n % 10) as int)]
    }
}

/// A comma followed by `k` spaces.
pub open spec fn value_separator(k: nat) -> Seq<char> {
    seq![','] + Seq::new(k, |i: int| ' ')
}

/// Decimal digits, optionally followed by `.` and more digits.
pub open spec fn is_decimal_number(t: Seq<char>) -> bool {
    exists|i: int|
        #![trigger t.take(i)]
        0 < i <= t.len() && (forall|j: int| 0 <= j < i ==> '0' <= #[trigger] t[j] <= '9') && (i
            == t.len() || (t[i] == '.' && i + 1 < t.len() && forall|j: int|
            i < j < t.len() ==> '0' <= #[trigger] t[j] <= '9'))
}

/// `rgb(r, g, b)` with decimal channels; `k1` and `k2` spaces follow the commas.
pub open spec fn rgb_text(r: u8, g: u8, b: u8, k1: nat, k2: nat) -> Seq<char> {
    seq!['r', 'g', 'b', '('] + decimal(r as nat) + value_separator(k1) + decimal(g as nat)
        + value_separator(k2) + decimal(b as nat) + seq![')']
}

/// `rgba(r, g, b, alpha)` with decimal channels and the alpha text `alpha`.
pub open spec fn rgba_text(
    r: u8,
    g: u8,
    b: u8,
    alpha: Seq<char>,
    k1: nat,
    k2: nat,
    k3: nat,
) -> Seq<char> {
    seq!['r', 'g', 'b', 'a', '('] + decimal(r as nat) + value_separator(k1) + decimal(g as nat)
        + value_separator(k2) + decimal(b as nat) + value_separator(k3) + alpha + seq![')']
}

/// ASCII letters in lower case, other characters kept.
pub open spec fn ascii_lowercase(s: Seq<char>) -> Seq<char> {
    s.map_values(|c: char| if 'A' <= c <= 'Z' { ((c as int) + 32) as char } else { c })
}

/// The bytes of a CSS named colour, by its lower-case name.
#[verifier::opaque]
pub open spec fn named_color_rgb(name: Seq<char>) -> Option<(u8, u8, u8)> {
    if name == "aliceblue"@ {
        Some((240, 248, 255))
    } else if name == "antiquewhite"@ {
        Some((250, 235, 215))
    } else if name == "aqua"@ {
        Some((0, 255, 255))
    } else if name == "aquamarine"@ {
        Some((127, 255, 212))
    } else if name == "azure"@ {
        Some((240, 255, 255))
    } else if name == "beige"@ {
        Some((245, 245, 220))
    } else if name == "bisque"@ {
        Some((255, 228, 196))
    } else if name == "black"@ {
        Some((0, 0, 0))
    } else if name == "blanchedalmond"@ {
        Some((255, 235, 205))
    } else if name == "blue"@ {
        Some((0, 0, 255))
    } else if name == "blueviolet"@ {
        Some((138, 43, 226))
    } else if name == "brown"@ {
        Some((165, 42, 42))
    } else if name == "burlywood"@ {
        Some((222, 184, 135))
    } else if name == "cadetblue"@ {
        Some((95, 158, 160))
    } else if name == "chartreuse"@ {
        Some((127, 255, 0))
    } else if name == "chocolate"@ {
        Some((210, 105, 30))
    } else if name == "coral"@ {
        Some((255, 127, 80))
    } else if name == "cornflowerblue"@ {
        Some((100, 149, 237))
    } else if name == "cornsilk"@ {
        Some((255, 248, 220))
    } else if name == "crimson"@ {
        Some((220, 20, 60))
    } else if name == "cyan"@ {
        Some((0, 255, 255))
    } else if name == "darkblue"@ {
        Some((0, 0, 139))
    } else if name == "darkcyan"@ {
        Some((0, 139, 139))
    } else if name == "darkgoldenrod"@ {
        Some((184, 134, 11))
    } else if name == "darkgray"@ {
        Some((169, 169, 169))
    } else if name == "darkgreen"@ {
        Some((0, 100, 0))
    } else if name == "darkgrey"@ {
        Some((169, 169, 169))
    } else if name == "darkkhaki"@ {
        Some((189, 183, 107))
    } else if name == "darkmagenta"@ {
        Some((139, 0, 139))
    } else if name == "darkolivegreen"@ {
        Some((85, 107, 47))
    } else if name == "darkorange"@ {
        Some((255, 140, 0))
    } else if name == "darkorchid"@ {
        Some((153, 50, 204))
    } else if name == "darkred"@ {
        Some((139, 0, 0))
    } else if name == "darksalmon"@ {
        Some((233, 150, 122))
    } else if name == "darkseagreen"@ {
        Some((143, 188, 143))
    } else if name == "darkslateblue"@ {
        Some((72, 61, 139))
    } else if name == "darkslategray"@ {
        Some((47, 79, 79))
    } else if name == "darkslategrey"@ {
        Some((47, 79, 79))
    } else if name == "darkturquoise"@ {
        Some((0, 206, 209))
    } else if name == "darkviolet"@ {
        Some((148, 0, 211))
    } else if name == "deeppink"@ {
        Some((255, 20, 147))
    } else if name == "deepskyblue"@ {
        Some((0, 191, 255))
    } else if name == "dimgray"@ {
        Some((105, 105, 105))
    } else if name == "dimgrey"@ {
        Some((105, 105, 105))
    } else if name == "dodgerblue"@ {
        Some((30, 144, 255))
    } else if name == "firebrick"@ {
        Some((178, 34, 34))
    } else if name == "floralwhite"@ {
        Some((255, 250, 240))
    } else if name == "forestgreen"@ {
        Some((34, 139, 34))
    } else if name == "fuchsia"@ {
        Some((255, 0, 255))
    } else if name == "gainsboro"@ {
        Some((220, 220, 220))
    } else if name == "ghostwhite"@ {
        Some((248, 248, 255))
    } else if name == "gold"@ {
        Some((255, 215, 0))
    } else if name == "goldenrod"@ {
        Some((218, 165, 32))
    } else if name == "gray"@ {
        Some((128, 128, 128))
    } else if name == "green"@ {
        Some((0, 128, 0))
    } else if name == "greenyellow"@ {
        Some((173, 255, 47))
    } else if name == "grey"@ {
        Some((128, 128, 128))
    } else if name == "honeydew"@ {
        Some((240, 255, 240))
    } else if name == "hotpink"@ {
        Some((255, 105, 180))
    } else if name == "indianred"@ {
        Some((205, 92, 92))
    } else if name == "indigo"@ {
        Some((75, 0, 130))
    } else if name == "ivory"@ {
        Some((255, 255, 240))
    } else if name == "khaki"@ {
        Some((240, 230, 140))
    } else if name == "lavender"@ {
        Some((230, 230, 250))
    } else if name == "lavenderblush"@ {
        Some((255, 240, 245))
    } else if name == "lawngreen"@ {
        Some((124, 252, 0))
    } else if name == "lemonchiffon"@ {
        Some((255, 250, 205))
    } else if name == "lightblue"@ {
        Some((173, 216, 230))
    } else if name == "lightcoral"@ {
        Some((240, 128, 128))
    } else if name == "lightcyan"@ {
        Some((224, 255, 255))
    } else if name == "lightgoldenrodyellow"@ {
        Some((250, 250, 210))
    } else if name == "lightgray"@ {
        Some((211, 211, 211))
    } else if name == "lightgreen"@ {
        Some((144, 238, 144))
    } else if name == "lightgrey"@ {
        Some((211, 211, 211))
    } else if name == "lightpink"@ {
        Some((255, 182, 193))
    } else if name == "lightsalmon"@ {
        Some((255, 160, 122))
    } else if name == "lightseagreen"@ {
        Some((32, 178, 170))
    } else if name == "lightskyblue"@ {
        Some((135, 206, 250))
    } else if name == "lightslategray"@ {
        Some((119, 136, 153))
    } else if name == "lightslategrey"@ {
        Some((119, 136, 153))
    } else if name == "lightsteelblue"@ {
        Some((176, 196, 222))
    } else if name == "lightyellow"@ {
        Some((255, 255, 224))
    } else if name == "lime"@ {
        Some((0, 255, 0))
    } else if name == "limegreen"@ {
        Some((50, 205, 50))
    } else if name == "linen"@ {
        Some((250, 240, 230))
    } else if name == "magenta"@ {
        Some((255, 0, 255))
    } else if name == "maroon"@ {
        Some((128, 0, 0))
    } else if name == "mediumaquamarine"@ {
        Some((102, 205, 170))
    } else if name == "mediumblue"@ {
        Some((0, 0, 205))
    } else if name == "mediumorchid"@ {
        Some((186, 85, 211))
    } else if name == "mediumpurple"@ {
        Some((147, 112, 219))
    } else if name == "mediumseagreen"@ {
        Some((60, 179, 113))
    } else if name == "mediumslateblue"@ {
        Some((123, 104, 238))
    } else if name == "mediumspringgreen"@ {
        Some((0, 250, 154))
    } else if name == "mediumturquoise"@ {
        Some((72, 209, 204))
    } else if name == "mediumvioletred"@ {
        Some((199, 21, 133))
    } else if name == "midnightblue"@ {
        Some((25, 25, 112))
    } else if name == "mintcream"@ {
        Some((245, 255, 250))
    } else if name == "mistyrose"@ {
        Some((255, 228, 225))
    } else if name == "moccasin"@ {
        Some((255, 228, 181))
    } else if name == "navajowhite"@ {
        Some((255, 222, 173))
    } else if name == "navy"@ {
        Some((0, 0, 128))
    } else if name == "oldlace"@ {
        Some((253, 245, 230))
    } else if name == "olive"@ {
        Some((128, 128, 0))
    } else if name == "olivedrab"@ {
        Some((107, 142, 35))
    } else if name == "orange"@ {
        Some((255, 165, 0))
    } else if name == "orangered"@ {
        Some((255, 69, 0))
    } else if name == "orchid"@ {
        Some((218, 112, 214))
    } else if name == "palegoldenrod"@ {
        Some((238, 232, 170))
    } else if name == "palegreen"@ {
        Some((152, 251, 152))
    } else if name == "paleturquoise"@ {
        Some((175, 238, 238))
    } else if name == "palevioletred"@ {
        Some((219, 112, 147))
    } else if name == "papayawhip"@ {
        Some((255, 239, 213))
    } else if name == "peachpuff"@ {
        Some((255, 218, 185))
    } else if name == "peru"@ {
        Some((205, 133, 63))
    } else if name == "pink"@ {
        Some((255, 192, 203))
    } else if name == "plum"@ {
        Some((221, 160, 221))
    } else if name == "powderblue"@ {
        Some((176, 224, 230))
    } else if name == "purple"@ {
        Some((128, 0, 128))
    } else if name == "rebeccapurple"@ {
        Some((102, 51, 153))
    } else if name == "red"@ {
        Some((255, 0, 0))
    } else if name == "rosybrown"@ {
        Some((188, 143, 143))
    } else if name == "royalblue"@ {
        Some((65, 105, 225))
    } else if name == "saddlebrown"@ {
        Some((139, 69, 19))
    } else if name == "salmon"@ {
        Some((250, 128, 114))
    } else if name == "sandybrown"@ {
        Some((244, 164, 96))
    } else if name == "seagreen"@ {
        Some((46, 139, 87))
    } else if name == "seashell"@ {
        Some((255, 245, 238))
    } else if name == "sienna"@ {
        Some((160, 82, 45))
    } else if name == "silver"@ {
        Some((192, 192, 192))
    } else if name == "skyblue"@ {
        Some((135, 206, 235))
    } else if name == "slateblue"@ {
        Some((106, 90, 205))
    } else if name == "slategray"@ {
        Some((112, 128, 144))
    } else if name == "slategrey"@ {
        Some((112, 128, 144))
    } else if name == "snow"@ {
        Some((255, 250, 250))
    } else if name == "springgreen"@ {
        Some((0, 255, 127))
    } else if name == "steelblue"@ {
        Some((70, 130, 180))
    } else if name == "tan"@ {
        Some((210, 180, 140))
    } else if name == "teal"@ {
        Some((0, 128, 128))
    } else if name == "thistle"@ {
        Some((216, 191, 216))
    } else if name == "tomato"@ {
        Some((255, 99, 71))
    } else if name == "turquoise"@ {
        Some((64, 224, 208))
    } else if name == "violet"@ {
        Some((238, 130, 238))
    } else if name == "wheat"@ {
        Some((245, 222, 179))
    } else if name == "white"@ {
        Some((255, 255, 255))
    } else if name == "whitesmoke"@ {
        Some((245, 245, 245))
    } else if name == "yellow"@ {
        Some((255, 255, 0))
    } else if name == "yellowgreen"@ {
        Some((154, 205, 50))
    } else {
        None
    }
}

/// The bytes of the CSS named colour `s` (ASCII case ignored), if it is one.
pub open spec fn named_color(s: Seq<char>) -> Option<(u8, u8, u8)> {
    named_color_rgb(ascii_lowercase(s))
}

/// A possible answer of the parser to `s`: what the parser's code fixes for
/// hex notation, named colours and decimal `rgb()` / `rgba()`; any answer
/// for other text.
pub open spec fn admissible_parse(s: Seq<char>, p: Option<Rgba8>) -> bool {
    &&& hex_notation(s) matches Some(c) ==> p == Some(c)
    &&& named_color(s) matches Some((r, g, b)) ==> p == Some(Rgba8 { r, g, b, a: 255 })
    &&& forall|r: u8, g: u8, b: u8, k1: nat, k2: nat|
        s == #[trigger] rgb_text(r, g, b, k1, k2) ==> p == Some(Rgba8 { r, g, b, a: 255 })
    &&& forall|r: u8, g: u8, b: u8, alpha: Seq<char>, k1: nat, k2: nat, k3: nat|
        s == #[trigger] rgba_text(r, g, b, alpha, k1, k2, k3) && is_decimal_number(alpha) ==> (p
            matches Some(c) && c.r == r && c.g == g && c.b == b)
}

/// What normalising writes once the parser has answered `p` to `s`.
pub open spec fn normal_form(s: Seq<char>, p: Option<Rgba8>) -> Seq<char> {
    match p {
        Some(c) => css_hex(c),
        None => s,
    }
}

/// What normalising with alpha byte `a` writes once the parser has answered.
pub open spec fn alpha_form(s: Seq<char>, p: Option<Rgba8>, a: u8) -> Seq<char> {
    match p {
        Some(c) => css_hex(with_alpha(c, a)),
        None => s,
    }
}

/// `t` is what normalising `s` can give: the hex notation of the parser's
/// colour, or the text itself where the parser refuses it.
pub open spec fn is_normal_form_of(s: Seq<char>, t: Seq<char>) -> bool {
    exists|p: Option<Rgba8>| admissible_parse(s, p) && t == #[trigger] normal_form(s, p)
}

/// `t` is what normalising `s` with alpha byte `a` can give.
pub open spec fn is_alpha_form_of(s: Seq<char>, a: u8, t: Seq<char>) -> bool {
    exists|p: Option<Rgba8>| admissible_parse(s, p) && t == #[trigger] alpha_form(s, p, a)
}

fn hex_digit_char(n: u8) -> (c: char)
    requires
        n < 16,
    ensures
        c == hex_digit(n as int),
{
    if n < 10 {
        (n + 48) as char
    } else {
        (n + 87) as char
    }
}

fn push_byte_hex(s: &mut String, b: u8)
    ensures
        final(s)@ == old(s)@ + byte_hex(b),
{
    push_char(s, hex_digit_char(b / 16));
    push_char(s, hex_digit_char(b % 16));
    assert(final(s)@ =~= old(s)@ + byte_hex(b));
}

/// Writes a colour in CSS hex notation, as `csscolorparser`'s `to_css_hex` does.
pub fn to_css_hex(c: Rgba8) -> (r: String)
    ensures
        r@ == css_hex(c),
{
    let mut s = String::new();
    push_char(&mut s, '#');
    push_byte_hex(&mut s, c.r);
    push_byte_hex(&mut s, c.g);
    push_byte_hex(&mut s, c.b);
    if c.a < 255 {
        push_byte_hex(&mut s, c.a);
    }
    assert(s@ =~= css_hex(c));
    s
}

/// The rest of `hex` once the parser has answered: the hex notation of the
/// parsed colour, or `color_str` unchanged when it did not parse.
pub fn hex_from_parsed(color_str: &str, parsed: Option<Rgba8>) -> (r: String)
    ensures
        r@ == match parsed {
            Some(c) => css_hex(c),
            None => color_str@,
        },
{
    match parsed {
        Some(c) => to_css_hex(c),
        None => color_str.to_owned(),
    }
}

/// The rest of `alpha` once the parser has answered: the parsed colour with
/// alpha byte `a`, or `color_str` unchanged when it did not parse.
pub fn alpha_from_parsed(color_str: &str, parsed: Option<Rgba8>, a: u8) -> (r: String)
    ensures
        r@ == match parsed {
            Some(c) => css_hex(with_alpha(c, a)),
            None => color_str@,
        },
{
    match parsed {
        Some(c) => to_css_hex(Rgba8 { a: a, ..c }),
        None => color_str.to_owned(),
    }
}

/// Parses a colour string; `None` where `csscolorparser` refuses it.
pub fn parse_color(color_str: &str) -> (r: Option<Rgba8>)
    ensures
        admissible_parse(color_str@, r),
{
    match parse_rgba8(color_str) {
        Ok(c) => Some(c),
        Err(_) => None,
    }
}

/// Normalises a colour string: the CSS hex notation of the colour when it
/// parses, else the string unchanged.
pub fn hex(color_str: &str) -> (r: String)
    ensures
        is_normal_form_of(color_str@, r@),
{
    let parsed = parse_color(color_str);
    let r = hex_from_parsed(color_str, parsed);
    assert(r@ == normal_form(color_str@, parsed));
    r
}

/// Normalises a colour string with its alpha replaced by the byte `a`
/// (`a` is the alpha fraction scaled to 0..=255 as `Color::to_rgba8` scales
/// it); a string that does not parse is returned unchanged.
pub fn alpha(color_str: &str, a: u8) -> (r: String)
    ensures
        is_alpha_form_of(color_str@, a, r@),
{
    let parsed = parse_color(color_str);
    let r = alpha_from_parsed(color_str, parsed, a);
    assert(r@ == alpha_form(color_str@, parsed, a));
    r
}

/// A lower-case hexadecimal digit character.
pub open spec fn is_lower_hex_digit(c: char) -> bool {
    ('0' <= c <= '9') || ('a' <= c <= 'f')
}

proof fn lemma_hex_digit(n: int, m: int)
    requires
        0 <= n < 16,
        0 <= m < 16,
    ensures
        is_lower_hex_digit(hex_digit(n)),
        hex_digit(n) == hex_digit(m) ==> n == m,
{
}

proof fn lemma_byte_hex(b1: u8, b2: u8)
    ensures
        byte_hex(b1).len() == 2,
        is_lower_hex_digit(byte_hex(b1)[0]),
        is_lower_hex_digit(byte_hex(b1)[1]),
        byte_hex(b1) == byte_hex(b2) ==> b1 == b2,
{
    lemma_hex_digit(b1 as int / 16, b2 as int / 16);
    lemma_hex_digit(b1 as int % 16, b2 as int % 16);
    if byte_hex(b1) == byte_hex(b2) {
        assert(byte_hex(b1)[0] == byte_hex(b2)[0]);
        assert(byte_hex(b1)[1] == byte_hex(b2)[1]);
    }
}

/// The hex notation is `#` and six lower-case hex digits for an opaque colour,
/// eight for a translucent one.
pub proof fn lemma_css_hex_shape(c: Rgba8)
    ensures
        css_hex(c).len() == if c.a < 255 { 9int } else { 7int },
        css_hex(c)[0] == '#',
        forall|i: int| 1 <= i < css_hex(c).len() ==> is_lower_hex_digit(#[trigger] css_hex(c)[i]),
{
    lemma_byte_hex(c.r, c.r);
    lemma_byte_hex(c.g, c.g);
    lemma_byte_hex(c.b, c.b);
    lemma_byte_hex(c.a, c.a);
}

/// Distinct colours get distinct hex notations: the notation can be read back.
pub proof fn lemma_css_hex_injective(c1: Rgba8, c2: Rgba8)
    requires
        css_hex(c1) == css_hex(c2),
    ensures
        c1 == c2,
{
    lemma_css_hex_shape(c1);
    lemma_css_hex_shape(c2);
    let h = css_hex(c1);
    assert(h.subrange(1, 3) =~= byte_hex(c1.r));
    assert(h.subrange(3, 5) =~= byte_hex(c1.g));
    assert(h.subrange(5, 7) =~= byte_hex(c1.b));
    assert(css_hex(c2).subrange(1, 3) =~= byte_hex(c2.r));
    assert(css_hex(c2).subrange(3, 5) =~= byte_hex(c2.g));
    assert(css_hex(c2).subrange(5, 7) =~= byte_hex(c2.b));
    lemma_byte_hex(c1.r, c2.r);
    lemma_byte_hex(c1.g, c2.g);
    lemma_byte_hex(c1.b, c2.b);
    if c1.a < 255 {
        assert(h.subrange(7, 9) =~= byte_hex(c1.a));
        assert(css_hex(c2).subrange(7, 9) =~= byte_hex(c2.a));
        lemma_byte_hex(c1.a, c2.a);
    }
}

/// Replacing the alpha changes only the alpha: the `#rrggbb` part stays,
/// and the alpha digits appear exactly when the new alpha is below 255.
pub proof fn lemma_alpha_keeps_rgb(c: Rgba8, a: u8)
    ensures
        css_hex(with_alpha(c, a)).subrange(0, 7) == css_hex(c).subrange(0, 7),
        css_hex(with_alpha(c, a)).len() == if a < 255 { 9int } else { 7int },
        a < 255 ==> css_hex(with_alpha(c, a)).subrange(7, 9) == byte_hex(a),
        css_hex(with_alpha(c, 255)) == css_hex(c).subrange(0, 7),
{
    lemma_css_hex_shape(c);
    lemma_css_hex_shape(with_alpha(c, a));
    lemma_css_hex_shape(with_alpha(c, 255));
    assert(css_hex(with_alpha(c, a)).subrange(0, 7) =~= seq!['#'] + byte_hex(c.r) + byte_hex(c.g)
        + byte_hex(c.b));
    assert(css_hex(c).subrange(0, 7) =~= seq!['#'] + byte_hex(c.r) + byte_hex(c.g) + byte_hex(
        c.b,
    ));
    assert(css_hex(with_alpha(c, 255)) =~= seq!['#'] + byte_hex(c.r) + byte_hex(c.g) + byte_hex(
        c.b,
    ));
    if a < 255 {
        assert(css_hex(with_alpha(c, a)).subrange(7, 9) =~= byte_hex(a));
    }
}

/// The hex notation that normalising writes reads back as its colour.
#[verifier::spinoff_prover]
#[verifier::rlimit(40)]
pub proof fn lemma_css_hex_reads_back(c: Rgba8)
    ensures
        hex_notation(css_hex(c)) == Some(c),
{
    lemma_css_hex_shape(c);
    let h = css_hex(c);
    assert(h.subrange(1, 3) =~= byte_hex(c.r));
    assert(h.subrange(3, 5) =~= byte_hex(c.g));
    assert(h.subrange(5, 7) =~= byte_hex(c.b));
    assert(h[1] == hex_digit(c.r as int / 16) && h[2] == hex_digit(c.r as int % 16));
    assert(h[3] == hex_digit(c.g as int / 16) && h[4] == hex_digit(c.g as int % 16));
    assert(h[5] == hex_digit(c.b as int / 16) && h[6] == hex_digit(c.b as int % 16));
    assert(hex_pair(h, 1) == c.r);
    assert(hex_pair(h, 3) == c.g);
    assert(hex_pair(h, 5) == c.b);
    if c.a < 255 {
        assert(h.subrange(7, 9) =~= byte_hex(c.a));
        assert(h[7] == hex_digit(c.a as int / 16) && h[8] == hex_digit(c.a as int % 16));
        assert(hex_pair(h, 7) == c.a);
    }
}

/// Normalising is idempotent: normalising a result again gives it back,
/// unless the first call kept the text unchanged, in which case the second
/// gives what normalising the text can give.
pub proof fn lemma_normalize_idempotent(s: Seq<char>, t1: Seq<char>, t2: Seq<char>)
    requires
        is_normal_form_of(s, t1),
        is_normal_form_of(t1, t2),
    ensures
        is_normal_form_of(s, t2),
        t1 != s ==> t2 == t1,
        hex_notation(s) is Some ==> t2 == t1,
{
    let p1 = choose|p: Option<Rgba8>| admissible_parse(s, p) && t1 == #[trigger] normal_form(s, p);
    let p2 = choose|p: Option<Rgba8>| admissible_parse(t1, p) && t2 == #[trigger] normal_form(t1, p);
    if let Some(c) = p1 {
        lemma_css_hex_reads_back(c);
    } else {
        assert(is_normal_form_of(s, t2));
    }
}

/// The last alpha wins: replacing the alpha of an alpha-replaced colour gives
/// what replacing the original colour's alpha gives.
pub proof fn lemma_last_alpha_wins(s: Seq<char>, b: u8, a: u8, t1: Seq<char>, t2: Seq<char>)
    requires
        is_alpha_form_of(s, b, t1),
        is_alpha_form_of(t1, a, t2),
    ensures
        is_alpha_form_of(s, a, t2),
{
    let p1 = choose|p: Option<Rgba8>| admissible_parse(s, p) && t1 == #[trigger] alpha_form(s, p, b);
    let p2 = choose|p: Option<Rgba8>|
        admissible_parse(t1, p) && t2 == #[trigger] alpha_form(t1, p, a);
    if let Some(c) = p1 {
        lemma_css_hex_reads_back(with_alpha(c, b));
        assert(with_alpha(with_alpha(c, b), a) == with_alpha(c, a));
        assert(t2 == alpha_form(s, p1, a));
    } else {
        assert(t2 == alpha_form(s, p2, a));
    }
}

/// A colour with replaced alpha is already in normal form: normalising it
/// again gives it back (unless the first call kept the text unchanged).
pub proof fn lemma_alpha_form_is_normal(s: Seq<char>, a: u8, t1: Seq<char>, t2: Seq<char>)
    requires
        is_alpha_form_of(s, a, t1),
        is_normal_form_of(t1, t2),
    ensures
        t1 != s ==> t2 == t1,
        hex_notation(s) is Some ==> t2 == t1,
        t1 == s ==> is_normal_form_of(s, t2),
{
    let p1 = choose|p: Option<Rgba8>| admissible_parse(s, p) && t1 == #[trigger] alpha_form(s, p, a);
    let p2 = choose|p: Option<Rgba8>| admissible_parse(t1, p) && t2 == #[trigger] normal_form(t1, p);
    if let Some(c) = p1 {
        lemma_css_hex_reads_back(with_alpha(c, a));
    } else {
        assert(is_normal_form_of(s, t2));
    }
}

/// Whatever the parser reads a text as, normalising writes that colour in hex
/// notation; the text comes back unchanged only where the parser refuses it
/// or the text already is that notation.
pub proof fn lemma_accepted_text_is_converted(s: Seq<char>, c: Rgba8, t: Seq<char>)
    requires
        is_normal_form_of(s, t),
        forall|p: Option<Rgba8>| admissible_parse(s, p) ==> p == Some(c),
    ensures
        t == css_hex(c),
        t == s ==> hex_notation(s) == Some(c),
{
    lemma_css_hex_reads_back(c);
}

/// Decimal `rgb(r, g, b)` notation, commas followed by any spaces, is written
/// as `#rrggbb` of its channels: never kept as it is.
pub proof fn lemma_rgb_notation_normalised(r: u8, g: u8, b: u8, k1: nat, k2: nat, t: Seq<char>)
    requires
        is_normal_form_of(rgb_text(r, g, b, k1, k2), t),
    ensures
        t == css_hex(Rgba8 { r, g, b, a: 255 }),
        t != rgb_text(r, g, b, k1, k2),
{
    let s = rgb_text(r, g, b, k1, k2);
    let p = choose|p: Option<Rgba8>| admissible_parse(s, p) && t == #[trigger] normal_form(s, p);
    assert(p == Some(Rgba8 { r, g, b, a: 255 }));
    lemma_css_hex_shape(Rgba8 { r, g, b, a: 255 });
    assert(s[0] == 'r');
}

/// Decimal `rgba(r, g, b, alpha)` notation is written as hex notation that
/// keeps its channels: never kept as it is.
pub proof fn lemma_rgba_notation_normalised(
    r: u8,
    g: u8,
    b: u8,
    alpha: Seq<char>,
    k1: nat,
    k2: nat,
    k3: nat,
    t: Seq<char>,
)
    requires
        is_decimal_number(alpha),
        is_normal_form_of(rgba_text(r, g, b, alpha, k1, k2, k3), t),
    ensures
        exists|a: u8| t == #[trigger] css_hex(Rgba8 { r, g, b, a }),
        t != rgba_text(r, g, b, alpha, k1, k2, k3),
{
    let s = rgba_text(r, g, b, alpha, k1, k2, k3);
    let p = choose|p: Option<Rgba8>| admissible_parse(s, p) && t == #[trigger] normal_form(s, p);
    let c = p->0;
    assert(c == Rgba8 { r, g, b, a: c.a });
    lemma_css_hex_shape(c);
    assert(s[0] == 'r');
}

/// Giving decimal `rgba(r, g, b, alpha)` notation the alpha byte `a` writes
/// exactly its channels with that alpha.
pub proof fn lemma_rgba_notation_with_alpha(
    r: u8,
    g: u8,
    b: u8,
    alpha: Seq<char>,
    k1: nat,
    k2: nat,
    k3: nat,
    a: u8,
    t: Seq<char>,
)
    requires
        is_decimal_number(alpha),
        is_alpha_form_of(rgba_text(r, g, b, alpha, k1, k2, k3), a, t),
    ensures
        t == css_hex(Rgba8 { r, g, b, a }),
{
    let s = rgba_text(r, g, b, alpha, k1, k2, k3);
    let p = choose|p: Option<Rgba8>| admissible_parse(s, p) && t == #[trigger] alpha_form(s, p, a);
    assert(with_alpha(p->0, a) == Rgba8 { r, g, b, a });
}

/// Giving decimal `rgb(r, g, b)` notation the alpha byte `a` writes exactly
/// its channels with that alpha.
pub proof fn lemma_rgb_notation_with_alpha(r: u8, g: u8, b: u8, k1: nat, k2: nat, a: u8, t: Seq<char>)
    requires
        is_alpha_form_of(rgb_text(r, g, b, k1, k2), a, t),
    ensures
        t == css_hex(Rgba8 { r, g, b, a }),
{
    let s = rgb_text(r, g, b, k1, k2);
    let p = choose|p: Option<Rgba8>| admissible_parse(s, p) && t == #[trigger] alpha_form(s, p, a);
    assert(p == Some(Rgba8 { r, g, b, a: 255 }));
}

/// A CSS named colour is written as the hex notation of its bytes: never kept
/// as it is.
pub proof fn lemma_named_color_normalised(s: Seq<char>, t: Seq<char>)
    requires
        named_color(s) is Some,
        is_normal_form_of(s, t),
    ensures
        named_color(s) matches Some((r, g, b)) && t == css_hex(Rgba8 { r, g, b, a: 255 }),
{
    let p = choose|p: Option<Rgba8>| admissible_parse(s, p) && t == #[trigger] normal_form(s, p);
}

} // verus!
