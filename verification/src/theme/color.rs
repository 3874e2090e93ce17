//! Colors and the color syntax of theme files: `#rgb`, `#rrggbb`,
//! `#rrggbbaa`, `rgb(r, g, b)`, `rgba(r, g, b, a)` and `transparent`.
//!
//! The alpha of the functional forms is a decimal fraction in `0..=1`.
//! Reading it is floating-point work that the caller does; this module
//! finds the text of that component (`alpha_component`) and takes the
//! byte it stands for as an argument.
use vstd::prelude::*;
use crate::text::{
    all_digits, ascii_eq_ignore_case, ascii_lower, digits_value, digit_value, eq_ignore_ascii_case, parse_u8, parse_u8_spec,
    split_on, split_on_char, str_trim, to_digit, trim,
};

verus! {

/// An RGBA color with straight (unmultiplied) alpha, one byte per channel.
#[derive(Debug, Clone, Copy, PartialEq, Eq, Structural)]
pub struct Color {
    pub r: u8,
    pub g: u8,
    pub b: u8,
    pub a: u8,
}

impl Color {
    /// An opaque color.
    pub fn from_rgb(r: u8, g: u8, b: u8) -> (c: Color)
        ensures
            c == (Color { r, g, b, a: 255 }),
    {
        Color { r, g, b, a: 255 }
    }

    /// A color with straight alpha.
    pub fn from_rgba_unmultiplied(r: u8, g: u8, b: u8, a: u8) -> (c: Color)
        ensures
            c == (Color { r, g, b, a }),
    {
        Color { r, g, b, a }
    }

    /// Fully transparent black.
    pub fn transparent() -> (c: Color)
        ensures
            c == transparent_color(),
    {
        Color { r: 0, g: 0, b: 0, a: 0 }
    }
}

pub open spec fn transparent_color() -> Color {
    Color { r: 0, g: 0, b: 0, a: 0 }
}

/// The keyword `transparent`.
pub open spec fn transparent_word() -> Seq<char> {
    seq!['t', 'r', 'a', 'n', 's', 'p', 'a', 'r', 'e', 'n', 't']
}

/// `#rgb`: each hex digit `d` stands for the byte `d * 17` (`0xdd`).
pub open spec fn hex_short_color(h: Seq<char>) -> Option<Color> {
    match (digit_value(h[0], 16), digit_value(h[1], 16), digit_value(h[2], 16)) {
        (Some(r), Some(g), Some(b)) => Some(
            Color { r: (r * 17) as u8, g: (g * 17) as u8, b: (b * 17) as u8, a: 255 },
        ),
        _ => None,
    }
}

/// Two hex digits read as one byte, the first the high digit.
pub open spec fn hex_pair(x: char, y: char) -> Option<u8> {
    match (digit_value(x, 16), digit_value(y, 16)) {
        (Some(hi), Some(lo)) => Some((hi * 16 + lo) as u8),
        _ => None,
    }
}

/// `#rrggbb` and `#rrggbbaa`: each pair of hex digits is a byte; without a
/// fourth pair the color is opaque.
pub open spec fn hex_long_color(h: Seq<char>) -> Option<Color> {
    let a = if h.len() == 8 {
        hex_pair(h[6], h[7])
    } else {
        Some(255u8)
    };
    match (hex_pair(h[0], h[1]), hex_pair(h[2], h[3]), hex_pair(h[4], h[5]), a) {
        (Some(r), Some(g), Some(b), Some(a)) => Some(Color { r, g, b, a }),
        _ => None,
    }
}

/// The digits after `#`: three, six or eight hex digits.
pub open spec fn hex_color(h: Seq<char>) -> Option<Color> {
    if h.len() == 3 {
        hex_short_color(h)
    } else if h.len() == 6 || h.len() == 8 {
        hex_long_color(h)
    } else {
        None
    }
}

pub open spec fn rgba_open() -> Seq<char> {
    seq!['r', 'g', 'b', 'a', '(']
}

pub open spec fn rgb_open() -> Seq<char> {
    seq!['r', 'g', 'b', '(']
}

pub open spec fn has_prefix(s: Seq<char>, p: Seq<char>) -> bool {
    p.len() <= s.len() && s.take(p.len() as int) == p
}

/// What stands between `rgba(` (or else `rgb(`) and a closing `)`.
pub open spec fn rgb_body(s: Seq<char>) -> Option<Seq<char>> {
    if has_prefix(s, rgba_open()) {
        if s.len() > 5 && s.last() == ')' {
            Some(s.subrange(5, s.len() - 1))
        } else {
            None
        }
    } else if has_prefix(s, rgb_open()) {
        if s.len() > 4 && s.last() == ')' {
            Some(s.subrange(4, s.len() - 1))
        } else {
            None
        }
    } else {
        None
    }
}

/// The comma-separated components of a functional form, each trimmed.
pub open spec fn rgb_components(body: Seq<char>) -> Seq<Seq<char>> {
    split_on(body, ',').map_values(|p: Seq<char>| str_trim(p))
}

/// A functional form: at least three decimal bytes; a fourth component is
/// the alpha (given as the byte it stands for), components past the fourth
/// are not read; without a fourth component the color is opaque.
pub open spec fn rgb_color(body: Seq<char>, alpha: Option<u8>) -> Option<Color> {
    let parts = rgb_components(body);
    if parts.len() < 3 {
        None
    } else {
        let a = if parts.len() > 3 {
            alpha
        } else {
            Some(255u8)
        };
        match (
            parse_u8_spec(parts[0], 10),
            parse_u8_spec(parts[1], 10),
            parse_u8_spec(parts[2], 10),
            a,
        ) {
            (Some(r), Some(g), Some(b), Some(a)) => Some(Color { r, g, b, a }),
            _ => None,
        }
    }
}

/// The color that a trimmed color text names, `alpha` being the byte that
/// the alpha component of a functional form stands for (`None` when that
/// component is not a number).
pub open spec fn parse_trimmed_spec(s: Seq<char>, alpha: Option<u8>) -> Option<Color> {
    if eq_ignore_ascii_case(s, transparent_word()) {
        Some(transparent_color())
    } else if s.len() > 0 && s[0] == '#' {
        hex_color(s.drop_first())
    } else {
        match rgb_body(s) {
            Some(body) => rgb_color(body, alpha),
            None => None,
        }
    }
}

/// The color that a color text names: the text is trimmed first.
pub open spec fn parse_color_spec(s: Seq<char>, alpha: Option<u8>) -> Option<Color> {
    parse_trimmed_spec(str_trim(s), alpha)
}

/// The alpha component of a trimmed functional form, if it has one.
pub open spec fn alpha_component_spec(s: Seq<char>) -> Option<Seq<char>> {
    if eq_ignore_ascii_case(s, transparent_word()) || (s.len() > 0 && s[0] == '#') {
        None
    } else {
        match rgb_body(s) {
            Some(body) => if rgb_components(body).len() > 3 {
                Some(rgb_components(body)[3])
            } else {
                None
            },
            None => None,
        }
    }
}

fn starts_with(s: &str, p: &str) -> (r: bool)
    ensures
        r == has_prefix(s@, p@),
{
    let n = s.unicode_len();
    let m = p.unicode_len();
    if m > n {
        return false;
    }
    let mut i: usize = 0;
    while i < m
        invariant
            n == s@.len(),
            m == p@.len(),
            m <= n,
            0 <= i <= m,
            forall|j: int| 0 <= j < i ==> s@[j] == p@[j],
        decreases m - i,
    {
        if s.get_char(i) != p.get_char(i) {
            assert(s@.take(m as int)[i as int] != p@[i as int]);
            return false;
        }
        i = i + 1;
    }
    assert(s@.take(m as int) =~= p@);
    true
}

fn read_hex_pair(x: char, y: char) -> (r: Option<u8>)
    ensures
        r == hex_pair(x, y),
{
    match (to_digit(x, 16), to_digit(y, 16)) {
        (Some(hi), Some(lo)) => Some((hi * 16 + lo) as u8),
        _ => None,
    }
}

fn parse_hex_color(h: &str) -> (c: Option<Color>)
    ensures
        c == hex_color(h@),
{
    let n = h.unicode_len();
    if n == 3 {
        let r = to_digit(h.get_char(0), 16);
        let g = to_digit(h.get_char(1), 16);
        let b = to_digit(h.get_char(2), 16);
        match (r, g, b) {
            (Some(r), Some(g), Some(b)) => Some(
                Color { r: (r * 17) as u8, g: (g * 17) as u8, b: (b * 17) as u8, a: 255 },
            ),
            _ => None,
        }
    } else if n == 6 || n == 8 {
        let r = read_hex_pair(h.get_char(0), h.get_char(1));
        let g = read_hex_pair(h.get_char(2), h.get_char(3));
        let b = read_hex_pair(h.get_char(4), h.get_char(5));
        let a = if n == 8 {
            read_hex_pair(h.get_char(6), h.get_char(7))
        } else {
            Some(255u8)
        };
        match (r, g, b, a) {
            (Some(r), Some(g), Some(b), Some(a)) => Some(Color { r, g, b, a }),
            _ => None,
        }
    } else {
        None
    }
}

fn find_rgb_body<'a>(s: &'a str) -> (body: Option<&'a str>)
    ensures
        match body {
            Some(b) => rgb_body(s@) == Some(b@),
            None => rgb_body(s@) is None,
        },
{
    proof {
        reveal_strlit("rgba(");
        reveal_strlit("rgb(");
    }
    assert("rgba("@ =~= rgba_open());
    assert("rgb("@ =~= rgb_open());
    let n = s.unicode_len();
    if starts_with(s, "rgba(") {
        if n > 5 && s.get_char(n - 1) == ')' {
            Some(s.substring_char(5, n - 1))
        } else {
            None
        }
    } else if starts_with(s, "rgb(") {
        if n > 4 && s.get_char(n - 1) == ')' {
            Some(s.substring_char(4, n - 1))
        } else {
            None
        }
    } else {
        None
    }
}

fn parse_rgb_color(body: &str, alpha: Option<u8>) -> (c: Option<Color>)
    ensures
        c == rgb_color(body@, alpha),
{
    let parts = split_on_char(body, ',');
    let ghost comps = rgb_components(body@);
    assert(comps.len() == parts@.len());
    if parts.len() < 3 {
        return None;
    }
    let r = parse_u8(trim(parts[0]), 10);
    let g = parse_u8(trim(parts[1]), 10);
    let b = parse_u8(trim(parts[2]), 10);
    assert(comps[0] == str_trim(parts@[0]@));
    assert(comps[1] == str_trim(parts@[1]@));
    assert(comps[2] == str_trim(parts@[2]@));
    let a = if parts.len() > 3 {
        alpha
    } else {
        Some(255u8)
    };
    match (r, g, b, a) {
        (Some(r), Some(g), Some(b), Some(a)) => Some(Color { r, g, b, a }),
        _ => None,
    }
}

/// Parse a color text that has already been trimmed.
pub fn parse_trimmed_color(value: &str, alpha: Option<u8>) -> (c: Option<Color>)
    ensures
        c == parse_trimmed_spec(value@, alpha),
{
    proof {
        reveal_strlit("transparent");
    }
    assert("transparent"@ =~= transparent_word());
    if ascii_eq_ignore_case(value, "transparent") {
        return Some(Color::transparent());
    }
    let n = value.unicode_len();
    if n > 0 && value.get_char(0) == '#' {
        let hex = value.substring_char(1, n);
        assert(hex@ =~= value@.drop_first());
        return parse_hex_color(hex);
    }
    match find_rgb_body(value) {
        Some(body) => parse_rgb_color(body, alpha),
        None => None,
    }
}

/// Parse `#rgb`, `#rrggbb`, `#rrggbbaa`, `rgba(r,g,b,a)` / `rgb(r,g,b)` or
/// `transparent` (any ASCII case), after trimming white space. `alpha` is
/// the byte that the fourth component of a functional form stands for:
/// `round(clamp(a, 0, 1) * 255)`, or `None` when it is not a number.
pub fn parse_color(value: &str, alpha: Option<u8>) -> (c: Option<Color>)
    ensures
        c == parse_color_spec(value@, alpha),
{
    parse_trimmed_color(trim(value), alpha)
}

/// The text of the fourth component of a functional color form (trimmed),
/// whose value the caller reads as a decimal fraction.
pub fn alpha_component(value: &str) -> (a: Option<String>)
    ensures
        match a {
            Some(t) => alpha_component_spec(str_trim(value@)) == Some(t@),
            None => alpha_component_spec(str_trim(value@)) is None,
        },
{
    let v = trim(value);
    proof {
        reveal_strlit("transparent");
    }
    assert("transparent"@ =~= transparent_word());
    if ascii_eq_ignore_case(v, "transparent") {
        return None;
    }
    let n = v.unicode_len();
    if n > 0 && v.get_char(0) == '#' {
        return None;
    }
    match find_rgb_body(v) {
        Some(body) => {
            let parts = split_on_char(body, ',');
            let ghost comps = rgb_components(body@);
            assert(comps.len() == parts@.len());
            if parts.len() > 3 {
                assert(comps[3] == str_trim(parts@[3]@));
                Some(trim(parts[3]).to_owned())
            } else {
                None
            }
        },
        None => None,
    }
}

} // verus!

verus! {

pub open spec fn is_hex_digit(c: char) -> bool {
    digit_value(c, 16) is Some
}

/// `#rgb` is `#rrggbb`: a short hex color doubles each digit.
pub proof fn lemma_short_hex_doubles(x: char, y: char, z: char, alpha: Option<u8>)
    requires
        is_hex_digit(x),
        is_hex_digit(y),
        is_hex_digit(z),
    ensures
        parse_trimmed_spec(seq!['#', x, y, z], alpha) == parse_trimmed_spec(
            seq!['#', x, x, y, y, z, z],
            alpha,
        ),
        parse_trimmed_spec(seq!['#', x, y, z], alpha) is Some,
{
    let short = seq!['#', x, y, z];
    let long = seq!['#', x, x, y, y, z, z];
    let h = long.drop_first();
    assert(short.drop_first() =~= seq![x, y, z]);
    assert(h =~= seq![x, x, y, y, z, z]);
    assert(!eq_ignore_ascii_case(short, transparent_word()));
    assert(!eq_ignore_ascii_case(long, transparent_word()));
}

/// `#rrggbb` is `#rrggbbff`: without an alpha pair a hex color is opaque.
pub proof fn lemma_hex_default_opaque(h: Seq<char>, alpha: Option<u8>)
    requires
        h.len() == 6,
        forall|i: int| 0 <= i < 6 ==> is_hex_digit(#[trigger] h[i]),
    ensures
        parse_trimmed_spec(seq!['#'] + h, alpha) == parse_trimmed_spec(
            seq!['#'] + h + seq!['f', 'f'],
            alpha,
        ),
{
    let s6 = seq!['#'] + h;
    let s8 = seq!['#'] + h + seq!['f', 'f'];
    let h8 = h + seq!['f', 'f'];
    assert(s6.drop_first() =~= h);
    assert(s8.drop_first() =~= h8);
    assert(h8[6] == 'f' && h8[7] == 'f');
    assert forall|i: int| 0 <= i < 6 implies h8[i] == h[i] by {}
    assert(!eq_ignore_ascii_case(s6, transparent_word()));
    assert(!eq_ignore_ascii_case(s8, transparent_word()));
}

/// `rgb(...)` and `rgba(...)` read the same components.
pub proof fn lemma_rgb_rgba_same(body: Seq<char>, alpha: Option<u8>)
    ensures
        parse_trimmed_spec(rgb_open() + body + seq![')'], alpha) == parse_trimmed_spec(
            rgba_open() + body + seq![')'],
            alpha,
        ),
        parse_trimmed_spec(rgb_open() + body + seq![')'], alpha) == rgb_color(body, alpha),
{
    let s = rgb_open() + body + seq![')'];
    let t = rgba_open() + body + seq![')'];
    assert(s[0] == 'r' && t[0] == 'r');
    assert(rgb_body(s) == Some(body)) by {
        assert(s.take(4) =~= rgb_open());
        assert(s.subrange(4, s.len() - 1) =~= body);
        assert(s[3] == '(');
        if s.len() >= 5 {
            assert(s.take(5)[3] != rgba_open()[3]);
        }
    }
    assert(rgb_body(t) == Some(body)) by {
        assert(t.take(5) =~= rgba_open());
        assert(t.subrange(5, t.len() - 1) =~= body);
    }
    assert(!eq_ignore_ascii_case(s, transparent_word())) by {
        if s.len() == 11 {
            assert(ascii_lower(s[0]) != ascii_lower(transparent_word()[0]));
        }
    }
    assert(!eq_ignore_ascii_case(t, transparent_word())) by {
        if t.len() == 11 {
            assert(ascii_lower(t[0]) != ascii_lower(transparent_word()[0]));
        }
    }
}

} // verus!

verus! {

/// The value of a hex digit.
pub open spec fn hex_value(c: char) -> int {
    digit_value(c, 16)->Some_0 as int
}

/// `#rrggbb` reads each pair of hex digits as one channel, red first, the
/// high digit first, and is opaque; `#rrggbbaa` reads the fourth pair as
/// the alpha.
pub proof fn lemma_hex_long_channels(h: Seq<char>, alpha: Option<u8>)
    requires
        h.len() == 6 || h.len() == 8,
        forall|i: int| 0 <= i < h.len() ==> is_hex_digit(#[trigger] h[i]),
    ensures
        parse_trimmed_spec(seq!['#'] + h, alpha) == Some(
            Color {
                r: (hex_value(h[0]) * 16 + hex_value(h[1])) as u8,
                g: (hex_value(h[2]) * 16 + hex_value(h[3])) as u8,
                b: (hex_value(h[4]) * 16 + hex_value(h[5])) as u8,
                a: if h.len() == 8 {
                    (hex_value(h[6]) * 16 + hex_value(h[7])) as u8
                } else {
                    255u8
                },
            },
        ),
{
    let s = seq!['#'] + h;
    assert(s.drop_first() =~= h);
    assert(is_hex_digit(h[0]) && is_hex_digit(h[1]) && is_hex_digit(h[2]));
    assert(is_hex_digit(h[3]) && is_hex_digit(h[4]) && is_hex_digit(h[5]));
    if h.len() == 8 {
        assert(is_hex_digit(h[6]) && is_hex_digit(h[7]));
    }
    assert(!eq_ignore_ascii_case(s, transparent_word())) by {
        if s.len() == 11 {
            assert(ascii_lower(s[0]) != ascii_lower(transparent_word()[0]));
        }
    }
}

/// `#rgb` reads each hex digit `d` as the channel `d * 17` and is opaque.
pub proof fn lemma_hex_short_channels(x: char, y: char, z: char, alpha: Option<u8>)
    requires
        is_hex_digit(x),
        is_hex_digit(y),
        is_hex_digit(z),
    ensures
        parse_trimmed_spec(seq!['#', x, y, z], alpha) == Some(
            Color {
                r: (hex_value(x) * 17) as u8,
                g: (hex_value(y) * 17) as u8,
                b: (hex_value(z) * 17) as u8,
                a: 255,
            },
        ),
{
    assert(seq!['#', x, y, z].drop_first() =~= seq![x, y, z]);
}

/// A hex color with a character that is not a hex digit, or with a
/// number of digits other than three, six or eight, names no color.
pub proof fn lemma_hex_needs_hex_digits(h: Seq<char>, alpha: Option<u8>)
    requires
        !(h.len() == 3 || h.len() == 6 || h.len() == 8) || exists|i: int|
            0 <= i < h.len() && !is_hex_digit(#[trigger] h[i]),
    ensures
        parse_trimmed_spec(seq!['#'] + h, alpha) is None,
{
    let s = seq!['#'] + h;
    assert(s.drop_first() =~= h);
    assert(!eq_ignore_ascii_case(s, transparent_word())) by {
        if s.len() == 11 {
            assert(ascii_lower(s[0]) != ascii_lower(transparent_word()[0]));
        }
    }
    if h.len() == 3 || h.len() == 6 || h.len() == 8 {
        let i = choose|i: int| 0 <= i < h.len() && !is_hex_digit(#[trigger] h[i]);
        if h.len() == 3 {
            assert(i == 0 || i == 1 || i == 2);
        } else if h.len() == 6 {
            assert(i == 0 || i == 1 || i == 2 || i == 3 || i == 4 || i == 5);
        } else {
            assert(i == 0 || i == 1 || i == 2 || i == 3 || i == 4 || i == 5 || i == 6 || i == 7);
        }
    }
}

/// The keyword `transparent`, in any ASCII case, is transparent black.
pub proof fn lemma_transparent_keyword(s: Seq<char>, alpha: Option<u8>)
    requires
        eq_ignore_ascii_case(s, seq!['t', 'r', 'a', 'n', 's', 'p', 'a', 'r', 'e', 'n', 't']),
    ensures
        parse_trimmed_spec(s, alpha) == Some(Color { r: 0, g: 0, b: 0, a: 0 }),
{
}

} // verus!

verus! {

proof fn lemma_split_on_nonempty(s: Seq<char>, sep: char)
    ensures
        split_on(s, sep).len() >= 1,
    decreases s.len(),
{
    if s.len() > 0 {
        lemma_split_on_nonempty(s.drop_last(), sep);
    }
}

/// Text without a separator extends the last piece.
proof fn lemma_split_on_extend(p: Seq<char>, q: Seq<char>, sep: char)
    requires
        forall|i: int| 0 <= i < q.len() ==> q[i] != sep,
    ensures
        split_on(p + q, sep) == split_on(p, sep).update(
            split_on(p, sep).len() - 1,
            split_on(p, sep).last() + q,
        ),
    decreases q.len(),
{
    lemma_split_on_nonempty(p, sep);
    let sp = split_on(p, sep);
    if q.len() == 0 {
        assert(p + q =~= p);
        assert(sp.last() + q =~= sp.last());
        assert(sp.update(sp.len() - 1, sp.last() + q) =~= sp);
    } else {
        let q0 = q.drop_last();
        assert forall|i: int| 0 <= i < q0.len() implies q0[i] != sep by {
            assert(q0[i] == q[i]);
        }
        lemma_split_on_extend(p, q0, sep);
        assert((p + q).drop_last() =~= p + q0);
        assert((p + q).last() == q.last());
        assert(q.last() == q[q.len() - 1]);
        let s0 = split_on(p + q0, sep);
        assert(s0.last() == sp.last() + q0);
        assert(s0.last().push(q.last()) =~= sp.last() + q);
        assert(s0.update(s0.len() - 1, s0.last().push(q.last())) =~= sp.update(
            sp.len() - 1,
            sp.last() + q,
        ));
    }
}

proof fn lemma_split_on_sep(p: Seq<char>, sep: char)
    ensures
        split_on(p + seq![sep], sep) == split_on(p, sep).push(Seq::empty()),
{
    assert((p + seq![sep]).drop_last() =~= p);
}

pub open spec fn has_no(s: Seq<char>, c: char) -> bool {
    forall|i: int| 0 <= i < s.len() ==> s[i] != c
}

/// Three or four comma-separated parts split into those parts.
proof fn lemma_split_parts(x: Seq<char>, y: Seq<char>, z: Seq<char>)
    requires
        has_no(x, ','),
        has_no(y, ','),
        has_no(z, ','),
    ensures
        split_on(x + seq![','] + y + seq![','] + z, ',') == seq![x, y, z],
{
    let e = Seq::<char>::empty();
    assert(split_on(e, ',') == seq![e]);
    lemma_split_on_extend(e, x, ',');
    assert(e + x =~= x);
    assert(split_on(x, ',') =~= seq![x]);
    lemma_split_on_sep(x, ',');
    let a = x + seq![','];
    lemma_split_on_extend(a, y, ',');
    assert(split_on(a + y, ',') =~= seq![x, y]);
    lemma_split_on_sep(a + y, ',');
    let b = a + y + seq![','];
    lemma_split_on_extend(b, z, ',');
    assert(split_on(b + z, ',') =~= seq![x, y, z]);
}

/// `rgb(r, g, b)` reads three decimal bytes (white space around each is
/// ignored) as red, green and blue, and is opaque.
pub proof fn lemma_rgb_channels(x: Seq<char>, y: Seq<char>, z: Seq<char>, alpha: Option<u8>)
    requires
        has_no(x, ','),
        has_no(y, ','),
        has_no(z, ','),
        parse_u8_spec(str_trim(x), 10) is Some,
        parse_u8_spec(str_trim(y), 10) is Some,
        parse_u8_spec(str_trim(z), 10) is Some,
    ensures
        parse_trimmed_spec(rgb_open() + (x + seq![','] + y + seq![','] + z) + seq![')'], alpha)
            == Some(
            Color {
                r: parse_u8_spec(str_trim(x), 10)->Some_0,
                g: parse_u8_spec(str_trim(y), 10)->Some_0,
                b: parse_u8_spec(str_trim(z), 10)->Some_0,
                a: 255,
            },
        ),
{
    let body = x + seq![','] + y + seq![','] + z;
    lemma_rgb_rgba_same(body, alpha);
    lemma_split_parts(x, y, z);
    assert(rgb_components(body) =~= seq![str_trim(x), str_trim(y), str_trim(z)]);
}

/// `rgba(r, g, b, a)` reads the three decimal bytes as in `rgb` and takes
/// the alpha byte that the fourth component stands for; a fourth
/// component that is not a number names no color.
pub proof fn lemma_rgba_channels(
    x: Seq<char>,
    y: Seq<char>,
    z: Seq<char>,
    w: Seq<char>,
    alpha: Option<u8>,
)
    requires
        has_no(x, ','),
        has_no(y, ','),
        has_no(z, ','),
        has_no(w, ','),
        parse_u8_spec(str_trim(x), 10) is Some,
        parse_u8_spec(str_trim(y), 10) is Some,
        parse_u8_spec(str_trim(z), 10) is Some,
    ensures
        parse_trimmed_spec(
            rgba_open() + (x + seq![','] + y + seq![','] + z + seq![','] + w) + seq![')'],
            alpha,
        ) == match alpha {
            Some(a) => Some(
                Color {
                    r: parse_u8_spec(str_trim(x), 10)->Some_0,
                    g: parse_u8_spec(str_trim(y), 10)->Some_0,
                    b: parse_u8_spec(str_trim(z), 10)->Some_0,
                    a,
                },
            ),
            None => None,
        },
{
    let body3 = x + seq![','] + y + seq![','] + z;
    let body = body3 + seq![','] + w;
    lemma_rgb_rgba_same(body, alpha);
    lemma_split_parts(x, y, z);
    lemma_split_on_sep(body3, ',');
    lemma_split_on_extend(body3 + seq![','], w, ',');
    assert(split_on(body, ',') =~= seq![x, y, z, w]);
    assert(rgb_components(body) =~= seq![str_trim(x), str_trim(y), str_trim(z), str_trim(w)]);
}

} // verus!
