//! Hex colour notation for the stroke colour: `#RRGGBB`, or `#RRGGBBAA`
//! when the colour is not opaque.
//!
//! Colours are handled here as 8-bit components; the front end maps the
//! 0.0..=1.0 components it draws with to and from these bytes.

use vstd::prelude::*;

verus! {

/// A colour as four 8-bit components.
#[derive(Debug, Clone, Copy, PartialEq, Eq, Structural)]
pub struct Rgba8 {
    pub r: u8,
    pub g: u8,
    pub b: u8,
    pub a: u8,
}

/// Unicode white space, as trimmed from the ends of the input.
pub open spec fn is_ws(c: char) -> bool {
    ||| c == ' '
    ||| c == '\t'
    ||| c == '\n'
    ||| c == '\x0B'
    ||| c == '\x0C'
    ||| c == '\r'
    ||| c == '\u{85}'
    ||| c == '\u{A0}'
    ||| c == '\u{1680}'
    ||| ('\u{2000}' <= c && c <= '\u{200A}')
    ||| c == '\u{2028}'
    ||| c == '\u{2029}'
    ||| c == '\u{202F}'
    ||| c == '\u{205F}'
    ||| c == '\u{3000}'
}

/// The value of a hex digit (either case), or -1 for any other character.
pub open spec fn hex_val(c: char) -> int {
    if '0' <= c && c <= '9' {
        c as int - '0' as int
    } else if 'a' <= c && c <= 'f' {
        c as int - 'a' as int + 10
    } else if 'A' <= c && c <= 'F' {
        c as int - 'A' as int + 10
    } else {
        -1
    }
}

/// The upper-case hex digit for a value below 16.
pub open spec fn upper_digit(v: int) -> char {
    if v < 10 {
        ((v + '0' as int) as u32) as char
    } else {
        ((v - 10 + 'A' as int) as u32) as char
    }
}

/// Index of the first character at or after `i` that is not white space.
pub open spec fn lead(s: Seq<char>, i: int) -> int
    decreases s.len() - i,
{
    if 0 <= i < s.len() && is_ws(s[i]) {
        lead(s, i + 1)
    } else {
        i
    }
}

/// End of the text once white space before `j` (and after `lo`) is dropped.
pub open spec fn trail(s: Seq<char>, j: int, lo: int) -> int
    decreases j - lo,
{
    if lo < j && j <= s.len() && is_ws(s[j - 1]) {
        trail(s, j - 1, lo)
    } else {
        j
    }
}

/// The text with white space removed from both ends.
pub open spec fn trimmed(s: Seq<char>) -> Seq<char> {
    let a = lead(s, 0);
    s.subrange(a, trail(s, s.len() as int, a))
}

/// The digits of a colour: the trimmed text without a leading `#`.
pub open spec fn spec_hex_digits(s: Seq<char>) -> Seq<char> {
    let t = trimmed(s);
    if t.len() > 0 && t[0] == '#' {
        t.drop_first()
    } else {
        t
    }
}

/// Every character is a hex digit.
pub open spec fn all_hex(d: Seq<char>) -> bool {
    forall|i: int| 0 <= i < d.len() ==> hex_val(#[trigger] d[i]) >= 0
}

/// The byte written by the two digits at `i`.
pub open spec fn spec_byte(d: Seq<char>, i: int) -> int {
    hex_val(d[i]) * 16 + hex_val(d[i + 1])
}

/// The colour a text denotes: after trimming white space and an optional
/// `#`, exactly six hex digits (opaque) or eight (with alpha), in either
/// case; anything else denotes no colour.
pub open spec fn spec_parse_hex(s: Seq<char>) -> Option<Rgba8> {
    let d = spec_hex_digits(s);
    if (d.len() == 6 || d.len() == 8) && all_hex(d) {
        Some(
            Rgba8 {
                r: spec_byte(d, 0) as u8,
                g: spec_byte(d, 2) as u8,
                b: spec_byte(d, 4) as u8,
                a: if d.len() == 8 {
                    spec_byte(d, 6) as u8
                } else {
                    255
                },
            },
        )
    } else {
        None
    }
}

/// Two upper-case hex digits for a byte.
pub open spec fn hex2(b: u8) -> Seq<char> {
    seq![upper_digit(b as int / 16), upper_digit(b as int % 16)]
}

/// The hex notation of a colour: `#RRGGBB` when opaque, else `#RRGGBBAA`.
pub open spec fn spec_format_hex(c: Rgba8) -> Seq<char> {
    let rgb = seq!['#'] + hex2(c.r) + hex2(c.g) + hex2(c.b);
    if c.a == 255 {
        rgb
    } else {
        rgb + hex2(c.a)
    }
}

fn is_ws_char(c: char) -> (r: bool)
    ensures
        r == is_ws(c),
{
    c == ' ' || c == '\t' || c == '\n' || c == '\x0B' || c == '\x0C' || c == '\r' || c == '\u{85}'
        || c == '\u{A0}' || c == '\u{1680}' || ('\u{2000}' <= c && c <= '\u{200A}') || c
        == '\u{2028}' || c == '\u{2029}' || c == '\u{202F}' || c == '\u{205F}' || c == '\u{3000}'
}

fn hex_value(c: char) -> (v: i32)
    ensures
        v == hex_val(c),
        -1 <= v < 16,
{
    if '0' <= c && c <= '9' {
        (c as u32 - '0' as u32) as i32
    } else if 'a' <= c && c <= 'f' {
        (c as u32 - 'a' as u32 + 10) as i32
    } else if 'A' <= c && c <= 'F' {
        (c as u32 - 'A' as u32 + 10) as i32
    } else {
        -1
    }
}

proof fn lemma_lead_step(s: Seq<char>, i: int)
    requires
        0 <= i < s.len(),
        is_ws(s[i]),
    ensures
        lead(s, i) == lead(s, i + 1),
{
}

proof fn lemma_trail_step(s: Seq<char>, j: int, lo: int)
    requires
        lo < j <= s.len(),
        is_ws(s[j - 1]),
    ensures
        trail(s, j, lo) == trail(s, j - 1, lo),
{
}

/// Parse a hex colour: white space around it is ignored, the `#` is
/// optional, digits may be upper or lower case; six digits give an opaque
/// colour, eight give one with alpha. Any other text gives `None`.
pub fn parse_hex_rgba(s: &str) -> (c: Option<Rgba8>)
    ensures
        c == spec_parse_hex(s@),
{
    let n = s.unicode_len();
    let mut i: usize = 0;
    while i < n && is_ws_char(s.get_char(i))
        invariant
            n == s@.len(),
            i <= n,
            lead(s@, i as int) == lead(s@, 0),
        decreases n - i,
    {
        proof {
            lemma_lead_step(s@, i as int);
        }
        i = i + 1;
    }
    let ghost a = i as int;
    assert(lead(s@, 0) == a);
    let mut j: usize = n;
    while j > i && is_ws_char(s.get_char(j - 1))
        invariant
            n == s@.len(),
            i <= j <= n,
            trail(s@, j as int, a) == trail(s@, n as int, a),
            i == a,
        decreases j,
    {
        proof {
            lemma_trail_step(s@, j as int, a);
        }
        j = j - 1;
    }
    assert(trail(s@, n as int, a) == j);
    let ghost t = s@.subrange(a, j as int);
    assert(t =~= trimmed(s@));
    let mut start = i;
    if i < j && s.get_char(i) == '#' {
        start = i + 1;
    }
    let ghost d = s@.subrange(start as int, j as int);
    assert(d =~= spec_hex_digits(s@));
    let len = j - start;
    if len != 6 && len != 8 {
        return None;
    }
    let mut k: usize = start;
    while k < j
        invariant
            n == s@.len(),
            start <= k <= j <= n,
            d == s@.subrange(start as int, j as int),
            d == spec_hex_digits(s@),
            d.len() == 6 || d.len() == 8,
            forall|m: int| 0 <= m < k - start ==> hex_val(#[trigger] d[m]) >= 0,
        decreases j - k,
    {
        if hex_value(s.get_char(k)) < 0 {
            assert(hex_val(d[k - start]) < 0);
            return None;
        }
        k = k + 1;
    }
    assert(all_hex(d));
    let r = (hex_value(s.get_char(start)) * 16 + hex_value(s.get_char(start + 1))) as u8;
    let g = (hex_value(s.get_char(start + 2)) * 16 + hex_value(s.get_char(start + 3))) as u8;
    let b = (hex_value(s.get_char(start + 4)) * 16 + hex_value(s.get_char(start + 5))) as u8;
    let alpha = if len == 8 {
        (hex_value(s.get_char(start + 6)) * 16 + hex_value(s.get_char(start + 7))) as u8
    } else {
        255
    };
    Some(Rgba8 { r, g, b, a: alpha })
}

fn hex_digit_str(v: u8) -> (d: &'static str)
    requires
        v < 16,
    ensures
        d@ == seq![upper_digit(v as int)],
{
    match v {
        0 => {
            proof {
                reveal_strlit("0");
            }
            "0"
        },
        1 => {
            proof {
                reveal_strlit("1");
            }
            "1"
        },
        2 => {
            proof {
                reveal_strlit("2");
            }
            "2"
        },
        3 => {
            proof {
                reveal_strlit("3");
            }
            "3"
        },
        4 => {
            proof {
                reveal_strlit("4");
            }
            "4"
        },
        5 => {
            proof {
                reveal_strlit("5");
            }
            "5"
        },
        6 => {
            proof {
                reveal_strlit("6");
            }
            "6"
        },
        7 => {
            proof {
                reveal_strlit("7");
            }
            "7"
        },
        8 => {
            proof {
                reveal_strlit("8");
            }
            "8"
        },
        9 => {
            proof {
                reveal_strlit("9");
            }
            "9"
        },
        10 => {
            proof {
                reveal_strlit("A");
            }
            "A"
        },
        11 => {
            proof {
                reveal_strlit("B");
            }
            "B"
        },
        12 => {
            proof {
                reveal_strlit("C");
            }
            "C"
        },
        13 => {
            proof {
                reveal_strlit("D");
            }
            "D"
        },
        14 => {
            proof {
                reveal_strlit("E");
            }
            "E"
        },
        _ => {
            proof {
                reveal_strlit("F");
            }
            "F"
        },
    }
}

fn append_hex2(out: &mut String, b: u8)
    ensures
        final(out)@ == old(out)@ + hex2(b),
{
    out.append(hex_digit_str(b / 16));
    out.append(hex_digit_str(b % 16));
}

/// The hex notation of a colour, upper case: `#RRGGBB` when it is opaque
/// (alpha 255), `#RRGGBBAA` otherwise.
pub fn rgba_to_hex(c: Rgba8) -> (s: String)
    ensures
        s@ == spec_format_hex(c),
{
    let mut s = String::new();
    proof {
        reveal_strlit("#");
    }
    s.append("#");
    append_hex2(&mut s, c.r);
    append_hex2(&mut s, c.g);
    append_hex2(&mut s, c.b);
    if c.a != 255 {
        append_hex2(&mut s, c.a);
    }
    s
}

proof fn lemma_upper_digit(v: int)
    requires
        0 <= v < 16,
    ensures
        hex_val(upper_digit(v)) == v,
        !is_ws(upper_digit(v)),
        upper_digit(v) != '#',
{
}

proof fn lemma_hex2(b: u8)
    ensures
        hex2(b).len() == 2,
        hex_val(hex2(b)[0]) * 16 + hex_val(hex2(b)[1]) == b as int,
        forall|i: int| 0 <= i < 2 ==> hex_val(#[trigger] hex2(b)[i]) >= 0 && !is_ws(hex2(b)[i]),
{
    lemma_upper_digit(b as int / 16);
    lemma_upper_digit(b as int % 16);
}

/// Writing a colour in hex and reading it back gives the same colour.
pub proof fn lemma_hex_round_trip(c: Rgba8)
    ensures
        spec_parse_hex(spec_format_hex(c)) == Some(c),
{
    let f = spec_format_hex(c);
    lemma_hex2(c.r);
    lemma_hex2(c.g);
    lemma_hex2(c.b);
    lemma_hex2(c.a);
    let body = if c.a == 255 {
        hex2(c.r) + hex2(c.g) + hex2(c.b)
    } else {
        hex2(c.r) + hex2(c.g) + hex2(c.b) + hex2(c.a)
    };
    assert(f =~= seq!['#'] + body);
    assert(lead(f, 0) == 0);
    assert(!is_ws(f[f.len() - 1]));
    assert(trail(f, f.len() as int, 0) == f.len());
    assert(trimmed(f) =~= f);
    assert(spec_hex_digits(f) =~= body);
    let d = body;
    assert(all_hex(d)) by {
        assert forall|i: int| 0 <= i < d.len() implies hex_val(#[trigger] d[i]) >= 0 by {
            if i < 2 {
                assert(d[i] == hex2(c.r)[i]);
            } else if i < 4 {
                assert(d[i] == hex2(c.g)[i - 2]);
            } else if i < 6 {
                assert(d[i] == hex2(c.b)[i - 4]);
            } else {
                assert(d[i] == hex2(c.a)[i - 6]);
            }
        }
    }
    assert(spec_byte(d, 0) == c.r);
    assert(spec_byte(d, 2) == c.g);
    assert(spec_byte(d, 4) == c.b);
    if c.a != 255 {
        assert(spec_byte(d, 6) == c.a);
    }
}

/// The `#` is optional: for a text with no white space and no `#` in it,
/// the colour it denotes is the same with a `#` in front.
pub proof fn lemma_hash_is_optional(s: Seq<char>)
    requires
        forall|i: int| 0 <= i < s.len() ==> !is_ws(#[trigger] s[i]) && s[i] != '#',
    ensures
        spec_parse_hex(seq!['#'] + s) == spec_parse_hex(s),
{
    let h = seq!['#'] + s;
    if s.len() > 0 {
        assert(!is_ws(s[0]));
        assert(!is_ws(s[s.len() - 1]));
    }
    assert(lead(s, 0) == 0);
    assert(trail(s, s.len() as int, 0) == s.len());
    assert(trimmed(s) =~= s);
    assert(h[0] == '#');
    assert(lead(h, 0) == 0);
    assert(h[h.len() - 1] == '#' || h[h.len() - 1] == s[s.len() - 1]);
    assert(trail(h, h.len() as int, 0) == h.len());
    assert(trimmed(h) =~= h);
    assert(h.drop_first() =~= s);
    assert(spec_hex_digits(h) == s);
    if s.len() > 0 {
        assert(s[0] != '#');
    }
    assert(spec_hex_digits(s) == s);
}

/// Six or eight hex digits (with or without a `#` in front) denote the
/// colour whose red, green, blue and alpha bytes are written by the digit
/// pairs in that order, alpha being 255 when only six digits are given.
pub proof fn lemma_digit_pairs_in_order(d: Seq<char>)
    requires
        d.len() == 6 || d.len() == 8,
        forall|i: int| 0 <= i < d.len() ==> hex_val(#[trigger] d[i]) >= 0,
    ensures
        spec_parse_hex(d) == spec_parse_hex(seq!['#'] + d),
        spec_parse_hex(d) == Some(
            Rgba8 {
                r: (hex_val(d[0]) * 16 + hex_val(d[1])) as u8,
                g: (hex_val(d[2]) * 16 + hex_val(d[3])) as u8,
                b: (hex_val(d[4]) * 16 + hex_val(d[5])) as u8,
                a: if d.len() == 8 {
                    (hex_val(d[6]) * 16 + hex_val(d[7])) as u8
                } else {
                    255u8
                },
            },
        ),
{
    assert forall|i: int| 0 <= i < d.len() implies !is_ws(#[trigger] d[i]) && d[i] != '#' by {
        assert(hex_val(d[i]) >= 0);
    }
    lemma_hash_is_optional(d);
    assert(lead(d, 0) == 0) by {
        assert(hex_val(d[0]) >= 0);
    }
    assert(trail(d, d.len() as int, 0) == d.len()) by {
        assert(hex_val(d[d.len() - 1]) >= 0);
    }
    assert(trimmed(d) =~= d);
    assert(hex_val(d[0]) >= 0);
    assert(spec_hex_digits(d) == d);
}

} // verus!
