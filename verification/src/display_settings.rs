//! Display settings: colour fields, pictogram names, the pictogram editor's line tool and
//! the rows each display tab shows.
use vstd::prelude::*;

use crate::text::{
    char_is_whitespace, end_of_non_whitespace, first_non_whitespace, char_is_alphabetic, char_is_alphanumeric, hex_digit_char, hex_digit_str, is_alphabetic,
    is_alphanumeric, str_eq, str_lowercase, to_lowercase, trim, trimmed,
};

verus! {

/// `egui::Color32`, an sRGB colour with alpha.
#[verifier::external_type_specification]
#[verifier::external_body]
pub struct ExColor32(egui::Color32);

/// The colour that `egui::Color32::from_rgb` makes of three channel values.
pub uninterp spec fn color32_from_rgb(r: u8, g: u8, b: u8) -> egui::Color32;

/// `egui::Color32::from_rgb`: the opaque colour of the given channels, a function of them
/// alone.
#[verifier::external_body]
fn opaque_color(r: u8, g: u8, b: u8) -> (c: egui::Color32)
    ensures
        c == color32_from_rgb(r, g, b),
{
    egui::Color32::from_rgb(r, g, b)
}

/// A pictogram the user saved in the application settings.
#[derive(Clone, Debug)]
pub struct SavedPictogram {
    pub name: String,
    pub color: [u8; 3],
    pub bitmap: Vec<u8>,
}

/// The display settings: what the device supports, the values shown in the editor, and the
/// values the device last confirmed.
#[derive(Clone, Debug, Default)]
pub struct DisplaySettingsState {
    pub clock_settings_supported: bool,
    pub background_color_supported: bool,
    pub brightness_supported: bool,
    pub button_style_supported: bool,
    pub clock_info_color_supported: bool,
    pub clock_background_asset_supported: bool,
    pub clock_background_speed_supported: bool,
    pub clock_background_dim_supported: bool,
    pub clock_colon_blink_supported: bool,
    pub clock_overlay_controls_supported: bool,
    pub standby_controls_supported: bool,
    pub date_supported: bool,
    pub color: [u8; 3],
    pub confirmed_color: [u8; 3],
    pub background_color: [u8; 3],
    pub confirmed_background_color: [u8; 3],
    pub clock_text_color: [u8; 3],
    pub confirmed_clock_text_color: [u8; 3],
    pub clock_background_color: [u8; 3],
    pub confirmed_clock_background_color: [u8; 3],
    pub clock_info_color: [u8; 3],
    pub confirmed_clock_info_color: [u8; 3],
    pub clock_modifiers_color: [u8; 3],
    pub confirmed_clock_modifiers_color: [u8; 3],
    pub date: Vec<u8>,
    pub confirmed_date: Vec<u8>,
    pub clock_style: u8,
    pub confirmed_clock_style: u8,
    pub clock_size: u8,
    pub confirmed_clock_size: u8,
    pub clock_alignment: u8,
    pub confirmed_clock_alignment: u8,
    pub clock_delay: u8,
    pub confirmed_clock_delay: u8,
    pub display_timeout: u8,
    pub confirmed_display_timeout: u8,
    pub clock_colon_blink: bool,
    pub confirmed_clock_colon_blink: bool,
    pub clock_background_dim: u8,
    pub confirmed_clock_background_dim: u8,
    pub brightness: u8,
    pub confirmed_brightness: u8,
    pub button_style: u8,
    pub confirmed_button_style: u8,
}

/// The seven characters `#RRGGBB` of a colour, in upper-case hexadecimal.
pub open spec fn rgb_hex_chars(rgb: Seq<u8>) -> Seq<char> {
    seq![
        '#',
        hex_digit_char((rgb[0] / 16) as nat),
        hex_digit_char((rgb[0] % 16) as nat),
        hex_digit_char((rgb[1] / 16) as nat),
        hex_digit_char((rgb[1] % 16) as nat),
        hex_digit_char((rgb[2] / 16) as nat),
        hex_digit_char((rgb[2] % 16) as nat),
    ]
}

/// The colour as `#RRGGBB` in upper-case hexadecimal.
pub fn format_rgb_hex(rgb: [u8; 3]) -> (s: String)
    ensures
        s@ == rgb_hex_chars(rgb@),
{
    let mut s = String::new();
    proof {
        reveal_strlit("#");
    }
    s.append("#");
    let mut i: usize = 0;
    while i < 3
        invariant
            i <= 3,
            s@.len() == 1 + 2 * i,
            s@ == rgb_hex_chars(rgb@).subrange(0, 1 + 2 * i as int),
        decreases 3 - i,
    {
        let v = rgb[i];
        s.append(hex_digit_str(v / 16));
        s.append(hex_digit_str(v % 16));
        i = i + 1;
    }
    assert(s@ =~= rgb_hex_chars(rgb@));
    s
}

/// Whether `c` is an ASCII hexadecimal digit.
pub open spec fn is_hex_digit(c: char) -> bool {
    ('0' <= c <= '9') || ('a' <= c <= 'f') || ('A' <= c <= 'F')
}

/// The value of the hexadecimal digit `c`.
pub open spec fn hex_value(c: char) -> nat {
    if '0' <= c <= '9' {
        (c as nat - '0' as nat) as nat
    } else if 'a' <= c <= 'f' {
        (c as nat - 'a' as nat + 10) as nat
    } else {
        (c as nat - 'A' as nat + 10) as nat
    }
}

/// The part of a colour field that holds the digits: trimmed, and without one leading `#`.
pub open spec fn rgb_hex_body(s: Seq<char>) -> Seq<char> {
    let t = trimmed(s);
    if t.len() > 0 && t[0] == '#' {
        t.subrange(1, t.len() as int)
    } else {
        t
    }
}

/// Whether a colour field holds exactly six hexadecimal digits, after an optional `#`.
pub open spec fn is_rgb_hex(s: Seq<char>) -> bool {
    let b = rgb_hex_body(s);
    b.len() == 6 && forall|i: int| 0 <= i < 6 ==> is_hex_digit(#[trigger] b[i])
}

/// The channel whose two digits start at `i` in `b`.
pub open spec fn hex_pair(b: Seq<char>, i: int) -> nat {
    hex_value(b[i]) * 16 + hex_value(b[i + 1])
}

fn hex_digit_value(c: char) -> (v: u8)
    requires
        is_hex_digit(c),
    ensures
        v == hex_value(c),
        v < 16,
{
    if '0' <= c && c <= '9' {
        (c as u32 - '0' as u32) as u8
    } else if 'a' <= c && c <= 'f' {
        (c as u32 - 'a' as u32 + 10) as u8
    } else {
        (c as u32 - 'A' as u32 + 10) as u8
    }
}

/// Reads a colour field: six hexadecimal digits in either case, with or without a leading
/// `#`, and with surrounding whitespace ignored.
pub fn parse_rgb_hex(value: &str) -> (r: Option<[u8; 3]>)
    ensures
        r is Some <==> is_rgb_hex(value@),
        r is Some ==> r->0@ == seq![
            hex_pair(rgb_hex_body(value@), 0) as u8,
            hex_pair(rgb_hex_body(value@), 2) as u8,
            hex_pair(rgb_hex_body(value@), 4) as u8,
        ],
{
    let t = trim(value);
    let n = t.unicode_len();
    let body = if n > 0 && t.get_char(0) == '#' {
        t.substring_char(1, n)
    } else {
        t
    };
    assert(body@ == rgb_hex_body(value@));
    if body.unicode_len() != 6 {
        return None;
    }
    let mut i: usize = 0;
    while i < 6
        invariant
            body@ == rgb_hex_body(value@),
            body@.len() == 6,
            i <= 6,
            forall|j: int| 0 <= j < i ==> is_hex_digit(#[trigger] body@[j]),
        decreases 6 - i,
    {
        let c = body.get_char(i);
        if !(('0' <= c && c <= '9') || ('a' <= c && c <= 'f') || ('A' <= c && c <= 'F')) {
            assert(!is_hex_digit(body@[i as int]));
            return None;
        }
        i = i + 1;
    }
    let mut out: [u8; 3] = [0, 0, 0];
    let mut k: usize = 0;
    while k < 3
        invariant
            body@ == rgb_hex_body(value@),
            body@.len() == 6,
            forall|j: int| 0 <= j < 6 ==> is_hex_digit(#[trigger] body@[j]),
            k <= 3,
            forall|j: int| 0 <= j < k ==> out@[j] == hex_pair(body@, 2 * j) as u8,
        decreases 3 - k,
    {
        let hi = hex_digit_value(body.get_char(2 * k));
        let lo = hex_digit_value(body.get_char(2 * k + 1));
        out.set(k, hi * 16 + lo);
        k = k + 1;
    }
    assert(out@ =~= seq![
        hex_pair(body@, 0) as u8,
        hex_pair(body@, 2) as u8,
        hex_pair(body@, 4) as u8,
    ]);
    Some(out)
}


/// The distance between two coordinates.
pub open spec fn span(a: int, b: int) -> int {
    if a <= b { b - a } else { a - b }
}

/// Whether `c` lies between `a` and `b`, both included.
pub open spec fn between(a: int, c: int, b: int) -> bool {
    (a <= c <= b) || (b <= c <= a)
}

/// The coordinate `d` steps from `a` in the direction of `b`.
pub open spec fn toward(a: int, b: int, d: int) -> int {
    if a < b { a + d } else { a - d }
}

/// The number of cells a line covers along its longer axis, less one.
pub open spec fn line_major(from: (u8, u8), to: (u8, u8)) -> int {
    let a = span(from.0 as int, to.0 as int);
    let b = span(from.1 as int, to.1 as int);
    if a >= b { a } else { b }
}

/// How far a cell lies along the line's longer axis.
pub open spec fn major_offset(from: (u8, u8), to: (u8, u8), c: (u8, u8)) -> int {
    let a = span(from.0 as int, to.0 as int);
    let b = span(from.1 as int, to.1 as int);
    if a >= b { span(from.0 as int, c.0 as int) } else { span(from.1 as int, c.1 as int) }
}

/// Twice the scaled distance of a cell from the ideal line, along the shorter axis.
pub open spec fn line_deviation(from: (u8, u8), to: (u8, u8), c: (u8, u8)) -> int {
    let a = span(from.0 as int, to.0 as int);
    let b = span(from.1 as int, to.1 as int);
    2 * (a * span(from.1 as int, c.1 as int) - b * span(from.0 as int, c.0 as int))
}

/// Whether a cell lies in the line's bounding box, at most half a cell off the ideal line.
pub open spec fn line_cell(from: (u8, u8), to: (u8, u8), c: (u8, u8)) -> bool {
    &&& between(from.0 as int, c.0 as int, to.0 as int)
    &&& between(from.1 as int, c.1 as int, to.1 as int)
    &&& -line_major(from, to) <= line_deviation(from, to, c) <= line_major(from, to)
}

/// Whether the step from `c` to `d` moves each coordinate at most one cell onward.
pub open spec fn unit_step(from: (u8, u8), c: (u8, u8), d: (u8, u8)) -> bool {
    &&& 0 <= span(from.0 as int, d.0 as int) - span(from.0 as int, c.0 as int) <= 1
    &&& 0 <= span(from.1 as int, d.1 as int) - span(from.1 as int, c.1 as int) <= 1
}

proof fn lemma_toward(a: int, b: int, d: int)
    requires
        0 <= d <= span(a, b),
    ensures
        span(a, toward(a, b, d)) == d,
        between(a, toward(a, b, d), b),
{
}

proof fn lemma_line_step(a: int, b: int, p: int, q: int, l: int, x_step: bool, y_step: bool)
    requires
        0 <= p <= a,
        0 <= q <= b,
        l == a * q - b * p,
        x_step ==> p < a,
        y_step ==> q < b,
    ensures
        (if y_step { a * (q + 1) } else { a * q }) - (if x_step { b * (p + 1) } else { b * p })
            == l + (if y_step { a } else { 0 }) - (if x_step { b } else { 0 }),
{
    assert(a * (q + 1) == a * q + a) by (nonlinear_arith);
    assert(b * (p + 1) == b * p + b) by (nonlinear_arith);
}

proof fn lemma_line_not_done(a: int, b: int, p: int, q: int, l: int)
    requires
        0 <= p <= a,
        0 <= q <= b,
        l == a * q - b * p,
        -(if a >= b { a } else { b }) <= 2 * l <= (if a >= b { a } else { b }),
        !(p == a && q == b),
    ensures
        a >= b ==> p < a,
        b > a ==> q < b,
        a >= b && q == b ==> 2 * l > 2 * b - a,
        b > a && p == a ==> 2 * l < b - 2 * a,
{
    if a >= b && p == a {
        assert(l == a * (q - b)) by (nonlinear_arith)
            requires
                l == a * q - b * p,
                p == a,
        ;
        if q < b {
            assert(a * (q - b) <= -a) by (nonlinear_arith)
                requires
                    q < b,
                    a >= 0,
            ;
            assert(a == 0);
        }
    }
    if b > a && q == b {
        assert(l == b * (b - p) - b * b + a * b) by (nonlinear_arith)
            requires
                l == a * q - b * p,
                q == b,
        ;
        assert(l == b * (a - p)) by (nonlinear_arith)
            requires
                l == b * (b - p) - b * b + a * b,
        ;
        if p < a {
            assert(b * (a - p) >= b) by (nonlinear_arith)
                requires
                    p < a,
                    b >= 0,
            ;
        }
    }
    if a >= b && q == b && p < a {
        assert(l == b * (a - p)) by (nonlinear_arith)
            requires
                l == a * q - b * p,
                q == b,
        ;
        assert(b * (a - p) >= b) by (nonlinear_arith)
            requires
                p < a,
                b >= 0,
        ;
    }
    if b > a && p == a && q < b {
        assert(l == a * (q - b)) by (nonlinear_arith)
            requires
                l == a * q - b * p,
                p == a,
        ;
        assert(a * (q - b) <= -a) by (nonlinear_arith)
            requires
                q < b,
                a >= 0,
        ;
    }
}

/// The cells a drag from `from` to `to` paints in the pictogram editor: every cell of the
/// line from one end to the other, one per step along the longer axis, each the cell
/// nearest to the ideal line.
#[verifier::rlimit(60)]
pub fn pictogram_editor_line(from: (u8, u8), to: (u8, u8)) -> (cells: Vec<(u8, u8)>)
    ensures
        cells@.len() == line_major(from, to) + 1,
        cells@[0] == from,
        cells@.last() == to,
        forall|k: int|
            0 <= k < cells@.len() ==> line_cell(from, to, #[trigger] cells@[k]) && major_offset(
                from,
                to,
                cells@[k],
            ) == k,
        forall|k: int|
            0 <= k < cells@.len() - 1 ==> unit_step(from, #[trigger] cells@[k], cells@[k + 1]),
{
    let fx = from.0 as i32;
    let fy = from.1 as i32;
    let (mut x0, mut y0) = (fx, fy);
    let (x1, y1) = (to.0 as i32, to.1 as i32);
    let dx = if x1 >= x0 { x1 - x0 } else { x0 - x1 };
    let sx: i32 = if x0 < x1 { 1 } else { -1 };
    let dy = -(if y1 >= y0 { y1 - y0 } else { y0 - y1 });
    let sy: i32 = if y0 < y1 { 1 } else { -1 };
    let mut error = dx + dy;
    let mut cells: Vec<(u8, u8)> = Vec::new();
    let ghost a: int = dx as int;
    let ghost b: int = -dy;
    let ghost m: int = if a >= b { a } else { b };
    let ghost mut p: int = 0;
    let ghost mut q: int = 0;
    let ghost mut l: int = 0;
    assert(l == a * q - b * p);
    loop
        invariant_except_break
            a == span(fx as int, x1 as int),
            b == span(fy as int, y1 as int),
            m == line_major(from, to),
            fx == from.0,
            fy == from.1,
            x1 == to.0,
            y1 == to.1,
            dx == a,
            dy == -b,
            sx == (if fx < x1 { 1int } else { -1int }),
            sy == (if fy < y1 { 1int } else { -1int }),
            0 <= p <= a,
            0 <= q <= b,
            x0 == toward(fx as int, x1 as int, p),
            y0 == toward(fy as int, y1 as int, q),
            l == a * q - b * p,
            error == a - b + l,
            -m <= 2 * l <= m,
            cells@.len() == (if a >= b { p } else { q }),
            cells@.len() == 0 ==> p == 0 && q == 0,
            forall|k: int|
                0 <= k < cells@.len() ==> line_cell(from, to, #[trigger] cells@[k])
                    && major_offset(from, to, cells@[k]) == k,
            forall|k: int|
                0 <= k < cells@.len() - 1 ==> unit_step(from, #[trigger] cells@[k], cells@[k + 1]),
            cells@.len() > 0 ==> unit_step(from, cells@.last(), (x0 as u8, y0 as u8)),
            cells@.len() > 0 ==> cells@[0] == from,
        ensures
            cells@.len() == m + 1,
            cells@[0] == from,
            cells@.last() == to,
            forall|k: int|
                0 <= k < cells@.len() ==> line_cell(from, to, #[trigger] cells@[k])
                    && major_offset(from, to, cells@[k]) == k,
            forall|k: int|
                0 <= k < cells@.len() - 1 ==> unit_step(from, #[trigger] cells@[k], cells@[k + 1]),
        decreases (a - p) + (b - q),
    {
        proof {
            lemma_toward(fx as int, x1 as int, p);
            lemma_toward(fy as int, y1 as int, q);
        }
        let ghost before = cells@;
        cells.push((x0 as u8, y0 as u8));
        proof {
            assert(line_cell(from, to, cells@.last()));
            assert forall|k: int| 0 <= k < cells@.len() - 1 implies unit_step(
                from,
                #[trigger] cells@[k],
                cells@[k + 1],
            ) by {
                if k < before.len() - 1 {
                    assert(cells@[k] == before[k] && cells@[k + 1] == before[k + 1]);
                } else {
                    assert(cells@[k] == before.last());
                }
            }
            assert forall|k: int| 0 <= k < cells@.len() implies line_cell(
                from,
                to,
                #[trigger] cells@[k],
            ) && major_offset(from, to, cells@[k]) == k by {
                if k < before.len() {
                    assert(cells@[k] == before[k]);
                }
            }
        }
        if x0 == x1 && y0 == y1 {
            break;
        }
        proof {
            lemma_line_not_done(a, b, p, q, l);
        }
        let twice = error * 2;
        let x_step = twice >= dy;
        let y_step = twice <= dx;
        proof {
            lemma_line_step(a, b, p, q, l, x_step, y_step);
        }
        if x_step {
            error += dy;
            x0 += sx;
            proof {
                p = p + 1;
            }
        }
        if y_step {
            error += dx;
            y0 += sy;
            proof {
                q = q + 1;
            }
        }
        proof {
            l = a * q - b * p;
        }
    }
    cells
}


proof fn lemma_hex_digit(d: nat)
    requires
        d < 16,
    ensures
        is_hex_digit(hex_digit_char(d)),
        hex_value(hex_digit_char(d)) == d,
        !char_is_whitespace(hex_digit_char(d)),
{
}

proof fn lemma_hex_digit_chars_not_whitespace(s: Seq<char>)
    requires
        s.len() == 7,
        s[0] == '#',
        forall|i: int| 1 <= i < 7 ==> is_hex_digit(#[trigger] s[i]),
    ensures
        trimmed(s) == s,
{
    assert(first_non_whitespace(s, 0) == 0);
    assert(!char_is_whitespace(s[6]));
    assert(end_of_non_whitespace(s, 7) == 7);
    assert(trimmed(s) =~= s);
}

proof fn lemma_hex_pair_of_byte(v: u8, hi: char, lo: char)
    requires
        hi == hex_digit_char((v / 16) as nat),
        lo == hex_digit_char((v % 16) as nat),
    ensures
        is_hex_digit(hi),
        is_hex_digit(lo),
        hex_value(hi) * 16 + hex_value(lo) == v,
{
    lemma_hex_digit((v / 16) as nat);
    lemma_hex_digit((v % 16) as nat);
}

/// Reading back a colour written as `#RRGGBB` gives the colour.
#[verifier::spinoff_prover]
pub proof fn lemma_rgb_hex_round_trip(rgb: Seq<u8>)
    requires
        rgb.len() == 3,
    ensures
        is_rgb_hex(rgb_hex_chars(rgb)),
        seq![
            hex_pair(rgb_hex_body(rgb_hex_chars(rgb)), 0) as u8,
            hex_pair(rgb_hex_body(rgb_hex_chars(rgb)), 2) as u8,
            hex_pair(rgb_hex_body(rgb_hex_chars(rgb)), 4) as u8,
        ] == rgb,
{
    let s = rgb_hex_chars(rgb);
    lemma_hex_pair_of_byte(rgb[0], s[1], s[2]);
    lemma_hex_pair_of_byte(rgb[1], s[3], s[4]);
    lemma_hex_pair_of_byte(rgb[2], s[5], s[6]);
    assert forall|i: int| 1 <= i < 7 implies is_hex_digit(#[trigger] s[i]) by {
        if i == 1 || i == 2 {
        } else if i == 3 || i == 4 {
        } else {
        }
    }
    lemma_hex_digit_chars_not_whitespace(s);
    let b = rgb_hex_body(s);
    assert(b =~= s.subrange(1, 7));
    assert(hex_pair(b, 0) == rgb[0]);
    assert(hex_pair(b, 2) == rgb[1]);
    assert(hex_pair(b, 4) == rgb[2]);
    assert(seq![hex_pair(b, 0) as u8, hex_pair(b, 2) as u8, hex_pair(b, 4) as u8] =~= rgb);
}

/// The message-catalog key of a name that does not start with a letter or holds a
/// character other than letters, digits, `_` and space.
pub open spec fn name_format_error() -> &'static str {
    "display_settings.pictogram_name_format_error"
}

/// The message-catalog key of a name that another pictogram already has.
pub open spec fn name_duplicate_error() -> &'static str {
    "display_settings.pictogram_name_duplicate_error"
}

/// Whether `c` may stand after the first character of a pictogram name.
pub open spec fn is_name_char(c: char) -> bool {
    char_is_alphanumeric(c) || c == '_' || c == ' '
}

/// Whether a trimmed name is well formed: a letter first, then letters, digits, `_` and
/// spaces.
pub open spec fn is_well_formed_name(t: Seq<char>) -> bool {
    &&& t.len() > 0
    &&& char_is_alphabetic(t[0])
    &&& forall|i: int| 1 <= i < t.len() ==> is_name_char(#[trigger] t[i])
}

/// The form in which two pictogram names are compared: trimmed and in lower case.
pub open spec fn name_key(s: Seq<char>) -> Seq<char> {
    str_lowercase(trimmed(s))
}

/// Whether a built-in pictogram has the name `key`.
pub open spec fn builtin_name_taken(builtin_names: Seq<String>, key: Seq<char>) -> bool {
    exists|i: int| 0 <= i < builtin_names.len() && name_key(#[trigger] builtin_names[i]@) == key
}

/// Whether a saved pictogram other than the selected one has the name `key`.
pub open spec fn saved_name_taken(
    saved: Seq<SavedPictogram>,
    selected_saved: Option<usize>,
    key: Seq<char>,
) -> bool {
    exists|i: int|
        0 <= i < saved.len() && selected_saved != Some(i as usize) && name_key(
            #[trigger] saved[i].name@,
        ) == key
}

/// The error a pictogram name gives, if any.
pub open spec fn name_error(
    name: Seq<char>,
    saved: Seq<SavedPictogram>,
    selected_saved: Option<usize>,
    builtin_names: Seq<String>,
) -> Option<&'static str> {
    if !is_well_formed_name(trimmed(name)) {
        Some(name_format_error())
    } else if builtin_name_taken(builtin_names, name_key(name)) {
        Some(name_duplicate_error())
    } else if saved_name_taken(saved, selected_saved, name_key(name)) {
        Some(name_duplicate_error())
    } else {
        None
    }
}

/// Checks a pictogram name: it must start with a letter, hold only letters, digits, `_`
/// and spaces, and no built-in pictogram and no other saved pictogram may have the same
/// name, ignoring case and surrounding whitespace.
pub fn pictogram_name_error(
    name: &str,
    saved: &[SavedPictogram],
    selected_saved: Option<usize>,
    builtin_names: &[String],
) -> (r: Option<&'static str>)
    ensures
        r == name_error(name@, saved@, selected_saved, builtin_names@),
{
    let t = trim(name);
    let n = t.unicode_len();
    if n == 0 || !is_alphabetic(t.get_char(0)) {
        return Some("display_settings.pictogram_name_format_error");
    }
    let mut i: usize = 1;
    while i < n
        invariant
            t@ == trimmed(name@),
            n == t@.len(),
            1 <= i <= n,
            char_is_alphabetic(t@[0]),
            forall|j: int| 1 <= j < i ==> is_name_char(#[trigger] t@[j]),
        decreases n - i,
    {
        let c = t.get_char(i);
        if !(is_alphanumeric(c) || c == '_' || c == ' ') {
            assert(!is_name_char(t@[i as int]));
            return Some("display_settings.pictogram_name_format_error");
        }
        i = i + 1;
    }
    assert(is_well_formed_name(trimmed(name@)));
    let normalized = to_lowercase(t);
    let mut b: usize = 0;
    while b < builtin_names.len()
        invariant
            normalized@ == name_key(name@),
            is_well_formed_name(trimmed(name@)),
            b <= builtin_names@.len(),
            forall|j: int| 0 <= j < b ==> name_key(#[trigger] builtin_names@[j]@) != normalized@,
        decreases builtin_names@.len() - b,
    {
        let candidate = to_lowercase(trim(builtin_names[b].as_str()));
        if candidate == normalized {
            assert(name_key(builtin_names@[b as int]@) == name_key(name@));
            return Some("display_settings.pictogram_name_duplicate_error");
        }
        b = b + 1;
    }
    let mut s: usize = 0;
    while s < saved.len()
        invariant
            normalized@ == name_key(name@),
            is_well_formed_name(trimmed(name@)),
            !builtin_name_taken(builtin_names@, name_key(name@)),
            s <= saved@.len(),
            forall|j: int|
                0 <= j < s && selected_saved != Some(j as usize) ==> name_key(
                    #[trigger] saved@[j].name@,
                ) != normalized@,
        decreases saved@.len() - s,
    {
        let is_selected = match selected_saved {
            Some(index) => index == s,
            None => false,
        };
        if !is_selected {
            let candidate = to_lowercase(trim(saved[s].name.as_str()));
            if candidate == normalized {
                assert(name_key(saved@[s as int].name@) == name_key(name@));
                return Some("display_settings.pictogram_name_duplicate_error");
            }
        }
        s = s + 1;
    }
    None
}

/// Whether the editor shows the selected built-in pictogram under its own name.
pub fn pictogram_is_builtin_selection(
    name: &str,
    selected: Option<usize>,
    builtin_names: &[String],
) -> (r: bool)
    ensures
        r == (selected matches Some(i) && i < builtin_names@.len() && trimmed(name@)
            == builtin_names@[i as int]@),
{
    match selected {
        Some(i) => {
            if i < builtin_names.len() {
                str_eq(trim(name), builtin_names[i].as_str())
            } else {
                false
            }
        },
        None => false,
    }
}

/// The colour a pictogram tile is drawn in: the colour stored on the device, in either
/// application theme.
pub fn visible_pictogram_color(dark: bool, color: [u8; 3]) -> (c: egui::Color32)
    ensures
        c == color32_from_rgb(color[0], color[1], color[2]),
{
    opaque_color(color[0], color[1], color[2])
}

/// Whether the delete action applies: only a saved user pictogram can be deleted.
pub fn can_delete_saved_pictogram(selected_saved: Option<usize>) -> (r: bool)
    ensures
        r == selected_saved is Some,
{
    selected_saved.is_some()
}

/// Whether the startup image can be reset: the device supports it, holds a custom image,
/// and is not busy.
pub fn startup_image_reset_enabled(supported: bool, present: bool, busy: bool) -> (r: bool)
    ensures
        r == (supported && present && !busy),
{
    supported && present && !busy
}

/// 1 for a supported feature, 0 otherwise.
pub open spec fn flag(b: bool) -> nat {
    if b { 1 } else { 0 }
}

/// The number of rows a display tab shows: 0 is the pictograms tab, 1 the display tab,
/// 3 the date tab, any other the standby tab.
pub open spec fn row_count(s: DisplaySettingsState, mode: u8) -> nat {
    if mode == 3 {
        7
    } else if mode == 0 {
        2
    } else if mode == 1 {
        1 + flag(s.background_color_supported) + flag(s.brightness_supported) + flag(
            s.button_style_supported,
        )
    } else if !s.clock_settings_supported {
        0
    } else {
        (if s.clock_overlay_controls_supported {
            2
        } else {
            1 + flag(s.clock_info_color_supported)
        }) + (if s.clock_background_asset_supported {
            2nat
        } else {
            1nat
        }) + flag(s.clock_background_dim_supported) + 4 + 2 * flag(s.standby_controls_supported)
            + flag(s.clock_colon_blink_supported) + (if s.date_supported {
            3nat
        } else {
            0nat
        })
    }
}

fn count_flag(b: bool) -> (n: usize)
    ensures
        n == flag(b),
{
    if b { 1 } else { 0 }
}

/// The tooltip that goes with a settings row, by the catalog keys of the row's label and
/// of its tooltip; `None` for a row without one.
pub open spec fn row_tooltip_of(label: Seq<char>) -> Option<&'static str> {
    if label == "display_settings.accent_color"@ {
        Some("display_settings.tooltip_accent_color")
    } else if label == "display_settings.background_color"@ {
        Some("display_settings.tooltip_background_color")
    } else if label == "display_settings.brightness"@ {
        Some("display_settings.tooltip_brightness")
    } else if label == "display_settings.button_style"@ {
        Some("display_settings.tooltip_button_style")
    } else if label == "display_settings.layer_language_element"@ {
        Some("display_settings.tooltip_layer_language_element")
    } else if label == "display_settings.clock_element"@ {
        Some("display_settings.tooltip_clock_element")
    } else if label == "display_settings.date_element"@ {
        Some("display_settings.tooltip_date_element")
    } else if label == "display_settings.song_element"@ {
        Some("display_settings.tooltip_song_element")
    } else if label == "display_settings.standby_text_color"@ {
        Some("display_settings.tooltip_standby_text_color")
    } else if label == "display_settings.standby_brightness"@ {
        Some("display_settings.tooltip_standby_brightness")
    } else if label == "display_settings.clock_background_asset"@ {
        Some("display_settings.tooltip_clock_background_asset")
    } else if label == "display_settings.clock_background_dim"@ {
        Some("display_settings.tooltip_clock_background_dim")
    } else if label == "display_settings.clock_background_color"@ {
        Some("display_settings.tooltip_clock_background_color")
    } else if label == "display_settings.clock_font"@ {
        Some("display_settings.tooltip_clock_font")
    } else if label == "display_settings.clock_size"@ {
        Some("display_settings.tooltip_clock_size")
    } else if label == "display_settings.clock_colon_blink"@ {
        Some("display_settings.tooltip_clock_colon_blink")
    } else if label == "display_settings.clock_delay"@ {
        Some("display_settings.tooltip_clock_delay")
    } else if label == "display_settings.date_delay"@ {
        Some("display_settings.tooltip_date_delay")
    } else if label == "display_settings.date_alignment"@ {
        Some("display_settings.tooltip_date_alignment")
    } else if label == "display_settings.date_format"@ {
        Some("display_settings.tooltip_date_format")
    } else if label == "display_settings.display_timeout"@ {
        Some("display_settings.tooltip_display_timeout")
    } else if label == "display_settings.choose_action_type"@ {
        Some("display_settings.tooltip_pictogram_action_type")
    } else if label == "display_settings.choose_macro"@ {
        Some("display_settings.tooltip_pictogram_slot")
    } else if label == "display_settings.choose_tap_dance"@ {
        Some("display_settings.tooltip_pictogram_slot")
    } else if label == "display_settings.choose_pictogram"@ {
        Some("display_settings.tooltip_pictogram_choice")
    } else if label == "display_settings.pictogram_name"@ {
        Some("display_settings.tooltip_pictogram_name")
    } else {
        None
    }
}

/// The catalog key of the tooltip shown on the settings row whose label has the catalog
/// key `label`, if that row has one.
pub fn display_settings_row_tooltip(label: &str) -> (tooltip: Option<&'static str>)
    ensures
        tooltip == row_tooltip_of(label@),
{
    if str_eq(label, "display_settings.accent_color") {
        Some("display_settings.tooltip_accent_color")
    } else if str_eq(label, "display_settings.background_color") {
        Some("display_settings.tooltip_background_color")
    } else if str_eq(label, "display_settings.brightness") {
        Some("display_settings.tooltip_brightness")
    } else if str_eq(label, "display_settings.button_style") {
        Some("display_settings.tooltip_button_style")
    } else if str_eq(label, "display_settings.layer_language_element") {
        Some("display_settings.tooltip_layer_language_element")
    } else if str_eq(label, "display_settings.clock_element") {
        Some("display_settings.tooltip_clock_element")
    } else if str_eq(label, "display_settings.date_element") {
        Some("display_settings.tooltip_date_element")
    } else if str_eq(label, "display_settings.song_element") {
        Some("display_settings.tooltip_song_element")
    } else if str_eq(label, "display_settings.standby_text_color") {
        Some("display_settings.tooltip_standby_text_color")
    } else if str_eq(label, "display_settings.standby_brightness") {
        Some("display_settings.tooltip_standby_brightness")
    } else if str_eq(label, "display_settings.clock_background_asset") {
        Some("display_settings.tooltip_clock_background_asset")
    } else if str_eq(label, "display_settings.clock_background_dim") {
        Some("display_settings.tooltip_clock_background_dim")
    } else if str_eq(label, "display_settings.clock_background_color") {
        Some("display_settings.tooltip_clock_background_color")
    } else if str_eq(label, "display_settings.clock_font") {
        Some("display_settings.tooltip_clock_font")
    } else if str_eq(label, "display_settings.clock_size") {
        Some("display_settings.tooltip_clock_size")
    } else if str_eq(label, "display_settings.clock_colon_blink") {
        Some("display_settings.tooltip_clock_colon_blink")
    } else if str_eq(label, "display_settings.clock_delay") {
        Some("display_settings.tooltip_clock_delay")
    } else if str_eq(label, "display_settings.date_delay") {
        Some("display_settings.tooltip_date_delay")
    } else if str_eq(label, "display_settings.date_alignment") {
        Some("display_settings.tooltip_date_alignment")
    } else if str_eq(label, "display_settings.date_format") {
        Some("display_settings.tooltip_date_format")
    } else if str_eq(label, "display_settings.display_timeout") {
        Some("display_settings.tooltip_display_timeout")
    } else if str_eq(label, "display_settings.choose_action_type") {
        Some("display_settings.tooltip_pictogram_action_type")
    } else if str_eq(label, "display_settings.choose_macro") {
        Some("display_settings.tooltip_pictogram_slot")
    } else if str_eq(label, "display_settings.choose_tap_dance") {
        Some("display_settings.tooltip_pictogram_slot")
    } else if str_eq(label, "display_settings.choose_pictogram") {
        Some("display_settings.tooltip_pictogram_choice")
    } else if str_eq(label, "display_settings.pictogram_name") {
        Some("display_settings.tooltip_pictogram_name")
    } else {
        None
    }
}

/// The number of settings rows on a display tab, counting only the rows of features the
/// device supports.
pub fn display_settings_row_count(settings: &DisplaySettingsState, mode: u8) -> (n: usize)
    ensures
        n == row_count(*settings, mode),
{
    if mode == 3 {
        return 7;
    }
    if mode == 0 {
        return 2;
    }
    if mode == 1 {
        return 1 + count_flag(settings.background_color_supported) + count_flag(
            settings.brightness_supported,
        ) + count_flag(settings.button_style_supported);
    }
    if !settings.clock_settings_supported {
        return 0;
    }
    (if settings.clock_overlay_controls_supported {
        2
    } else {
        1 + count_flag(settings.clock_info_color_supported)
    }) + (if settings.clock_background_asset_supported {
        2
    } else {
        1
    }) + count_flag(settings.clock_background_dim_supported) + 4 + 2 * count_flag(
        settings.standby_controls_supported,
    ) + count_flag(settings.clock_colon_blink_supported) + (if settings.date_supported {
        3
    } else {
        0
    })
}


/// How many editor states the pictogram editor's undo history keeps.
pub const PICTOGRAM_UNDO_LIMIT: usize = 64;

/// The undo history once `levels` was remembered: the oldest state leaves a full history
/// first.
pub open spec fn undo_after_remember(undo: Seq<Vec<u8>>, levels: Vec<u8>) -> Seq<Vec<u8>> {
    if undo.len() >= PICTOGRAM_UNDO_LIMIT {
        undo.drop_first().push(levels)
    } else {
        undo.push(levels)
    }
}

/// Remembers the pictogram editor's state `levels` (its cells' levels as the editor shows
/// them) for undo; a full history drops its oldest state first.
pub fn remember_pictogram_undo(undo: &mut Vec<Vec<u8>>, levels: Vec<u8>)
    ensures
        final(undo)@ == undo_after_remember(old(undo)@, levels),
{
    if undo.len() >= PICTOGRAM_UNDO_LIMIT {
        undo.remove(0);
    }
    undo.push(levels);
}

/// The undo history never grows past its limit: remembering a state in a history within
/// the limit leaves one within it, with the new state last.
pub proof fn lemma_undo_history_stays_within_limit(undo: Seq<Vec<u8>>, levels: Vec<u8>)
    requires
        undo.len() <= PICTOGRAM_UNDO_LIMIT,
    ensures
        undo_after_remember(undo, levels).len() <= PICTOGRAM_UNDO_LIMIT,
        undo_after_remember(undo, levels).last() == levels,
        undo.len() < PICTOGRAM_UNDO_LIMIT ==> undo_after_remember(undo, levels).len() == undo.len() + 1,
{
}

} // verus!
