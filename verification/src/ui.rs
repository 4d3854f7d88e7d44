//! What the screen shows, computed from the session: which lines are in
//! view, what a selection covers and copies, and the text of the status bar,
//! the menu and the port list.
use vstd::prelude::*;

use vstd::utf8::encode_utf8;

use crate::app::{
    App, AppView, Area, ConnectionStatus, InputMode, MenuItem, MenuItemView, Selection,
    SelectionMode,
};
use crate::serial::{DataBits, Parity, PortInfo, PortType, SerialConfig, StopBits};
use crate::text::{
    chars_to_string, decimal, padded_left, padded_right, push_chars, push_str, str_chars, trim_end,
    trimmed_end, u32_to_decimal,
};

verus! {

/// The sum of some heights.
pub open spec fn total_rows(h: Seq<u16>) -> nat
    decreases h.len(),
{
    if h.len() == 0 {
        0
    } else {
        total_rows(h.drop_last()) + h.last() as nat
    }
}

/// Rows taken by the lines before line `i`.
pub open spec fn rows_before(h: Seq<u16>, i: int) -> nat {
    total_rows(h.take(i))
}

/// Rows taken by the lines up to and including line `i`.
pub open spec fn rows_through(h: Seq<u16>, i: int) -> nat {
    total_rows(h.take(i + 1))
}

/// The lines in view when the output is scrolled down by `scroll` rows in a
/// viewport of `height` rows.
#[derive(Debug, Clone, Copy)]
pub struct Window {
    /// The first line that reaches below the scroll position, if any.
    pub first: Option<usize>,
    /// Rows of that line above the viewport.
    pub first_offset: u16,
    /// One past the last line that starts above the bottom of the viewport.
    pub end: usize,
}

/// `w` is the window onto lines of heights `h`: its first line is the first
/// that ends below row `scroll`, and it runs up to the first line, from there
/// on, that starts at or below row `scroll + height`.
pub open spec fn is_window(h: Seq<u16>, scroll: u16, height: u16, w: Window) -> bool {
    let bottom = scroll + height;
    match w.first {
        None => forall|k: int| 0 <= k < h.len() ==> rows_through(h, k) <= scroll,
        Some(s) => {
            &&& s < h.len()
            &&& rows_through(h, s as int) > scroll
            &&& forall|k: int| 0 <= k < s ==> rows_through(h, k) <= scroll
            &&& w.first_offset == scroll - rows_before(h, s as int)
            &&& s <= w.end <= h.len()
            &&& w.end < h.len() ==> rows_before(h, w.end as int) >= bottom
            &&& forall|j: int| s <= j < w.end ==> #[trigger] rows_before(h, j) < bottom
        },
    }
}

proof fn lemma_rows_step(h: Seq<u16>, i: int)
    requires
        0 <= i < h.len(),
    ensures
        rows_before(h, i + 1) == rows_before(h, i) + h[i],
{
    assert(h.take(i + 1).drop_last() =~= h.take(i));
}

pub(crate) proof fn lemma_rows_monotone(h: Seq<u16>, i: int, j: int)
    requires
        0 <= i <= j <= h.len(),
    ensures
        rows_before(h, i) <= rows_before(h, j),
    decreases j - i,
{
    if i < j {
        lemma_rows_monotone(h, i, j - 1);
        lemma_rows_step(h, j - 1);
    }
}

/// Finds the lines in view, given the height of each line.
pub fn visible_window(heights: &Vec<u16>, scroll: u16, height: u16) -> (w: Window)
    ensures
        is_window(heights@, scroll, height, w),
{
    let ghost h = heights@;
    let bottom: u32 = scroll as u32 + height as u32;
    let n = heights.len();
    let mut acc: u32 = 0;
    let mut first: Option<usize> = None;
    let mut first_offset: u16 = 0;
    let mut end: usize = n;
    let mut i: usize = 0;
    assert(h.take(0) =~= seq![]);
    while i < n
        invariant_except_break
            n == h.len(),
            h == heights@,
            bottom == scroll + height,
            i <= n,
            end == n,
            acc == rows_before(h, i as int),
            acc < 0x40000,
            first is None ==> forall|k: int| 0 <= k < i ==> rows_through(h, k) <= scroll,
            first is None ==> acc <= scroll,
            first matches Some(s) ==> {
                &&& s < i
                &&& rows_through(h, s as int) > scroll
                &&& forall|k: int| 0 <= k < s ==> rows_through(h, k) <= scroll
                &&& first_offset == scroll - rows_before(h, s as int)
                &&& forall|j: int| s <= j < i ==> #[trigger] rows_before(h, j) < bottom
            },
        ensures
            is_window(h, scroll, height, Window { first, first_offset, end }),
        decreases n - i,
    {
        proof {
            lemma_rows_step(h, i as int);
        }
        let line_top = acc;
        let line_bottom = acc + heights[i] as u32;
        if first.is_none() && line_bottom > scroll as u32 {
            first = Some(i);
            first_offset = (scroll as u32 - line_top) as u16;
        }
        if first.is_some() && line_top >= bottom {
            end = i;
            break;
        }
        acc = line_bottom;
        i = i + 1;
    }
    Window { first, first_offset, end }
}


/// The base64 digit for a 6-bit value, from the standard alphabet.
pub open spec fn base64_char(v: u8) -> char {
    if v < 26 {
        ('A' as u8 + v) as char
    } else if v < 52 {
        ('a' as u8 + (v - 26)) as char
    } else if v < 62 {
        ('0' as u8 + (v - 52)) as char
    } else if v == 62 {
        '+'
    } else {
        '/'
    }
}

/// The four characters encoding a group of `n` bytes (1 to 3), missing
/// bytes read as zero and their digits replaced by `=`.
pub open spec fn base64_group(b0: u8, b1: u8, b2: u8, n: int) -> Seq<char> {
    seq![
        base64_char(b0 >> 2u8),
        base64_char(((b0 & 3u8) << 4u8) | (b1 >> 4u8)),
        if n > 1 { base64_char(((b1 & 0x0fu8) << 2u8) | (b2 >> 6u8)) } else { '=' },
        if n > 2 { base64_char(b2 & 0x3fu8) } else { '=' },
    ]
}

/// Standard base64 with padding.
pub open spec fn base64(data: Seq<u8>) -> Seq<char>
    decreases data.len(),
{
    if data.len() == 0 {
        seq![]
    } else {
        let n = if data.len() < 3 {
            data.len() as int
        } else {
            3
        };
        let b1 = if n > 1 {
            data[1]
        } else {
            0
        };
        let b2 = if n > 2 {
            data[2]
        } else {
            0
        };
        base64_group(data[0], b1, b2, n) + base64(data.skip(n))
    }
}

fn base64_digit(v: u8) -> (c: char)
    requires
        v < 64,
    ensures
        c == base64_char(v),
{
    if v < 26 {
        (65u8 + v) as char
    } else if v < 52 {
        (97u8 + (v - 26)) as char
    } else if v < 62 {
        (48u8 + (v - 52)) as char
    } else if v == 62 {
        '+'
    } else {
        '/'
    }
}

/// Encodes bytes in standard base64 with padding.
pub fn base64_encode(data: &[u8]) -> (s: String)
    ensures
        s@ == base64(data@),
{
    let mut out: Vec<char> = Vec::new();
    let mut i: usize = 0;
    assert(data@.skip(0) =~= data@);
    assert(out@ + base64(data@) =~= base64(data@));
    while i < data.len()
        invariant
            i <= data.len(),
            out@ + base64(data@.skip(i as int)) == base64(data@),
        decreases data.len() - i,
    {
        let rest = data.len() - i;
        let n: usize = if rest < 3 {
            rest
        } else {
            3
        };
        let b0 = data[i];
        let b1 = if n > 1 {
            data[i + 1]
        } else {
            0
        };
        let b2 = if n > 2 {
            data[i + 2]
        } else {
            0
        };
        assert(b0 >> 2u8 < 64u8) by (bit_vector);
        assert(((b0 & 3u8) << 4u8) | (b1 >> 4u8) < 64u8) by (bit_vector);
        assert(((b1 & 0x0fu8) << 2u8) | (b2 >> 6u8) < 64u8) by (bit_vector);
        assert(b2 & 0x3fu8 < 64u8) by (bit_vector);
        let ghost before = out@;
        out.push(base64_digit(b0 >> 2));
        out.push(base64_digit(((b0 & 0x03) << 4) | (b1 >> 4)));
        if n > 1 {
            out.push(base64_digit(((b1 & 0x0f) << 2) | (b2 >> 6)));
        } else {
            out.push('=');
        }
        if n > 2 {
            out.push(base64_digit(b2 & 0x3f));
        } else {
            out.push('=');
        }
        proof {
            let tail = data@.skip(i as int);
            assert(tail[0] == b0);
            assert(n > 1 ==> tail[1] == b1);
            assert(n > 2 ==> tail[2] == b2);
            assert(tail.skip(n as int) =~= data@.skip(i + n));
            assert(out@ =~= before + base64_group(b0, b1, b2, n as int));
            assert(base64(tail) == base64_group(b0, b1, b2, n as int) + base64(tail.skip(n as int)));
            assert(out@ + base64(data@.skip(i + n)) =~= before + base64(tail));
        }
        i = i + n;
    }
    assert(data@.skip(i as int) =~= seq![]);
    assert(out@ + seq![] =~= out@);
    crate::text::chars_to_string(&out)
}

/// Base64 turns every group of up to three bytes into four characters.
pub proof fn law_base64_length(data: Seq<u8>)
    ensures
        base64(data).len() == 4 * ((data.len() + 2) / 3),
    decreases data.len(),
{
    if data.len() > 0 {
        let n = if data.len() < 3 {
            data.len() as int
        } else {
            3
        };
        law_base64_length(data.skip(n));
    }
}


/// The 6-bit value of a base64 digit of the standard alphabet (0 for any
/// other character, padding included).
pub open spec fn base64_value(c: char) -> u8 {
    let x = c as u32;
    if 65 <= x && x <= 90 {
        (x - 65) as u8
    } else if 97 <= x && x <= 122 {
        (x - 71) as u8
    } else if 48 <= x && x <= 57 {
        (x + 4) as u8
    } else if c == '+' {
        62
    } else if c == '/' {
        63
    } else {
        0
    }
}

/// The bytes of one group of four base64 characters: three, or fewer where
/// the group ends in padding.
pub open spec fn base64_decode_group(g: Seq<char>) -> Seq<u8> {
    let v0 = base64_value(g[0]);
    let v1 = base64_value(g[1]);
    let v2 = base64_value(g[2]);
    let v3 = base64_value(g[3]);
    let x0 = (v0 << 2u8) | (v1 >> 4u8);
    let x1 = (v1 << 4u8) | (v2 >> 2u8);
    let x2 = (v2 << 6u8) | v3;
    if g[2] == '=' {
        seq![x0]
    } else if g[3] == '=' {
        seq![x0, x1]
    } else {
        seq![x0, x1, x2]
    }
}

/// Standard base64 decoding, group by group.
pub open spec fn base64_decode(s: Seq<char>) -> Seq<u8>
    decreases s.len(),
{
    if s.len() < 4 {
        seq![]
    } else {
        base64_decode_group(s.take(4)) + base64_decode(s.skip(4))
    }
}

proof fn lemma_base64_digit(v: u8)
    requires
        v < 64,
    ensures
        base64_value(base64_char(v)) == v,
        base64_char(v) != '=',
{
}

proof fn lemma_base64_bits(b0: u8, b1: u8, b2: u8)
    by (bit_vector)
    ensures
        b0 >> 2u8 < 64,
        ((b0 & 3u8) << 4u8) | (b1 >> 4u8) < 64,
        ((b1 & 0x0fu8) << 2u8) | (b2 >> 6u8) < 64,
        b2 & 0x3fu8 < 64,
        ((b0 >> 2u8) << 2u8) | ((((b0 & 3u8) << 4u8) | (b1 >> 4u8)) >> 4u8) == b0,
        ((((b0 & 3u8) << 4u8) | (b1 >> 4u8)) << 4u8) | ((((b1 & 0x0fu8) << 2u8) | (b2 >> 6u8))
            >> 2u8) == b1,
        ((((b1 & 0x0fu8) << 2u8) | (b2 >> 6u8)) << 6u8) | (b2 & 0x3fu8) == b2,
{
}

proof fn lemma_base64_group(b0: u8, b1: u8, b2: u8, n: int)
    requires
        1 <= n <= 3,
    ensures
        base64_decode_group(base64_group(b0, b1, b2, n)) == seq![b0, b1, b2].take(n),
{
    lemma_base64_bits(b0, b1, b2);
    lemma_base64_digit(b0 >> 2u8);
    lemma_base64_digit(((b0 & 3u8) << 4u8) | (b1 >> 4u8));
    lemma_base64_digit(((b1 & 0x0fu8) << 2u8) | (b2 >> 6u8));
    lemma_base64_digit(b2 & 0x3fu8);
    assert(base64_decode_group(base64_group(b0, b1, b2, n)) =~= seq![b0, b1, b2].take(n));
}

/// Decoding what `base64` encodes gives the bytes back.
pub proof fn law_base64_round_trip(data: Seq<u8>)
    ensures
        base64_decode(base64(data)) == data,
    decreases data.len(),
{
    if data.len() > 0 {
        let n = if data.len() < 3 {
            data.len() as int
        } else {
            3
        };
        let b1 = if n > 1 {
            data[1]
        } else {
            0
        };
        let b2 = if n > 2 {
            data[2]
        } else {
            0
        };
        let g = base64_group(data[0], b1, b2, n);
        let rest = base64(data.skip(n));
        law_base64_round_trip(data.skip(n));
        lemma_base64_group(data[0], b1, b2, n);
        assert((g + rest).take(4) =~= g);
        assert((g + rest).skip(4) =~= rest);
        assert(seq![data[0], b1, b2].take(n) =~= data.take(n));
        assert(data.take(n) + data.skip(n) =~= data);
    } else {
        assert(base64(data) =~= Seq::<char>::empty());
    }
}

/// Different bytes never share a base64 encoding.
pub proof fn law_base64_injective(a: Seq<u8>, b: Seq<u8>)
    requires
        base64(a) == base64(b),
    ensures
        a == b,
{
    law_base64_round_trip(a);
    law_base64_round_trip(b);
}

/// Whether `c` is alphabetic or numeric in Unicode (`char::is_alphanumeric`):
/// named, not stated, as it rests on Unicode's tables.
pub uninterp spec fn unicode_alphanumeric(c: char) -> bool;

/// `char::is_alphanumeric`. Of its value the contract states what the
/// documentation gives for ASCII: ASCII letters and digits are alphanumeric,
/// other ASCII characters are not; beyond ASCII it is only named.
#[verifier::external_body]
fn char_is_alphanumeric(c: char) -> (b: bool)
    ensures
        b == unicode_alphanumeric(c),
        ('0' <= c && c <= '9') || ('a' <= c && c <= 'z') || ('A' <= c && c <= 'Z') ==> b,
        (c as u32) < 128 && !(('0' <= c && c <= '9') || ('a' <= c && c <= 'z') || ('A' <= c
            && c <= 'Z')) ==> !b,
{
    c.is_alphanumeric()
}

/// A character that belongs to a word: alphanumeric or `_`.
pub open spec fn word_char(c: char) -> bool {
    unicode_alphanumeric(c) || c == '_'
}

pub fn is_word_char(c: char) -> (b: bool)
    ensures
        b == word_char(c),
        ('0' <= c && c <= '9') || ('a' <= c && c <= 'z') || ('A' <= c && c <= 'Z') || c == '_'
            ==> b,
        (c as u32) < 128 && !(('0' <= c && c <= '9') || ('a' <= c && c <= 'z') || ('A' <= c
            && c <= 'Z') || c == '_') ==> !b,
{
    char_is_alphanumeric(c) || c == '_'
}

/// The symbols drawn in the cells of the output area, row after row, each
/// cell's symbol as characters.
#[derive(Debug)]
pub struct Grid {
    pub width: u16,
    pub height: u16,
    pub cells: Vec<Vec<char>>,
}

impl Grid {
    /// The symbol at column `col` of row `row`, when the grid has that cell.
    pub open spec fn symbol(self, col: int, row: int) -> Option<Seq<char>> {
        if 0 <= col < self.width && 0 <= row < self.height && row * self.width + col
            < self.cells@.len() {
            Some(self.cells@[row * self.width + col]@)
        } else {
            None
        }
    }

    /// The first character of that symbol, if any.
    pub open spec fn first_char(self, col: int, row: int) -> Option<char> {
        match self.symbol(col, row) {
            Some(sym) => if sym.len() > 0 {
                Some(sym[0])
            } else {
                None
            },
            None => None,
        }
    }

    /// Whether the cell holds a word character.
    pub open spec fn word_at(self, col: int, row: int) -> bool {
        match self.first_char(col, row) {
            Some(c) => word_char(c),
            None => false,
        }
    }

    fn cell_index(&self, col: u16, row: u16) -> (r: Option<usize>)
        ensures
            r matches Some(i) ==> self.symbol(col as int, row as int) == Some(self.cells@[i as int]@)
                && i < self.cells@.len(),
            r is None ==> self.symbol(col as int, row as int) is None,
    {
        if col < self.width && row < self.height {
            assert((row as int) * (self.width as int) + (col as int) < 0x1_0000_0000) by (nonlinear_arith)
                requires
                    row < 0x10000,
                    col < self.width,
                    self.width <= 0x10000,
            ;
            let i = row as usize * self.width as usize + col as usize;
            if i < self.cells.len() {
                return Some(i);
            }
        }
        None
    }
}

/// The first character drawn at column `x` of row `y`, if any.
pub fn cell_first_char(buf: &Grid, x: u16, y: u16) -> (r: Option<char>)
    ensures
        r == buf.first_char(x as int, y as int),
{
    match buf.cell_index(x, y) {
        Some(i) => {
            let sym = &buf.cells[i];
            if sym.len() > 0 {
                Some(sym[0])
            } else {
                None
            }
        },
        None => None,
    }
}

fn word_at(buf: &Grid, x: u16, y: u16) -> (b: bool)
    ensures
        b == buf.word_at(x as int, y as int),
{
    match cell_first_char(buf, x, y) {
        Some(c) => is_word_char(c),
        None => false,
    }
}

/// The screen row of visual line `vline` when the output is scrolled by
/// `scroll`, if that line is in view.
pub open spec fn screen_row(vline: u16, scroll: u16, area: Area) -> Option<u16> {
    if vline < scroll || vline - scroll >= area.height {
        None
    } else {
        Some((area.y + (vline - scroll)) as u16)
    }
}

pub fn vline_to_screen_y(vline: u16, scroll: u16, area: Area) -> (r: Option<u16>)
    requires
        area.wf(),
    ensures
        r == screen_row(vline, scroll, area),
{
    if vline < scroll {
        return None;
    }
    let rel = vline - scroll;
    if rel >= area.height {
        return None;
    }
    Some(area.y + rel)
}

/// The first column of the run of word cells that ends at `col`.
pub open spec fn word_start(g: Grid, col: int, row: int) -> int
    decreases col,
{
    if col > 0 && g.word_at(col - 1, row) {
        word_start(g, col - 1, row)
    } else {
        col
    }
}

/// The last column, up to `max_col`, of the run of word cells that starts at
/// `col`.
pub open spec fn word_end(g: Grid, col: int, row: int, max_col: int) -> int
    decreases max_col - col,
{
    if col < max_col && g.word_at(col + 1, row) {
        word_end(g, col + 1, row, max_col)
    } else {
        col
    }
}

/// `pos` moved to the start of the word under it; unchanged when it is not
/// on a word cell in view.
pub open spec fn expanded_start(pos: (u16, u16), area: Area, scroll: u16, g: Grid) -> (u16, u16) {
    let (col, vline) = pos;
    match screen_row(vline, scroll, area) {
        None => pos,
        Some(y) => {
            let row = y - area.y;
            if col > area.width.saturating_sub(1) || !g.word_at(col as int, row) {
                pos
            } else {
                (word_start(g, col as int, row) as u16, vline)
            }
        },
    }
}

/// `pos` moved to the end of the word under it; unchanged when it is not on
/// a word cell in view.
pub open spec fn expanded_end(pos: (u16, u16), area: Area, scroll: u16, g: Grid) -> (u16, u16) {
    let (col, vline) = pos;
    let max_col = area.width.saturating_sub(1);
    match screen_row(vline, scroll, area) {
        None => pos,
        Some(y) => {
            let row = y - area.y;
            if col > max_col || !g.word_at(col as int, row) {
                pos
            } else {
                (word_end(g, col as int, row, max_col as int) as u16, vline)
            }
        },
    }
}

pub fn expand_to_word_start(pos: (u16, u16), area: Area, scroll: u16, buf: &Grid) -> (r: (u16, u16))
    requires
        area.wf(),
    ensures
        r == expanded_start(pos, area, scroll, *buf),
{
    let (mut col, vline) = pos;
    let screen_y = match vline_to_screen_y(vline, scroll, area) {
        Some(y) => y,
        None => return pos,
    };
    let row = screen_y - area.y;
    let max_col = area.width.saturating_sub(1);
    if col > max_col {
        return pos;
    }
    if !word_at(buf, col, row) {
        return pos;
    }
    while col > 0
        invariant_except_break
            word_start(*buf, col as int, row as int) == word_start(*buf, pos.0 as int, row as int),
        ensures
            col == word_start(*buf, pos.0 as int, row as int),
        decreases col,
    {
        if !word_at(buf, col - 1, row) {
            break;
        }
        col = col - 1;
    }
    (col, vline)
}

pub fn expand_to_word_end(pos: (u16, u16), area: Area, scroll: u16, buf: &Grid) -> (r: (u16, u16))
    requires
        area.wf(),
    ensures
        r == expanded_end(pos, area, scroll, *buf),
{
    let (mut col, vline) = pos;
    let screen_y = match vline_to_screen_y(vline, scroll, area) {
        Some(y) => y,
        None => return pos,
    };
    let row = screen_y - area.y;
    let max_col = area.width.saturating_sub(1);
    if col > max_col {
        return pos;
    }
    if !word_at(buf, col, row) {
        return pos;
    }
    while col < max_col
        invariant_except_break
            col <= max_col,
            word_end(*buf, col as int, row as int, max_col as int) == word_end(
                *buf,
                pos.0 as int,
                row as int,
                max_col as int,
            ),
        ensures
            col == word_end(*buf, pos.0 as int, row as int, max_col as int),
        decreases max_col - col,
    {
        if !word_at(buf, col + 1, row) {
            break;
        }
        col = col + 1;
    }
    (col, vline)
}

/// `a` comes no later than `b` in reading order (line, then column).
pub open spec fn reads_before(a: (u16, u16), b: (u16, u16)) -> bool {
    a.1 < b.1 || (a.1 == b.1 && a.0 <= b.0)
}

/// The cells a selection covers, from its first to its last, in content
/// coordinates; none when the area is empty.
pub open spec fn selection_range(sel: Selection, area: Area, scroll: u16, g: Grid) -> Option<
    ((u16, u16), (u16, u16)),
> {
    if area.width == 0 || area.height == 0 {
        None
    } else {
        let (start, end) = if reads_before(sel.anchor, sel.cursor) {
            (sel.anchor, sel.cursor)
        } else {
            (sel.cursor, sel.anchor)
        };
        match sel.mode {
            SelectionMode::Char => Some((start, end)),
            SelectionMode::Line => Some(((0, start.1), (area.width.saturating_sub(1), end.1))),
            SelectionMode::Word => Some(
                (expanded_start(start, area, scroll, g), expanded_end(end, area, scroll, g)),
            ),
        }
    }
}

pub fn compute_selection_range(sel: &Selection, area: Area, scroll: u16, buf: &Grid) -> (r: Option<
    ((u16, u16), (u16, u16)),
>)
    requires
        area.wf(),
    ensures
        r == selection_range(*sel, area, scroll, *buf),
{
    if area.width == 0 || area.height == 0 {
        return None;
    }
    let a = sel.anchor;
    let c = sel.cursor;
    let (start, end) = if a.1 < c.1 || (a.1 == c.1 && a.0 <= c.0) {
        (a, c)
    } else {
        (c, a)
    };
    match sel.mode {
        SelectionMode::Char => Some((start, end)),
        SelectionMode::Line => Some(((0, start.1), (area.width.saturating_sub(1), end.1))),
        SelectionMode::Word => Some(
            (expand_to_word_start(start, area, scroll, buf), expand_to_word_end(end, area, scroll, buf)),
        ),
    }
}

/// A plain click, which selects nothing, copies nothing.
pub open spec fn copies(sel: Selection) -> bool {
    !(sel.mode == SelectionMode::Char && sel.anchor == sel.cursor)
}

pub fn should_copy(sel: &Selection) -> (b: bool)
    ensures
        b == copies(*sel),
{
    !(sel.mode == SelectionMode::Char && sel.anchor.0 == sel.cursor.0 && sel.anchor.1
        == sel.cursor.1)
}


/// The first and last visual lines of a selection that are in view.
pub open spec fn visible_rows(start: (u16, u16), end: (u16, u16), scroll: u16, area: Area) -> (u16, u16) {
    let viewport_end = scroll.saturating_add(area.height);
    (
        if start.1 > scroll {
            start.1
        } else {
            scroll
        },
        if end.1 < viewport_end.saturating_sub(1) {
            end.1
        } else {
            viewport_end.saturating_sub(1)
        },
    )
}

/// The first and last columns a selection covers on visual line `vline`.
pub open spec fn row_columns(vline: int, start: (u16, u16), end: (u16, u16), area: Area) -> (u16, u16) {
    let max_col = area.width.saturating_sub(1);
    (
        if vline == start.1 {
            if start.0 < max_col {
                start.0
            } else {
                max_col
            }
        } else {
            0
        },
        if vline == end.1 {
            if end.0 < max_col {
                end.0
            } else {
                max_col
            }
        } else {
            max_col
        },
    )
}

/// The symbols of row `row` from column `c0` to column `c1`, cells the grid
/// lacks left out.
pub open spec fn cells_text(g: Grid, row: int, c0: int, c1: int) -> Seq<char>
    decreases c1 - c0 + 1,
{
    if c1 < c0 {
        seq![]
    } else {
        cells_text(g, row, c0, c1 - 1) + match g.symbol(c1, row) {
            Some(sym) => sym,
            None => seq![],
        }
    }
}

/// The selected text of visual lines `first` to `v`: each line's covered
/// cells with trailing white space removed, a line break after every line
/// but the `last`.
pub open spec fn rows_text(
    g: Grid,
    start: (u16, u16),
    end: (u16, u16),
    scroll: u16,
    area: Area,
    first: int,
    v: int,
    last: int,
) -> Seq<char>
    decreases v - first + 1,
{
    if v < first {
        seq![]
    } else {
        let cols = row_columns(v, start, end, area);
        rows_text(g, start, end, scroll, area, first, v - 1, last) + trimmed_end(
            cells_text(g, v - scroll, cols.0 as int, cols.1 as int),
        ) + if v < last {
            seq!['\n']
        } else {
            seq![]
        }
    }
}

/// The text a selection from `start` to `end` copies: what is in view of it.
pub open spec fn selected_text(area: Area, start: (u16, u16), end: (u16, u16), scroll: u16, g: Grid) -> Seq<char> {
    let rows = visible_rows(start, end, scroll, area);
    if rows.0 > rows.1 {
        seq![]
    } else {
        rows_text(g, start, end, scroll, area, rows.0 as int, rows.1 as int, rows.1 as int)
    }
}

fn row_cols(vline: u16, start: (u16, u16), end: (u16, u16), area: Area) -> (r: (u16, u16))
    ensures
        r == row_columns(vline as int, start, end, area),
{
    let max_col = area.width.saturating_sub(1);
    let c0 = if vline == start.1 {
        if start.0 < max_col {
            start.0
        } else {
            max_col
        }
    } else {
        0
    };
    let c1 = if vline == end.1 {
        if end.0 < max_col {
            end.0
        } else {
            max_col
        }
    } else {
        max_col
    };
    (c0, c1)
}

fn view_rows(start: (u16, u16), end: (u16, u16), scroll: u16, area: Area) -> (r: (u16, u16))
    ensures
        r == visible_rows(start, end, scroll, area),
{
    let viewport_end = scroll.saturating_add(area.height);
    let last = viewport_end.saturating_sub(1);
    (
        if start.1 > scroll {
            start.1
        } else {
            scroll
        },
        if end.1 < last {
            end.1
        } else {
            last
        },
    )
}

/// The text of the cells from `start` to `end` that are in view, line by
/// line.
pub fn extract_selected_text(area: Area, start: (u16, u16), end: (u16, u16), scroll: u16, buf: &Grid) -> (r: Vec<char>)
    ensures
        r@ == selected_text(area, start, end, scroll, *buf),
{
    let mut result: Vec<char> = Vec::new();
    let (first, last) = view_rows(start, end, scroll, area);
    if first > last {
        return result;
    }
    let mut v: u32 = first as u32;
    while v <= last as u32
        invariant
            first <= v <= last as u32 + 1,
            first >= scroll,
            result@ == rows_text(*buf, start, end, scroll, area, first as int, v - 1, last as int),
        decreases last as u32 + 1 - v,
    {
        let vline = v as u16;
        let row = vline - scroll;
        let (c0, c1) = row_cols(vline, start, end, area);
        let mut line: Vec<char> = Vec::new();
        let mut c: u32 = c0 as u32;
        while c <= c1 as u32
            invariant
                c0 <= c <= c1 as u32 + 1 || (c == c0 && c0 > c1),
                line@ == cells_text(*buf, row as int, c0 as int, c - 1),
            decreases c1 as u32 + 1 - c,
        {
            match buf.cell_index(c as u16, row) {
                Some(i) => {
                    crate::text::push_chars(&mut line, &buf.cells[i]);
                },
                None => {},
            }
            c = c + 1;
        }
        trim_end(&mut line);
        crate::text::push_chars(&mut result, &line);
        if v < last as u32 {
            result.push('\n');
        }
        proof {
            let cols = row_columns(v as int, start, end, area);
            assert(cols == (c0, c1));
            assert(c0 > c1 ==> cells_text(*buf, row as int, c0 as int, c0 - 1) =~= seq![]);
        }
        assert(result@ =~= rows_text(*buf, start, end, scroll, area, first as int, v as int, last as int));
        v = v + 1;
    }
    result
}

/// One row of a highlighted selection: its row in the output area and the
/// first and last columns covered.
#[derive(Debug, Clone, Copy)]
pub struct HighlightRow {
    pub row: u16,
    pub first_col: u16,
    pub last_col: u16,
}

/// The rows a selection from `start` to `end` highlights: every visual line
/// of it in view, with its columns.
pub open spec fn highlighted_rows(start: (u16, u16), end: (u16, u16), scroll: u16, area: Area) -> Seq<HighlightRow> {
    let rows = visible_rows(start, end, scroll, area);
    if rows.0 <= rows.1 && area.height > 0 && area.width > 0 {
        Seq::new(
            (rows.1 - rows.0 + 1) as nat,
            |k: int|
                HighlightRow {
                    row: (rows.0 + k - scroll) as u16,
                    first_col: row_columns(rows.0 + k, start, end, area).0,
                    last_col: row_columns(rows.0 + k, start, end, area).1,
                },
        )
    } else {
        seq![]
    }
}

pub fn highlight_rows(start: (u16, u16), end: (u16, u16), scroll: u16, area: Area) -> (r: Vec<HighlightRow>)
    ensures
        r@ == highlighted_rows(start, end, scroll, area),
{
    let mut out: Vec<HighlightRow> = Vec::new();
    let (first, last) = view_rows(start, end, scroll, area);
    if !(first <= last && area.height > 0 && area.width > 0) {
        assert(out@ =~= highlighted_rows(start, end, scroll, area));
        return out;
    }
    let ghost want = highlighted_rows(start, end, scroll, area);
    let mut v: u32 = first as u32;
    while v <= last as u32
        invariant
            first <= v <= last as u32 + 1,
            first >= scroll,
            first <= last,
            visible_rows(start, end, scroll, area) == (first, last),
            area.height > 0 && area.width > 0,
            want == highlighted_rows(start, end, scroll, area),
            want.len() == last - first + 1,
            out@ =~= want.take(v - first),
        decreases last as u32 + 1 - v,
    {
        let vline = v as u16;
        let (c0, c1) = row_cols(vline, start, end, area);
        out.push(HighlightRow { row: vline - scroll, first_col: c0, last_col: c1 });
        proof {
            assert(want[v - first] == HighlightRow { row: (vline - scroll) as u16, first_col: c0, last_col: c1 });
            assert(want.take(v - first + 1) =~= want.take(v - first).push(want[v - first]));
        }
        v = v + 1;
    }
    assert(want.take(want.len() as int) =~= want);
    out
}


/// What a pass over the selection after drawing yields: the rows to show in
/// reverse video and the text to copy, if any.
#[derive(Debug)]
pub struct SelectionPass {
    pub highlights: Vec<HighlightRow>,
    pub copy: Option<Vec<char>>,
}

impl App {
    /// After the output area `area` is drawn, with `buf` the symbols drawn in
    /// it: what the selection highlights, and, when a copy was asked for and
    /// the selection covers something, the text to copy. The copy request is
    /// then settled.
    pub fn selection_pass(&mut self, area: Area, buf: &Grid) -> (r: SelectionPass)
        requires
            area.wf(),
        ensures
            final(self)@ == (AppView {
                copy_pending: old(self).copy_pending && old(self).selection is None,
                ..old(self)@
            }),
            match old(self).selection {
                None => r.highlights@.len() == 0 && r.copy is None,
                Some(sel) => match selection_range(sel, area, old(self).last_scroll, *buf) {
                    None => r.highlights@.len() == 0 && r.copy is None,
                    Some(range) => {
                        let text = selected_text(area, range.0, range.1, old(self).last_scroll, *buf);
                        &&& r.highlights@ == highlighted_rows(range.0, range.1, old(self).last_scroll, area)
                        &&& (r.copy is Some <==> (old(self).copy_pending && copies(sel) && text.len() > 0))
                        &&& (r.copy matches Some(t) ==> t@ == text)
                    },
                },
            },
    {
        let sel = match self.selection {
            Some(sel) => sel,
            None => return SelectionPass { highlights: Vec::new(), copy: None },
        };
        let scroll = self.last_scroll;
        let (start, end) = match compute_selection_range(&sel, area, scroll, buf) {
            Some(range) => range,
            None => {
                if self.copy_pending {
                    self.copy_pending = false;
                }
                return SelectionPass { highlights: Vec::new(), copy: None };
            },
        };
        let text_to_copy = if self.copy_pending && should_copy(&sel) {
            Some(extract_selected_text(area, start, end, scroll, buf))
        } else {
            None
        };
        let highlights = highlight_rows(start, end, scroll, area);
        let mut copy: Option<Vec<char>> = None;
        if self.copy_pending {
            self.copy_pending = false;
            if let Some(text) = text_to_copy {
                if text.len() > 0 {
                    copy = Some(text);
                }
            }
        }
        SelectionPass { highlights, copy }
    }
}

/// The terminal sequence (OSC 52) that puts `text` on the clipboard: its
/// UTF-8 bytes in base64 between `ESC ] 52 ; c ;` and `BEL`.
pub open spec fn clipboard_sequence(text: Seq<char>) -> Seq<u8> {
    seq![0x1bu8, 0x5du8, 0x35u8, 0x32u8, 0x3bu8, 0x63u8, 0x3bu8] + base64(
        encode_utf8(text),
    ).map_values(|c: char| c as u8) + seq![0x07u8]
}

/// The bytes to write to the terminal to copy `text`.
pub fn copy_sequence(text: &Vec<char>) -> (r: Vec<u8>)
    ensures
        r@ == clipboard_sequence(text@),
{
    let bytes = crate::events::utf8_bytes(text);
    let encoded = base64_encode(bytes.as_slice());
    let digits = str_chars(encoded.as_str());
    let mut out: Vec<u8> = Vec::new();
    out.push(0x1b);
    out.push(0x5d);
    out.push(0x35);
    out.push(0x32);
    out.push(0x3b);
    out.push(0x63);
    out.push(0x3b);
    let ghost head = out@;
    let mut i: usize = 0;
    while i < digits.len()
        invariant
            i <= digits.len(),
            out@ == head + digits@.take(i as int).map_values(|c: char| c as u8),
        decreases digits.len() - i,
    {
        out.push(digits[i] as u8);
        assert(digits@.take(i + 1).map_values(|c: char| c as u8) =~= digits@.take(
            i as int,
        ).map_values(|c: char| c as u8).push(digits@[i as int] as u8));
        i = i + 1;
    }
    out.push(0x07);
    assert(digits@.take(digits.len() as int) =~= digits@);
    assert(out@ =~= clipboard_sequence(text@));
    out
}

pub open spec fn parity_letter(p: Parity) -> char {
    match p {
        Parity::NoParity => 'N',
        Parity::Odd => 'O',
        Parity::Even => 'E',
    }
}

pub open spec fn data_bits_digit(d: DataBits) -> char {
    match d {
        DataBits::Five => '5',
        DataBits::Six => '6',
        DataBits::Seven => '7',
        DataBits::Eight => '8',
    }
}

pub open spec fn stop_bits_digit(s: StopBits) -> char {
    match s {
        StopBits::One => '1',
        StopBits::Two => '2',
    }
}

pub fn parity_char(p: Parity) -> (c: char)
    ensures
        c == parity_letter(p),
{
    match p {
        Parity::NoParity => 'N',
        Parity::Odd => 'O',
        Parity::Even => 'E',
    }
}

pub fn data_bits_char(d: DataBits) -> (c: char)
    ensures
        c == data_bits_digit(d),
{
    match d {
        DataBits::Five => '5',
        DataBits::Six => '6',
        DataBits::Seven => '7',
        DataBits::Eight => '8',
    }
}

pub fn stop_bits_char(s: StopBits) -> (c: char)
    ensures
        c == stop_bits_digit(s),
{
    match s {
        StopBits::One => '1',
        StopBits::Two => '2',
    }
}

/// The configuration in short, as the status bar shows it: the baud rate
/// right-aligned in six columns, then data bits, parity and stop bits, as in
/// ` 115200 8N1`.
pub open spec fn config_shorthand(c: SerialConfig) -> Seq<char> {
    seq![' '] + padded_left(decimal(c.baud as nat), 6) + seq![
        ' ',
        data_bits_digit(c.data_bits),
        parity_letter(c.parity),
        stop_bits_digit(c.stop_bits),
    ]
}

/// The text of the status bar, piece by piece.
#[derive(Debug)]
pub struct StatusBar {
    pub shorthand: String,
    pub connected: bool,
    /// `Connected` or `Disconnected`, padded to twelve columns, then a space.
    pub status: String,
    /// Whether the view is paused, not following the output.
    pub paused: bool,
    pub hex: bool,
    /// The configured port's name, or `—`.
    pub port: String,
}

impl App {
    /// What the status bar says.
    pub fn status_bar(&self) -> (r: StatusBar)
        ensures
            r.shorthand@ == config_shorthand(self.serial_config),
            r.connected == (self.connection_status == ConnectionStatus::Connected),
            r.status@ == padded_right(
                if r.connected {
                    "Connected"@
                } else {
                    "Disconnected"@
                },
                12,
            ) + seq![' '],
            r.paused == !self.auto_scroll,
            r.hex == (self.input_mode == InputMode::Hex),
            r.port@ == crate::menu::port_label(self.serial_config),
    {
        let connected = self.connection_status == ConnectionStatus::Connected;
        let port = match &self.serial_config.port_info {
            Some(info) => info.port_name.clone(),
            None => String::from_str("—"),
        };
        let mut short: Vec<char> = Vec::new();
        short.push(' ');
        let baud = crate::text::pad_left(&u32_to_decimal(self.serial_config.baud), 6);
        push_chars(&mut short, &baud);
        short.push(' ');
        short.push(data_bits_char(self.serial_config.data_bits));
        short.push(parity_char(self.serial_config.parity));
        short.push(stop_bits_char(self.serial_config.stop_bits));
        assert(short@ =~= config_shorthand(self.serial_config));
        let label = if connected {
            str_chars("Connected")
        } else {
            str_chars("Disconnected")
        };
        let mut status = crate::text::pad_right(&label, 12);
        status.push(' ');
        StatusBar {
            shorthand: chars_to_string(&short),
            connected,
            status: chars_to_string(&status),
            paused: !self.auto_scroll,
            hex: self.input_mode == InputMode::Hex,
            port,
        }
    }
}

/// Hexadecimal input as shown: a space between every two digits.
pub open spec fn spaced_pairs(s: Seq<char>) -> Seq<char>
    decreases s.len(),
{
    if s.len() == 0 {
        seq![]
    } else {
        let i = s.len() - 1;
        spaced_pairs(s.drop_last()) + if i > 0 && i % 2 == 0 {
            seq![' ', s.last()]
        } else {
            seq![s.last()]
        }
    }
}

impl App {
    /// The input line as the HEX prompt shows it.
    pub fn hex_display_buffer(&self) -> (r: String)
        ensures
            r@ == spaced_pairs(self.input_buffer@),
    {
        let chars = &self.input_buffer;
        let mut result: Vec<char> = Vec::new();
        let mut i: usize = 0;
        assert(chars@.take(0) =~= seq![]);
        while i < chars.len()
            invariant
                i <= chars.len(),
                result@ == spaced_pairs(chars@.take(i as int)),
            decreases chars.len() - i,
        {
            assert(chars@.take(i + 1).drop_last() =~= chars@.take(i as int));
            if i > 0 && i % 2 == 0 {
                result.push(' ');
            }
            result.push(chars[i]);
            assert(result@ =~= spaced_pairs(chars@.take(i + 1)));
            i = i + 1;
        }
        assert(chars@.take(chars.len() as int) =~= chars@);
        chars_to_string(&result)
    }

    /// The input line as shown: as typed in ASCII mode, in spaced pairs in
    /// HEX mode.
    pub fn input_display(&self) -> (r: String)
        ensures
            r@ == match self.input_mode {
                InputMode::Ascii => self.input_buffer@,
                InputMode::Hex => spaced_pairs(self.input_buffer@),
            },
    {
        match self.input_mode {
            InputMode::Ascii => chars_to_string(&self.input_buffer),
            InputMode::Hex => self.hex_display_buffer(),
        }
    }
}


/// How a line of a popup is drawn.
#[derive(Debug, Clone, Copy, PartialEq, Eq, Structural)]
pub enum LineStyle {
    Plain,
    Header,
    Selected,
}

/// A line of a popup: its text and how it is drawn.
#[derive(Debug)]
pub struct ScreenLine {
    pub text: String,
    pub style: LineStyle,
}

impl View for ScreenLine {
    type V = (Seq<char>, LineStyle);

    open spec fn view(&self) -> (Seq<char>, LineStyle) {
        (self.text@, self.style)
    }
}

/// Bytes of `s` in UTF-8, the width the menu pads by.
pub open spec fn byte_len(s: Seq<char>) -> int {
    (encode_utf8(s).len() as usize) as int
}

/// The lines one menu entry takes, `selected` telling whether the cursor is
/// on it: a header is preceded by a blank line and indented; an action is
/// padded to the inner width; a setting has its value, between arrows when
/// selected, pushed to the right edge.
pub open spec fn entry_lines(item: MenuItemView, selected: bool, inner_width: usize) -> Seq<(Seq<char>, LineStyle)> {
    let cursor = if selected {
        "  > "@
    } else {
        "    "@
    };
    let style = if selected {
        LineStyle::Selected
    } else {
        LineStyle::Plain
    };
    match item {
        MenuItemView::SectionHeader(title) => seq![
            (seq![], LineStyle::Plain),
            ("  "@ + title, LineStyle::Header),
        ],
        MenuItemView::Action { label, .. } => seq![
            (padded_right(cursor + label, inner_width as nat), style),
        ],
        MenuItemView::Cycle { label, value, .. } => {
            let left = if selected {
                "◂ "@
            } else {
                "  "@
            };
            let right = if selected {
                " ▸"@
            } else {
                "  "@
            };
            let label_part = cursor + label;
            let value_part = left + value + right;
            let used = byte_len(label_part) + byte_len(value_part);
            let padding: nat = if used < inner_width {
                (inner_width - used) as nat
            } else {
                0
            };
            seq![(label_part + crate::text::spaces(padding) + value_part, style)]
        },
    }
}

/// The lines of the first `n` menu entries.
pub open spec fn entries_lines(items: Seq<MenuItemView>, cursor: usize, inner_width: usize, n: int) -> Seq<
    (Seq<char>, LineStyle),
>
    decreases n,
{
    if n <= 0 {
        seq![]
    } else {
        entries_lines(items, cursor, inner_width, n - 1) + entry_lines(
            items[n - 1],
            n - 1 == cursor,
            inner_width,
        )
    }
}

/// The menu's lines: the entries, then a blank line.
pub open spec fn menu_text(items: Seq<MenuItemView>, cursor: usize, inner_width: usize) -> Seq<
    (Seq<char>, LineStyle),
> {
    entries_lines(items, cursor, inner_width, items.len() as int) + seq![(seq![], LineStyle::Plain)]
}

fn screen_line(text: &Vec<char>, style: LineStyle) -> (r: ScreenLine)
    ensures
        r@ == (text@, style),
{
    ScreenLine { text: chars_to_string(text), style }
}

fn entry_lines_of(item: &MenuItem, selected: bool, inner_width: usize, out: &mut Vec<ScreenLine>)
    ensures
        final(out)@.map_values(|l: ScreenLine| l@) == old(out)@.map_values(|l: ScreenLine| l@)
            + entry_lines(item@, selected, inner_width),
{
    let ghost before = out@;
    let cursor = if selected {
        "  > "
    } else {
        "    "
    };
    let style = if selected {
        LineStyle::Selected
    } else {
        LineStyle::Plain
    };
    match item {
        MenuItem::SectionHeader(title) => {
            out.push(screen_line(&Vec::new(), LineStyle::Plain));
            let mut text = str_chars("  ");
            push_chars(&mut text, &str_chars(title.as_str()));
            out.push(screen_line(&text, LineStyle::Header));
        },
        MenuItem::Action { label, .. } => {
            let mut text = str_chars(cursor);
            push_chars(&mut text, &str_chars(label.as_str()));
            out.push(screen_line(&crate::text::pad_right(&text, inner_width), style));
        },
        MenuItem::Cycle { label, value, .. } => {
            let mut label_part = str_chars(cursor);
            push_chars(&mut label_part, &str_chars(label.as_str()));
            let mut value_part = if selected {
                str_chars("◂ ")
            } else {
                str_chars("  ")
            };
            push_chars(&mut value_part, &str_chars(value.as_str()));
            if selected {
                push_str(&mut value_part, " ▸");
            } else {
                push_str(&mut value_part, "  ");
            }
            let used = crate::text::utf8_len(&label_part).saturating_add(
                crate::text::utf8_len(&value_part),
            );
            let padding = inner_width.saturating_sub(used);
            let mut text: Vec<char> = Vec::new();
            push_chars(&mut text, &label_part);
            crate::text::push_spaces(&mut text, padding);
            push_chars(&mut text, &value_part);
            out.push(screen_line(&text, style));
        },
    }
    assert(out@.map_values(|l: ScreenLine| l@) =~= before.map_values(|l: ScreenLine| l@)
        + entry_lines(item@, selected, inner_width));
}

/// The lines of the options menu for popups `inner_width` columns wide.
pub fn menu_lines(items: &Vec<MenuItem>, cursor: usize, inner_width: usize) -> (r: Vec<ScreenLine>)
    ensures
        r@.map_values(|l: ScreenLine| l@) == menu_text(
            items@.map_values(|i: MenuItem| i@),
            cursor,
            inner_width,
        ),
{
    let ghost views = items@.map_values(|i: MenuItem| i@);
    let mut out: Vec<ScreenLine> = Vec::new();
    let mut k: usize = 0;
    assert(out@.map_values(|l: ScreenLine| l@) =~= seq![]);
    while k < items.len()
        invariant
            k <= items.len(),
            views == items@.map_values(|i: MenuItem| i@),
            out@.map_values(|l: ScreenLine| l@) == entries_lines(views, cursor, inner_width, k as int),
        decreases items.len() - k,
    {
        assert(views[k as int] == items@[k as int]@);
        entry_lines_of(&items[k], k == cursor, inner_width, &mut out);
        k = k + 1;
    }
    let ghost before = out@;
    out.push(screen_line(&Vec::new(), LineStyle::Plain));
    assert(out@.map_values(|l: ScreenLine| l@) =~= before.map_values(|l: ScreenLine| l@).push(
        (seq![], LineStyle::Plain),
    ));
    out
}

/// A rectangle `width` by `height` centred in `area`, cut to stay within
/// `u16` like `Area::new` does.
pub open spec fn centred(area: Area, width: u16, height: u16) -> Area {
    let x = (area.width.saturating_sub(width) / 2 + area.x) as u16;
    let y = (area.height.saturating_sub(height) / 2 + area.y) as u16;
    Area {
        x,
        y,
        width: if x + width <= u16::MAX {
            width
        } else {
            (u16::MAX - x) as u16
        },
        height: if y + height <= u16::MAX {
            height
        } else {
            (u16::MAX - y) as u16
        },
    }
}

fn centre(area: Area, width: u16, height: u16) -> (r: Area)
    requires
        area.wf(),
    ensures
        r == centred(area, width, height),
{
    let x = area.width.saturating_sub(width) / 2 + area.x;
    let y = area.height.saturating_sub(height) / 2 + area.y;
    Area::new(x, y, width, height)
}

/// Rows the menu takes: its entries, a blank line before each of its three
/// headers, and a blank line at the end.
pub const MENU_CONTENT_HEIGHT: u16 = 18;

/// Where the menu pops up in `area`: 46 columns wide, its content high plus
/// a border, both kept 4 cells inside the screen.
pub open spec fn menu_popup_area(area: Area) -> Area {
    let w = if 46 < area.width.saturating_sub(4) {
        46u16
    } else {
        area.width.saturating_sub(4)
    };
    let h = if MENU_CONTENT_HEIGHT + 2 < area.height.saturating_sub(4) {
        (MENU_CONTENT_HEIGHT + 2) as u16
    } else {
        area.height.saturating_sub(4)
    };
    centred(area, w, h)
}

pub fn menu_popup(area: Area) -> (r: Area)
    requires
        area.wf(),
    ensures
        r == menu_popup_area(area),
{
    let avail_w = area.width.saturating_sub(4);
    let avail_h = area.height.saturating_sub(4);
    let w: u16 = if 46 < avail_w {
        46
    } else {
        avail_w
    };
    let h: u16 = if MENU_CONTENT_HEIGHT + 2 < avail_h {
        MENU_CONTENT_HEIGHT + 2
    } else {
        avail_h
    };
    centre(area, w, h)
}

/// Where the port list pops up in `area`: 44 columns wide, a row per port
/// plus a border, both kept 4 cells inside the screen.
pub open spec fn port_popup_area(area: Area, ports: nat) -> Area {
    let w = if 44 < area.width.saturating_sub(4) {
        44u16
    } else {
        area.width.saturating_sub(4)
    };
    let rows = ports % 0x10000 + 2;
    let h = if rows < area.height.saturating_sub(4) {
        rows as u16
    } else {
        area.height.saturating_sub(4)
    };
    centred(area, w, h)
}

pub fn port_popup(area: Area, ports: usize) -> (r: Area)
    requires
        area.wf(),
        ports % 0x10000 + 2 <= u16::MAX,
    ensures
        r == port_popup_area(area, ports as nat),
{
    let avail_w = area.width.saturating_sub(4);
    let avail_h = area.height.saturating_sub(4);
    let w: u16 = if 44 < avail_w {
        44
    } else {
        avail_w
    };
    let rows: u16 = (ports % 0x10000) as u16 + 2;
    let h: u16 = if rows < avail_h {
        rows
    } else {
        avail_h
    };
    centre(area, w, h)
}

pub open spec fn port_type_name(t: PortType) -> Seq<char> {
    match t {
        PortType::Usb(_) => "USB"@,
        PortType::Pci => "PCI"@,
        PortType::Bluetooth => "BT"@,
        PortType::Unknown => "?"@,
    }
}

/// A line of the port list.
#[derive(Debug)]
pub struct PortLine {
    /// Whether this is the port the session is connected to.
    pub connected: bool,
    pub name: String,
    /// Spaces between the name and the type, filling the line.
    pub padding: usize,
    pub type_label: &'static str,
    pub selected: bool,
}

/// Whether `p` is the port the session is connected to.
pub open spec fn is_connected_port(v: AppView, p: PortInfo) -> bool {
    &&& v.connection_status == ConnectionStatus::Connected
    &&& v.serial_config.port_info is Some
    &&& v.serial_config.port_info.unwrap().port_name@ == p.port_name@
}

/// The `i`-th line of the port list for popups `inner_width` columns wide:
/// a mark for the connected port, the name, and the type at the right edge.
pub open spec fn port_line_ok(v: AppView, i: int, inner_width: usize, l: PortLine) -> bool {
    let p = v.available_ports[i];
    let used = byte_len(p.port_name@) + byte_len(port_type_name(p.port_type)) + 2;
    &&& l.connected == is_connected_port(v, p)
    &&& l.name@ == p.port_name@
    &&& l.type_label@ == port_type_name(p.port_type)
    &&& l.padding == (if used < inner_width {
        inner_width - used
    } else {
        0
    })
    &&& l.selected == (i == v.port_list_index)
}

impl App {
    /// The lines of the port list.
    pub fn port_lines(&self, inner_width: usize) -> (r: Vec<PortLine>)
        ensures
            r@.len() == self.available_ports@.len(),
            forall|i: int|
                0 <= i < r@.len() ==> port_line_ok(self@, i, inner_width, #[trigger] r@[i]),
    {
        let mut out: Vec<PortLine> = Vec::new();
        let mut i: usize = 0;
        while i < self.available_ports.len()
            invariant
                i <= self.available_ports.len(),
                out@.len() == i,
                forall|k: int| 0 <= k < i ==> port_line_ok(self@, k, inner_width, #[trigger] out@[k]),
            decreases self.available_ports.len() - i,
        {
            let p = &self.available_ports[i];
            let type_label: &'static str = match p.port_type {
                PortType::Usb(_) => "USB",
                PortType::Pci => "PCI",
                PortType::Bluetooth => "BT",
                PortType::Unknown => "?",
            };
            let connected = self.connection_status == ConnectionStatus::Connected && match &self.serial_config.port_info {
                Some(info) => info.port_name == p.port_name,
                None => false,
            };
            let name_len = p.port_name.as_str().len();
            let type_len = type_label.len();
            let used = name_len.saturating_add(type_len).saturating_add(2);
            out.push(
                PortLine {
                    connected,
                    name: p.port_name.clone(),
                    padding: inner_width.saturating_sub(used),
                    type_label,
                    selected: i == self.port_list_index,
                },
            );
            i = i + 1;
        }
        out
    }
}

} // verus!
