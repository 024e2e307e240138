//! Renders a raw byte sequence as a hex dump and as a printable-character
//! dump, both wrapped to a fixed display width.

use crate::line_wrap::{wrap_line_count, wrapped_text, LineWrap};
use vstd::prelude::*;

verus! {

/// The lowercase hex digit for a value below sixteen.
pub open spec fn hex_digit(n: int) -> char {
    if n < 10 {
        (n + 0x30) as char  // '0' through '9'
    } else {
        (n + 0x57) as char  // 'a' through 'f'
    }
}

/// One byte rendered as two lowercase hex digits and a trailing space.
pub open spec fn hex_byte(b: u8) -> Seq<char> {
    seq![hex_digit(b as int / 16), hex_digit(b as int % 16), ' ']
}

/// The whole byte sequence rendered as space-separated hex pairs.
pub open spec fn hex_text(bs: Seq<u8>) -> Seq<char>
    decreases bs.len(),
{
    if bs.len() == 0 {
        Seq::empty()
    } else {
        hex_byte(bs[0]) + hex_text(bs.drop_first())
    }
}

/// A printable-ASCII whitespace byte (space, tab, line feed, form feed,
/// carriage return).
pub open spec fn is_ascii_whitespace_byte(b: u8) -> bool {
    b == 0x20 || b == 0x09 || b == 0x0a || b == 0x0c || b == 0x0d
}

/// A printable graphic ASCII byte (everything from `!` through `~`).
pub open spec fn is_ascii_graphic_byte(b: u8) -> bool {
    0x21 <= b && b <= 0x7e
}

/// The one-character preview of a byte: its own character when graphic,
/// a space when ASCII whitespace, a placeholder otherwise.
pub open spec fn ascii_preview(b: u8) -> char {
    if is_ascii_whitespace_byte(b) {
        ' '
    } else if is_ascii_graphic_byte(b) {
        b as char
    } else {
        '.'
    }
}

/// The whole byte sequence rendered one preview character per byte.
pub open spec fn ascii_text(bs: Seq<u8>) -> Seq<char>
    decreases bs.len(),
{
    if bs.len() == 0 {
        Seq::empty()
    } else {
        seq![ascii_preview(bs[0])] + ascii_text(bs.drop_first())
    }
}

pub proof fn lemma_hex_text_len(bs: Seq<u8>)
    ensures
        hex_text(bs).len() == 3 * bs.len(),
    decreases bs.len(),
{
    if bs.len() > 0 {
        lemma_hex_text_len(bs.drop_first());
    }
}

pub proof fn lemma_ascii_text_len(bs: Seq<u8>)
    ensures
        ascii_text(bs).len() == bs.len(),
    decreases bs.len(),
{
    if bs.len() > 0 {
        lemma_ascii_text_len(bs.drop_first());
    }
}

proof fn lemma_hex_text_snoc(bs: Seq<u8>, b: u8)
    ensures
        hex_text(bs + seq![b]) == hex_text(bs) + hex_byte(b),
    decreases bs.len(),
{
    let whole = bs + seq![b];
    assert(whole.len() > 0);
    if bs.len() == 0 {
        assert(whole[0] == b);
        assert(whole.drop_first() =~= Seq::<u8>::empty());
        assert(hex_text(Seq::<u8>::empty()) == Seq::<char>::empty());
        assert(hex_text(whole) == hex_byte(b) + Seq::<char>::empty());
        assert(hex_text(whole) =~= hex_text(bs) + hex_byte(b));
    } else {
        lemma_hex_text_snoc(bs.drop_first(), b);
        assert(whole.drop_first() =~= bs.drop_first() + seq![b]);
        assert(whole[0] == bs[0]);
        assert(hex_text(whole) == hex_byte(bs[0]) + (hex_text(bs.drop_first()) + hex_byte(b)));
        assert(hex_text(whole) =~= hex_text(bs) + hex_byte(b));
    }
}

proof fn lemma_ascii_text_snoc(bs: Seq<u8>, b: u8)
    ensures
        ascii_text(bs + seq![b]) == ascii_text(bs) + seq![ascii_preview(b)],
    decreases bs.len(),
{
    let whole = bs + seq![b];
    assert(whole.len() > 0);
    if bs.len() == 0 {
        assert(whole[0] == b);
        assert(whole.drop_first() =~= Seq::<u8>::empty());
        assert(ascii_text(Seq::<u8>::empty()) == Seq::<char>::empty());
        assert(ascii_text(whole) == seq![ascii_preview(b)] + Seq::<char>::empty());
        assert(ascii_text(whole) =~= ascii_text(bs) + seq![ascii_preview(b)]);
    } else {
        lemma_ascii_text_snoc(bs.drop_first(), b);
        assert(whole.drop_first() =~= bs.drop_first() + seq![b]);
        assert(whole[0] == bs[0]);
        assert(ascii_text(whole) == seq![ascii_preview(bs[0])] + (ascii_text(bs.drop_first())
            + seq![ascii_preview(b)]));
        assert(ascii_text(whole) =~= ascii_text(bs) + seq![ascii_preview(b)]);
    }
}

fn hex_digit_char(n: u8) -> (c: char)
    requires
        n < 16,
    ensures
        c == hex_digit(n as int),
{
    if n < 10 {
        (n + 0x30) as char
    } else {
        (n + 0x57) as char
    }
}

fn ascii_preview_char(b: u8) -> (c: char)
    ensures
        c == ascii_preview(b),
{
    if b == 0x20 || b == 0x09 || b == 0x0a || b == 0x0c || b == 0x0d {
        ' '
    } else if 0x21 <= b && b <= 0x7e {
        b as char
    } else {
        '.'
    }
}

/// The byte sequence as space-separated lowercase hex pairs, wrapped at
/// `width` bytes per line (three characters each), with the line count.
pub fn hex_dump(bytes: &[u8], width: usize) -> (r: (String, usize))
    requires
        width <= usize::MAX / 3,
        bytes@.len() * 3 < usize::MAX,
    ensures
        r.0@ == wrapped_text(hex_text(bytes@), (width * 3) as nat),
        r.1 as nat == wrap_line_count(hex_text(bytes@).len(), (width * 3) as nat),
{
    let mut s = String::new();
    let mut i: usize = 0;
    proof {
        assert(bytes@.take(0) =~= Seq::<u8>::empty());
    }
    while i < bytes.len()
        invariant
            i <= bytes@.len(),
            bytes@.len() * 3 < usize::MAX,
            s@ == hex_text(bytes@.take(i as int)),
            s@.len() == 3 * i,
        decreases bytes@.len() - i,
    {
        let b = bytes[i];
        proof {
            lemma_hex_text_snoc(bytes@.take(i as int), b);
            assert(bytes@.take(i as int) + seq![b] =~= bytes@.take(i as int + 1));
            lemma_hex_text_len(bytes@.take(i as int + 1));
        }
        s.push(hex_digit_char(b / 16));
        s.push(hex_digit_char(b % 16));
        s.push(' ');
        assert(s@ =~= hex_text(bytes@.take(i as int + 1)));
        i = i + 1;
    }
    proof {
        assert(bytes@.take(bytes@.len() as int) =~= bytes@);
        lemma_hex_text_len(bytes@);
    }
    LineWrap::new(s, width * 3).wrapped()
}

/// The byte sequence as one preview character per byte, wrapped at
/// `width` characters per line, with the line count.
pub fn ascii_dump(bytes: &[u8], width: usize) -> (r: (String, usize))
    requires
        bytes@.len() < usize::MAX,
    ensures
        r.0@ == wrapped_text(ascii_text(bytes@), width as nat),
        r.1 as nat == wrap_line_count(ascii_text(bytes@).len(), width as nat),
{
    let mut s = String::new();
    let mut i: usize = 0;
    proof {
        assert(bytes@.take(0) =~= Seq::<u8>::empty());
    }
    while i < bytes.len()
        invariant
            i <= bytes@.len(),
            bytes@.len() < usize::MAX,
            s@ == ascii_text(bytes@.take(i as int)),
            s@.len() == i,
        decreases bytes@.len() - i,
    {
        let b = bytes[i];
        proof {
            lemma_ascii_text_snoc(bytes@.take(i as int), b);
            assert(bytes@.take(i as int) + seq![b] =~= bytes@.take(i as int + 1));
            lemma_ascii_text_len(bytes@.take(i as int + 1));
        }
        s.push(ascii_preview_char(b));
        assert(s@ =~= ascii_text(bytes@.take(i as int + 1)));
        i = i + 1;
    }
    proof {
        assert(bytes@.take(bytes@.len() as int) =~= bytes@);
        lemma_ascii_text_len(bytes@);
    }
    LineWrap::new(s, width).wrapped()
}

proof fn lemma_wrap_count_times_three(n: nat, w: nat)
    ensures
        wrap_line_count(3 * n, 3 * w) == wrap_line_count(n, w),
    decreases n,
{
    if !(w == 0 || n <= w) {
        assert(3 * n - 3 * w == 3 * ((n - w) as nat));
        lemma_wrap_count_times_three((n - w) as nat, w);
    }
}

/// Law: for any byte sequence and display width, the hex dump and the
/// printable-character dump produce the same number of lines.
pub proof fn lemma_dump_line_counts_equal(bs: Seq<u8>, width: nat)
    ensures
        wrap_line_count(hex_text(bs).len(), 3 * width) == wrap_line_count(
            ascii_text(bs).len(),
            width,
        ),
{
    lemma_hex_text_len(bs);
    lemma_ascii_text_len(bs);
    lemma_wrap_count_times_three(bs.len(), width);
}

} // verus!
