//! Cuts a string into fixed-width lines for display.
//!
//! The unit of cutting is the Unicode code point: a width `w` allows at most
//! `w` code points per line. The inputs this crate wraps (hex pairs and
//! printable-ASCII previews) consist of single-width ASCII characters only,
//! so code points, bytes and display columns coincide for them; wrapping
//! text with multi-unit characters would split on code-point boundaries,
//! not display columns.

use vstd::arithmetic::div_mod::{lemma_basic_div, lemma_div_plus_one};
use vstd::prelude::*;

verus! {

/// The consecutive chunks of at most `w` characters that `s` is cut into,
/// in original order. A width of zero yields the whole string as one chunk.
pub open spec fn wrap_chunks(s: Seq<char>, w: nat) -> Seq<Seq<char>>
    decreases s.len(),
{
    if w == 0 || s.len() <= w {
        seq![s]
    } else {
        seq![s.take(w as int)] + wrap_chunks(s.skip(w as int), w)
    }
}

/// The chunks laid out as display text: each chunk followed by one
/// line terminator.
pub open spec fn lines_text(chunks: Seq<Seq<char>>) -> Seq<char>
    decreases chunks.len(),
{
    if chunks.len() == 0 {
        Seq::empty()
    } else {
        chunks[0] + seq!['\n'] + lines_text(chunks.drop_first())
    }
}

/// The full rendering of `s` wrapped at width `w`.
pub open spec fn wrapped_text(s: Seq<char>, w: nat) -> Seq<char> {
    lines_text(wrap_chunks(s, w))
}

/// Number of lines produced when a string of `len` characters is wrapped
/// at width `w`: one line per chunk, one chunk for the empty string.
pub open spec fn wrap_line_count(len: nat, w: nat) -> nat
    decreases len,
{
    if w == 0 || len <= w {
        1
    } else {
        1 + wrap_line_count((len - w) as nat, w)
    }
}

/// The chunks joined back together with no terminators between them.
pub open spec fn concat_chunks(chunks: Seq<Seq<char>>) -> Seq<char>
    decreases chunks.len(),
{
    if chunks.len() == 0 {
        Seq::empty()
    } else {
        chunks[0] + concat_chunks(chunks.drop_first())
    }
}

proof fn lemma_lines_text_unfold(c: Seq<char>, chunks: Seq<Seq<char>>)
    ensures
        lines_text(seq![c] + chunks) == c + seq!['\n'] + lines_text(chunks),
{
    let whole = seq![c] + chunks;
    assert(whole[0] == c);
    assert(whole.drop_first() =~= chunks);
}

proof fn lemma_concat_chunks_unfold(c: Seq<char>, chunks: Seq<Seq<char>>)
    ensures
        concat_chunks(seq![c] + chunks) == c + concat_chunks(chunks),
{
    let whole = seq![c] + chunks;
    assert(whole[0] == c);
    assert(whole.drop_first() =~= chunks);
}

/// Law: for every string `s` and positive width `w`, concatenating the
/// chunks (line terminators removed) reproduces `s` exactly, and the
/// number of chunks is `len(s)` divided by `w` rounded upward when
/// `w <= len(s)`, else exactly one.
pub proof fn lemma_wrap_reproduces(s: Seq<char>, w: nat)
    requires
        w >= 1,
    ensures
        concat_chunks(wrap_chunks(s, w)) == s,
        wrap_chunks(s, w).len() == wrap_line_count(s.len(), w),
        wrap_line_count(s.len(), w) == if w <= s.len() {
            ((s.len() + w - 1) as int / w as int) as nat
        } else {
            1nat
        },
    decreases s.len(),
{
    if s.len() <= w {
        assert(wrap_chunks(s, w) == seq![s]);
        assert(concat_chunks(seq![s].drop_first()) == Seq::<char>::empty());
        assert(seq![s].drop_first() =~= Seq::<Seq<char>>::empty());
        assert(concat_chunks(wrap_chunks(s, w)) =~= s);
        if w <= s.len() {
            // here len == w, and (2w - 1) / w == 1
            lemma_basic_div(w - 1, w as int);
            lemma_div_plus_one(w - 1, w as int);
        }
    } else {
        let head = s.take(w as int);
        let tail = s.skip(w as int);
        lemma_wrap_reproduces(tail, w);
        lemma_concat_chunks_unfold(head, wrap_chunks(tail, w));
        assert(head + tail =~= s);
        // count: one more chunk than the tail's
        if w <= tail.len() {
            // ceil((len - w + w - 1) / w) + 1 == ceil((len + w - 1) / w)
            lemma_div_plus_one((s.len() - 1) as int, w as int);
        } else {
            // tail is shorter than w but not empty: both sides are 2
            lemma_div_plus_one((s.len() - 1) as int, w as int);
            lemma_div_plus_one((s.len() - w - 1) as int, w as int);
            lemma_basic_div((s.len() - w - 1) as int, w as int);
        }
    }
}

/// Upper bound used to show that a line counter fits in `usize`.
pub proof fn lemma_wrap_line_count_bound(len: nat, w: nat)
    ensures
        wrap_line_count(len, w) <= len + 1,
    decreases len,
{
    if !(w == 0 || len <= w) {
        lemma_wrap_line_count_bound((len - w) as nat, w);
    }
}

/// Truncates `string` to its first `pos` characters and returns the rest,
/// or leaves it whole and returns `None` when `pos` is not below its length.
pub fn split_to(string: &mut String, pos: usize) -> (rest: Option<String>)
    ensures
        match rest {
            None => old(string)@.len() <= pos && final(string)@ == old(string)@,
            Some(r) => pos < old(string)@.len() && final(string)@ == old(string)@.take(
                pos as int,
            ) && r@ == old(string)@.skip(pos as int),
        },
{
    let len = string.as_str().unicode_len();
    if pos >= len {
        return None;
    }
    let head = String::from_str(string.as_str().substring_char(0, pos));
    let tail = String::from_str(string.as_str().substring_char(pos, len));
    *string = head;
    Some(tail)
}

/// A string together with the width its display rendering wraps at.
pub struct LineWrap {
    pub string: String,
    pub wrap_at: usize,
}

impl LineWrap {
    pub fn new(string: String, wrap_at: usize) -> (r: LineWrap)
        ensures
            r.string@ == string@,
            r.wrap_at == wrap_at,
    {
        LineWrap { string, wrap_at }
    }

    /// The rendering of the string cut into chunks of at most `wrap_at`
    /// characters, each followed by a line terminator, together with the
    /// number of lines produced.
    pub fn wrapped(self) -> (r: (String, usize))
        requires
            self.string@.len() < usize::MAX,
        ensures
            r.0@ == wrapped_text(self.string@, self.wrap_at as nat),
            r.1 as nat == wrap_line_count(self.string@.len(), self.wrap_at as nat),
    {
        let LineWrap { string, wrap_at } = self;
        let ghost orig: Seq<char> = string@;
        let ghost w: nat = wrap_at as nat;
        let mut buf = string;
        let mut out = String::new();
        if wrap_at == 0 {
            // degenerate width: the whole remaining string is one line
            out.append(buf.as_str());
            out.append("\n");
            proof {
                reveal_strlit("\n");
                assert(wrap_chunks(orig, 0) == seq![orig]);
                lemma_lines_text_unfold(orig, Seq::<Seq<char>>::empty());
                assert(seq![orig] =~= seq![orig] + Seq::<Seq<char>>::empty());
                assert(out@ =~= wrapped_text(orig, w));
            }
            return (out, 1);
        }
        let mut count: usize = 0;
        proof {
            lemma_wrap_line_count_bound(orig.len(), w);
        }
        loop
            invariant
                orig == self.string@,
                w == self.wrap_at as nat,
                w == wrap_at as nat,
                w >= 1,
                out@ + wrapped_text(buf@, w) == wrapped_text(orig, w),
                count + wrap_line_count(buf@.len(), w) == wrap_line_count(orig.len(), w),
                wrap_line_count(orig.len(), w) <= orig.len() + 1,
                orig.len() < usize::MAX,
            decreases buf@.len(),
        {
            let ghost prev: Seq<char> = buf@;
            proof {
                lemma_wrap_line_count_bound(prev.len(), w);
            }
            match split_to(&mut buf, wrap_at) {
                None => {
                    // the remainder fits on one final line
                    proof {
                        assert(prev.len() <= w);
                        assert(wrap_chunks(prev, w) == seq![prev]);
                        lemma_lines_text_unfold(prev, Seq::<Seq<char>>::empty());
                        assert(seq![prev] =~= seq![prev] + Seq::<Seq<char>>::empty());
                        assert(lines_text(Seq::<Seq<char>>::empty()) == Seq::<char>::empty());
                        assert(wrapped_text(prev, w) =~= prev + seq!['\n']);
                    }
                    out.append(buf.as_str());
                    out.append("\n");
                    proof {
                        reveal_strlit("\n");
                        assert("\n"@ =~= seq!['\n']);
                        assert(out@ =~= wrapped_text(orig, w));
                        assert(wrap_line_count(prev.len(), w) == 1);
                    }
                    count = count + 1;
                    return (out, count);
                },
                Some(rest) => {
                    proof {
                        assert(wrap_chunks(prev, w) == seq![prev.take(w as int)] + wrap_chunks(
                            prev.skip(w as int),
                            w,
                        ));
                        lemma_lines_text_unfold(prev.take(w as int), wrap_chunks(rest@, w));
                    }
                    out.append(buf.as_str());
                    out.append("\n");
                    proof {
                        reveal_strlit("\n");
                    }
                    count = count + 1;
                    buf = rest;
                    assert(out@ + wrapped_text(buf@, w) =~= wrapped_text(orig, w));
                },
            }
        }
    }
}

} // verus!
