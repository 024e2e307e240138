//! Contracts for the few `String` operations of std that vstd leaves
//! unspecified, and verified helpers on text.

use vstd::prelude::*;

verus! {

/// Relies on `String::push`: appends the given character to the end of
/// the string, as its documentation states.
pub assume_specification[ String::push ](s: &mut String, c: char)
    ensures
        final(s)@ == old(s)@.push(c),
;

/// A Unicode whitespace character: the White_Space set that
/// `str::trim_end` trims.
pub open spec fn is_space_char(c: char) -> bool {
    ||| c as int == 0x09
    ||| c as int == 0x0a
    ||| c as int == 0x0b
    ||| c as int == 0x0c
    ||| c as int == 0x0d
    ||| c as int == 0x20
    ||| c as int == 0x85
    ||| c as int == 0xa0
    ||| c as int == 0x1680
    ||| 0x2000 <= c as int <= 0x200a
    ||| c as int == 0x2028
    ||| c as int == 0x2029
    ||| c as int == 0x202f
    ||| c as int == 0x205f
    ||| c as int == 0x3000
}

fn is_space(c: char) -> (r: bool)
    ensures
        r == is_space_char(c),
{
    let u = c as u32;
    (0x09 <= u && u <= 0x0d) || u == 0x20 || u == 0x85 || u == 0xa0 || u == 0x1680 || (0x2000 <= u
        && u <= 0x200a) || u == 0x2028 || u == 0x2029 || u == 0x202f || u == 0x205f || u == 0x3000
}

/// `s` with every trailing whitespace character removed.
pub open spec fn trimmed_end(s: Seq<char>) -> Seq<char>
    decreases s.len(),
{
    if s.len() == 0 {
        s
    } else if is_space_char(s.last()) {
        trimmed_end(s.drop_last())
    } else {
        s
    }
}

/// Removes trailing whitespace, as a payload file's final newline.
pub fn trim_end_spaces(s: &str) -> (r: String)
    ensures
        r@ == trimmed_end(s@),
{
    let len = s.unicode_len();
    let mut end = len;
    proof {
        assert(s@.take(len as int) =~= s@);
    }
    loop
        invariant
            end <= len,
            len == s@.len(),
            trimmed_end(s@.take(end as int)) == trimmed_end(s@),
        ensures
            end <= len,
            trimmed_end(s@.take(end as int)) == trimmed_end(s@),
            end > 0 ==> !is_space_char(s@[end - 1]),
        decreases end,
    {
        if end == 0 {
            break ;
        }
        if !is_space(s.get_char(end - 1)) {
            break ;
        }
        proof {
            assert(s@.take(end as int).last() == s@[end - 1]);
            assert(s@.take(end as int).drop_last() =~= s@.take(end - 1));
        }
        end = end - 1;
    }
    let r = String::from_str(s.substring_char(0, end));
    proof {
        if end > 0 {
            assert(!is_space_char(s@.take(end as int).last()));
        }
        assert(s@.take(end as int) =~= s@.subrange(0, end as int));
    }
    r
}

/// A fresh copy of a sequence of owned lines.
pub fn copy_lines(v: &Vec<String>) -> (r: Vec<String>)
    ensures
        r.deep_view() == v.deep_view(),
{
    let mut out: Vec<String> = Vec::new();
    let mut i: usize = 0;
    proof {
        assert(out.deep_view() =~~= v.deep_view().take(0));
    }
    while i < v.len()
        invariant
            i <= v@.len(),
            out@.len() == i,
            out.deep_view() == v.deep_view().take(i as int),
        decreases v@.len() - i,
    {
        let line = String::from_str(v[i].as_str());
        let ghost prevec: Seq<String> = out@;
        let ghost predv: Seq<Seq<char>> = out.deep_view();
        out.push(line);
        proof {
            let dv = out.deep_view();
            let tv = v.deep_view().take(i as int + 1);
            assert forall|k: int| 0 <= k < i + 1 implies dv[k] == tv[k] by {
                assert(dv[k] == out@[k].deep_view());
                assert(tv[k] == v.deep_view()[k]);
                assert(v.deep_view()[k] == v@[k].deep_view());
                if k < i as int {
                    assert(out@[k] == prevec[k]);
                    assert(predv[k] == prevec[k].deep_view());
                    assert(predv[k] == v.deep_view().take(i as int)[k]);
                } else {
                    assert(out@[k] == line);
                    assert(line.deep_view() == line@);
                    assert(v@[k].deep_view() == v@[k]@);
                }
            }
            assert(dv =~= tv);
        }
        i = i + 1;
    }
    proof {
        assert(v.deep_view().take(v@.len() as int) =~= v.deep_view());
    }
    out
}

/// One left-to-right scan for the deepest brace/bracket nesting in a JSON
/// text, from position `i` with `cur` levels open, string-literal state
/// `(in_str, esc)` and `best` the deepest level seen so far. Braces inside
/// string literals do not nest; a close below level zero stays at zero.
pub open spec fn json_depth_scan(
    s: Seq<char>,
    i: int,
    cur: nat,
    in_str: bool,
    esc: bool,
    best: nat,
) -> nat
    decreases s.len() - i,
{
    if i < 0 || i >= s.len() {
        best
    } else {
        let c = s[i];
        if in_str {
            if esc {
                json_depth_scan(s, i + 1, cur, true, false, best)
            } else if c == '\\' {
                json_depth_scan(s, i + 1, cur, true, true, best)
            } else if c == '"' {
                json_depth_scan(s, i + 1, cur, false, false, best)
            } else {
                json_depth_scan(s, i + 1, cur, true, false, best)
            }
        } else if c == '{' || c == '[' {
            json_depth_scan(
                s,
                i + 1,
                cur + 1,
                false,
                false,
                if cur + 1 > best {
                    cur + 1
                } else {
                    best
                },
            )
        } else if c == '}' || c == ']' {
            json_depth_scan(
                s,
                i + 1,
                if cur > 0 {
                    (cur - 1) as nat
                } else {
                    0
                },
                false,
                false,
                best,
            )
        } else if c == '"' {
            json_depth_scan(s, i + 1, cur, true, false, best)
        } else {
            json_depth_scan(s, i + 1, cur, false, false, best)
        }
    }
}

/// The deepest brace/bracket nesting in a JSON text.
pub open spec fn json_depth(s: Seq<char>) -> nat {
    json_depth_scan(s, 0, 0, false, false, 0)
}

/// Measures the deepest brace/bracket nesting of `s`, string literals
/// skipped; used to bound what is handed to a recursive parser.
pub fn json_text_depth(s: &str) -> (r: usize)
    ensures
        r as nat == json_depth(s@),
{
    let len = s.unicode_len();
    let mut i: usize = 0;
    let mut cur: usize = 0;
    let mut best: usize = 0;
    let mut in_str = false;
    let mut esc = false;
    while i < len
        invariant
            i <= len,
            len == s@.len(),
            cur <= i,
            best <= i,
            !in_str ==> !esc,
            json_depth_scan(s@, i as int, cur as nat, in_str, esc, best as nat) == json_depth(s@),
        decreases len - i,
    {
        let c = s.get_char(i);
        if in_str {
            if esc {
                esc = false;
            } else if c == '\\' {
                esc = true;
            } else if c == '"' {
                in_str = false;
            }
        } else if c == '{' || c == '[' {
            cur = cur + 1;
            if cur > best {
                best = cur;
            }
        } else if c == '}' || c == ']' {
            if cur > 0 {
                cur = cur - 1;
            }
        } else if c == '"' {
            in_str = true;
        }
        i = i + 1;
    }
    best
}

/// The segments of `s` split at every line feed: always one more segment
/// than there are line feeds, with empty segments kept.
pub open spec fn split_lines_spec(s: Seq<char>) -> Seq<Seq<char>>
    decreases s.len(),
{
    if s.len() == 0 {
        seq![Seq::<char>::empty()]
    } else if s[0] == '\n' {
        seq![Seq::<char>::empty()] + split_lines_spec(s.drop_first())
    } else {
        let rest = split_lines_spec(s.drop_first());
        seq![seq![s[0]] + rest[0]] + rest.drop_first()
    }
}

pub proof fn lemma_split_lines_nonempty(s: Seq<char>)
    ensures
        split_lines_spec(s).len() >= 1,
    decreases s.len(),
{
    if s.len() > 0 {
        lemma_split_lines_nonempty(s.drop_first());
    }
}

proof fn lemma_split_snoc_char(t: Seq<char>, c: char)
    requires
        c != '\n',
    ensures
        split_lines_spec(t).len() >= 1,
        split_lines_spec(t.push(c)) == split_lines_spec(t).drop_last() + seq![split_lines_spec(
            t,
        ).last().push(c)],
    decreases t.len(),
{
    lemma_split_lines_nonempty(t);
    let whole = t.push(c);
    if t.len() == 0 {
        assert(t =~= Seq::<char>::empty());
        assert(whole[0] == c);
        assert(whole.drop_first() =~= Seq::<char>::empty());
        assert(Seq::<char>::empty().push(c) =~= seq![c]);
        assert(split_lines_spec(whole) =~~= seq![seq![c]]);
        assert(split_lines_spec(t).drop_last() + seq![split_lines_spec(t).last().push(c)]
            =~~= seq![seq![c]]);
    } else {
        lemma_split_snoc_char(t.drop_first(), c);
        lemma_split_lines_nonempty(t.drop_first());
        assert(whole.drop_first() =~= t.drop_first().push(c));
        assert(whole[0] == t[0]);
        let rt = split_lines_spec(t.drop_first());
        let rw = split_lines_spec(whole.drop_first());
        assert(rw == rt.drop_last() + seq![rt.last().push(c)]);
        if t[0] == '\n' {
            assert(split_lines_spec(t) == seq![Seq::<char>::empty()] + rt);
            assert(split_lines_spec(whole) == seq![Seq::<char>::empty()] + rw);
            if rt.len() == 1 {
                assert(split_lines_spec(whole) =~= split_lines_spec(t).drop_last()
                    + seq![split_lines_spec(t).last().push(c)]);
            } else {
                assert(split_lines_spec(whole) =~= split_lines_spec(t).drop_last()
                    + seq![split_lines_spec(t).last().push(c)]);
            }
        } else {
            assert(split_lines_spec(t) == seq![seq![t[0]] + rt[0]] + rt.drop_first());
            assert(split_lines_spec(whole) == seq![seq![t[0]] + rw[0]] + rw.drop_first());
            if rt.len() == 1 {
                assert(rw[0] == rt[0].push(c));
                assert(rw.drop_first() =~= Seq::<Seq<char>>::empty());
                assert(split_lines_spec(whole) =~= seq![seq![t[0]] + rt[0].push(c)]);
                assert(split_lines_spec(t).last() == seq![t[0]] + rt[0]);
                assert((seq![t[0]] + rt[0]).push(c) =~= seq![t[0]] + rt[0].push(c));
                assert(split_lines_spec(whole) =~= split_lines_spec(t).drop_last()
                    + seq![split_lines_spec(t).last().push(c)]);
            } else {
                assert(rw[0] == rt[0]);
                assert(rw.drop_first() =~= rt.drop_first().drop_last() + seq![rt.last().push(c)]);
                assert(split_lines_spec(t).last() == rt.last());
                assert(split_lines_spec(whole) =~= split_lines_spec(t).drop_last()
                    + seq![split_lines_spec(t).last().push(c)]);
            }
        }
    }
}

proof fn lemma_split_snoc_newline(t: Seq<char>)
    ensures
        split_lines_spec(t.push('\n')) == split_lines_spec(t) + seq![Seq::<char>::empty()],
    decreases t.len(),
{
    lemma_split_lines_nonempty(t);
    let whole = t.push('\n');
    if t.len() == 0 {
        assert(t =~= Seq::<char>::empty());
        assert(whole[0] == '\n');
        assert(whole.drop_first() =~= Seq::<char>::empty());
        assert(split_lines_spec(whole) =~~= split_lines_spec(t) + seq![Seq::<char>::empty()]);
    } else {
        lemma_split_snoc_newline(t.drop_first());
        lemma_split_lines_nonempty(t.drop_first());
        assert(whole.drop_first() =~= t.drop_first().push('\n'));
        assert(whole[0] == t[0]);
        let rt = split_lines_spec(t.drop_first());
        let rw = split_lines_spec(whole.drop_first());
        assert(rw == rt + seq![Seq::<char>::empty()]);
        if t[0] == '\n' {
            assert(split_lines_spec(whole) =~= split_lines_spec(t) + seq![Seq::<char>::empty()]);
        } else {
            assert(rw[0] == rt[0]);
            assert(rw.drop_first() =~= rt.drop_first() + seq![Seq::<char>::empty()]);
            assert(split_lines_spec(whole) =~= split_lines_spec(t) + seq![Seq::<char>::empty()]);
        }
    }
}

/// Splits `s` at every line feed into owned lines, empty lines kept.
pub fn split_lines(s: &str) -> (r: Vec<String>)
    ensures
        r.deep_view() == split_lines_spec(s@),
        r@.len() >= 1,
{
    let len = s.unicode_len();
    let mut out: Vec<String> = Vec::new();
    let mut cur = String::new();
    let mut i: usize = 0;
    proof {
        assert(s@.take(0) =~= Seq::<char>::empty());
        assert(out.deep_view() + seq![cur@] =~= split_lines_spec(s@.take(0)));
    }
    while i < len
        invariant
            i <= len,
            len == s@.len(),
            out.deep_view() + seq![cur@] == split_lines_spec(s@.take(i as int)),
        decreases len - i,
    {
        let c = s.get_char(i);
        proof {
            assert(s@.take(i as int).push(s@[i as int]) =~= s@.take(i as int + 1));
            lemma_split_lines_nonempty(s@.take(i as int));
        }
        if c == '\n' {
            proof {
                lemma_split_snoc_newline(s@.take(i as int));
            }
            out.push(cur);
            cur = String::new();
            assert(out.deep_view() + seq![cur@] =~= split_lines_spec(s@.take(i as int + 1)));
        } else {
            proof {
                lemma_split_snoc_char(s@.take(i as int), s@[i as int]);
                assert((out.deep_view() + seq![cur@]).drop_last() =~= out.deep_view());
                assert((out.deep_view() + seq![cur@]).last() == cur@);
            }
            cur.push(c);
            assert(out.deep_view() + seq![cur@] =~= split_lines_spec(s@.take(i as int + 1)));
        }
        i = i + 1;
    }
    proof {
        assert(s@.take(len as int) =~= s@);
        lemma_split_lines_nonempty(s@);
    }
    out.push(cur);
    assert(out.deep_view() =~= split_lines_spec(s@));
    out
}

} // verus!
