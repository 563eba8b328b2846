//! Character-level text utilities shared by the two parsers: equality of
//! string slices, ASCII-whitespace trimming, splitting a snapshot into
//! lines, splitting a line into whitespace-separated tokens, and splitting
//! a line once at a separator character.
//!
//! Each executable function is specified against a recursive function over
//! the `Seq<char>` view of its input.

use vstd::prelude::*;
use vstd::string::StrSliceExecFns;

verus! {

/// ASCII whitespace: the characters that separate tokens and that trimming
/// removes.
pub open spec fn is_ws(c: char) -> bool {
    c == ' ' || c == '\t' || c == '\n' || c == '\r' || c == '\x0c'
}

/// Runtime test for [`is_ws`].
pub fn is_ws_char(c: char) -> (r: bool)
    ensures
        r == is_ws(c),
{
    c == ' ' || c == '\t' || c == '\n' || c == '\r' || c == '\x0c'
}

/// Character-for-character equality of two string slices.
pub fn str_eq(a: &str, b: &str) -> (r: bool)
    ensures
        r == (a@ == b@),
{
    let n = a.unicode_len();
    if n != b.unicode_len() {
        return false;
    }
    let mut i: usize = 0;
    while i < n
        invariant
            i <= n,
            n == a@.len(),
            n == b@.len(),
            forall|j: int| 0 <= j < i ==> a@[j] == b@[j],
        decreases n - i,
    {
        if a.get_char(i) != b.get_char(i) {
            assert(a@[i as int] != b@[i as int]);
            return false;
        }
        i += 1;
    }
    proof {
        assert(a@ =~= b@);
    }
    true
}

/// What trimming yields: the sequence with leading and trailing whitespace
/// removed.
pub open spec fn spec_trim(s: Seq<char>) -> Seq<char>
    decreases s.len(),
{
    if s.len() == 0 {
        s
    } else if is_ws(s[0]) {
        spec_trim(s.skip(1))
    } else if is_ws(s.last()) {
        spec_trim(s.drop_last())
    } else {
        s
    }
}

/// Copies `s` with surrounding whitespace removed.
pub fn trim_str(s: &str) -> (r: String)
    ensures
        r@ == spec_trim(s@),
{
    let n = s.unicode_len();
    let mut i: usize = 0;
    proof {
        assert(s@.skip(0) =~= s@);
    }
    while i < n && is_ws_char(s.get_char(i))
        invariant
            i <= n,
            n == s@.len(),
            spec_trim(s@) == spec_trim(s@.skip(i as int)),
        decreases n - i,
    {
        proof {
            assert(s@.skip(i as int)[0] == s@[i as int]);
            assert(s@.skip(i as int).skip(1) =~= s@.skip(i as int + 1));
        }
        i += 1;
    }
    if i == n {
        proof {
            assert(s@.skip(n as int) =~= Seq::<char>::empty());
        }
        return String::new();
    }
    let mut j: usize = n - 1;
    proof {
        assert(s@.skip(i as int) =~= s@.subrange(i as int, n as int));
    }
    while is_ws_char(s.get_char(j))
        invariant
            i <= j < n,
            n == s@.len(),
            !is_ws(s@[i as int]),
            spec_trim(s@) == spec_trim(s@.subrange(i as int, j as int + 1)),
        decreases j,
    {
        proof {
            let sub = s@.subrange(i as int, j as int + 1);
            assert(sub[0] == s@[i as int]);
            assert(sub.last() == s@[j as int]);
            assert(sub.drop_last() =~= s@.subrange(i as int, j as int));
        }
        j -= 1;
    }
    proof {
        let sub = s@.subrange(i as int, j as int + 1);
        assert(sub[0] == s@[i as int]);
        assert(sub.last() == s@[j as int]);
    }
    s.substring_char(i, j + 1).to_owned()
}

/// A line with one trailing carriage return removed, as line splitting
/// yields it.
pub open spec fn strip_cr(s: Seq<char>) -> Seq<char> {
    if s.len() > 0 && s.last() == '\r' {
        s.drop_last()
    } else {
        s
    }
}

/// Line splitting with the partial line `cur` still open: breaks at every
/// newline, drops one carriage return before each break, and yields no
/// empty final line after a trailing newline.
pub open spec fn lines_rec(s: Seq<char>, cur: Seq<char>) -> Seq<Seq<char>>
    decreases s.len(),
{
    if s.len() == 0 {
        if cur.len() == 0 {
            Seq::empty()
        } else {
            seq![strip_cr(cur)]
        }
    } else if s[0] == '\n' {
        seq![strip_cr(cur)] + lines_rec(s.skip(1), Seq::empty())
    } else {
        lines_rec(s.skip(1), cur.push(s[0]))
    }
}

/// The lines of a text snapshot.
pub open spec fn spec_lines(s: Seq<char>) -> Seq<Seq<char>> {
    lines_rec(s, Seq::empty())
}

/// The views of a sequence of owned strings.
pub open spec fn views_of(ts: Seq<String>) -> Seq<Seq<char>> {
    ts.map_values(|t: String| t@)
}

pub proof fn lemma_views_push(ts: Seq<String>, t: String)
    ensures
        views_of(ts.push(t)) == views_of(ts).push(t@),
{
    assert(views_of(ts.push(t)) =~= views_of(ts).push(t@));
}

/// Copies the range `[from, to)` of `s` with one trailing carriage return
/// removed.
fn extract_line(s: &str, from: usize, to: usize) -> (r: String)
    requires
        from <= to <= s@.len(),
    ensures
        r@ == strip_cr(s@.subrange(from as int, to as int)),
{
    proof {
        let sub = s@.subrange(from as int, to as int);
        if sub.len() > 0 {
            assert(sub.last() == s@[to - 1]);
            assert(sub.drop_last() =~= s@.subrange(from as int, to as int - 1));
        }
    }
    if to > from && s.get_char(to - 1) == '\r' {
        s.substring_char(from, to - 1).to_owned()
    } else {
        s.substring_char(from, to).to_owned()
    }
}

/// Splits a snapshot into its lines.
pub fn split_lines(s: &str) -> (r: Vec<String>)
    ensures
        views_of(r@) == spec_lines(s@),
{
    let n = s.unicode_len();
    let mut out: Vec<String> = Vec::new();
    let mut start: usize = 0;
    let mut i: usize = 0;
    proof {
        assert(s@.skip(0) =~= s@);
        assert(s@.subrange(0, 0) =~= Seq::<char>::empty());
        assert(views_of(Seq::empty()) =~= Seq::<Seq<char>>::empty());
    }
    while i < n
        invariant
            start <= i <= n,
            n == s@.len(),
            spec_lines(s@) == views_of(out@) + lines_rec(
                s@.skip(i as int),
                s@.subrange(start as int, i as int),
            ),
        decreases n - i,
    {
        let ghost cur = s@.subrange(start as int, i as int);
        proof {
            assert(s@.skip(i as int)[0] == s@[i as int]);
            assert(s@.skip(i as int).skip(1) =~= s@.skip(i as int + 1));
        }
        let c = s.get_char(i);
        if c == '\n' {
            let line = extract_line(s, start, i);
            proof {
                assert(lines_rec(s@.skip(i as int), cur) =~= seq![strip_cr(cur)] + lines_rec(
                    s@.skip(i as int + 1),
                    Seq::empty(),
                ));
                lemma_views_push(out@, line);
                assert(views_of(out@.push(line)) + lines_rec(s@.skip(i as int + 1), Seq::empty())
                    =~= views_of(out@) + lines_rec(s@.skip(i as int), cur));
                assert(s@.subrange(i as int + 1, i as int + 1) =~= Seq::<char>::empty());
            }
            out.push(line);
            start = i + 1;
        } else {
            proof {
                assert(cur.push(s@[i as int]) =~= s@.subrange(start as int, i as int + 1));
            }
        }
        i += 1;
    }
    proof {
        assert(s@.skip(n as int) =~= Seq::<char>::empty());
    }
    if start < n {
        let line = extract_line(s, start, n);
        proof {
            lemma_views_push(out@, line);
            assert(views_of(out@.push(line)) =~= views_of(out@) + lines_rec(
                s@.skip(n as int),
                s@.subrange(start as int, n as int),
            ));
        }
        out.push(line);
    } else {
        proof {
            assert(s@.subrange(start as int, n as int).len() == 0);
            assert(views_of(out@) + lines_rec(s@.skip(n as int), s@.subrange(start as int, n as int))
                =~= views_of(out@));
        }
    }
    out
}

/// Token splitting with the partial token `cur` still open: maximal runs of
/// non-whitespace characters, in order.
pub open spec fn tok_rec(s: Seq<char>, cur: Seq<char>) -> Seq<Seq<char>>
    decreases s.len(),
{
    if s.len() == 0 {
        if cur.len() == 0 {
            Seq::empty()
        } else {
            seq![cur]
        }
    } else if is_ws(s[0]) {
        if cur.len() == 0 {
            tok_rec(s.skip(1), Seq::empty())
        } else {
            seq![cur] + tok_rec(s.skip(1), Seq::empty())
        }
    } else {
        tok_rec(s.skip(1), cur.push(s[0]))
    }
}

/// The whitespace-separated tokens of a line.
pub open spec fn spec_tokens(s: Seq<char>) -> Seq<Seq<char>> {
    tok_rec(s, Seq::empty())
}

/// Splits a line into its whitespace-separated tokens.
pub fn split_tokens(s: &str) -> (r: Vec<String>)
    ensures
        views_of(r@) == spec_tokens(s@),
{
    let n = s.unicode_len();
    let mut out: Vec<String> = Vec::new();
    let mut start: usize = 0;
    let mut i: usize = 0;
    proof {
        assert(s@.skip(0) =~= s@);
        assert(s@.subrange(0, 0) =~= Seq::<char>::empty());
        assert(views_of(Seq::empty()) =~= Seq::<Seq<char>>::empty());
    }
    while i < n
        invariant
            start <= i <= n,
            n == s@.len(),
            spec_tokens(s@) == views_of(out@) + tok_rec(
                s@.skip(i as int),
                s@.subrange(start as int, i as int),
            ),
        decreases n - i,
    {
        let ghost cur = s@.subrange(start as int, i as int);
        proof {
            assert(s@.skip(i as int)[0] == s@[i as int]);
            assert(s@.skip(i as int).skip(1) =~= s@.skip(i as int + 1));
        }
        let c = s.get_char(i);
        if is_ws_char(c) {
            if start < i {
                let tok = s.substring_char(start, i).to_owned();
                proof {
                    lemma_views_push(out@, tok);
                    assert(views_of(out@.push(tok)) + tok_rec(s@.skip(i as int + 1), Seq::empty())
                        =~= views_of(out@) + tok_rec(s@.skip(i as int), cur));
                }
                out.push(tok);
            }
            proof {
                assert(s@.subrange(i as int + 1, i as int + 1) =~= Seq::<char>::empty());
            }
            start = i + 1;
        } else {
            proof {
                assert(cur.push(s@[i as int]) =~= s@.subrange(start as int, i as int + 1));
            }
        }
        i += 1;
    }
    proof {
        assert(s@.skip(n as int) =~= Seq::<char>::empty());
    }
    if start < n {
        let tok = s.substring_char(start, n).to_owned();
        proof {
            lemma_views_push(out@, tok);
            assert(views_of(out@.push(tok)) =~= views_of(out@) + tok_rec(
                s@.skip(n as int),
                s@.subrange(start as int, n as int),
            ));
        }
        out.push(tok);
    } else {
        proof {
            assert(s@.subrange(start as int, n as int).len() == 0);
            assert(views_of(out@) + tok_rec(s@.skip(n as int), s@.subrange(start as int, n as int))
                =~= views_of(out@));
        }
    }
    out
}

/// Splitting at the first occurrence of `c`: the parts before and after it,
/// or nothing when `c` does not occur.
pub open spec fn spec_split_once(s: Seq<char>, c: char) -> Option<(Seq<char>, Seq<char>)>
    decreases s.len(),
{
    if s.len() == 0 {
        None
    } else if s[0] == c {
        Some((Seq::empty(), s.skip(1)))
    } else {
        match spec_split_once(s.skip(1), c) {
            None => None,
            Some(p) => Some((seq![s[0]] + p.0, p.1)),
        }
    }
}

/// Splits `s` at the first occurrence of `c`.
pub fn split_once_str(s: &str, c: char) -> (r: Option<(String, String)>)
    ensures
        r matches Some(p) ==> spec_split_once(s@, c) == Some((p.0@, p.1@)),
        r is None ==> spec_split_once(s@, c) is None,
{
    let n = s.unicode_len();
    let mut i: usize = 0;
    proof {
        assert(s@.skip(0) =~= s@);
        assert(s@.subrange(0, 0) =~= Seq::<char>::empty());
    }
    while i < n
        invariant
            i <= n,
            n == s@.len(),
            spec_split_once(s@, c) == (match spec_split_once(s@.skip(i as int), c) {
                None => None,
                Some(p) => Some((s@.subrange(0, i as int) + p.0, p.1)),
            }),
        decreases n - i,
    {
        proof {
            assert(s@.skip(i as int)[0] == s@[i as int]);
            assert(s@.skip(i as int).skip(1) =~= s@.skip(i as int + 1));
        }
        if s.get_char(i) == c {
            let before = s.substring_char(0, i).to_owned();
            let after = s.substring_char(i + 1, n).to_owned();
            proof {
                assert(s@.skip(i as int).skip(1) =~= s@.skip(i as int + 1));
                assert(s@.subrange(0, i as int) + Seq::<char>::empty() =~= s@.subrange(
                    0,
                    i as int,
                ));
                assert(s@.subrange(i as int + 1, n as int) =~= s@.skip(i as int + 1));
            }
            return Some((before, after));
        }
        proof {
            match spec_split_once(s@.skip(i as int + 1), c) {
                None => {},
                Some(p) => {
                    assert(s@.subrange(0, i as int) + (seq![s@[i as int]] + p.0) =~= s@.subrange(
                        0,
                        i as int + 1,
                    ) + p.0);
                },
            }
        }
        i += 1;
    }
    proof {
        assert(s@.skip(n as int) =~= Seq::<char>::empty());
    }
    None
}

} // verus!
