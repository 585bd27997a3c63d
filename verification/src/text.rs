//! Character-level text handling: lines, whitespace-separated tokens,
//! prefixes and substring search, each stated over `Seq<char>`.
use vstd::prelude::*;

verus! {

/// Unicode `White_Space`, the set that `char::is_whitespace` tests.
pub open spec fn is_white(c: char) -> bool {
    let u = c as u32;
    ||| u == 0x20
    ||| 0x09 <= u <= 0x0d
    ||| u == 0x85
    ||| u == 0xa0
    ||| u == 0x1680
    ||| 0x2000 <= u <= 0x200a
    ||| u == 0x2028
    ||| u == 0x2029
    ||| u == 0x202f
    ||| u == 0x205f
    ||| u == 0x3000
}

/// Number of characters before the first `'\n'` of `s` (all of `s` when there is none).
pub open spec fn line_end(s: Seq<char>) -> nat
    decreases s.len(),
{
    if s.len() == 0 || s[0] == '\n' {
        0
    } else {
        1 + line_end(s.drop_first())
    }
}

/// A line without the `'\r'` of a `"\r\n"` terminator.
pub open spec fn strip_cr(line: Seq<char>) -> Seq<char> {
    if line.len() > 0 && line.last() == '\r' {
        line.drop_last()
    } else {
        line
    }
}

/// The lines of `s`, as `str::lines` yields them: split at `"\n"` or `"\r\n"`,
/// terminators dropped, and no empty line after a final terminator.
pub open spec fn lines(s: Seq<char>) -> Seq<Seq<char>>
    decreases s.len(),
{
    if s.len() == 0 {
        seq![]
    } else if line_end(s) < s.len() {
        seq![strip_cr(s.take(line_end(s) as int))] + lines(s.skip(line_end(s) as int + 1))
    } else {
        seq![s]
    }
}

/// `p` is a prefix of `s`.
pub open spec fn has_prefix(s: Seq<char>, p: Seq<char>) -> bool {
    p.len() <= s.len() && s.take(p.len() as int) == p
}

/// `p` occurs in `s` as a contiguous run.
pub open spec fn contains_seq(s: Seq<char>, p: Seq<char>) -> bool {
    exists|i: int| 0 <= i && i + p.len() <= s.len() && #[trigger] s.subrange(i, i + p.len()) == p
}

/// The maximal runs of non-whitespace characters of `s`, in order
/// (what `str::split_whitespace` yields).
pub open spec fn tokens(s: Seq<char>) -> Seq<Seq<char>>
    decreases s.len(),
{
    if s.len() == 0 {
        seq![]
    } else {
        let prev = tokens(s.drop_last());
        if is_white(s.last()) {
            prev
        } else if s.len() > 1 && !is_white(s[s.len() - 2]) {
            prev.drop_last().push(prev.last().push(s.last()))
        } else {
            prev.push(seq![s.last()])
        }
    }
}

/// The `n`-th whitespace-separated token of `s`, counting from zero.
pub open spec fn nth_token(s: Seq<char>, n: nat) -> Option<Seq<char>> {
    if n < tokens(s).len() {
        Some(tokens(s)[n as int])
    } else {
        None
    }
}

/// The first of `ls` that starts with `p`.
pub open spec fn first_with_prefix(ls: Seq<Seq<char>>, p: Seq<char>) -> Option<Seq<char>>
    decreases ls.len(),
{
    if ls.len() == 0 {
        None
    } else if has_prefix(ls[0], p) {
        Some(ls[0])
    } else {
        first_with_prefix(ls.drop_first(), p)
    }
}

/// The pieces of `v` that the spans delimit.
pub open spec fn spans_text(v: Seq<char>, spans: Seq<(usize, usize)>) -> Seq<Seq<char>> {
    spans.map_values(|p: (usize, usize)| v.subrange(p.0 as int, p.1 as int))
}

/// Every span lies inside `[lo, hi]` and is ordered.
pub open spec fn spans_within(spans: Seq<(usize, usize)>, lo: int, hi: int) -> bool {
    forall|k: int| 0 <= k < spans.len() ==> lo <= (#[trigger] spans[k]).0 <= spans[k].1 <= hi
}

proof fn lemma_line_end(s: Seq<char>, m: int)
    requires
        0 <= m <= s.len(),
        forall|j: int| 0 <= j < m ==> s[j] != '\n',
        m == s.len() || s[m] == '\n',
    ensures
        line_end(s) == m,
    decreases m,
{
    if m > 0 {
        lemma_line_end(s.drop_first(), m - 1);
    }
}

/// The characters of `s`.
pub fn chars_of(s: &str) -> (v: Vec<char>)
    ensures
        v@ == s@,
{
    let mut v: Vec<char> = Vec::new();
    for c in it: s.chars()
        invariant
            v@ == it.seq().take(it.index() as int),
            it.seq() == s@,
    {
        v.push(c);
    }
    v
}

/// The spans of the lines of `v`, as `lines` gives them.
pub fn line_spans(v: &Vec<char>) -> (spans: Vec<(usize, usize)>)
    ensures
        spans_within(spans@, 0, v.len() as int),
        spans_text(v@, spans@) == lines(v@),
{
    let n = v.len();
    let mut spans: Vec<(usize, usize)> = Vec::new();
    let mut start: usize = 0;
    let mut i: usize = 0;
    proof {
        assert(v@.skip(0) =~= v@);
        assert(spans_text(v@, spans@) =~= Seq::<Seq<char>>::empty());
        assert(spans_text(v@, spans@) + lines(v@) =~= lines(v@));
    }
    while i < n
        invariant
            n == v.len(),
            start <= i <= n,
            forall|j: int| start <= j < i ==> v@[j] != '\n',
            spans_within(spans@, 0, start as int),
            spans_text(v@, spans@) + lines(v@.skip(start as int)) == lines(v@),
        decreases n - i,
    {
        if v[i] == '\n' {
            let ghost s = v@.skip(start as int);
            let ghost m = i - start;
            proof {
                lemma_line_end(s, m as int);
                assert(s.skip(m + 1) =~= v@.skip(i + 1));
                assert(lines(s) == seq![strip_cr(s.take(m as int))] + lines(s.skip(m + 1)));
            }
            let end = if i > start && v[i - 1] == '\r' { i - 1 } else { i };
            proof {
                assert(strip_cr(s.take(m as int)) =~= v@.subrange(start as int, end as int));
            }
            let ghost old_spans = spans@;
            spans.push((start, end));
            proof {
                assert(spans_text(v@, spans@) =~= spans_text(v@, old_spans).push(
                    v@.subrange(start as int, end as int),
                ));
                assert(spans_text(v@, spans@) + lines(v@.skip(i + 1)) =~= spans_text(v@, old_spans)
                    + lines(s));
            }
            start = i + 1;
        }
        i = i + 1;
    }
    let ghost s = v@.skip(start as int);
    if start < n {
        proof {
            lemma_line_end(s, s.len() as int);
            assert(s =~= v@.subrange(start as int, n as int));
        }
        let ghost old_spans = spans@;
        spans.push((start, n));
        proof {
            assert(spans_text(v@, spans@) =~= spans_text(v@, old_spans).push(
                v@.subrange(start as int, n as int),
            ));
            assert(lines(s) == seq![s]);
            assert(spans_text(v@, old_spans) + lines(s) =~= spans_text(v@, spans@));
        }
    } else {
        proof {
            assert(lines(s) =~= Seq::<Seq<char>>::empty());
            assert(spans_text(v@, spans@) + lines(s) =~= spans_text(v@, spans@));
        }
    }
    spans
}

/// Whether `c` is whitespace, as `char::is_whitespace` decides.
pub fn is_white_char(c: char) -> (r: bool)
    ensures
        r == is_white(c),
{
    let u = c as u32;
    u == 0x20 || (0x09 <= u && u <= 0x0d) || u == 0x85 || u == 0xa0 || u == 0x1680 || (0x2000 <= u
        && u <= 0x200a) || u == 0x2028 || u == 0x2029 || u == 0x202f || u == 0x205f || u == 0x3000
}

/// The spans of the whitespace-separated tokens of `v[lo..hi]`.
pub fn token_spans(v: &Vec<char>, lo: usize, hi: usize) -> (spans: Vec<(usize, usize)>)
    requires
        lo <= hi <= v.len(),
    ensures
        spans_within(spans@, lo as int, hi as int),
        spans_text(v@, spans@) == tokens(v@.subrange(lo as int, hi as int)),
{
    let mut spans: Vec<(usize, usize)> = Vec::new();
    let mut i: usize = lo;
    proof {
        assert(v@.subrange(lo as int, lo as int) =~= Seq::<char>::empty());
        assert(spans_text(v@, spans@) =~= Seq::<Seq<char>>::empty());
    }
    while i < hi
        invariant
            lo <= i <= hi <= v.len(),
            spans_within(spans@, lo as int, i as int),
            spans_text(v@, spans@) == tokens(v@.subrange(lo as int, i as int)),
            i > lo && !is_white(v@[i - 1]) ==> spans@.len() > 0 && spans@.last().1 == i,
        decreases hi - i,
    {
        let ghost s = v@.subrange(lo as int, i + 1);
        let ghost old_spans = spans@;
        proof {
            assert(s.drop_last() =~= v@.subrange(lo as int, i as int));
            assert(s.last() == v@[i as int]);
        }
        let c = v[i];
        if is_white_char(c) {
        } else if i > lo && !is_white_char(v[i - 1]) {
            let last = spans.len() - 1;
            let a = spans[last].0;
            proof {
                assert(s[s.len() - 2] == v@[i - 1]);
            }
            spans.set(last, (a, i + 1));
            proof {
                let prev = spans_text(v@, old_spans);
                assert(v@.subrange(a as int, i + 1) =~= v@.subrange(a as int, i as int).push(c));
                assert(prev.last() == v@.subrange(a as int, i as int));
                assert(spans_text(v@, spans@) =~= prev.drop_last().push(prev.last().push(c)));
            }
        } else {
            spans.push((i, i + 1));
            proof {
                let prev = spans_text(v@, old_spans);
                assert(v@.subrange(i as int, i + 1) =~= seq![c]);
                assert(spans_text(v@, spans@) =~= prev.push(seq![c]));
            }
        }
        i = i + 1;
    }
    spans
}

/// Whether `v[lo..hi]` starts with `p`.
pub fn starts_with_at(v: &Vec<char>, lo: usize, hi: usize, p: &Vec<char>) -> (r: bool)
    requires
        lo <= hi <= v.len(),
    ensures
        r == has_prefix(v@.subrange(lo as int, hi as int), p@),
{
    let ghost s = v@.subrange(lo as int, hi as int);
    if p.len() > hi - lo {
        return false;
    }
    let mut k: usize = 0;
    while k < p.len()
        invariant
            lo <= hi <= v.len(),
            p.len() <= hi - lo,
            k <= p.len(),
            s == v@.subrange(lo as int, hi as int),
            forall|j: int| 0 <= j < k ==> s[j] == p@[j],
        decreases p.len() - k,
    {
        if v[lo + k] != p[k] {
            proof {
                assert(s.take(p.len() as int)[k as int] != p@[k as int]);
            }
            return false;
        }
        k = k + 1;
    }
    proof {
        assert(s.take(p.len() as int) =~= p@);
    }
    true
}

/// Whether `p` occurs in `v`.
pub fn contains_chars(v: &Vec<char>, p: &Vec<char>) -> (r: bool)
    ensures
        r == contains_seq(v@, p@),
{
    if p.len() > v.len() {
        return false;
    }
    let last = v.len() - p.len();
    let mut i: usize = 0;
    loop
        invariant
            last == v.len() - p.len(),
            p.len() <= v.len(),
            i <= last,
            forall|j: int| 0 <= j < i ==> #[trigger] v@.subrange(j, j + p.len()) != p@,
        decreases last - i,
    {
        let found = starts_with_at(v, i, v.len(), p);
        proof {
            let s = v@.subrange(i as int, v.len() as int);
            assert(s.take(p.len() as int) =~= v@.subrange(i as int, i + p.len()));
        }
        if found {
            return true;
        }
        if i == last {
            return false;
        }
        i = i + 1;
    }
}

/// The index of the first span of `v` whose text starts with `p`.
pub fn first_span_with_prefix(v: &Vec<char>, spans: &Vec<(usize, usize)>, p: &Vec<char>) -> (r:
    Option<usize>)
    requires
        spans_within(spans@, 0, v.len() as int),
    ensures
        match r {
            Some(k) => k < spans.len() && first_with_prefix(spans_text(v@, spans@), p@) == Some(
                spans_text(v@, spans@)[k as int],
            ),
            None => first_with_prefix(spans_text(v@, spans@), p@) is None,
        },
{
    let ghost all = spans_text(v@, spans@);
    let mut k: usize = 0;
    assert(all.skip(0) =~= all);
    while k < spans.len()
        invariant
            spans_within(spans@, 0, v.len() as int),
            all == spans_text(v@, spans@),
            k <= spans.len(),
            first_with_prefix(all, p@) == first_with_prefix(all.skip(k as int), p@),
        decreases spans.len() - k,
    {
        let (a, b) = spans[k];
        let ghost rest = all.skip(k as int);
        assert(rest[0] == all[k as int]);
        if starts_with_at(v, a, b, p) {
            return Some(k);
        }
        assert(rest.drop_first() =~= all.skip(k + 1));
        k = k + 1;
    }
    None
}

} // verus!
