//! Character-sequence operations that the parsers are built from, each with the
//! meaning of the `str` method it stands for.

use vstd::prelude::*;

verus! {

/// The characters of `s`, in order.
pub fn chars_of(s: &str) -> (r: Vec<char>)
    ensures
        r@ == s@,
{
    let mut r: Vec<char> = Vec::new();
    for c in it: s.chars()
        invariant
            r@ == it.seq().subrange(0, it.index() as int),
    {
        r.push(c);
    }
    r
}

/// Pieces of `s` between the non-overlapping occurrences of `sep`, found left to
/// right; `cur` is the piece gathered so far.
pub open spec fn split_from(s: Seq<char>, sep: Seq<char>, cur: Seq<char>) -> Seq<Seq<char>>
    decreases s.len(),
{
    if s.len() == 0 {
        seq![cur]
    } else if 0 < sep.len() <= s.len() && s.subrange(0, sep.len() as int) == sep {
        seq![cur] + split_from(s.subrange(sep.len() as int, s.len() as int), sep, Seq::empty())
    } else {
        split_from(s.drop_first(), sep, cur.push(s[0]))
    }
}

/// What `str::split` gives for a non-empty separator.
pub open spec fn split_on(s: Seq<char>, sep: Seq<char>) -> Seq<Seq<char>> {
    split_from(s, sep, Seq::empty())
}

pub proof fn lemma_split_from_nonempty(s: Seq<char>, sep: Seq<char>, cur: Seq<char>)
    ensures
        split_from(s, sep, cur).len() >= 1,
        split_from(s, sep, cur)[0].len() >= cur.len(),
        split_from(s, sep, cur)[0].subrange(0, cur.len() as int) == cur,
    decreases s.len(),
{
    if s.len() == 0 {
    } else if 0 < sep.len() <= s.len() && s.subrange(0, sep.len() as int) == sep {
        lemma_split_from_nonempty(s.subrange(sep.len() as int, s.len() as int), sep, Seq::empty());
    } else {
        lemma_split_from_nonempty(s.drop_first(), sep, cur.push(s[0]));
        let p = split_from(s.drop_first(), sep, cur.push(s[0]))[0];
        assert(p.subrange(0, cur.len() as int) =~= p.subrange(0, cur.len() + 1int).subrange(
            0,
            cur.len() as int,
        ));
        assert(cur.push(s[0]).subrange(0, cur.len() as int) =~= cur);
    }
}

pub proof fn lemma_split_on_nonempty(s: Seq<char>, sep: Seq<char>)
    ensures
        split_on(s, sep).len() >= 1,
{
    lemma_split_from_nonempty(s, sep, Seq::empty());
}

/// The character sequences held by a vector of pieces.
pub open spec fn pieces_view(v: Seq<Vec<char>>) -> Seq<Seq<char>> {
    v.map_values(|p: Vec<char>| p@)
}

/// Whether `sep` occurs in `s` at position `i`.
pub open spec fn occurs_at(s: Seq<char>, sep: Seq<char>, i: int) -> bool {
    0 <= i && i + sep.len() <= s.len() && s.subrange(i, i + sep.len()) == sep
}

fn occurs_at_exec(s: &Vec<char>, sep: &Vec<char>, i: usize) -> (r: bool)
    requires
        i <= s.len(),
    ensures
        r == occurs_at(s@, sep@, i as int),
{
    if sep.len() > s.len() - i {
        return false;
    }
    let mut k: usize = 0;
    while k < sep.len()
        invariant
            i + sep.len() <= s.len(),
            k <= sep.len(),
            forall|j: int| 0 <= j < k ==> s@[i + j] == sep@[j],
        decreases sep.len() - k,
    {
        if s[i + k] != sep[k] {
            assert(s@.subrange(i as int, i + sep.len())[k as int] != sep@[k as int]);
            return false;
        }
        k = k + 1;
    }
    assert(s@.subrange(i as int, i + sep.len()) =~= sep@);
    true
}

/// Splits `s` at each occurrence of the non-empty `sep`, as `str::split` does.
pub fn split_chars(s: &Vec<char>, sep: &Vec<char>) -> (r: Vec<Vec<char>>)
    requires
        sep.len() > 0,
    ensures
        pieces_view(r@) == split_on(s@, sep@),
{
    let mut out: Vec<Vec<char>> = Vec::new();
    let mut cur: Vec<char> = Vec::new();
    let mut i: usize = 0;
    proof {
        assert(s@.subrange(0, s.len() as int) =~= s@);
        assert(pieces_view(out@) + split_on(s@, sep@) =~= split_on(s@, sep@));
    }
    while i < s.len()
        invariant
            i <= s.len(),
            sep.len() > 0,
            split_on(s@, sep@) == pieces_view(out@) + split_from(
                s@.subrange(i as int, s.len() as int),
                sep@,
                cur@,
            ),
        decreases s.len() - i,
    {
        let rest = Ghost(s@.subrange(i as int, s.len() as int));
        if occurs_at_exec(s, sep, i) {
            proof {
                assert(rest@.subrange(0, sep.len() as int) =~= s@.subrange(i as int, i + sep.len()));
                assert(rest@.subrange(sep.len() as int, rest@.len() as int) =~= s@.subrange(
                    i + sep.len(),
                    s.len() as int,
                ));
            }
            let ghost before = pieces_view(out@);
            let piece = cur;
            out.push(piece);
            cur = Vec::new();
            i = i + sep.len();
            proof {
                assert(pieces_view(out@) =~= before.push(piece@));
                let tail = split_from(s@.subrange(i as int, s.len() as int), sep@, cur@);
                assert(before + (seq![piece@] + tail) =~= before.push(piece@) + tail);
            }
        } else {
            proof {
                if 0 < sep.len() <= rest@.len() {
                    assert(rest@.subrange(0, sep.len() as int) =~= s@.subrange(
                        i as int,
                        i + sep.len(),
                    ));
                }
                assert(rest@.drop_first() =~= s@.subrange(i + 1, s.len() as int));
            }
            cur.push(s[i]);
            i = i + 1;
        }
    }
    let ghost before = pieces_view(out@);
    let piece = cur;
    out.push(piece);
    proof {
        assert(pieces_view(out@) =~= before.push(piece@));
        assert(before + seq![piece@] =~= before.push(piece@));
    }
    out
}

/// Relies on `String::push`: appends one character at the end.
#[verifier::external_body]
pub(crate) fn push_char(s: &mut String, c: char)
    ensures
        final(s)@ == old(s)@.push(c),
{
    s.push(c);
}

/// A `String` holding the characters of `v`.
pub fn string_of(v: &Vec<char>) -> (r: String)
    ensures
        r@ == v@,
{
    let mut r = String::new();
    let mut i: usize = 0;
    while i < v.len()
        invariant
            i <= v.len(),
            r@ == v@.subrange(0, i as int),
        decreases v.len() - i,
    {
        push_char(&mut r, v[i]);
        i = i + 1;
        assert(r@ =~= v@.subrange(0, i as int));
    }
    assert(r@ =~= v@);
    r
}

/// The code points with the Unicode `White_Space` property, which is what
/// `char::is_whitespace` and `str::trim` go by.
pub open spec fn is_white_space(c: char) -> bool {
    ('\u{9}' <= c <= '\u{d}') || c == ' ' || c == '\u{85}' || c == '\u{a0}' || c == '\u{1680}'
        || ('\u{2000}' <= c <= '\u{200a}') || c == '\u{2028}' || c == '\u{2029}' || c
        == '\u{202f}' || c == '\u{205f}' || c == '\u{3000}'
}

pub fn white_space(c: char) -> (r: bool)
    ensures
        r == is_white_space(c),
{
    ('\u{9}' <= c && c <= '\u{d}') || c == ' ' || c == '\u{85}' || c == '\u{a0}' || c
        == '\u{1680}' || ('\u{2000}' <= c && c <= '\u{200a}') || c == '\u{2028}' || c
        == '\u{2029}' || c == '\u{202f}' || c == '\u{205f}' || c == '\u{3000}'
}

/// `s` without its leading white space.
pub open spec fn trim_start(s: Seq<char>) -> Seq<char>
    decreases s.len(),
{
    if s.len() > 0 && is_white_space(s[0]) {
        trim_start(s.drop_first())
    } else {
        s
    }
}

/// `s` without its trailing white space.
pub open spec fn trim_end(s: Seq<char>) -> Seq<char>
    decreases s.len(),
{
    if s.len() > 0 && is_white_space(s.last()) {
        trim_end(s.drop_last())
    } else {
        s
    }
}

/// `s` without white space at either end, as `str::trim` gives it.
pub open spec fn trim(s: Seq<char>) -> Seq<char> {
    trim_end(trim_start(s))
}

proof fn lemma_trim_start_step(s: Seq<char>, i: int)
    requires
        0 <= i < s.len(),
        is_white_space(s[i]),
    ensures
        trim_start(s.subrange(i, s.len() as int)) == trim_start(s.subrange(i + 1, s.len() as int)),
{
    assert(s.subrange(i, s.len() as int).drop_first() =~= s.subrange(i + 1, s.len() as int));
}

pub fn trim_chars(s: &Vec<char>) -> (r: Vec<char>)
    ensures
        r@ == trim(s@),
{
    let mut lo: usize = 0;
    proof {
        assert(s@.subrange(0, s.len() as int) =~= s@);
    }
    while lo < s.len() && white_space(s[lo])
        invariant
            lo <= s.len(),
            trim_start(s@) == trim_start(s@.subrange(lo as int, s.len() as int)),
        decreases s.len() - lo,
    {
        proof {
            lemma_trim_start_step(s@, lo as int);
        }
        lo = lo + 1;
    }
    let ghost start = s@.subrange(lo as int, s.len() as int);
    assert(trim_start(s@) == start);
    let mut hi: usize = s.len();
    proof {
        assert(start.subrange(0, start.len() as int) =~= start);
    }
    while hi > lo && white_space(s[hi - 1])
        invariant
            lo <= hi <= s.len(),
            start == s@.subrange(lo as int, s.len() as int),
            trim_end(start) == trim_end(s@.subrange(lo as int, hi as int)),
        decreases hi,
    {
        assert(s@.subrange(lo as int, hi as int).drop_last() =~= s@.subrange(
            lo as int,
            hi - 1,
        ));
        hi = hi - 1;
    }
    let mut r: Vec<char> = Vec::new();
    let mut k: usize = lo;
    while k < hi
        invariant
            lo <= k <= hi <= s.len(),
            r@ == s@.subrange(lo as int, k as int),
        decreases hi - k,
    {
        r.push(s[k]);
        k = k + 1;
        assert(r@ =~= s@.subrange(lo as int, k as int));
    }
    r
}

/// `s` with every occurrence of `c` taken out.
pub open spec fn without(s: Seq<char>, c: char) -> Seq<char>
    decreases s.len(),
{
    if s.len() == 0 {
        s
    } else if s.last() == c {
        without(s.drop_last(), c)
    } else {
        without(s.drop_last(), c).push(s.last())
    }
}

pub fn without_chars(s: &Vec<char>, c: char) -> (r: Vec<char>)
    ensures
        r@ == without(s@, c),
{
    let mut r: Vec<char> = Vec::new();
    let mut i: usize = 0;
    while i < s.len()
        invariant
            i <= s.len(),
            r@ == without(s@.subrange(0, i as int), c),
        decreases s.len() - i,
    {
        assert(s@.subrange(0, i + 1).drop_last() =~= s@.subrange(0, i as int));
        if s[i] != c {
            r.push(s[i]);
        }
        i = i + 1;
    }
    assert(s@.subrange(0, s.len() as int) =~= s@);
    r
}

/// `s` with every leading `c` taken off, as `str::trim_start_matches` does for a
/// character.
pub open spec fn strip_leading(s: Seq<char>, c: char) -> Seq<char>
    decreases s.len(),
{
    if s.len() > 0 && s[0] == c {
        strip_leading(s.drop_first(), c)
    } else {
        s
    }
}

pub fn strip_leading_chars(s: &Vec<char>, c: char) -> (r: Vec<char>)
    ensures
        r@ == strip_leading(s@, c),
{
    let mut lo: usize = 0;
    proof {
        assert(s@.subrange(0, s.len() as int) =~= s@);
    }
    while lo < s.len() && s[lo] == c
        invariant
            lo <= s.len(),
            strip_leading(s@, c) == strip_leading(s@.subrange(lo as int, s.len() as int), c),
        decreases s.len() - lo,
    {
        assert(s@.subrange(lo as int, s.len() as int).drop_first() =~= s@.subrange(
            lo + 1,
            s.len() as int,
        ));
        lo = lo + 1;
    }
    let mut r: Vec<char> = Vec::new();
    let mut k: usize = lo;
    while k < s.len()
        invariant
            lo <= k <= s.len(),
            r@ == s@.subrange(lo as int, k as int),
        decreases s.len() - k,
    {
        r.push(s[k]);
        k = k + 1;
        assert(r@ =~= s@.subrange(lo as int, k as int));
    }
    r
}

/// The pieces joined with a line break between each two.
pub open spec fn join_lines(parts: Seq<Seq<char>>) -> Seq<char>
    decreases parts.len(),
{
    if parts.len() == 0 {
        Seq::empty()
    } else if parts.len() == 1 {
        parts[0]
    } else {
        join_lines(parts.drop_last()).push('\n') + parts.last()
    }
}

pub fn append_chars(r: &mut Vec<char>, s: &Vec<char>)
    ensures
        final(r)@ == old(r)@ + s@,
{
    let ghost start = r@;
    let mut k: usize = 0;
    while k < s.len()
        invariant
            k <= s.len(),
            r@ == start + s@.subrange(0, k as int),
        decreases s.len() - k,
    {
        r.push(s[k]);
        k = k + 1;
        assert(r@ =~= start + s@.subrange(0, k as int));
    }
    assert(s@.subrange(0, s.len() as int) =~= s@);
}

pub fn join_lines_chars(parts: &Vec<Vec<char>>) -> (r: Vec<char>)
    ensures
        r@ == join_lines(pieces_view(parts@)),
{
    let mut r: Vec<char> = Vec::new();
    let mut i: usize = 0;
    while i < parts.len()
        invariant
            i <= parts.len(),
            r@ == join_lines(pieces_view(parts@.subrange(0, i as int))),
        decreases parts.len() - i,
    {
        let ghost before = pieces_view(parts@.subrange(0, i as int));
        if i > 0 {
            r.push('\n');
        }
        append_chars(&mut r, &parts[i]);
        i = i + 1;
        proof {
            let now = pieces_view(parts@.subrange(0, i as int));
            assert(now.drop_last() =~= before);
            assert(now.last() == parts@[i - 1]@);
            if i == 1 {
                assert(r@ =~= now[0]);
            }
        }
    }
    assert(parts@.subrange(0, parts.len() as int) =~= parts@);
    r
}

/// `x` without one trailing carriage return.
pub open spec fn strip_cr(x: Seq<char>) -> Seq<char> {
    if x.len() > 0 && x.last() == '\r' {
        x.drop_last()
    } else {
        x
    }
}

/// The lines of `s`, as `str::lines` gives them: split at each line feed, a
/// carriage return before a line feed dropped, and no empty last line after a
/// final line feed.
pub open spec fn lines_of(s: Seq<char>) -> Seq<Seq<char>> {
    let p = split_on(s, seq!['\n']);
    let n = if p.last().len() == 0 {
        p.len() - 1
    } else {
        p.len() as int
    };
    Seq::new(n as nat, |k: int| if k < p.len() - 1 { strip_cr(p[k]) } else { p[k] })
}

pub fn lines_chars(s: &Vec<char>) -> (r: Vec<Vec<char>>)
    ensures
        pieces_view(r@) == lines_of(s@),
{
    let sep: Vec<char> = vec!['\n'];
    assert(sep@ =~= seq!['\n']);
    let p = split_chars(s, &sep);
    proof {
        lemma_split_on_nonempty(s@, sep@);
    }
    let n: usize = if p[p.len() - 1].len() == 0 {
        p.len() - 1
    } else {
        p.len()
    };
    let mut r: Vec<Vec<char>> = Vec::new();
    let mut k: usize = 0;
    while k < n
        invariant
            k <= n <= p.len(),
            pieces_view(p@) == split_on(s@, seq!['\n']),
            pieces_view(r@) == lines_of(s@).subrange(0, k as int),
            lines_of(s@).len() == n,
        decreases n - k,
    {
        let line = &p[k];
        let mut cut: usize = line.len();
        if k < p.len() - 1 && cut > 0 && line[cut - 1] == '\r' {
            cut = cut - 1;
        }
        let mut piece: Vec<char> = Vec::new();
        let mut j: usize = 0;
        while j < cut
            invariant
                j <= cut <= line.len(),
                piece@ == line@.subrange(0, j as int),
            decreases cut - j,
        {
            piece.push(line[j]);
            j = j + 1;
            assert(piece@ =~= line@.subrange(0, j as int));
        }
        proof {
            assert(line@ == split_on(s@, seq!['\n'])[k as int]);
            assert(line@.subrange(0, line.len() as int) =~= line@);
            if line.len() > 0 {
                assert(line@.drop_last() =~= line@.subrange(0, line.len() - 1));
            }
            assert(piece@ == lines_of(s@)[k as int]);
        }
        let ghost before = pieces_view(r@);
        let ghost pv = piece@;
        r.push(piece);
        k = k + 1;
        assert(pieces_view(r@) =~= before.push(pv));
        assert(lines_of(s@).subrange(0, k as int) =~= lines_of(s@).subrange(0, k - 1).push(pv));
    }
    assert(lines_of(s@).subrange(0, n as int) =~= lines_of(s@));
    r
}

} // verus!
