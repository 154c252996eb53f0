//! Character-level text operations: splitting, lines, trimming and searching.
use vstd::prelude::*;

verus! {

/// Whether a character is white space (the Unicode `White_Space` property, which
/// `char::is_whitespace`, `str::trim` and the `\s` class of regular expressions use).
pub open spec fn is_white_space(c: char) -> bool {
    ||| '\u{9}' <= c <= '\u{d}'
    ||| c == ' '
    ||| c == '\u{85}'
    ||| c == '\u{a0}'
    ||| c == '\u{1680}'
    ||| '\u{2000}' <= c <= '\u{200a}'
    ||| c == '\u{2028}'
    ||| c == '\u{2029}'
    ||| c == '\u{202f}'
    ||| c == '\u{205f}'
    ||| c == '\u{3000}'
}

/// The pieces of `s` between occurrences of `sep`, `cur` being the piece begun so far.
pub open spec fn split_acc(s: Seq<char>, sep: char, cur: Seq<char>) -> Seq<Seq<char>>
    decreases s.len(),
{
    if s.len() == 0 {
        seq![cur]
    } else if s[0] == sep {
        seq![cur] + split_acc(s.skip(1), sep, Seq::empty())
    } else {
        split_acc(s.skip(1), sep, cur.push(s[0]))
    }
}

/// The pieces of `s` between occurrences of `sep` (`str::split` with a character).
pub open spec fn split_on(s: Seq<char>, sep: char) -> Seq<Seq<char>> {
    split_acc(s, sep, Seq::empty())
}

/// The texts held by a sequence of character vectors.
pub open spec fn texts_of(v: Seq<Vec<char>>) -> Seq<Seq<char>> {
    v.map_values(|x: Vec<char>| x@)
}

/// A line without the `\r` of a `\r\n` ending.
pub open spec fn strip_cr(p: Seq<char>) -> Seq<char> {
    if p.len() > 0 && p.last() == '\r' {
        p.drop_last()
    } else {
        p
    }
}

/// The lines of a text (`str::lines`): pieces ended by `\n` or `\r\n`, and a last
/// piece without line ending when it is not empty.
pub open spec fn lines_of(s: Seq<char>) -> Seq<Seq<char>> {
    let parts = split_on(s, '\n');
    let ended = Seq::new((parts.len() - 1) as nat, |i: int| strip_cr(parts[i]));
    if parts.last().len() > 0 {
        ended.push(parts.last())
    } else {
        ended
    }
}

/// `p` occurs in `s` starting at index `i`.
pub open spec fn occurs_at(s: Seq<char>, p: Seq<char>, i: int) -> bool {
    0 <= i && i + p.len() <= s.len() && s.subrange(i, i + p.len()) == p
}

/// `p` occurs somewhere in `s`.
pub open spec fn contains_text(s: Seq<char>, p: Seq<char>) -> bool {
    exists|i: int| occurs_at(s, p, i)
}

/// `s` without leading characters that satisfy `drop`.
pub open spec fn trim_start_by(s: Seq<char>, drop: spec_fn(char) -> bool) -> Seq<char>
    decreases s.len(),
{
    if s.len() > 0 && drop(s[0]) {
        trim_start_by(s.skip(1), drop)
    } else {
        s
    }
}

/// `s` without trailing characters that satisfy `drop`.
pub open spec fn trim_end_by(s: Seq<char>, drop: spec_fn(char) -> bool) -> Seq<char>
    decreases s.len(),
{
    if s.len() > 0 && drop(s.last()) {
        trim_end_by(s.drop_last(), drop)
    } else {
        s
    }
}

/// `s` without leading and trailing white space (`str::trim`).
pub open spec fn trim_white_space(s: Seq<char>) -> Seq<char> {
    trim_end_by(trim_start_by(s, |c: char| is_white_space(c)), |c: char| is_white_space(c))
}

/// `s` without leading and trailing double quotes (`str::trim_matches('"')`).
pub open spec fn trim_quotes(s: Seq<char>) -> Seq<char> {
    trim_end_by(trim_start_by(s, |c: char| c == '"'), |c: char| c == '"')
}

/// The number of white-space characters at the start of `s`.
pub open spec fn white_space_run(s: Seq<char>) -> nat
    decreases s.len(),
{
    if s.len() > 0 && is_white_space(s[0]) {
        1 + white_space_run(s.skip(1))
    } else {
        0
    }
}

/// The first index at or after `from` where `s` holds `c`, if any.
pub open spec fn find_char_from(s: Seq<char>, c: char, from: int) -> Option<int>
    decreases s.len() - from,
{
    if from < 0 || from >= s.len() {
        None
    } else if s[from] == c {
        Some(from)
    } else {
        find_char_from(s, c, from + 1)
    }
}

pub fn is_white_space_exec(c: char) -> (r: bool)
    ensures
        r == is_white_space(c),
{
    ('\u{9}' <= c && c <= '\u{d}') || c == ' ' || c == '\u{85}' || c == '\u{a0}' || c
        == '\u{1680}' || ('\u{2000}' <= c && c <= '\u{200a}') || c == '\u{2028}' || c == '\u{2029}'
        || c == '\u{202f}' || c == '\u{205f}' || c == '\u{3000}'
}

/// The characters `s[from..to]`.
pub fn slice_chars(s: &Vec<char>, from: usize, to: usize) -> (r: Vec<char>)
    requires
        from <= to <= s@.len(),
    ensures
        r@ == s@.subrange(from as int, to as int),
{
    let mut r: Vec<char> = Vec::new();
    let mut i = from;
    while i < to
        invariant
            from <= i <= to,
            to <= s@.len(),
            r@ == s@.subrange(from as int, i as int),
        decreases to - i,
    {
        r.push(s[i]);
        i = i + 1;
        assert(r@ =~= s@.subrange(from as int, i as int));
    }
    r
}

/// Splits `s` at every `sep`.
pub fn split_chars(s: &Vec<char>, sep: char) -> (r: Vec<Vec<char>>)
    ensures
        texts_of(r@) == split_on(s@, sep),
{
    let mut out: Vec<Vec<char>> = Vec::new();
    let mut cur: Vec<char> = Vec::new();
    let mut i: usize = 0;
    assert(s@.skip(0) =~= s@);
    while i < s.len()
        invariant
            i <= s@.len(),
            texts_of(out@) + split_acc(s@.skip(i as int), sep, cur@) == split_on(s@, sep),
        decreases s@.len() - i,
    {
        let ghost rest = s@.skip(i as int);
        assert(rest.skip(1) =~= s@.skip(i + 1));
        if s[i] == sep {
            let ghost old_out = texts_of(out@);
            let piece = cur;
            cur = Vec::new();
            out.push(piece);
            assert(texts_of(out@) =~= old_out.push(piece@));
            assert(texts_of(out@) + split_acc(s@.skip(i + 1), sep, cur@) =~= old_out + split_acc(
                rest,
                sep,
                piece@,
            ));
        } else {
            cur.push(s[i]);
        }
        i = i + 1;
    }
    let ghost old_out = texts_of(out@);
    assert(s@.skip(i as int) =~= Seq::<char>::empty());
    out.push(cur);
    assert(texts_of(out@) =~= old_out.push(out@.last()@));
    assert(texts_of(out@) =~= split_on(s@, sep));
    out
}

/// The lines of `s`.
pub fn lines_chars(s: &Vec<char>) -> (r: Vec<Vec<char>>)
    ensures
        texts_of(r@) == lines_of(s@),
{
    let parts = split_chars(s, '\n');
    let ghost pv = texts_of(parts@);
    let n = parts.len();
    assert(n >= 1) by {
        lemma_split_acc_nonempty(s@, '\n', Seq::empty());
    }
    let mut out: Vec<Vec<char>> = Vec::new();
    let mut i: usize = 0;
    while i + 1 < n
        invariant
            n == pv.len(),
            n >= 1,
            pv == texts_of(parts@),
            i + 1 <= n,
            texts_of(out@) == Seq::new(i as nat, |j: int| strip_cr(pv[j])),
        decreases n - i,
    {
        let part = &parts[i];
        let len = part.len();
        let stripped = if len > 0 && part[len - 1] == '\r' {
            slice_chars(part, 0, len - 1)
        } else {
            slice_chars(part, 0, len)
        };
        assert(part@ == pv[i as int]);
        assert(stripped@ =~= strip_cr(pv[i as int]));
        let ghost old_out = texts_of(out@);
        let ghost sv = stripped@;
        out.push(stripped);
        assert(texts_of(out@) =~= old_out.push(sv));
        i = i + 1;
        assert(texts_of(out@) =~= Seq::new(i as nat, |j: int| strip_cr(pv[j])));
    }
    let last = &parts[n - 1];
    assert(last@ == pv.last());
    if last.len() > 0 {
        let ghost old_out = texts_of(out@);
        let copy = slice_chars(last, 0, last.len());
        assert(copy@ =~= pv.last());
        out.push(copy);
        assert(texts_of(out@) =~= old_out.push(pv.last()));
    }
    assert(texts_of(out@) =~= lines_of(s@));
    out
}

proof fn lemma_split_acc_nonempty(s: Seq<char>, sep: char, cur: Seq<char>)
    ensures
        split_acc(s, sep, cur).len() >= 1,
    decreases s.len(),
{
    if s.len() > 0 {
        if s[0] == sep {
            lemma_split_acc_nonempty(s.skip(1), sep, Seq::empty());
        } else {
            lemma_split_acc_nonempty(s.skip(1), sep, cur.push(s[0]));
        }
    }
}

/// A text that holds the separator splits into at least two pieces.
pub(crate) proof fn lemma_split_at_separator(s: Seq<char>, sep: char, cur: Seq<char>, k: int)
    requires
        0 <= k < s.len(),
        s[k] == sep,
    ensures
        split_acc(s, sep, cur).len() >= 2,
    decreases s.len(),
{
    if s[0] == sep {
        lemma_split_acc_nonempty(s.skip(1), sep, Seq::empty());
    } else {
        lemma_split_at_separator(s.skip(1), sep, cur.push(s[0]), k - 1);
    }
}

/// Whether `p` occurs in `s` at index `i`.
pub fn occurs_at_exec(s: &Vec<char>, p: &Vec<char>, i: usize) -> (r: bool)
    ensures
        r == occurs_at(s@, p@, i as int),
{
    if i > s.len() || p.len() > s.len() - i {
        return false;
    }
    let mut k: usize = 0;
    while k < p.len()
        invariant
            i + p@.len() <= s@.len(),
            s@.len() <= usize::MAX,
            k <= p@.len(),
            forall|j: int| 0 <= j < k ==> s@[i + j] == p@[j],
        decreases p@.len() - k,
    {
        if s[i + k] != p[k] {
            assert(s@.subrange(i as int, i + p@.len())[k as int] != p@[k as int]);
            return false;
        }
        k = k + 1;
    }
    assert(s@.subrange(i as int, i + p@.len()) =~= p@);
    true
}

/// Whether `p` occurs anywhere in `s`.
pub fn contains_exec(s: &Vec<char>, p: &Vec<char>) -> (r: bool)
    ensures
        r == contains_text(s@, p@),
{
    let len = s.len();
    let mut i: usize = 0;
    while i < len
        invariant
            len == s@.len(),
            i <= len,
            forall|j: int| 0 <= j < i ==> !occurs_at(s@, p@, j),
        decreases len - i,
    {
        if occurs_at_exec(s, p, i) {
            return true;
        }
        i = i + 1;
    }
    if occurs_at_exec(s, p, len) {
        return true;
    }
    assert forall|j: int| !occurs_at(s@, p@, j) by {
        if 0 <= j && j <= len {
        }
    }
    false
}

/// Whether `s` starts with `p`.
pub fn starts_with_exec(s: &Vec<char>, p: &Vec<char>) -> (r: bool)
    ensures
        r == occurs_at(s@, p@, 0),
{
    occurs_at_exec(s, p, 0)
}

/// The characters that trimming removes: white space, or else double quotes.
pub open spec fn trim_pred(white: bool) -> spec_fn(char) -> bool {
    if white {
        |c: char| is_white_space(c)
    } else {
        |c: char| c == '"'
    }
}

fn trimmed_char(c: char, white: bool) -> (r: bool)
    ensures
        r == trim_pred(white)(c),
{
    if white {
        is_white_space_exec(c)
    } else {
        c == '"'
    }
}

fn trim_start_len(s: &Vec<char>, white: bool) -> (a: usize)
    ensures
        a <= s@.len(),
        trim_start_by(s@, trim_pred(white)) == s@.skip(a as int),
{
    let ghost drop = trim_pred(white);
    let mut a: usize = 0;
    assert(s@.skip(0) =~= s@);
    while a < s.len() && trimmed_char(s[a], white)
        invariant
            a <= s@.len(),
            drop == trim_pred(white),
            trim_start_by(s@, drop) == trim_start_by(s@.skip(a as int), drop),
        decreases s@.len() - a,
    {
        assert(s@.skip(a as int).skip(1) =~= s@.skip(a + 1));
        a = a + 1;
    }
    a
}

fn trim_end_len(s: &Vec<char>, a: usize, white: bool) -> (b: usize)
    requires
        a <= s@.len(),
    ensures
        a <= b <= s@.len(),
        trim_end_by(s@.skip(a as int), trim_pred(white)) == s@.subrange(a as int, b as int),
{
    let ghost drop = trim_pred(white);
    let ghost started = s@.skip(a as int);
    let mut b: usize = s.len();
    assert(started.take((b - a) as int) =~= started);
    while b > a && trimmed_char(s[b - 1], white)
        invariant
            a <= b <= s@.len(),
            started == s@.skip(a as int),
            drop == trim_pred(white),
            trim_end_by(started, drop) == trim_end_by(started.take(b - a), drop),
        decreases b - a,
    {
        assert(started.take(b - a).drop_last() =~= started.take(b - 1 - a));
        assert(started.take(b - a).last() == s@[b - 1]);
        b = b - 1;
    }
    assert(started.take(b - a) =~= s@.subrange(a as int, b as int));
    b
}

/// `s` without leading and trailing white space (`white`), or else double quotes.
pub fn trim_chars(s: &Vec<char>, white: bool) -> (r: Vec<char>)
    ensures
        white ==> r@ == trim_white_space(s@),
        !white ==> r@ == trim_quotes(s@),
{
    let a = trim_start_len(s, white);
    let b = trim_end_len(s, a, white);
    let r = slice_chars(s, a, b);
    proof {
        if white {
            assert(trim_pred(white) == (|c: char| is_white_space(c)));
        } else {
            assert(trim_pred(white) == (|c: char| c == '"'));
        }
    }
    r
}

} // verus!
