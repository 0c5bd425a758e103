//! Text primitives over sequences of characters.
//!
//! Every executable function here works on a `Vec<char>` and is specified by a
//! spec function over `Seq<char>`, so that the parsers built on top can state
//! what they return in terms of the text they were given.

use vstd::prelude::*;
use vstd::relations::{sorted_by, total_ordering};
use vstd::seq_lib::{lemma_sorted_unique, to_multiset_build, to_multiset_insert};
use vstd::string::*;

verus! {

pub assume_specification[ String::push ](s: &mut String, c: char)
    ensures
        final(s)@ == old(s)@.push(c),
;

/// The characters of `s`, in order.
pub fn to_chars(s: &str) -> (out: Vec<char>)
    ensures
        out@ == s@,
{
    let mut out: Vec<char> = Vec::new();
    for c in it: s.chars()
        invariant
            out@ == it.seq().take(it.index() as int),
            it.seq() == s@,
    {
        out.push(c);
    }
    out
}

/// The string made of the characters of `v`, in order.
pub fn from_chars(v: &Vec<char>) -> (out: String)
    ensures
        out@ == v@,
{
    let mut out = String::new();
    let mut i: usize = 0;
    while i < v.len()
        invariant
            i <= v.len(),
            out@ == v@.take(i as int),
        decreases v.len() - i,
    {
        out.push(v[i]);
        i += 1;
    }
    out
}

/// Unicode `White_Space`.
pub open spec fn is_space(c: char) -> bool {
    let n = c as u32;
    ||| 0x09 <= n <= 0x0D
    ||| n == 0x20
    ||| n == 0x85
    ||| n == 0xA0
    ||| n == 0x1680
    ||| 0x2000 <= n <= 0x200A
    ||| n == 0x2028
    ||| n == 0x2029
    ||| n == 0x202F
    ||| n == 0x205F
    ||| n == 0x3000
}

pub fn is_space_char(c: char) -> (b: bool)
    ensures
        b == is_space(c),
{
    let n: u32 = c as u32;
    (0x09 <= n && n <= 0x0D) || n == 0x20 || n == 0x85 || n == 0xA0 || n == 0x1680 || (0x2000 <= n
        && n <= 0x200A) || n == 0x2028 || n == 0x2029 || n == 0x202F || n == 0x205F || n == 0x3000
}

/// What separates the pieces of a split, or is trimmed off the ends.
#[derive(Clone, Copy, Debug, PartialEq, Eq, Structural)]
pub enum Sep {
    /// One given character.
    Char(char),
    /// Any white-space character.
    Space,
}

impl Sep {
    /// `c` is one of the characters meant.
    pub open spec fn matches(self, c: char) -> bool {
        match self {
            Sep::Char(d) => c == d,
            Sep::Space => is_space(c),
        }
    }

    pub fn matches_char(&self, c: char) -> (b: bool)
        ensures
            b == self.matches(c),
    {
        match self {
            Sep::Char(d) => c == *d,
            Sep::Space => is_space_char(c),
        }
    }
}

/// How many characters at the front of `s` match `sep`.
pub open spec fn leading(s: Seq<char>, sep: Sep) -> nat
    decreases s.len(),
{
    if s.len() > 0 && sep.matches(s[0]) {
        1 + leading(s.drop_first(), sep)
    } else {
        0
    }
}

/// How many characters at the back of `s` match `sep`.
pub open spec fn trailing(s: Seq<char>, sep: Sep) -> nat
    decreases s.len(),
{
    if s.len() > 0 && sep.matches(s.last()) {
        1 + trailing(s.drop_last(), sep)
    } else {
        0
    }
}

/// `s` without the characters at its front that match `sep`.
pub open spec fn trim_start_by(s: Seq<char>, sep: Sep) -> Seq<char> {
    s.skip(leading(s, sep) as int)
}

/// `s` without the characters at its back that match `sep`.
pub open spec fn trim_end_by(s: Seq<char>, sep: Sep) -> Seq<char> {
    s.take(s.len() - trailing(s, sep))
}

/// `s` without the characters at its front and at its back that match `sep`.
pub open spec fn trim_by(s: Seq<char>, sep: Sep) -> Seq<char> {
    trim_end_by(trim_start_by(s, sep), sep)
}

/// `s` without leading and trailing white space.
pub open spec fn trim(s: Seq<char>) -> Seq<char> {
    trim_by(s, Sep::Space)
}

/// The front run is a prefix of matching characters that stops at the first
/// character that does not match.
pub proof fn lemma_leading(s: Seq<char>, sep: Sep)
    ensures
        leading(s, sep) <= s.len(),
        forall|j: int| 0 <= j < leading(s, sep) ==> sep.matches(#[trigger] s[j]),
        leading(s, sep) < s.len() ==> !sep.matches(s[leading(s, sep) as int]),
    decreases s.len(),
{
    if s.len() > 0 && sep.matches(s[0]) {
        let t = s.drop_first();
        lemma_leading(t, sep);
        assert forall|j: int| 0 <= j < leading(s, sep) implies sep.matches(#[trigger] s[j]) by {
            if j > 0 {
                assert(s[j] == t[j - 1]);
            }
        }
        if leading(s, sep) < s.len() {
            assert(s[leading(s, sep) as int] == t[leading(t, sep) as int]);
        }
    }
}

/// The back run is a suffix of matching characters that stops at the last
/// character that does not match.
pub proof fn lemma_trailing(s: Seq<char>, sep: Sep)
    ensures
        trailing(s, sep) <= s.len(),
        forall|j: int| s.len() - trailing(s, sep) <= j < s.len() ==> sep.matches(#[trigger] s[j]),
        trailing(s, sep) < s.len() ==> !sep.matches(s[s.len() - trailing(s, sep) - 1]),
    decreases s.len(),
{
    if s.len() > 0 && sep.matches(s.last()) {
        let t = s.drop_last();
        lemma_trailing(t, sep);
        assert forall|j: int| s.len() - trailing(s, sep) <= j < s.len() implies sep.matches(
            #[trigger] s[j],
        ) by {
            if j < s.len() - 1 {
                assert(s[j] == t[j]);
            }
        }
        if trailing(s, sep) < s.len() {
            assert(s[s.len() - trailing(s, sep) - 1] == t[t.len() - trailing(t, sep) - 1]);
        }
    }
}

/// A trimmed text neither begins nor ends with a character that was trimmed.
pub proof fn lemma_trim_by_ends(s: Seq<char>, sep: Sep)
    ensures
        trim_by(s, sep).len() > 0 ==> !sep.matches(trim_by(s, sep)[0]) && !sep.matches(
            trim_by(s, sep).last(),
        ),
{
    lemma_leading(s, sep);
    let t = trim_start_by(s, sep);
    lemma_trailing(t, sep);
    if trim_by(s, sep).len() > 0 {
        assert(t.len() > 0);
        assert(t[0] == s[leading(s, sep) as int]);
        assert(trim_by(s, sep)[0] == t[0]);
        assert(trim_by(s, sep).last() == t[t.len() - trailing(t, sep) - 1]);
    }
}

/// The characters of `v` from `from` up to, not including, `to`.
pub fn slice_chars(v: &Vec<char>, from: usize, to: usize) -> (out: Vec<char>)
    requires
        from <= to <= v.len(),
    ensures
        out@ == v@.subrange(from as int, to as int),
{
    let mut out: Vec<char> = Vec::new();
    let mut i: usize = from;
    while i < to
        invariant
            from <= i <= to <= v.len(),
            out@ == v@.subrange(from as int, i as int),
        decreases to - i,
    {
        out.push(v[i]);
        i += 1;
    }
    out
}

pub fn count_leading(v: &Vec<char>, sep: Sep) -> (n: usize)
    ensures
        n == leading(v@, sep),
        n <= v.len(),
{
    let mut i: usize = 0;
    assert(v@.skip(0) =~= v@);
    while i < v.len() && sep.matches_char(v[i])
        invariant
            i <= v.len(),
            leading(v@, sep) == i + leading(v@.skip(i as int), sep),
        decreases v.len() - i,
    {
        proof {
            let t = v@.skip(i as int);
            assert(t[0] == v@[i as int]);
            assert(t.drop_first() =~= v@.skip(i + 1));
        }
        i += 1;
    }
    proof {
        let t = v@.skip(i as int);
        if i < v.len() {
            assert(t[0] == v@[i as int]);
        }
    }
    i
}

pub fn count_trailing(v: &Vec<char>, sep: Sep) -> (n: usize)
    ensures
        n == trailing(v@, sep),
        n <= v.len(),
{
    let mut k: usize = v.len();
    assert(v@.take(k as int) =~= v@);
    while k > 0 && sep.matches_char(v[k - 1])
        invariant
            k <= v.len(),
            trailing(v@, sep) == (v.len() - k) + trailing(v@.take(k as int), sep),
        decreases k,
    {
        proof {
            let t = v@.take(k as int);
            assert(t.last() == v@[k - 1]);
            assert(t.drop_last() =~= v@.take(k - 1));
        }
        k -= 1;
    }
    proof {
        let t = v@.take(k as int);
        if k > 0 {
            assert(t.last() == v@[k - 1]);
        }
    }
    v.len() - k
}

/// `v` without the characters at its front and at its back that match `sep`.
pub fn trim_chars_by(v: &Vec<char>, sep: Sep) -> (out: Vec<char>)
    ensures
        out@ == trim_by(v@, sep),
        out.len() > 0 ==> !sep.matches(out@[0]) && !sep.matches(out@.last()),
{
    proof {
        lemma_trim_by_ends(v@, sep);
    }
    let a = count_leading(v, sep);
    let front = slice_chars(v, a, v.len());
    let b = count_trailing(&front, sep);
    slice_chars(&front, 0, front.len() - b)
}

/// `v` without leading and trailing white space.
pub fn trim_chars(v: &Vec<char>) -> (out: Vec<char>)
    ensures
        out@ == trim(v@),
{
    trim_chars_by(v, Sep::Space)
}

/// `p` occurs in `s` at index `i`.
pub open spec fn matches_at(s: Seq<char>, p: Seq<char>, i: int) -> bool {
    0 <= i && i + p.len() <= s.len() && s.subrange(i, i + p.len()) == p
}

/// `s` begins with `p`.
pub open spec fn starts_with(s: Seq<char>, p: Seq<char>) -> bool {
    matches_at(s, p, 0)
}

/// `s` ends with `p`.
pub open spec fn ends_with(s: Seq<char>, p: Seq<char>) -> bool {
    matches_at(s, p, s.len() - p.len())
}

/// `p` occurs somewhere in `s`.
pub open spec fn contains(s: Seq<char>, p: Seq<char>) -> bool {
    exists|i: int| matches_at(s, p, i)
}

/// The first index at or after `from` where `p` occurs in `s`.
pub open spec fn find_from(s: Seq<char>, p: Seq<char>, from: int) -> Option<int>
    decreases s.len() - from,
{
    if from < 0 || from + p.len() > s.len() {
        None
    } else if matches_at(s, p, from) {
        Some(from)
    } else if from + p.len() == s.len() {
        None
    } else {
        find_from(s, p, from + 1)
    }
}

/// The first index where `p` occurs in `s`.
pub open spec fn find(s: Seq<char>, p: Seq<char>) -> Option<int> {
    find_from(s, p, 0)
}

/// `find_from` returns the least match at or after `from`, and `None` only
/// where there is none.
pub proof fn lemma_find_from(s: Seq<char>, p: Seq<char>, from: int)
    requires
        0 <= from,
    ensures
        match find_from(s, p, from) {
            Some(i) => from <= i && matches_at(s, p, i) && forall|j: int|
                from <= j < i ==> !matches_at(s, p, j),
            None => forall|j: int| from <= j ==> !matches_at(s, p, j),
        },
    decreases s.len() - from,
{
    if from + p.len() > s.len() {
    } else if matches_at(s, p, from) {
    } else if from + p.len() == s.len() {
    } else {
        lemma_find_from(s, p, from + 1);
    }
}

/// `find` succeeds exactly where `contains` holds.
pub proof fn lemma_find_contains(s: Seq<char>, p: Seq<char>)
    ensures
        find(s, p) is Some <==> contains(s, p),
{
    lemma_find_from(s, p, 0);
}

pub fn matches_at_chars(v: &Vec<char>, p: &Vec<char>, i: usize) -> (b: bool)
    ensures
        b == matches_at(v@, p@, i as int),
{
    if p.len() > v.len() || i > v.len() - p.len() {
        return false;
    }
    let mut k: usize = 0;
    while k < p.len()
        invariant
            k <= p.len(),
            i + p.len() <= v.len(),
            forall|j: int| 0 <= j < k ==> v@[i + j] == p@[j],
        decreases p.len() - k,
    {
        if v[i + k] != p[k] {
            proof {
                let w = v@.subrange(i as int, i + p.len());
                assert(w[k as int] == v@[i + k]);
            }
            return false;
        }
        k += 1;
    }
    proof {
        assert(v@.subrange(i as int, i + p.len()) =~= p@);
    }
    true
}

pub fn starts_with_chars(v: &Vec<char>, p: &Vec<char>) -> (b: bool)
    ensures
        b == starts_with(v@, p@),
{
    matches_at_chars(v, p, 0)
}

pub fn ends_with_chars(v: &Vec<char>, p: &Vec<char>) -> (b: bool)
    ensures
        b == ends_with(v@, p@),
{
    if p.len() > v.len() {
        false
    } else {
        matches_at_chars(v, p, v.len() - p.len())
    }
}

/// The first index where `p` occurs in `v`.
pub fn find_chars(v: &Vec<char>, p: &Vec<char>) -> (r: Option<usize>)
    ensures
        match r {
            Some(i) => find(v@, p@) == Some(i as int),
            None => find(v@, p@) is None,
        },
{
    if p.len() > v.len() {
        return None;
    }
    let last: usize = v.len() - p.len();
    let mut i: usize = 0;
    while i < last
        invariant
            i <= last,
            last == v.len() - p.len(),
            find(v@, p@) == find_from(v@, p@, i as int),
        decreases last - i,
    {
        if matches_at_chars(v, p, i) {
            return Some(i);
        }
        i += 1;
    }
    if matches_at_chars(v, p, last) {
        Some(last)
    } else {
        None
    }
}

/// `p` occurs somewhere in `v`.
pub fn contains_chars(v: &Vec<char>, p: &Vec<char>) -> (b: bool)
    ensures
        b == contains(v@, p@),
{
    proof {
        lemma_find_contains(v@, p@);
    }
    find_chars(v, p).is_some()
}


/// The views of a vector of character rows.
pub open spec fn rows(v: Seq<Vec<char>>) -> Seq<Seq<char>> {
    v.map_values(|r: Vec<char>| r@)
}

/// `s` cut at every separator: one piece more than there are separators,
/// empty pieces included, separators left out.
pub open spec fn pieces(s: Seq<char>, sep: Sep) -> Seq<Seq<char>>
    decreases s.len(),
{
    if s.len() == 0 {
        seq![Seq::<char>::empty()]
    } else {
        let prev = pieces(s.drop_last(), sep);
        if sep.matches(s.last()) {
            prev.push(Seq::<char>::empty())
        } else {
            prev.update(prev.len() - 1, prev.last().push(s.last()))
        }
    }
}

pub proof fn lemma_pieces_nonempty(s: Seq<char>, sep: Sep)
    ensures
        pieces(s, sep).len() >= 1,
    decreases s.len(),
{
    if s.len() > 0 {
        lemma_pieces_nonempty(s.drop_last(), sep);
    }
}

/// No piece holds a separator.
pub proof fn lemma_pieces_clean(s: Seq<char>, sep: Sep)
    ensures
        forall|i: int, j: int|
            0 <= i < pieces(s, sep).len() && 0 <= j < pieces(s, sep)[i].len() ==> !sep.matches(
                #[trigger] pieces(s, sep)[i][j],
            ),
    decreases s.len(),
{
    if s.len() > 0 {
        lemma_pieces_clean(s.drop_last(), sep);
        lemma_pieces_nonempty(s.drop_last(), sep);
    }
}

/// `v` cut at every separator.
pub fn split_chars(v: &Vec<char>, sep: Sep) -> (out: Vec<Vec<char>>)
    ensures
        rows(out@) == pieces(v@, sep),
        out.len() >= 1,
        forall|i: int, j: int|
            0 <= i < out.len() && 0 <= j < out@[i].len() ==> !sep.matches(#[trigger] out@[i]@[j]),
{
    let mut done: Vec<Vec<char>> = Vec::new();
    let mut cur: Vec<char> = Vec::new();
    let mut i: usize = 0;
    assert(rows(done@).push(cur@) =~= pieces(v@.take(0), sep));
    while i < v.len()
        invariant
            i <= v.len(),
            rows(done@).push(cur@) == pieces(v@.take(i as int), sep),
        decreases v.len() - i,
    {
        let c = v[i];
        proof {
            let t = v@.take(i + 1);
            assert(t.drop_last() =~= v@.take(i as int));
            assert(t.last() == c);
        }
        if sep.matches_char(c) {
            let ghost before = rows(done@).push(cur@);
            done.push(cur);
            cur = Vec::new();
            assert(rows(done@) =~= before);
        } else {
            let ghost before = rows(done@).push(cur@);
            cur.push(c);
            assert(rows(done@).push(cur@) =~= before.update(
                before.len() - 1,
                before.last().push(c),
            ));
        }
        i += 1;
    }
    let ghost before = rows(done@).push(cur@);
    done.push(cur);
    assert(rows(done@) =~= before);
    assert(v@.take(v.len() as int) =~= v@);
    proof {
        lemma_pieces_clean(v@, sep);
        assert forall|i: int, j: int|
            0 <= i < done.len() && 0 <= j < done@[i].len() implies !sep.matches(
            #[trigger] done@[i]@[j],
        ) by {
            assert(rows(done@)[i] == done@[i]@);
            assert(!sep.matches(pieces(v@, sep)[i][j]));
        }
    }
    done
}

/// `l` without one trailing carriage return.
pub open spec fn strip_cr(l: Seq<char>) -> Seq<char> {
    if l.len() > 0 && l.last() == '\r' {
        l.drop_last()
    } else {
        l
    }
}

/// The lines of `s`. A line ends at a line feed, or at a carriage return and
/// a line feed; the last line need not end at all, and what follows the last
/// line feed is a line only when it is not empty.
pub open spec fn lines(s: Seq<char>) -> Seq<Seq<char>> {
    let p = pieces(s, Sep::Char('\n'));
    let ended = p.drop_last().map_values(|l: Seq<char>| strip_cr(l));
    if p.last().len() == 0 {
        ended
    } else {
        ended.push(p.last())
    }
}

/// The lines of `v`.
pub fn lines_chars(v: &Vec<char>) -> (out: Vec<Vec<char>>)
    ensures
        rows(out@) == lines(v@),
{
    let mut p = split_chars(v, Sep::Char('\n'));
    let ghost full = rows(p@);
    let n = p.len();
    let mut out: Vec<Vec<char>> = Vec::new();
    let mut i: usize = 0;
    while i + 1 < n
        invariant
            n == p.len(),
            n >= 1,
            i + 1 <= n,
            full == rows(p@),
            rows(out@) == full.take(i as int).map_values(|l: Seq<char>| strip_cr(l)),
        decreases n - i,
    {
        let l = &p[i];
        let k = l.len();
        let line = if k > 0 && l[k - 1] == '\r' {
            slice_chars(l, 0, k - 1)
        } else {
            slice_chars(l, 0, k)
        };
        proof {
            assert(l@.subrange(0, k as int) =~= l@);
            if k > 0 {
                assert(l@.subrange(0, k - 1) =~= l@.drop_last());
            }
            assert(full[i as int] == l@);
            assert(line@ == strip_cr(full[i as int]));
        }
        let ghost before = rows(out@);
        out.push(line);
        proof {
            let want = full.take(i + 1).map_values(|l: Seq<char>| strip_cr(l));
            assert(full.len() == n);
            assert(before.len() == i);
            assert(rows(out@).len() == want.len());
            assert forall|j: int| 0 <= j < want.len() implies rows(out@)[j] == want[j] by {
                if j < i {
                    assert(rows(out@)[j] == before[j]);
                    assert(full.take(i as int)[j] == full[j]);
                }
            }
            assert(rows(out@) =~= want);
        }
        i += 1;
    }
    assert(full.take(n - 1) =~= full.drop_last());
    let last = &p[n - 1];
    if last.len() > 0 {
        let ghost before = rows(out@);
        let tail = slice_chars(last, 0, last.len());
        assert(tail@ =~= last@);
        out.push(tail);
        assert(rows(out@) =~= before.push(full.last()));
    }
    out
}

/// The maximal runs of characters of `s` that are not white space.
pub open spec fn words(s: Seq<char>) -> Seq<Seq<char>> {
    pieces(s, Sep::Space).filter(|w: Seq<char>| w.len() > 0)
}

/// The maximal runs of characters of `v` that are not white space.
pub fn words_chars(v: &Vec<char>) -> (out: Vec<Vec<char>>)
    ensures
        rows(out@) == words(v@),
{
    let p = split_chars(v, Sep::Space);
    let ghost full = rows(p@);
    let ghost keep = |w: Seq<char>| w.len() > 0;
    let mut out: Vec<Vec<char>> = Vec::new();
    let mut i: usize = 0;
    proof {
        reveal(Seq::filter);
        assert(rows(out@) =~= full.take(0).filter(keep));
    }
    while i < p.len()
        invariant
            i <= p.len(),
            full == rows(p@),
            keep == (|w: Seq<char>| w.len() > 0),
            rows(out@) == full.take(i as int).filter(keep),
        decreases p.len() - i,
    {
        proof {
            reveal(Seq::filter);
            let t = full.take(i + 1);
            assert(t.drop_last() =~= full.take(i as int));
            assert(t.last() == p@[i as int]@);
        }
        if p[i].len() > 0 {
            let ghost before = rows(out@);
            let w = slice_chars(&p[i], 0, p[i].len());
            assert(w@ =~= p@[i as int]@);
            out.push(w);
            assert(rows(out@) =~= before.push(w@));
        }
        i += 1;
    }
    assert(full.take(p.len() as int) =~= full);
    out
}

/// `c` is an ASCII decimal digit.
pub open spec fn is_digit(c: char) -> bool {
    '0' <= c <= '9'
}

/// The number that a string of decimal digits writes.
pub open spec fn digits_value(s: Seq<char>) -> nat
    decreases s.len(),
{
    if s.len() == 0 {
        0
    } else {
        digits_value(s.drop_last()) * 10 + ((s.last() as u32 - '0' as u32) as nat)
    }
}

/// The digits of a written number: the text without one leading plus sign.
pub open spec fn unsigned_digits(s: Seq<char>) -> Seq<char> {
    if s.len() > 0 && s[0] == '+' {
        s.drop_first()
    } else {
        s
    }
}

/// The number that `s` writes in decimal, where it writes one that is at
/// most `max`: an optional plus sign, then one digit or more, nothing else.
pub open spec fn parse_uint(s: Seq<char>, max: nat) -> Option<nat> {
    let d = unsigned_digits(s);
    if d.len() > 0 && (forall|i: int| 0 <= i < d.len() ==> is_digit(#[trigger] d[i]))
        && digits_value(d) <= max {
        Some(digits_value(d))
    } else {
        None
    }
}

pub proof fn lemma_digits_value_grows(s: Seq<char>, k: int)
    requires
        0 <= k <= s.len(),
        forall|i: int| 0 <= i < s.len() ==> is_digit(#[trigger] s[i]),
    ensures
        digits_value(s.take(k)) <= digits_value(s),
    decreases s.len() - k,
{
    if k < s.len() {
        let t = s.take(k + 1);
        assert(t.drop_last() =~= s.take(k));
        assert(is_digit(s[k]));
        lemma_digits_value_grows(s, k + 1);
    } else {
        assert(s.take(k) =~= s);
    }
}

/// The number that `v` writes in decimal, if it writes one that is at most
/// `max`.
pub fn parse_uint_chars(v: &Vec<char>, max: u128) -> (r: Option<u128>)
    ensures
        match r {
            Some(n) => parse_uint(v@, max as nat) == Some(n as nat) && n <= max,
            None => parse_uint(v@, max as nat) is None,
        },
{
    let start: usize = if v.len() > 0 && v[0] == '+' {
        1
    } else {
        0
    };
    let d = slice_chars(v, start, v.len());
    proof {
        assert(d@ =~= unsigned_digits(v@));
    }
    if d.len() == 0 {
        return None;
    }
    let mut acc: u128 = 0;
    let mut i: usize = 0;
    while i < d.len()
        invariant
            i <= d.len(),
            d@ == unsigned_digits(v@),
            d.len() > 0,
            forall|j: int| 0 <= j < i ==> is_digit(#[trigger] d@[j]),
            acc == digits_value(d@.take(i as int)),
            acc <= max,
        decreases d.len() - i,
    {
        let c = d[i];
        if !('0' <= c && c <= '9') {
            assert(!is_digit(d@[i as int]));
            return None;
        }
        let x: u128 = (c as u32 - '0' as u32) as u128;
        proof {
            let t = d@.take(i + 1);
            assert(t.drop_last() =~= d@.take(i as int));
            assert(t.last() == c);
        }
        if x > max || acc > (max - x) / 10 {
            proof {
                if forall|j: int| 0 <= j < d.len() ==> is_digit(#[trigger] d@[j]) {
                    lemma_digits_value_grows(d@, i + 1);
                }
            }
            return None;
        }
        acc = acc * 10 + x;
        i += 1;
    }
    assert(d@.take(d.len() as int) =~= d@);
    Some(acc)
}

/// The decimal digits of `n`, without leading zeros.
pub open spec fn decimal(n: nat) -> Seq<char>
    decreases n,
{
    if n < 10 {
        seq![digit_char(n)]
    } else {
        decimal(n / 10).push(digit_char(n % 10))
    }
}

/// The character of the digit `d`.
pub open spec fn digit_char(d: nat) -> char {
    if d == 0 {
        '0'
    } else if d == 1 {
        '1'
    } else if d == 2 {
        '2'
    } else if d == 3 {
        '3'
    } else if d == 4 {
        '4'
    } else if d == 5 {
        '5'
    } else if d == 6 {
        '6'
    } else if d == 7 {
        '7'
    } else if d == 8 {
        '8'
    } else {
        '9'
    }
}

fn digit_to_char(d: u8) -> (c: char)
    requires
        d < 10,
    ensures
        c == digit_char(d as nat),
{
    if d == 0 {
        '0'
    } else if d == 1 {
        '1'
    } else if d == 2 {
        '2'
    } else if d == 3 {
        '3'
    } else if d == 4 {
        '4'
    } else if d == 5 {
        '5'
    } else if d == 6 {
        '6'
    } else if d == 7 {
        '7'
    } else if d == 8 {
        '8'
    } else {
        '9'
    }
}

/// Appends the decimal digits of `n` to `out`.
pub fn push_decimal(n: u128, out: &mut Vec<char>)
    ensures
        final(out)@ == old(out)@ + decimal(n as nat),
    decreases n,
{
    if n < 10 {
        out.push(digit_to_char(n as u8));
        assert(out@ =~= old(out)@ + decimal(n as nat));
    } else {
        push_decimal(n / 10, out);
        out.push(digit_to_char((n % 10) as u8));
        assert(out@ =~= old(out)@ + decimal(n as nat));
    }
}

/// The decimal digits of `n`.
pub fn decimal_chars(n: u128) -> (out: Vec<char>)
    ensures
        out@ == decimal(n as nat),
{
    let mut out: Vec<char> = Vec::new();
    push_decimal(n, &mut out);
    assert(out@ =~= decimal(n as nat));
    out
}


/// `s` with every occurrence of `p` replaced by `w`, the occurrences taken
/// from the left and not overlapping. The empty text occurs before every
/// character and at the end.
pub open spec fn replace(s: Seq<char>, p: Seq<char>, w: Seq<char>) -> Seq<char>
    decreases s.len(),
{
    if p.len() == 0 {
        if s.len() == 0 {
            w
        } else {
            w + seq![s[0]] + replace(s.drop_first(), p, w)
        }
    } else if s.len() < p.len() {
        s
    } else if starts_with(s, p) {
        w + replace(s.skip(p.len() as int), p, w)
    } else {
        seq![s[0]] + replace(s.drop_first(), p, w)
    }
}

/// `v` with `w` before every character and at the end.
fn interleave_chars(v: &Vec<char>, w: &Vec<char>) -> (out: Vec<char>)
    ensures
        out@ == replace(v@, Seq::<char>::empty(), w@),
{
    let ghost none = Seq::<char>::empty();
    let mut out: Vec<char> = Vec::new();
    let mut i: usize = 0;
    assert(v@.skip(0) =~= v@);
    while i < v.len()
        invariant
            i <= v.len(),
            none == Seq::<char>::empty(),
            replace(v@, none, w@) == out@ + replace(v@.skip(i as int), none, w@),
        decreases v.len() - i,
    {
        let ghost rest = v@.skip(i as int);
        let ghost before = out@;
        push_chars(&mut out, w);
        out.push(v[i]);
        proof {
            assert(rest.drop_first() =~= v@.skip(i + 1));
            assert(out@ + replace(v@.skip(i + 1), none, w@) =~= before + (w@ + seq![rest[0]]
                + replace(rest.drop_first(), none, w@)));
        }
        i += 1;
    }
    let ghost before = out@;
    push_chars(&mut out, w);
    assert(out@ =~= before + replace(v@.skip(v.len() as int), none, w@));
    out
}

/// `v` with every occurrence of `p` replaced by `w`.
pub fn replace_chars(v: &Vec<char>, p: &Vec<char>, w: &Vec<char>) -> (out: Vec<char>)
    ensures
        out@ == replace(v@, p@, w@),
{
    if p.len() == 0 {
        assert(p@ =~= Seq::<char>::empty());
        return interleave_chars(v, w);
    }
    let mut out: Vec<char> = Vec::new();
    let mut i: usize = 0;
    assert(v@.skip(0) =~= v@);
    while i < v.len() && p.len() <= v.len() - i
        invariant
            i <= v.len(),
            p.len() > 0,
            replace(v@, p@, w@) == out@ + replace(v@.skip(i as int), p@, w@),
        decreases v.len() - i,
    {
        let ghost rest = v@.skip(i as int);
        let ghost before = out@;
        proof {
            assert(rest.subrange(0, p.len() as int) =~= v@.subrange(i as int, i + p.len()));
        }
        if matches_at_chars(v, p, i) {
            let mut k: usize = 0;
            while k < w.len()
                invariant
                    k <= w.len(),
                    out@ == before + w@.take(k as int),
                decreases w.len() - k,
            {
                out.push(w[k]);
                k += 1;
                assert(out@ =~= before + w@.take(k as int));
            }
            proof {
                assert(w@.take(w.len() as int) =~= w@);
                assert(rest.skip(p.len() as int) =~= v@.skip(i + p.len()));
                assert(out@ + replace(v@.skip(i + p.len()), p@, w@) =~= before + (w@ + replace(
                    rest.skip(p.len() as int),
                    p@,
                    w@,
                )));
            }
            i += p.len();
        } else {
            out.push(v[i]);
            proof {
                assert(rest.drop_first() =~= v@.skip(i + 1));
                assert(out@ + replace(v@.skip(i + 1), p@, w@) =~= before + (seq![rest[0]]
                    + replace(rest.drop_first(), p@, w@)));
            }
            i += 1;
        }
    }
    let ghost before = out@;
    let ghost rest = v@.skip(i as int);
    let mut j: usize = i;
    while j < v.len()
        invariant
            i <= j <= v.len(),
            out@ == before + v@.subrange(i as int, j as int),
        decreases v.len() - j,
    {
        out.push(v[j]);
        j += 1;
        assert(out@ =~= before + v@.subrange(i as int, j as int));
    }
    assert(v@.subrange(i as int, v.len() as int) =~= rest);
    out
}

/// `s` without the repetitions of `p` at its end; `s` itself where `p` is
/// empty.
pub open spec fn trim_end_matches(s: Seq<char>, p: Seq<char>) -> Seq<char>
    decreases s.len(),
{
    if p.len() > 0 && ends_with(s, p) {
        trim_end_matches(s.take(s.len() - p.len()), p)
    } else {
        s
    }
}

/// `v` without the repetitions of `p` at its end.
pub fn trim_end_matches_chars(v: &Vec<char>, p: &Vec<char>) -> (out: Vec<char>)
    ensures
        out@ == trim_end_matches(v@, p@),
{
    if p.len() == 0 {
        let whole = slice_chars(v, 0, v.len());
        assert(whole@ =~= v@);
        return whole;
    }
    let mut k: usize = v.len();
    assert(v@.take(k as int) =~= v@);
    loop
        invariant
            k <= v.len(),
            p.len() > 0,
            trim_end_matches(v@, p@) == trim_end_matches(v@.take(k as int), p@),
        ensures
            k <= v.len(),
            trim_end_matches(v@, p@) == v@.take(k as int),
        decreases k,
    {
        let ghost t = v@.take(k as int);
        if k < p.len() {
            break ;
        }
        proof {
            assert(t.subrange(t.len() - p.len(), t.len() as int) =~= v@.subrange(
                k - p.len(),
                k as int,
            ));
        }
        if !matches_at_chars(v, p, k - p.len()) {
            break ;
        }
        proof {
            assert(t.take(t.len() - p.len()) =~= v@.take(k - p.len()));
        }
        k -= p.len();
    }
    let out = slice_chars(v, 0, k);
    assert(v@.subrange(0, k as int) =~= v@.take(k as int));
    out
}

/// The pieces `ps` written one after another with `sep` between them.
pub open spec fn join(ps: Seq<Seq<char>>, sep: Seq<char>) -> Seq<char>
    decreases ps.len(),
{
    if ps.len() == 0 {
        Seq::<char>::empty()
    } else if ps.len() == 1 {
        ps[0]
    } else {
        join(ps.drop_last(), sep) + sep + ps.last()
    }
}

/// Appends the characters of `w` to `out`.
pub fn push_chars(out: &mut Vec<char>, w: &Vec<char>)
    ensures
        final(out)@ == old(out)@ + w@,
{
    let mut k: usize = 0;
    assert(out@ =~= old(out)@ + w@.take(0));
    while k < w.len()
        invariant
            k <= w.len(),
            out@ == old(out)@ + w@.take(k as int),
        decreases w.len() - k,
    {
        out.push(w[k]);
        k += 1;
        assert(out@ =~= old(out)@ + w@.take(k as int));
    }
    assert(w@.take(w.len() as int) =~= w@);
}

/// The rows of `ps` from `from` on, written one after another with `sep`
/// between them.
pub fn join_chars(ps: &Vec<Vec<char>>, from: usize, sep: &Vec<char>) -> (out: Vec<char>)
    requires
        from <= ps.len(),
    ensures
        out@ == join(rows(ps@).skip(from as int), sep@),
{
    let ghost full = rows(ps@).skip(from as int);
    let mut out: Vec<char> = Vec::new();
    let mut i: usize = from;
    assert(full.take(0) =~= Seq::<Seq<char>>::empty());
    while i < ps.len()
        invariant
            from <= i <= ps.len(),
            full == rows(ps@).skip(from as int),
            out@ == join(full.take(i - from), sep@),
        decreases ps.len() - i,
    {
        proof {
            let t = full.take(i - from + 1);
            assert(t.drop_last() =~= full.take(i - from));
            assert(t.last() == ps@[i as int]@);
        }
        if i > from {
            push_chars(&mut out, sep);
        }
        push_chars(&mut out, &ps[i]);
        i += 1;
    }
    assert(full.take(ps.len() - from) =~= full);
    out
}

/// The last index of `s` that holds `c`.
pub open spec fn rfind_char(s: Seq<char>, c: char) -> Option<int>
    decreases s.len(),
{
    if s.len() == 0 {
        None
    } else if s.last() == c {
        Some(s.len() - 1)
    } else {
        rfind_char(s.drop_last(), c)
    }
}

/// The last index of `v` that holds `c`.
pub fn rfind_char_chars(v: &Vec<char>, c: char) -> (r: Option<usize>)
    ensures
        match r {
            Some(i) => rfind_char(v@, c) == Some(i as int) && i < v.len() && v@[i as int] == c,
            None => rfind_char(v@, c) is None,
        },
{
    let mut k: usize = v.len();
    assert(v@.take(k as int) =~= v@);
    while k > 0
        invariant
            k <= v.len(),
            rfind_char(v@, c) == rfind_char(v@.take(k as int), c),
        decreases k,
    {
        proof {
            let t = v@.take(k as int);
            assert(t.last() == v@[k - 1]);
            assert(t.drop_last() =~= v@.take(k - 1));
        }
        if v[k - 1] == c {
            return Some(k - 1);
        }
        k -= 1;
    }
    None
}

/// `a` and `b` hold the same characters.
pub fn same_chars(a: &Vec<char>, b: &Vec<char>) -> (r: bool)
    ensures
        r == (a@ == b@),
{
    if a.len() != b.len() {
        return false;
    }
    let mut i: usize = 0;
    while i < a.len()
        invariant
            i <= a.len(),
            a.len() == b.len(),
            a@.take(i as int) == b@.take(i as int),
        decreases a.len() - i,
    {
        if a[i] != b[i] {
            return false;
        }
        assert(a@.take(i + 1) =~= a@.take(i as int).push(a@[i as int]));
        assert(b@.take(i + 1) =~= b@.take(i as int).push(b@[i as int]));
        i += 1;
    }
    assert(a@.take(a.len() as int) =~= a@);
    assert(b@.take(b.len() as int) =~= b@);
    true
}


/// `s` without leading and trailing white space.
pub fn trim_str(s: &str) -> (out: String)
    ensures
        out@ == trim(s@),
{
    let v = to_chars(s);
    let t = trim_chars(&v);
    from_chars(&t)
}

/// `needle` occurs somewhere in `hay`.
pub fn contains_str(hay: &str, needle: &str) -> (b: bool)
    ensures
        b == contains(hay@, needle@),
{
    let h = to_chars(hay);
    let n = to_chars(needle);
    contains_chars(&h, &n)
}

/// `a` and `b` hold the same characters.
pub fn same_str(a: &str, b: &str) -> (r: bool)
    ensures
        r == (a@ == b@),
{
    let x = to_chars(a);
    let y = to_chars(b);
    same_chars(&x, &y)
}

/// The views of a vector of strings.
pub open spec fn strs(v: Seq<String>) -> Seq<Seq<char>> {
    v.map_values(|s: String| s@)
}

/// `v` holds `s`.
pub fn holds_str(v: &Vec<String>, s: &str) -> (b: bool)
    ensures
        b == strs(v@).contains(s@),
{
    let mut i: usize = 0;
    while i < v.len()
        invariant
            i <= v.len(),
            forall|j: int| 0 <= j < i ==> strs(v@)[j] != s@,
        decreases v.len() - i,
    {
        if same_str(v[i].as_str(), s) {
            assert(strs(v@)[i as int] == s@);
            return true;
        }
        i += 1;
    }
    false
}


/// `a` comes before `b`, or is `b`, in the order of a dictionary: the first
/// character in which they differ decides, and a text comes before the ones
/// it begins.
pub open spec fn lex_leq(a: Seq<char>, b: Seq<char>) -> bool
    decreases a.len(),
{
    if a.len() == 0 {
        true
    } else if b.len() == 0 {
        false
    } else if a[0] != b[0] {
        (a[0] as u32) < (b[0] as u32)
    } else {
        lex_leq(a.drop_first(), b.drop_first())
    }
}

/// The dictionary order as a relation.
pub open spec fn lex_order() -> spec_fn(Seq<char>, Seq<char>) -> bool {
    |a: Seq<char>, b: Seq<char>| lex_leq(a, b)
}

pub proof fn lemma_lex_reflexive(a: Seq<char>)
    ensures
        lex_leq(a, a),
    decreases a.len(),
{
    if a.len() > 0 {
        lemma_lex_reflexive(a.drop_first());
    }
}

pub proof fn lemma_lex_antisymmetric(a: Seq<char>, b: Seq<char>)
    requires
        lex_leq(a, b),
        lex_leq(b, a),
    ensures
        a == b,
    decreases a.len(),
{
    if a.len() == 0 {
        assert(a =~= b);
    } else {
        lemma_lex_antisymmetric(a.drop_first(), b.drop_first());
        assert(a =~= seq![a[0]] + a.drop_first());
        assert(b =~= seq![b[0]] + b.drop_first());
    }
}

pub proof fn lemma_lex_transitive(a: Seq<char>, b: Seq<char>, c: Seq<char>)
    requires
        lex_leq(a, b),
        lex_leq(b, c),
    ensures
        lex_leq(a, c),
    decreases a.len(),
{
    if a.len() > 0 && a[0] == b[0] && b[0] == c[0] {
        lemma_lex_transitive(a.drop_first(), b.drop_first(), c.drop_first());
    }
}

pub proof fn lemma_lex_connected(a: Seq<char>, b: Seq<char>)
    ensures
        lex_leq(a, b) || lex_leq(b, a),
    decreases a.len(),
{
    if a.len() > 0 && b.len() > 0 {
        if a[0] == b[0] {
            lemma_lex_connected(a.drop_first(), b.drop_first());
        } else {
            vstd::utf8::char_u32_cast(a[0], a[0] as u32);
            vstd::utf8::char_u32_cast(b[0], b[0] as u32);
        }
    }
}

/// The dictionary order is a total order.
pub proof fn lemma_lex_total()
    ensures
        total_ordering(lex_order()),
{
    let r = lex_order();
    assert forall|x: Seq<char>| #[trigger] r(x, x) by {
        lemma_lex_reflexive(x);
    }
    assert forall|x: Seq<char>, y: Seq<char>| #[trigger] r(x, y) && #[trigger] r(y, x) implies x
        == y by {
        lemma_lex_antisymmetric(x, y);
    }
    assert forall|x: Seq<char>, y: Seq<char>, z: Seq<char>| #[trigger]
        r(x, y) && #[trigger] r(y, z) implies r(x, z) by {
        lemma_lex_transitive(x, y, z);
    }
    assert forall|x: Seq<char>, y: Seq<char>| #[trigger] r(x, y) || #[trigger] r(y, x) by {
        lemma_lex_connected(x, y);
    }
}

/// `a` comes before `b`, or is `b`, in the order of a dictionary.
pub fn lex_leq_chars(a: &Vec<char>, b: &Vec<char>) -> (r: bool)
    ensures
        r == lex_leq(a@, b@),
{
    let mut i: usize = 0;
    assert(a@.skip(0) =~= a@);
    assert(b@.skip(0) =~= b@);
    while i < a.len() && i < b.len()
        invariant
            i <= a.len(),
            i <= b.len(),
            lex_leq(a@, b@) == lex_leq(a@.skip(i as int), b@.skip(i as int)),
        decreases a.len() - i,
    {
        proof {
            let x = a@.skip(i as int);
            let y = b@.skip(i as int);
            assert(x[0] == a@[i as int]);
            assert(y[0] == b@[i as int]);
            assert(x.drop_first() =~= a@.skip(i + 1));
            assert(y.drop_first() =~= b@.skip(i + 1));
        }
        if a[i] != b[i] {
            return (a[i] as u32) < (b[i] as u32);
        }
        i += 1;
    }
    i == a.len()
}

/// The rows `s` in the order of a dictionary.
pub open spec fn sorted_rows(s: Seq<Seq<char>>) -> Seq<Seq<char>> {
    s.sort_by(lex_order())
}

/// The rows of `v` in the order of a dictionary.
pub fn sort_rows(v: &Vec<Vec<char>>) -> (out: Vec<Vec<char>>)
    ensures
        rows(out@) == sorted_rows(rows(v@)),
{
    let ghost full = rows(v@);
    let mut out: Vec<Vec<char>> = Vec::new();
    let mut i: usize = 0;
    assert(rows(out@) =~= full.take(0));
    while i < v.len()
        invariant
            i <= v.len(),
            full == rows(v@),
            sorted_by(rows(out@), lex_order()),
            rows(out@).to_multiset() == full.take(i as int).to_multiset(),
            out.len() == i,
        decreases v.len() - i,
    {
        let x = slice_chars(&v[i], 0, v[i].len());
        assert(x@ =~= full[i as int]);
        let mut pos: usize = 0;
        while pos < out.len() && lex_leq_chars(&out[pos], &x)
            invariant
                pos <= out.len(),
                forall|j: int| 0 <= j < pos ==> lex_leq(#[trigger] rows(out@)[j], x@),
            decreases out.len() - pos,
        {
            assert(rows(out@)[pos as int] == out@[pos as int]@);
            pos += 1;
        }
        let ghost before = rows(out@);
        proof {
            if pos < out.len() {
                assert(before[pos as int] == out@[pos as int]@);
                lemma_lex_connected(before[pos as int], x@);
                assert forall|j: int| pos <= j < before.len() implies lex_leq(
                    x@,
                    #[trigger] before[j],
                ) by {
                    if j > pos {
                        assert(lex_order()(before[pos as int], before[j]));
                    } else {
                        lemma_lex_reflexive(before[j]);
                    }
                    lemma_lex_transitive(x@, before[pos as int], before[j]);
                }
            }
        }
        out.insert(pos, x);
        proof {
            let after = rows(out@);
            assert(after =~= before.insert(pos as int, x@));
            to_multiset_insert(before, pos as int, x@);
            let t = full.take(i + 1);
            assert(t =~= full.take(i as int).push(full[i as int]));
            to_multiset_build(full.take(i as int), full[i as int]);
            assert forall|a: int, b: int| 0 <= a < b < after.len() implies #[trigger] lex_order()(
                after[a],
                after[b],
            ) by {
                if a < pos && b < pos {
                    assert(lex_order()(before[a], before[b]));
                } else if a < pos && b == pos {
                } else if a < pos && b > pos {
                    assert(lex_order()(before[a], before[b - 1]));
                } else if a == pos {
                    assert(lex_leq(x@, before[b - 1]));
                } else {
                    assert(lex_order()(before[a - 1], before[b - 1]));
                }
            }
        }
        i += 1;
    }
    proof {
        assert(full.take(v.len() as int) =~= full);
        lemma_lex_total();
        full.lemma_sort_by_ensures(lex_order());
        lemma_sorted_unique(rows(out@), sorted_rows(full), lex_order());
    }
    out
}

/// However the rows are listed, their sorted order is the same.
pub proof fn lemma_sorted_rows_of_permutation(a: Seq<Seq<char>>, b: Seq<Seq<char>>)
    requires
        a.to_multiset() == b.to_multiset(),
    ensures
        sorted_rows(a) == sorted_rows(b),
{
    lemma_lex_total();
    a.lemma_sort_by_ensures(lex_order());
    b.lemma_sort_by_ensures(lex_order());
    lemma_sorted_unique(sorted_rows(a), sorted_rows(b), lex_order());
}


/// `n` spaces.
pub open spec fn spaces(n: nat) -> Seq<char> {
    Seq::new(n, |i: int| ' ')
}

/// `s` followed by as many spaces as it takes to reach `width` characters.
pub open spec fn pad_right(s: Seq<char>, width: nat) -> Seq<char> {
    if s.len() >= width {
        s
    } else {
        s + spaces((width - s.len()) as nat)
    }
}

/// `s` after as many spaces as it takes to reach `width` characters.
pub open spec fn pad_left(s: Seq<char>, width: nat) -> Seq<char> {
    if s.len() >= width {
        s
    } else {
        spaces((width - s.len()) as nat) + s
    }
}

fn spaces_chars(n: usize) -> (out: Vec<char>)
    ensures
        out@ == spaces(n as nat),
{
    let mut out: Vec<char> = Vec::new();
    let mut i: usize = 0;
    while i < n
        invariant
            i <= n,
            out@ == spaces(i as nat),
        decreases n - i,
    {
        out.push(' ');
        i += 1;
        assert(out@ =~= spaces(i as nat));
    }
    out
}

/// `s` padded with spaces on the right to `width` characters.
pub fn pad_right_str(s: &str, width: usize) -> (out: String)
    ensures
        out@ == pad_right(s@, width as nat),
{
    let mut v = to_chars(s);
    if v.len() < width {
        let fill = spaces_chars(width - v.len());
        push_chars(&mut v, &fill);
    }
    from_chars(&v)
}

/// `s` padded with spaces on the left to `width` characters.
pub fn pad_left_str(s: &str, width: usize) -> (out: String)
    ensures
        out@ == pad_left(s@, width as nat),
{
    let v = to_chars(s);
    if v.len() < width {
        let mut fill = spaces_chars(width - v.len());
        push_chars(&mut fill, &v);
        from_chars(&fill)
    } else {
        from_chars(&v)
    }
}

/// The decimal digits of `n`.
pub fn decimal_string(n: u128) -> (out: String)
    ensures
        out@ == decimal(n as nat),
{
    let v = decimal_chars(n);
    from_chars(&v)
}


/// The number that `s` writes in decimal, where it writes one from `-low`
/// to `high`: an optional sign, then one digit or more, nothing else.
pub open spec fn parse_int(s: Seq<char>, low: nat, high: nat) -> Option<int> {
    if s.len() > 0 && s[0] == '-' {
        let d = s.drop_first();
        if d.len() > 0 && d[0] != '+' {
            match parse_uint(d, low) {
                Some(n) => Some(-(n as int)),
                None => None,
            }
        } else {
            None
        }
    } else {
        match parse_uint(s, high) {
            Some(n) => Some(n as int),
            None => None,
        }
    }
}

/// The number that `v` writes in decimal, where it writes one that fits in
/// 32 bits with a sign.
pub fn parse_i32_chars(v: &Vec<char>) -> (r: Option<i32>)
    ensures
        match r {
            Some(n) => parse_int(v@, 0x8000_0000, 0x7fff_ffff) == Some(n as int),
            None => parse_int(v@, 0x8000_0000, 0x7fff_ffff) is None,
        },
{
    if v.len() > 0 && v[0] == '-' {
        let d = slice_chars(v, 1, v.len());
        assert(d@ =~= v@.drop_first());
        if d.len() > 0 && d[0] != '+' {
            match parse_uint_chars(&d, 0x8000_0000) {
                Some(n) => Some((0 - (n as i64)) as i32),
                None => None,
            }
        } else {
            None
        }
    } else {
        match parse_uint_chars(v, 0x7fff_ffff) {
            Some(n) => Some(n as i32),
            None => None,
        }
    }
}

/// The number `n` in decimal, with a minus sign where it is negative.
pub open spec fn signed_decimal(n: int) -> Seq<char> {
    if n < 0 {
        seq!['-'] + decimal((-n) as nat)
    } else {
        decimal(n as nat)
    }
}

/// The number `n` in decimal.
pub fn signed_decimal_string(n: i64) -> (out: String)
    ensures
        out@ == signed_decimal(n as int),
{
    if n < 0 {
        let mut v: Vec<char> = Vec::new();
        v.push('-');
        let m: u128 = (0 - (n as i128)) as u128;
        push_decimal(m, &mut v);
        assert(v@ =~= seq!['-'] + decimal((-n) as nat));
        from_chars(&v)
    } else {
        decimal_string(n as u128)
    }
}


/// `s` is empty or all white space.
pub fn is_blank_str(s: &str) -> (b: bool)
    ensures
        b == (trim(s@).len() == 0),
{
    let v = to_chars(s);
    let t = trim_chars(&v);
    t.len() == 0
}

} // verus!
