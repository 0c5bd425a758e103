//! Reading the values that a platform command prints line by line.

use crate::text::{
    parse_uint, parse_uint_chars, pieces, rows, same_chars, split_chars, trim, trim_chars, words,
    words_chars, Sep,
};
use vstd::prelude::*;

verus! {

/// The number that `line` gives for `key`, if it gives one: the line is
/// `key`, a colon and a number of at most `max`, with white space wherever
/// it likes around the two, and holds no other colon.
pub open spec fn colon_field(line: Seq<char>, key: Seq<char>, max: nat) -> Option<nat> {
    let p = pieces(line, Sep::Char(':'));
    if p.len() == 2 && trim(p[0]) == key {
        parse_uint(trim(p[1]), max)
    } else {
        None
    }
}

/// The number that the last line of `ls` that gives one gives for `key`.
pub open spec fn last_colon_field(ls: Seq<Seq<char>>, key: Seq<char>, max: nat) -> Option<nat>
    decreases ls.len(),
{
    if ls.len() == 0 {
        None
    } else {
        match colon_field(ls.last(), key, max) {
            Some(n) => Some(n),
            None => last_colon_field(ls.drop_last(), key, max),
        }
    }
}

/// The number that `line` gives for `key`.
pub fn read_colon_field(line: &Vec<char>, key: &Vec<char>, max: u128) -> (r: Option<u128>)
    ensures
        match r {
            Some(n) => colon_field(line@, key@, max as nat) == Some(n as nat) && n <= max,
            None => colon_field(line@, key@, max as nat) is None,
        },
{
    let parts = split_chars(line, Sep::Char(':'));
    if parts.len() != 2 {
        return None;
    }
    assert(rows(parts@)[0] == parts@[0]@);
    assert(rows(parts@)[1] == parts@[1]@);
    let name = trim_chars(&parts[0]);
    if !same_chars(&name, key) {
        return None;
    }
    let value = trim_chars(&parts[1]);
    parse_uint_chars(&value, max)
}

/// The number that the last line of `ls` that gives one gives for `key`.
pub fn read_last_colon_field(ls: &Vec<Vec<char>>, key: &Vec<char>, max: u128) -> (r: Option<u128>)
    ensures
        match r {
            Some(n) => last_colon_field(rows(ls@), key@, max as nat) == Some(n as nat) && n
                <= max,
            None => last_colon_field(rows(ls@), key@, max as nat) is None,
        },
{
    let ghost all = rows(ls@);
    let mut found: Option<u128> = None;
    let mut i: usize = 0;
    while i < ls.len()
        invariant
            i <= ls.len(),
            all == rows(ls@),
            match found {
                Some(n) => last_colon_field(all.take(i as int), key@, max as nat) == Some(
                    n as nat,
                ) && n <= max,
                None => last_colon_field(all.take(i as int), key@, max as nat) is None,
            },
        decreases ls.len() - i,
    {
        proof {
            let t = all.take(i + 1);
            assert(t.drop_last() =~= all.take(i as int));
            assert(t.last() == ls@[i as int]@);
        }
        match read_colon_field(&ls[i], key, max) {
            Some(n) => {
                found = Some(n);
            },
            None => {},
        }
        i += 1;
    }
    assert(all.take(ls.len() as int) =~= all);
    found
}


/// The lines after the first `k`; none where there are no more than `k`.
pub open spec fn after(ls: Seq<Seq<char>>, k: nat) -> Seq<Seq<char>> {
    if k <= ls.len() {
        ls.skip(k as int)
    } else {
        Seq::<Seq<char>>::empty()
    }
}

/// The number that the word `i` of `ws` writes, and 0 where there is no
/// such word or it writes no number of at most `max`.
pub open spec fn number_at(ws: Seq<Seq<char>>, i: int, max: nat) -> nat {
    if 0 <= i < ws.len() {
        match parse_uint(ws[i], max) {
            Some(n) => n,
            None => 0,
        }
    } else {
        0
    }
}

/// The number that the word `i` of `ws` writes.
pub fn read_number_at(ws: &Vec<Vec<char>>, i: usize, max: u128) -> (n: u128)
    ensures
        n == number_at(rows(ws@), i as int, max as nat),
        n <= max,
{
    if i < ws.len() {
        assert(rows(ws@)[i as int] == ws@[i as int]@);
        match parse_uint_chars(&ws[i], max) {
            Some(n) => n,
            None => 0,
        }
    } else {
        0
    }
}

/// The words of the last line of `ls` that has two words or more and
/// `key` for its first.
pub open spec fn last_row(ls: Seq<Seq<char>>, key: Seq<char>) -> Option<Seq<Seq<char>>>
    decreases ls.len(),
{
    if ls.len() == 0 {
        None
    } else {
        let ws = words(ls.last());
        if ws.len() >= 2 && ws[0] == key {
            Some(ws)
        } else {
            last_row(ls.drop_last(), key)
        }
    }
}

/// The words of the last line of `ls` that has two words or more and
/// `key` for its first.
pub fn read_last_row(ls: &Vec<Vec<char>>, key: &Vec<char>) -> (r: Option<Vec<Vec<char>>>)
    ensures
        match r {
            Some(ws) => last_row(rows(ls@), key@) == Some(rows(ws@)),
            None => last_row(rows(ls@), key@) is None,
        },
{
    let ghost all = rows(ls@);
    let mut found: Option<Vec<Vec<char>>> = None;
    let mut i: usize = 0;
    while i < ls.len()
        invariant
            i <= ls.len(),
            all == rows(ls@),
            match found {
                Some(ws) => last_row(all.take(i as int), key@) == Some(rows(ws@)),
                None => last_row(all.take(i as int), key@) is None,
            },
        decreases ls.len() - i,
    {
        proof {
            let t = all.take(i + 1);
            assert(t.drop_last() =~= all.take(i as int));
            assert(t.last() == ls@[i as int]@);
        }
        let ws = words_chars(&ls[i]);
        if ws.len() >= 2 {
            assert(rows(ws@)[0] == ws@[0]@);
            if same_chars(&ws[0], key) {
                found = Some(ws);
            }
        }
        i += 1;
    }
    assert(all.take(ls.len() as int) =~= all);
    found
}


/// The number that the line `line` gives for `key`, if it gives one: the
/// line is two words, `key` and a number of at most `max`.
pub open spec fn word_field(line: Seq<char>, key: Seq<char>, max: nat) -> Option<nat> {
    let w = words(line);
    if w.len() == 2 && w[0] == key {
        parse_uint(w[1], max)
    } else {
        None
    }
}

/// The number that the last line of `ls` that gives one gives for `key`.
pub open spec fn last_word_field(ls: Seq<Seq<char>>, key: Seq<char>, max: nat) -> Option<nat>
    decreases ls.len(),
{
    if ls.len() == 0 {
        None
    } else {
        match word_field(ls.last(), key, max) {
            Some(n) => Some(n),
            None => last_word_field(ls.drop_last(), key, max),
        }
    }
}

/// The number that the last line of `ls` that gives one gives for `key`.
pub fn read_last_word_field(ls: &Vec<Vec<char>>, key: &Vec<char>, max: u128) -> (r: Option<u128>)
    ensures
        match r {
            Some(n) => last_word_field(rows(ls@), key@, max as nat) == Some(n as nat) && n <= max,
            None => last_word_field(rows(ls@), key@, max as nat) is None,
        },
{
    let ghost all = rows(ls@);
    let mut found: Option<u128> = None;
    let mut i: usize = 0;
    while i < ls.len()
        invariant
            i <= ls.len(),
            all == rows(ls@),
            match found {
                Some(n) => last_word_field(all.take(i as int), key@, max as nat) == Some(n as nat)
                    && n <= max,
                None => last_word_field(all.take(i as int), key@, max as nat) is None,
            },
        decreases ls.len() - i,
    {
        proof {
            let t = all.take(i + 1);
            assert(t.drop_last() =~= all.take(i as int));
            assert(t.last() == ls@[i as int]@);
        }
        let w = words_chars(&ls[i]);
        if w.len() == 2 {
            assert(rows(w@)[0] == w@[0]@);
            assert(rows(w@)[1] == w@[1]@);
            if same_chars(&w[0], key) {
                match parse_uint_chars(&w[1], max) {
                    Some(n) => {
                        found = Some(n);
                    },
                    None => {},
                }
            }
        }
        i += 1;
    }
    assert(all.take(ls.len() as int) =~= all);
    found
}

} // verus!
