//! Splitting text the way the standard string methods do: on a character,
//! on a separator, into lines and into words; and reading hexadecimal.

use vstd::prelude::*;
use crate::text::{hex_value, hex_value_exec, is_white_space, is_white_space_exec, occurs_at, find_from};

verus! {

/// The views of a list of character vectors.
pub open spec fn views(v: Seq<Vec<char>>) -> Seq<Seq<char>> {
    v.map_values(|x: Vec<char>| x@)
}

/// `str::split` on one character: the pieces between separators, empty
/// ones included; one more piece than separators.
pub open spec fn split_char(s: Seq<char>, c: char) -> Seq<Seq<char>>
    decreases s.len(),
{
    if s.len() == 0 {
        seq![Seq::<char>::empty()]
    } else {
        let parts = split_char(s.drop_last(), c);
        if s.last() == c {
            parts.push(Seq::empty())
        } else {
            parts.update(parts.len() - 1, parts.last().push(s.last()))
        }
    }
}

/// Splitting always gives at least one piece.
pub proof fn lemma_split_char_len(s: Seq<char>, c: char)
    ensures split_char(s, c).len() >= 1,
    decreases s.len(),
{
    if s.len() > 0 {
        lemma_split_char_len(s.drop_last(), c);
    }
}

pub fn split_char_exec(s: &Vec<char>, c: char) -> (r: Vec<Vec<char>>)
    ensures views(r@) == split_char(s@, c),
{
    let mut parts: Vec<Vec<char>> = Vec::new();
    let mut cur: Vec<char> = Vec::new();
    let mut i: usize = 0;
    assert(s@.take(0) =~= Seq::<char>::empty());
    assert(views(parts@).push(cur@) =~= split_char(s@.take(0), c));
    while i < s.len()
        invariant
            i <= s.len(),
            views(parts@).push(cur@) == split_char(s@.take(i as int), c),
        decreases s.len() - i,
    {
        let ghost prev = split_char(s@.take(i as int), c);
        assert(s@.take(i + 1).drop_last() =~= s@.take(i as int));
        assert(s@.take(i + 1).last() == s@[i as int]);
        if s[i] == c {
            let ghost before = views(parts@);
            parts.push(cur);
            cur = Vec::new();
            assert(views(parts@) =~= before.push(prev.last()));
            assert(views(parts@).push(cur@) =~= split_char(s@.take(i + 1), c));
        } else {
            let ghost before = views(parts@);
            cur.push(s[i]);
            assert(views(parts@).push(cur@) =~= split_char(s@.take(i + 1), c));
        }
        i += 1;
    }
    assert(s@.take(s.len() as int) =~= s@);
    let ghost before = views(parts@);
    parts.push(cur);
    assert(views(parts@) =~= before.push(cur@));
    parts
}

/// A line without the carriage return that ended it.
pub open spec fn strip_cr(p: Seq<char>) -> Seq<char> {
    if p.len() > 0 && p.last() == '\r' { p.drop_last() } else { p }
}

/// `str::lines`: the text split at `\n`, each line without a `\r` that
/// came before its `\n`; a final line ending adds no empty line.
pub open spec fn lines(s: Seq<char>) -> Seq<Seq<char>> {
    let parts = split_char(s, '\n');
    let body = parts.drop_last().map_values(|p: Seq<char>| strip_cr(p));
    if parts.last().len() == 0 { body } else { body.push(parts.last()) }
}

pub fn lines_exec(s: &Vec<char>) -> (r: Vec<Vec<char>>)
    ensures views(r@) == lines(s@),
{
    let parts = split_char_exec(s, '\n');
    proof { lemma_split_char_len(s@, '\n'); }
    let ghost pv = views(parts@);
    let n = parts.len();
    let mut out: Vec<Vec<char>> = Vec::new();
    let mut i: usize = 0;
    while i + 1 < n
        invariant
            n == parts.len(),
            n >= 1,
            pv == views(parts@),
            i + 1 <= n,
            views(out@) == pv.take(i as int).map_values(|p: Seq<char>| strip_cr(p)),
        decreases n - i,
    {
        let p = &parts[i];
        let mut line: Vec<char> = Vec::new();
        let len = if p.len() > 0 && p[p.len() - 1] == '\r' { p.len() - 1 } else { p.len() };
        let mut j: usize = 0;
        while j < len
            invariant
                j <= len <= p.len(),
                line@ == p@.take(j as int),
            decreases len - j,
        {
            line.push(p[j]);
            j += 1;
            assert(line@ =~= p@.take(j as int));
        }
        assert(line@ =~= strip_cr(pv[i as int]));
        let ghost before = views(out@);
        out.push(line);
        assert(views(out@) =~= before.push(strip_cr(pv[i as int])));
        assert(pv.take(i + 1).map_values(|p: Seq<char>| strip_cr(p))
            =~= pv.take(i as int).map_values(|p: Seq<char>| strip_cr(p)).push(strip_cr(pv[i as int])));
        i += 1;
    }
    assert(pv.take(i as int) =~= pv.drop_last());
    let last = &parts[n - 1];
    if last.len() > 0 {
        let mut copy: Vec<char> = Vec::new();
        let mut j: usize = 0;
        while j < last.len()
            invariant j <= last.len(), copy@ == last@.take(j as int),
            decreases last.len() - j,
        {
            copy.push(last[j]);
            j += 1;
            assert(copy@ =~= last@.take(j as int));
        }
        assert(copy@ =~= last@);
        let ghost before = views(out@);
        out.push(copy);
        assert(views(out@) =~= before.push(pv.last()));
    }
    out
}

/// `str::split_whitespace`: the runs of non-white-space characters.
pub open spec fn words(s: Seq<char>) -> Seq<Seq<char>>
    decreases s.len(),
{
    if s.len() == 0 {
        Seq::empty()
    } else {
        let w = words(s.drop_last());
        let c = s.last();
        if is_white_space(c) {
            w
        } else if s.len() == 1 || is_white_space(s.drop_last().last()) {
            w.push(seq![c])
        } else {
            w.update(w.len() - 1, w.last().push(c))
        }
    }
}

/// Text that ends in a non-blank character has at least one word.
pub proof fn lemma_words_nonempty(s: Seq<char>)
    ensures
        s.len() > 0 && !is_white_space(s.last()) ==> words(s).len() >= 1,
    decreases s.len(),
{
    if s.len() > 1 {
        lemma_words_nonempty(s.drop_last());
    }
}

pub fn words_exec(s: &Vec<char>) -> (r: Vec<Vec<char>>)
    ensures views(r@) == words(s@),
{
    let mut out: Vec<Vec<char>> = Vec::new();
    let mut cur: Vec<char> = Vec::new();
    let mut i: usize = 0;
    while i < s.len()
        invariant
            i <= s.len(),
            cur@.len() == 0 ==> views(out@) == words(s@.take(i as int)),
            cur@.len() > 0 ==> views(out@).push(cur@) == words(s@.take(i as int)),
            cur@.len() > 0 ==> i > 0 && !is_white_space(s@[i - 1]),
            cur@.len() == 0 ==> (i == 0 || is_white_space(s@[i - 1])),
        decreases s.len() - i,
    {
        let c = s[i];
        let ghost t = s@.take(i + 1);
        assert(t.drop_last() =~= s@.take(i as int));
        assert(t.last() == c);
        let ghost w = words(s@.take(i as int));
        if is_white_space_exec(c) {
            if cur.len() > 0 {
                let ghost before = views(out@);
                let ghost last = cur@;
                out.push(cur);
                cur = Vec::new();
                assert(views(out@) =~= before.push(last));
            }
        } else {
            proof {
                if i > 0 {
                    assert(t.drop_last().last() == s@[i - 1]);
                }
            }
            let ghost old_cur = cur@;
            cur.push(c);
            proof {
                if old_cur.len() > 0 {
                    assert(w == views(out@).push(old_cur));
                    assert(words(t) == w.update(w.len() - 1, w.last().push(c)));
                    assert(views(out@).push(cur@) =~= words(t));
                } else {
                    assert(words(t) == w.push(seq![c]));
                    assert(cur@ =~= seq![c]);
                }
            }
        }
        i += 1;
    }
    assert(s@.take(s.len() as int) =~= s@);
    if cur.len() > 0 {
        out.push(cur);
    }
    out
}

/// The first place at or after `from` where `pat` occurs.
pub open spec fn find_seq(s: Seq<char>, pat: Seq<char>, from: int) -> Option<int>
    decreases s.len() - from,
{
    if from < 0 || from + pat.len() > s.len() {
        None
    } else if occurs_at(s, pat, from) {
        Some(from)
    } else if from >= s.len() {
        None
    } else {
        find_seq(s, pat, from + 1)
    }
}

/// The search finds the first place at or after `from` where the pattern occurs.
pub proof fn lemma_find_seq_some(s: Seq<char>, pat: Seq<char>, from: int, at: int)
    requires
        0 <= from <= at,
        occurs_at(s, pat, at),
        forall|k: int| from <= k < at ==> !occurs_at(s, pat, k),
    ensures find_seq(s, pat, from) == Some(at),
    decreases at - from,
{
    if from < at {
        lemma_find_seq_some(s, pat, from + 1, at);
    }
}

/// Where the pattern occurs nowhere from `from` on, the search finds nothing.
pub proof fn lemma_find_seq_none(s: Seq<char>, pat: Seq<char>, from: int)
    requires
        0 <= from,
        forall|k: int| from <= k ==> !occurs_at(s, pat, k),
    ensures find_seq(s, pat, from) is None,
    decreases s.len() - from,
{
    if from + pat.len() <= s.len() && from < s.len() {
        lemma_find_seq_none(s, pat, from + 1);
    }
}

/// Whatever the search finds is a place at or after `from` where the pattern occurs.
pub proof fn lemma_find_seq_found(s: Seq<char>, pat: Seq<char>, from: int)
    ensures
        find_seq(s, pat, from) matches Some(at) ==> from <= at && occurs_at(s, pat, at),
    decreases s.len() - from,
{
    if !(from < 0 || from + pat.len() > s.len()) && !occurs_at(s, pat, from) && from < s.len() {
        lemma_find_seq_found(s, pat, from + 1);
    }
}

/// `find_from` gives the same place as the first-occurrence rule.
pub fn find_seq_exec(s: &Vec<char>, pat: &Vec<char>, from: usize) -> (r: Option<usize>)
    ensures
        match r {
            Some(at) => find_seq(s@, pat@, from as int) == Some(at as int),
            None => find_seq(s@, pat@, from as int) is None,
        },
{
    let r = find_from(s, pat, from);
    proof {
        match r {
            Some(at) => lemma_find_seq_some(s@, pat@, from as int, at as int),
            None => lemma_find_seq_none(s@, pat@, from as int),
        }
    }
    r
}

/// `str::split` on a separator, from `pos` on: the pieces between
/// leftmost non-overlapping occurrences.
pub open spec fn split_from(s: Seq<char>, pat: Seq<char>, pos: int) -> Seq<Seq<char>>
    decreases s.len() - pos,
{
    if pat.len() == 0 || pos < 0 || pos > s.len() {
        seq![s.subrange(pos, s.len() as int)]
    } else {
        match find_seq(s, pat, pos) {
            Some(at) => if at + pat.len() > pos && at + pat.len() <= s.len() {
                seq![s.subrange(pos, at)] + split_from(s, pat, at + pat.len())
            } else {
                seq![s.subrange(pos, s.len() as int)]
            },
            None => seq![s.subrange(pos, s.len() as int)],
        }
    }
}

pub open spec fn split_str(s: Seq<char>, pat: Seq<char>) -> Seq<Seq<char>> {
    split_from(s, pat, 0)
}

fn copy_range(s: &Vec<char>, lo: usize, hi: usize) -> (r: Vec<char>)
    requires lo <= hi <= s.len(),
    ensures r@ == s@.subrange(lo as int, hi as int),
{
    let mut r: Vec<char> = Vec::new();
    let mut i: usize = lo;
    while i < hi
        invariant lo <= i <= hi <= s.len(), r@ == s@.subrange(lo as int, i as int),
        decreases hi - i,
    {
        r.push(s[i]);
        i += 1;
        assert(r@ =~= s@.subrange(lo as int, i as int));
    }
    r
}

pub fn split_str_exec(s: &Vec<char>, pat: &Vec<char>) -> (r: Vec<Vec<char>>)
    requires pat.len() > 0,
    ensures views(r@) == split_str(s@, pat@),
{
    let mut out: Vec<Vec<char>> = Vec::new();
    let mut pos: usize = 0;
    loop
        invariant
            pat.len() > 0,
            pos <= s.len(),
            views(out@) + split_from(s@, pat@, pos as int) == split_str(s@, pat@),
        decreases s.len() - pos,
    {
        match find_seq_exec(s, pat, pos) {
            Some(at) => {
                proof { lemma_find_seq_found(s@, pat@, pos as int); }
                let piece = copy_range(s, pos, at);
                let ghost before = views(out@);
                out.push(piece);
                assert(views(out@) =~= before.push(s@.subrange(pos as int, at as int)));
                assert(views(out@) + split_from(s@, pat@, at + pat.len())
                    =~= before + split_from(s@, pat@, pos as int));
                pos = at + pat.len();
            },
            None => {
                let piece = copy_range(s, pos, s.len());
                let ghost before = views(out@);
                out.push(piece);
                assert(views(out@) =~= before + split_from(s@, pat@, pos as int));
                return out;
            },
        }
    }
}

/// The value of a run of hexadecimal digits.
pub open spec fn hex_number(s: Seq<char>) -> int
    decreases s.len(),
{
    if s.len() == 0 {
        0
    } else {
        hex_number(s.drop_last()) * 16 + match hex_value(s.last()) {
            Some(v) => v,
            None => 0,
        }
    }
}

pub open spec fn all_hex(s: Seq<char>) -> bool {
    forall|i: int| 0 <= i < s.len() ==> hex_value(#[trigger] s[i]) is Some
}

/// `u16::from_str_radix(s, 16)`: an optional `+`, then one or more digits
/// of either case, worth at most `u16::MAX`.
pub open spec fn parse_hex_u16(s: Seq<char>) -> Option<u16> {
    let digits = if s.len() > 0 && s[0] == '+' { s.drop_first() } else { s };
    if digits.len() == 0 || !all_hex(digits) || hex_number(digits) > u16::MAX {
        None
    } else {
        Some(hex_number(digits) as u16)
    }
}

proof fn lemma_hex_number_grows(s: Seq<char>, i: int)
    requires 0 <= i <= s.len(),
    ensures hex_number(s.take(i)) <= hex_number(s),
    decreases s.len() - i,
{
    if i < s.len() {
        lemma_hex_number_grows(s, i + 1);
        assert(s.take(i + 1).drop_last() =~= s.take(i));
        lemma_hex_number_nonneg(s.take(i));
    } else {
        assert(s.take(i) =~= s);
    }
}

proof fn lemma_hex_number_nonneg(s: Seq<char>)
    ensures hex_number(s) >= 0,
    decreases s.len(),
{
    if s.len() > 0 {
        lemma_hex_number_nonneg(s.drop_last());
    }
}

pub fn parse_hex_u16_exec(s: &Vec<char>) -> (r: Option<u16>)
    ensures r == parse_hex_u16(s@),
{
    let start: usize = if s.len() > 0 && s[0] == '+' { 1 } else { 0 };
    let ghost digits = if s@.len() > 0 && s@[0] == '+' { s@.drop_first() } else { s@ };
    assert(digits =~= s@.subrange(start as int, s@.len() as int));
    if start == s.len() {
        return None;
    }
    let mut value: u32 = 0;
    let mut i: usize = start;
    while i < s.len()
        invariant
            start <= i <= s.len(),
            start < s.len(),
            digits == (if s@.len() > 0 && s@[0] == '+' { s@.drop_first() } else { s@ }),
            digits == s@.subrange(start as int, s@.len() as int),
            all_hex(digits.take(i - start)),
            value == hex_number(digits.take(i - start)),
            value <= u16::MAX,
        decreases s.len() - i,
    {
        let ghost k = i - start;
        assert(digits.take(k + 1).drop_last() =~= digits.take(k));
        assert(digits.take(k + 1).last() == s@[i as int]);
        match hex_value_exec(s[i]) {
            None => {
                assert(digits[k] == s@[i as int]);
                assert(!all_hex(digits)) by {
                    assert(hex_value(digits[k]) is None);
                }
                return None;
            },
            Some(d) => {
                let next: u32 = value * 16 + d as u32;
                if next > 0xffff {
                    proof {
                        assert(digits[k] == s@[i as int]);
                        assert(hex_number(digits.take(k + 1)) == hex_number(digits.take(k)) * 16 + d);
                        lemma_hex_number_grows(digits, k + 1);
                    }
                    return None;
                }
                value = next;
            },
        }
        i += 1;
    }
    assert(digits.take(i - start) =~= digits);
    Some(value as u16)
}

} // verus!
