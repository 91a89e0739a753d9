//! Verified text utilities shared by the panes: conversion between `String`
//! and character vectors, newline splitting, and literal substring search.

use vstd::prelude::*;

verus! {

/// The characters of a string slice, as an owned vector.
pub fn chars_of(s: &str) -> (r: Vec<char>)
    ensures
        r@ == s@,
{
    let n = s.unicode_len();
    let mut r: Vec<char> = Vec::new();
    let mut i: usize = 0;
    while i < n
        invariant
            n == s@.len(),
            i <= n,
            r@ == s@.take(i as int),
        decreases n - i,
    {
        r.push(s.get_char(i));
        i = i + 1;
        proof {
            assert(r@ =~= s@.take(i as int));
        }
    }
    proof {
        assert(s@.take(n as int) =~= s@);
    }
    r
}

/// Relies on `String: FromIterator<char>`: collecting characters produces the
/// string made of exactly those characters, in order.
#[verifier::external_body]
pub fn string_from_chars(v: &Vec<char>) -> (r: String)
    ensures
        r@ == v@,
{
    v.iter().collect()
}

/// The newline-delimited lines of `s`. Splitting always yields one line more
/// than there are newlines; in particular the empty text has one empty line.
pub open spec fn lines_of(s: Seq<char>) -> Seq<Seq<char>>
    decreases s.len(),
{
    if s.len() == 0 {
        seq![Seq::<char>::empty()]
    } else if s[0] == '\n' {
        seq![Seq::<char>::empty()] + lines_of(s.skip(1))
    } else {
        let rest = lines_of(s.skip(1));
        seq![seq![s[0]] + rest[0]] + rest.skip(1)
    }
}

/// Splitting never yields an empty sequence of lines.
pub proof fn lemma_lines_of_len(s: Seq<char>)
    ensures
        lines_of(s).len() >= 1,
    decreases s.len(),
{
    if s.len() == 0 {
    } else {
        lemma_lines_of_len(s.skip(1));
    }
}

/// How one more character extends the line decomposition: a newline opens a
/// fresh empty line, any other character lands on the end of the last line.
pub proof fn lemma_lines_of_push(s: Seq<char>, c: char)
    ensures
        c == '\n' ==> lines_of(s.push(c)) == lines_of(s).push(Seq::<char>::empty()),
        c != '\n' ==> lines_of(s.push(c)) == lines_of(s).update(
            lines_of(s).len() - 1,
            lines_of(s).last().push(c),
        ),
    decreases s.len(),
{
    reveal_with_fuel(lines_of, 4);
    lemma_lines_of_len(s);
    if s.len() == 0 {
        assert(s.push(c).skip(1) =~= Seq::<char>::empty());
        if c == '\n' {
            assert(lines_of(s.push(c)) =~~= lines_of(s).push(Seq::<char>::empty()));
        } else {
            assert(seq![s.push(c)[0]] + lines_of(Seq::<char>::empty())[0]
                =~= Seq::<char>::empty().push(c));
            assert(lines_of(s.push(c)) =~~= lines_of(s).update(
                lines_of(s).len() - 1,
                lines_of(s).last().push(c),
            ));
        }
    } else {
        let t = s.skip(1);
        lemma_lines_of_len(t);
        lemma_lines_of_push(t, c);
        assert(s.push(c)[0] == s[0]);
        assert(s.push(c).skip(1) =~= t.push(c));
        if s[0] == '\n' {
            if c == '\n' {
                assert(lines_of(s.push(c)) =~~= lines_of(s).push(Seq::<char>::empty()));
            } else {
                assert(lines_of(s.push(c)) =~~= lines_of(s).update(
                    lines_of(s).len() - 1,
                    lines_of(s).last().push(c),
                ));
            }
        } else {
            let rest = lines_of(t);
            if c == '\n' {
                assert((rest.push(Seq::<char>::empty()))[0] == rest[0]);
                assert((rest.push(Seq::<char>::empty())).skip(1) =~~= rest.skip(1).push(
                    Seq::<char>::empty(),
                ));
                assert(lines_of(s.push(c)) =~~= lines_of(s).push(Seq::<char>::empty()));
            } else {
                let rest2 = rest.update(rest.len() - 1, rest.last().push(c));
                if rest.len() == 1 {
                    assert(rest2[0] == rest.last().push(c));
                    assert(seq![s[0]] + rest[0].push(c) =~= (seq![s[0]] + rest[0]).push(c));
                    assert(rest2.skip(1) =~~= rest.skip(1));
                    assert(lines_of(s.push(c)) =~~= lines_of(s).update(
                        lines_of(s).len() - 1,
                        lines_of(s).last().push(c),
                    ));
                } else {
                    assert(rest2[0] == rest[0]);
                    assert(rest2.skip(1) =~~= rest.skip(1).update(
                        rest.skip(1).len() - 1,
                        rest.skip(1).last().push(c),
                    ));
                    assert(lines_of(s).last() == rest.last());
                    assert(lines_of(s.push(c)) =~~= lines_of(s).update(
                        lines_of(s).len() - 1,
                        lines_of(s).last().push(c),
                    ));
                }
            }
        }
    }
}

/// The newline-delimited lines of `s`, as owned vectors.
pub fn split_lines(s: &Vec<char>) -> (r: Vec<Vec<char>>)
    ensures
        r.deep_view() == lines_of(s@),
        r@.len() >= 1,
{
    let mut acc: Vec<Vec<char>> = Vec::new();
    let mut cur: Vec<char> = Vec::new();
    let mut i: usize = 0;
    while i < s.len()
        invariant
            i <= s@.len(),
            lines_of(s@.take(i as int)) == acc.deep_view().push(cur@),
        decreases s@.len() - i,
    {
        let c = s[i];
        proof {
            assert(s@.take(i + 1) =~= s@.take(i as int).push(s@[i as int]));
            lemma_lines_of_push(s@.take(i as int), c);
        }
        if c == '\n' {
            let ghost prev_acc = acc.deep_view();
            acc.push(cur);
            cur = Vec::new();
            proof {
                assert(acc.deep_view() =~~= prev_acc.push(acc@.last()@));
                assert(lines_of(s@.take(i + 1)) =~~= acc.deep_view().push(cur@));
            }
        } else {
            proof {
                let pre = acc.deep_view().push(cur@);
                assert(pre.last() == cur@);
                assert(pre.update(pre.len() - 1, cur@.push(c)) =~~= acc.deep_view().push(
                    cur@.push(c),
                ));
            }
            cur.push(c);
        }
        i = i + 1;
    }
    proof {
        assert(s@.take(i as int) =~= s@);
    }
    let ghost prev_acc = acc.deep_view();
    acc.push(cur);
    proof {
        assert(acc.deep_view() =~~= prev_acc.push(acc@.last()@));
    }
    acc
}

/// `pat` occurs in `line` starting at offset `k`.
pub open spec fn is_match_at(line: Seq<char>, pat: Seq<char>, k: int) -> bool {
    0 <= k && k + pat.len() <= line.len() && line.subrange(k, k + pat.len() as int) == pat
}

/// Literal, case-sensitive substring containment (the empty pattern is
/// contained everywhere).
pub open spec fn line_contains(line: Seq<char>, pat: Seq<char>) -> bool {
    exists|k: int| is_match_at(line, pat, k)
}

/// Whether `pat` occurs in `line` starting exactly at `k`.
fn matches_at(line: &Vec<char>, pat: &Vec<char>, k: usize) -> (b: bool)
    requires
        k + pat@.len() <= line@.len(),
    ensures
        b == is_match_at(line@, pat@, k as int),
{
    let n = line.len();
    let m = pat.len();
    let mut j: usize = 0;
    while j < m
        invariant
            n == line@.len(),
            m == pat@.len(),
            k + m <= n,
            j <= m,
            forall|t: int| 0 <= t < j ==> line@[k + t] == pat@[t],
        decreases m - j,
    {
        if line[k + j] != pat[j] {
            proof {
                assert(line@.subrange(k as int, k + pat@.len() as int)[j as int] != pat@[
                    j as int
                ]);
            }
            return false;
        }
        j = j + 1;
    }
    proof {
        assert(line@.subrange(k as int, k + pat@.len() as int) =~= pat@);
    }
    true
}

/// Literal substring search: does `pat` occur anywhere in `line`?
pub fn contains_pat(line: &Vec<char>, pat: &Vec<char>) -> (b: bool)
    ensures
        b == line_contains(line@, pat@),
{
    if pat.len() > line.len() {
        return false;
    }
    if pat.len() == 0 {
        proof {
            assert(line@.subrange(0, 0) =~= pat@);
            assert(is_match_at(line@, pat@, 0));
        }
        return true;
    }
    let mut k: usize = 0;
    let last = line.len() - pat.len();
    while k <= last
        invariant
            1 <= pat@.len() <= line@.len(),
            last == line@.len() - pat@.len(),
            last < usize::MAX,
            k <= last + 1,
            forall|t: int| 0 <= t < k ==> !is_match_at(line@, pat@, t),
        decreases last + 1 - k,
    {
        if matches_at(line, pat, k) {
            return true;
        }
        k = k + 1;
    }
    proof {
        assert(forall|t: int| is_match_at(line@, pat@, t) ==> 0 <= t <= last);
    }
    false
}

/// Whether two character vectors hold the same characters, in order.
pub fn chars_eq(a: &Vec<char>, b: &Vec<char>) -> (r: bool)
    ensures
        r == (a@ == b@),
{
    let n = a.len();
    if n != b.len() {
        return false;
    }
    let mut i: usize = 0;
    while i < n
        invariant
            n == a@.len() && n == b@.len(),
            i <= n,
            forall|t: int| 0 <= t < i ==> a@[t] == b@[t],
        decreases n - i,
    {
        if a[i] != b[i] {
            return false;
        }
        i = i + 1;
    }
    proof {
        assert(a@ =~= b@);
    }
    true
}

/// Whether a character vector spells exactly the string `s`.
pub fn chars_eq_str(a: &Vec<char>, s: &str) -> (r: bool)
    ensures
        r == (a@ == s@),
{
    let b = chars_of(s);
    chars_eq(a, &b)
}

/// Index of the first space at or after `i`, or the length when there is
/// none.
pub open spec fn first_space_from(s: Seq<char>, i: int) -> int
    decreases s.len() - i
        when 0 <= i <= s.len()
{
    if i >= s.len() {
        s.len() as int
    } else if s[i] == ' ' {
        i
    } else {
        first_space_from(s, i + 1)
    }
}

/// Index of the first space in `s`, or its length when it has none.
#[verifier::loop_isolation(false)]
pub fn find_space(s: &Vec<char>) -> (j: usize)
    ensures
        j as int == first_space_from(s@, 0),
        j <= s@.len(),
{
    let n = s.len();
    let mut i: usize = 0;
    while i < n
        invariant
            i <= n,
            first_space_from(s@, 0) == first_space_from(s@, i as int),
        decreases n - i,
    {
        if s[i] == ' ' {
            return i;
        }
        i = i + 1;
    }
    i
}

/// The characters `from..to` of `v`, as an owned vector.
pub fn subrange_chars(v: &Vec<char>, from: usize, to: usize) -> (r: Vec<char>)
    requires
        from <= to <= v@.len(),
    ensures
        r@ == v@.subrange(from as int, to as int),
{
    let mut r: Vec<char> = Vec::new();
    let mut i: usize = from;
    while i < to
        invariant
            from <= i <= to <= v@.len(),
            r@ == v@.subrange(from as int, i as int),
        decreases to - i,
    {
        r.push(v[i]);
        i = i + 1;
        proof {
            assert(r@ =~= v@.subrange(from as int, i as int));
        }
    }
    r
}

} // verus!
