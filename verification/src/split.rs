//! Searching a text for a pattern and cutting it at the places found.

use crate::text::{append_text, is_space, is_whitespace, rows, slice_of, trim_end, trim_start};
use crate::text::{lemma_trim_end_at, lemma_trim_start_at};
use vstd::prelude::*;

verus! {

/// Whether `pat` stands in `s` at position `i`.
pub open spec fn occurs_at(s: Seq<char>, pat: Seq<char>, i: int) -> bool {
    &&& 0 <= i
    &&& i + pat.len() <= s.len()
    &&& s.subrange(i, i + pat.len()) == pat
}

/// The first position at or after `from` where `pat` stands in `s`.
pub open spec fn find_from(s: Seq<char>, pat: Seq<char>, from: int) -> Option<int>
    decreases s.len() - from + 1,
{
    if from < 0 || from + pat.len() > s.len() {
        None
    } else if occurs_at(s, pat, from) {
        Some(from)
    } else {
        find_from(s, pat, from + 1)
    }
}

/// The first position where `pat` stands in `s`.
pub open spec fn find(s: Seq<char>, pat: Seq<char>) -> Option<int> {
    find_from(s, pat, 0)
}

/// Whether `pat` stands somewhere in `s`.
pub open spec fn includes(s: Seq<char>, pat: Seq<char>) -> bool {
    find(s, pat) is Some
}

/// Whether `s` begins with `pat`.
pub open spec fn begins_with(s: Seq<char>, pat: Seq<char>) -> bool {
    occurs_at(s, pat, 0)
}

/// What `find_from` returns is the least position of an occurrence.
pub proof fn lemma_find_from(s: Seq<char>, pat: Seq<char>, from: int)
    requires
        0 <= from,
    ensures
        match find_from(s, pat, from) {
            Some(i) => from <= i && occurs_at(s, pat, i) && forall|j: int|
                from <= j < i ==> !occurs_at(s, pat, j),
            None => forall|j: int| from <= j ==> !occurs_at(s, pat, j),
        },
    decreases s.len() - from + 1,
{
    if from + pat.len() > s.len() {
    } else if occurs_at(s, pat, from) {
    } else {
        lemma_find_from(s, pat, from + 1);
    }
}

/// Whether `pat` stands in `s` at position `i`.
pub fn matches_at(s: &Vec<char>, pat: &Vec<char>, i: usize) -> (r: bool)
    ensures
        r == occurs_at(s@, pat@, i as int),
{
    if i > s.len() || pat.len() > s.len() - i {
        return false;
    }
    let mut k: usize = 0;
    while k < pat.len()
        invariant
            i + pat.len() <= s.len(),
            k <= pat.len(),
            s@.subrange(i as int, i + k) == pat@.take(k as int),
        decreases pat.len() - k,
    {
        if s[i + k] != pat[k] {
            assert(s@.subrange(i as int, i + pat.len())[k as int] == s@[i + k]);
            return false;
        }
        assert(s@.subrange(i as int, i + k + 1) == s@.subrange(i as int, i + k).push(s@[i + k]));
        assert(pat@.take(k + 1) == pat@.take(k as int).push(pat@[k as int]));
        k += 1;
    }
    assert(pat@.take(pat.len() as int) == pat@);
    true
}

/// Looks for the first occurrence of `pat` at or after `from`.
pub fn find_in(s: &Vec<char>, pat: &Vec<char>, from: usize) -> (r: Option<usize>)
    ensures
        match r {
            Some(i) => find_from(s@, pat@, from as int) == Some(i as int),
            None => find_from(s@, pat@, from as int) is None,
        },
{
    if from > s.len() || pat.len() > s.len() - from {
        return None;
    }
    let last: usize = s.len() - pat.len();
    let mut i: usize = from;
    loop
        invariant
            from <= i <= last,
            last + pat.len() == s.len(),
            find_from(s@, pat@, from as int) == find_from(s@, pat@, i as int),
        decreases last - i,
    {
        if matches_at(s, pat, i) {
            return Some(i);
        }
        if i == last {
            assert(find_from(s@, pat@, i + 1) is None);
            return None;
        }
        i += 1;
    }
}

/// Whether `pat` stands somewhere in `s`.
pub fn contains(s: &Vec<char>, pat: &Vec<char>) -> (r: bool)
    ensures
        r == includes(s@, pat@),
{
    find_in(s, pat, 0).is_some()
}

/// Whether `s` begins with `pat`.
pub fn starts_with(s: &Vec<char>, pat: &Vec<char>) -> (r: bool)
    ensures
        r == begins_with(s@, pat@),
{
    matches_at(s, pat, 0)
}

/// The pieces of `s` between the occurrences of `pat`, found from left to
/// right without overlap. There is always at least one piece, and an empty
/// pattern cuts nowhere.
pub open spec fn pieces(s: Seq<char>, pat: Seq<char>) -> Seq<Seq<char>>
    decreases s.len(),
{
    match find(s, pat) {
        Some(i) => if 0 <= i && i + pat.len() <= s.len() && pat.len() > 0 {
            seq![s.subrange(0, i)] + pieces(s.subrange(i + pat.len(), s.len() as int), pat)
        } else {
            seq![s]
        },
        None => seq![s],
    }
}

/// The piece before the first occurrence of `pat`; all of `s` without one.
pub open spec fn first_piece(s: Seq<char>, pat: Seq<char>) -> Seq<char> {
    match find(s, pat) {
        Some(i) => s.subrange(0, i),
        None => s,
    }
}

/// The piece behind the last occurrence of `pat`; all of `s` without one.
pub open spec fn last_piece(s: Seq<char>, pat: Seq<char>) -> Seq<char> {
    pieces(s, pat).last()
}

/// Finding in the rest of `s` behind `start` is finding in `s` from `start`.
pub proof fn lemma_find_in_rest(s: Seq<char>, pat: Seq<char>, start: int, from: int)
    requires
        0 <= start <= from,
        start <= s.len(),
    ensures
        find_from(s.subrange(start, s.len() as int), pat, from - start) == match find_from(
            s,
            pat,
            from,
        ) {
            Some(i) => Some(i - start),
            None => None,
        },
    decreases s.len() - from + 1,
{
    let t = s.subrange(start, s.len() as int);
    if from + pat.len() > s.len() {
    } else {
        assert(t.subrange(from - start, from - start + pat.len()) == s.subrange(
            from,
            from + pat.len(),
        ));
        if occurs_at(s, pat, from) {
        } else {
            lemma_find_in_rest(s, pat, start, from + 1);
        }
    }
}

/// Cuts `s` at the occurrences of `pat`.
pub fn split(s: &Vec<char>, pat: &Vec<char>) -> (r: Vec<Vec<char>>)
    ensures
        rows(r@) == pieces(s@, pat@),
        r.len() > 0,
{
    let mut r: Vec<Vec<char>> = Vec::new();
    if pat.len() == 0 {
        let whole = slice_of(s, 0, s.len());
        assert(whole@ == s@);
        r.push(whole);
        assert(rows(r@) == seq![s@]);
        return r;
    }
    let mut start: usize = 0;
    assert(rows(r@) + pieces(s@.subrange(0, s.len() as int), pat@) == pieces(s@, pat@)) by {
        assert(s@.subrange(0, s.len() as int) == s@);
        assert(rows(r@) == Seq::<Seq<char>>::empty());
    }
    loop
        invariant
            pat.len() > 0,
            start <= s.len(),
            pieces(s@, pat@) == rows(r@) + pieces(
                s@.subrange(start as int, s.len() as int),
                pat@,
            ),
        decreases s.len() - start,
    {
        let ghost rest = s@.subrange(start as int, s.len() as int);
        proof {
            lemma_find_in_rest(s@, pat@, start as int, start as int);
            lemma_find_from(s@, pat@, start as int);
        }
        match find_in(s, pat, start) {
            Some(i) => {
                let piece = slice_of(s, start, i);
                proof {
                    assert(rest.subrange(0, i - start) == s@.subrange(start as int, i as int));
                    assert(rest.subrange(i - start + pat.len(), rest.len() as int) == s@.subrange(
                        i + pat.len(),
                        s.len() as int,
                    ));
                    assert(rows(r@).push(piece@) + pieces(
                        s@.subrange(i + pat.len(), s.len() as int),
                        pat@,
                    ) == rows(r@) + pieces(rest, pat@));
                }
                let ghost before = rows(r@);
                r.push(piece);
                assert(rows(r@) == before.push(piece@));
                start = i + pat.len();
            },
            None => {
                let piece = slice_of(s, start, s.len());
                let ghost before = rows(r@);
                r.push(piece);
                assert(rows(r@) == before.push(piece@));
                assert(pieces(s@, pat@) == rows(r@));
                return r;
            },
        }
    }
}

/// The piece before the first occurrence of `pat`.
pub fn before_first(s: &Vec<char>, pat: &Vec<char>) -> (r: Vec<char>)
    ensures
        r@ == first_piece(s@, pat@),
{
    proof {
        lemma_find_from(s@, pat@, 0);
    }
    match find_in(s, pat, 0) {
        Some(i) => slice_of(s, 0, i),
        None => slice_of(s, 0, s.len()),
    }
}

/// The piece behind the last occurrence of `pat`.
pub fn after_last(s: &Vec<char>, pat: &Vec<char>) -> (r: Vec<char>)
    ensures
        r@ == last_piece(s@, pat@),
{
    let mut parts = split(s, pat);
    let ghost all = rows(parts@);
    let last = parts.pop();
    match last {
        Some(piece) => {
            assert(piece@ == all.last());
            piece
        },
        None => Vec::new(),
    }
}

/// How many characters at the start of `s` are no white space.
pub open spec fn word_len(s: Seq<char>) -> nat
    decreases s.len(),
{
    if s.len() == 0 || is_space(s[0]) {
        0
    } else {
        1 + word_len(s.drop_first())
    }
}

/// How many characters at the end of `s` are no white space.
pub open spec fn tail_word_len(s: Seq<char>) -> nat
    decreases s.len(),
{
    if s.len() == 0 || is_space(s.last()) {
        0
    } else {
        1 + tail_word_len(s.drop_last())
    }
}

/// The first of the words that white space separates in `s`.
pub open spec fn first_word(s: Seq<char>) -> Option<Seq<char>> {
    let t = trim_start(s);
    if t.len() == 0 {
        None
    } else {
        Some(t.subrange(0, word_len(t) as int))
    }
}

/// The last of the words that white space separates in `s`.
pub open spec fn last_word(s: Seq<char>) -> Option<Seq<char>> {
    let t = trim_end(s);
    if t.len() == 0 {
        None
    } else {
        Some(t.subrange(t.len() - tail_word_len(t), t.len() as int))
    }
}

pub proof fn lemma_word_len_at(s: Seq<char>, n: int)
    requires
        0 <= n <= s.len(),
        forall|i: int| 0 <= i < n ==> !is_space(s[i]),
        n == s.len() || is_space(s[n]),
    ensures
        word_len(s) == n,
    decreases n,
{
    if n > 0 {
        let t = s.drop_first();
        assert forall|i: int| 0 <= i < n - 1 implies !is_space(t[i]) by {
            assert(t[i] == s[i + 1]);
        }
        lemma_word_len_at(t, n - 1);
    }
}

pub proof fn lemma_tail_word_len_at(s: Seq<char>, n: int)
    requires
        0 <= n <= s.len(),
        forall|i: int| s.len() - n <= i < s.len() ==> !is_space(s[i]),
        n == s.len() || is_space(s[s.len() - n - 1]),
    ensures
        tail_word_len(s) == n,
    decreases n,
{
    if n > 0 {
        lemma_tail_word_len_at(s.drop_last(), n - 1);
    }
}

/// The first word of `s`, if it has one.
pub fn leading_word(s: &Vec<char>) -> (r: Option<Vec<char>>)
    ensures
        match r {
            Some(w) => first_word(s@) == Some(w@),
            None => first_word(s@) is None,
        },
{
    let n = s.len();
    let mut a: usize = 0;
    while a < n && is_whitespace(s[a])
        invariant
            n == s.len(),
            a <= n,
            forall|i: int| 0 <= i < a ==> is_space(s@[i]),
        decreases n - a,
    {
        a += 1;
    }
    proof {
        lemma_trim_start_at(s@, a as int);
    }
    if a == n {
        return None;
    }
    let mut b: usize = a;
    while b < n && !is_whitespace(s[b])
        invariant
            n == s.len(),
            a <= b <= n,
            forall|i: int| a <= i < b ==> !is_space(s@[i]),
        decreases n - b,
    {
        b += 1;
    }
    proof {
        let t = s@.subrange(a as int, n as int);
        assert forall|i: int| 0 <= i < b - a implies !is_space(t[i]) by {
            assert(t[i] == s@[i + a]);
        }
        if b < n {
            assert(t[b - a] == s@[b as int]);
        }
        lemma_word_len_at(t, b - a);
        assert(t.subrange(0, b - a) == s@.subrange(a as int, b as int));
    }
    Some(slice_of(s, a, b))
}

/// The last word of `s`, if it has one.
pub fn trailing_word(s: &Vec<char>) -> (r: Option<Vec<char>>)
    ensures
        match r {
            Some(w) => last_word(s@) == Some(w@),
            None => last_word(s@) is None,
        },
{
    let n = s.len();
    let mut b: usize = n;
    while b > 0 && is_whitespace(s[b - 1])
        invariant
            n == s.len(),
            b <= n,
            forall|i: int| b <= i < n ==> is_space(s@[i]),
        decreases b,
    {
        b -= 1;
    }
    proof {
        lemma_trim_end_at(s@, b as int);
    }
    if b == 0 {
        return None;
    }
    let mut a: usize = b;
    while a > 0 && !is_whitespace(s[a - 1])
        invariant
            n == s.len(),
            a <= b <= n,
            forall|i: int| a <= i < b ==> !is_space(s@[i]),
        decreases a,
    {
        a -= 1;
    }
    proof {
        let t = s@.subrange(0, b as int);
        assert forall|i: int| t.len() - (b - a) <= i < t.len() implies !is_space(t[i]) by {
            assert(t[i] == s@[i]);
        }
        if a > 0 {
            assert(t[a - 1] == s@[a - 1]);
        }
        lemma_tail_word_len_at(t, b - a);
        assert(t.subrange(a as int, b as int) == s@.subrange(a as int, b as int));
    }
    Some(slice_of(s, a, b))
}

/// `s` without the characters equal to `c`.
pub open spec fn without_char(s: Seq<char>, c: char) -> Seq<char>
    decreases s.len(),
{
    if s.len() == 0 {
        s
    } else if s.last() == c {
        without_char(s.drop_last(), c)
    } else {
        without_char(s.drop_last(), c).push(s.last())
    }
}

/// Removes every character equal to `c`.
pub fn remove_char(s: &Vec<char>, c: char) -> (r: Vec<char>)
    ensures
        r@ == without_char(s@, c),
{
    let mut r: Vec<char> = Vec::new();
    let mut i: usize = 0;
    while i < s.len()
        invariant
            i <= s.len(),
            r@ == without_char(s@.take(i as int), c),
        decreases s.len() - i,
    {
        assert(s@.take(i + 1).drop_last() == s@.take(i as int));
        if s[i] != c {
            r.push(s[i]);
        }
        i += 1;
    }
    assert(s@.take(s.len() as int) == s@);
    r
}

/// `s` without the characters equal to `c` at its end.
pub open spec fn without_trailing(s: Seq<char>, c: char) -> Seq<char>
    decreases s.len(),
{
    if s.len() > 0 && s.last() == c {
        without_trailing(s.drop_last(), c)
    } else {
        s
    }
}

/// Removes the characters equal to `c` from the end.
pub fn strip_trailing(s: &Vec<char>, c: char) -> (r: Vec<char>)
    ensures
        r@ == without_trailing(s@, c),
{
    let mut b: usize = s.len();
    assert(s@.subrange(0, b as int) == s@);
    while b > 0 && s[b - 1] == c
        invariant
            b <= s.len(),
            without_trailing(s@, c) == without_trailing(s@.subrange(0, b as int), c),
        decreases b,
    {
        assert(s@.subrange(0, b as int).drop_last() == s@.subrange(0, b - 1));
        assert(s@.subrange(0, b as int).last() == s@[b - 1]);
        b -= 1;
    }
    assert(b > 0 ==> s@.subrange(0, b as int).last() == s@[b - 1]);
    slice_of(s, 0, b)
}

/// `s` with every run of white space replaced by one space.
pub open spec fn collapsed(s: Seq<char>) -> Seq<char>
    decreases s.len(),
{
    if s.len() == 0 {
        s
    } else if !is_space(s.last()) {
        collapsed(s.drop_last()).push(s.last())
    } else if s.len() >= 2 && is_space(s[s.len() - 2]) {
        collapsed(s.drop_last())
    } else {
        collapsed(s.drop_last()).push(' ')
    }
}

/// Replaces every run of white space by one space.
pub fn collapse_spaces(s: &Vec<char>) -> (r: Vec<char>)
    ensures
        r@ == collapsed(s@),
{
    let mut r: Vec<char> = Vec::new();
    let mut i: usize = 0;
    while i < s.len()
        invariant
            i <= s.len(),
            r@ == collapsed(s@.take(i as int)),
        decreases s.len() - i,
    {
        assert(s@.take(i + 1).drop_last() == s@.take(i as int));
        if !is_whitespace(s[i]) {
            r.push(s[i]);
        } else if i >= 1 && is_whitespace(s[i - 1]) {
        } else {
            r.push(' ');
        }
        i += 1;
    }
    assert(s@.take(s.len() as int) == s@);
    r
}

/// The texts of `parts` in a row, with `sep` between neighbours.
pub open spec fn joined(parts: Seq<Seq<char>>, sep: Seq<char>) -> Seq<char>
    decreases parts.len(),
{
    if parts.len() == 0 {
        Seq::empty()
    } else if parts.len() == 1 {
        parts[0]
    } else {
        joined(parts.drop_last(), sep) + sep + parts.last()
    }
}

/// Puts the texts of `parts` in a row, with `sep` between neighbours.
pub fn join(parts: &Vec<Vec<char>>, sep: &Vec<char>) -> (r: Vec<char>)
    ensures
        r@ == joined(rows(parts@), sep@),
{
    let mut r: Vec<char> = Vec::new();
    let mut i: usize = 0;
    while i < parts.len()
        invariant
            i <= parts.len(),
            r@ == joined(rows(parts@).take(i as int), sep@),
        decreases parts.len() - i,
    {
        assert(rows(parts@).take(i + 1).drop_last() == rows(parts@).take(i as int));
        if i > 0 {
            append_text(&mut r, sep);
        }
        append_text(&mut r, &parts[i]);
        i += 1;
    }
    assert(rows(parts@).take(parts.len() as int) == rows(parts@));
    r
}

} // verus!
