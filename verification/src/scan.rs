//! Verified line- and token-level scanning over character vectors: splitting
//! into lines, trimming whitespace, taking the leading token, and carving the
//! segment that follows the first occurrence of a pattern.

use vstd::prelude::*;
use crate::text::{contains_seq, find_sub, find_sub_chars, lemma_find_sub_contains,
    lemma_find_sub_from};

verus! {

/// ASCII whitespace, as the parsers here understand it.
pub open spec fn is_space_char(c: char) -> bool {
    c == ' ' || c == '\t' || c == '\r' || c == '\n'
}

pub fn is_space(c: char) -> (r: bool)
    ensures
        r == is_space_char(c),
{
    c == ' ' || c == '\t' || c == '\r' || c == '\n'
}

/// A line without its trailing carriage return, if it has one.
pub open spec fn strip_cr(l: Seq<char>) -> Seq<char> {
    if l.len() > 0 && l.last() == '\r' {
        l.drop_last()
    } else {
        l
    }
}

/// The lines of `s`: split on newline, each without a trailing carriage
/// return, with no empty line after a trailing newline.
pub open spec fn split_lines(s: Seq<char>) -> Seq<Seq<char>>
    decreases s.len(),
{
    if s.len() == 0 {
        Seq::empty()
    } else {
        let k = find_sub(s, seq!['\n']);
        if k < 0 || k + 1 > s.len() {
            seq![strip_cr(s)]
        } else {
            seq![strip_cr(s.take(k))] + split_lines(s.skip(k + 1))
        }
    }
}

/// `s` with leading whitespace removed.
pub open spec fn trim_left_spec(s: Seq<char>) -> Seq<char>
    decreases s.len(),
{
    if s.len() > 0 && is_space_char(s[0]) {
        trim_left_spec(s.skip(1))
    } else {
        s
    }
}

/// `s` with trailing whitespace removed.
pub open spec fn trim_right_spec(s: Seq<char>) -> Seq<char>
    decreases s.len(),
{
    if s.len() > 0 && is_space_char(s.last()) {
        trim_right_spec(s.drop_last())
    } else {
        s
    }
}

/// `s` with whitespace removed from both ends.
pub open spec fn trim_spec(s: Seq<char>) -> Seq<char> {
    trim_right_spec(trim_left_spec(s))
}

/// The run of non-whitespace characters at the start of `s`.
pub open spec fn leading_token(s: Seq<char>) -> Seq<char>
    decreases s.len(),
{
    if s.len() > 0 && !is_space_char(s[0]) {
        seq![s[0]] + leading_token(s.skip(1))
    } else {
        Seq::empty()
    }
}

/// The first whitespace-separated token of `s`.
pub open spec fn first_token_spec(s: Seq<char>) -> Seq<char> {
    leading_token(trim_left_spec(s))
}

/// What stands between the first occurrence of `pat` and the next one, or
/// the end of `l`. Meaningful only when `pat` occurs in `l`.
pub open spec fn segment_after_first(l: Seq<char>, pat: Seq<char>) -> Seq<char> {
    let i = find_sub(l, pat);
    let rest = l.skip(i + pat.len());
    let j = find_sub(rest, pat);
    if j < 0 {
        rest
    } else {
        rest.take(j)
    }
}

pub proof fn lemma_trim_left_at(s: Seq<char>, a: int)
    requires
        0 <= a <= s.len(),
        forall|k: int| 0 <= k < a ==> is_space_char(s[k]),
        a == s.len() || !is_space_char(s[a]),
    ensures
        trim_left_spec(s) == s.skip(a),
    decreases a,
{
    if a == 0 {
        assert(s.skip(0) =~= s);
    } else {
        assert(is_space_char(s[0]));
        lemma_trim_left_at(s.skip(1), a - 1);
        assert(s.skip(1).skip(a - 1) =~= s.skip(a));
    }
}

pub proof fn lemma_trim_right_at(s: Seq<char>, b: int)
    requires
        0 <= b <= s.len(),
        forall|k: int| b <= k < s.len() ==> is_space_char(s[k]),
        b == 0 || !is_space_char(s[b - 1]),
    ensures
        trim_right_spec(s) == s.take(b),
    decreases s.len() - b,
{
    if b == s.len() {
        assert(s.take(b) =~= s);
    } else {
        assert(is_space_char(s.last()));
        lemma_trim_right_at(s.drop_last(), b);
        assert(s.drop_last().take(b) =~= s.take(b));
    }
}

pub proof fn lemma_leading_token_at(s: Seq<char>, t: int)
    requires
        0 <= t <= s.len(),
        forall|k: int| 0 <= k < t ==> !is_space_char(s[k]),
        t == s.len() || is_space_char(s[t]),
    ensures
        leading_token(s) == s.take(t),
    decreases t,
{
    if t == 0 {
        assert(s.take(0) =~= Seq::<char>::empty());
    } else {
        assert(!is_space_char(s[0]));
        lemma_leading_token_at(s.skip(1), t - 1);
        assert(seq![s[0]] + s.skip(1).take(t - 1) =~= s.take(t));
    }
}

/// Copy of the characters in `[from, to)`.
pub fn copy_range(text: &Vec<char>, from: usize, to: usize) -> (r: Vec<char>)
    requires
        from <= to <= text@.len(),
    ensures
        r@ == text@.subrange(from as int, to as int),
{
    let mut r: Vec<char> = Vec::new();
    let mut i: usize = from;
    while i < to
        invariant
            from <= i <= to <= text@.len(),
            r@.len() == i - from,
            forall|k: int| 0 <= k < r@.len() ==> r@[k] == text@[from + k],
        decreases to - i,
    {
        r.push(text[i]);
        i = i + 1;
    }
    assert(r@ =~= text@.subrange(from as int, to as int));
    r
}

pub fn split_lines_chars(text: &Vec<char>) -> (r: Vec<Vec<char>>)
    ensures
        r@.len() == split_lines(text@).len(),
        forall|i: int| 0 <= i < r@.len() ==> r@[i]@ == split_lines(text@)[i],
    decreases text@.len(),
{
    let mut r: Vec<Vec<char>> = Vec::new();
    if text.len() == 0 {
        return r;
    }
    let nl: Vec<char> = vec!['\n'];
    assert(nl@ =~= seq!['\n']);
    let found = find_sub_chars(text, &nl);
    match found {
        None => {
            let mut head = copy_range(text, 0, text.len());
            assert(head@ =~= text@);
            if head[head.len() - 1] == '\r' {
                head.pop();
            }
            assert(head@ == strip_cr(text@));
            r.push(head);
            r
        },
        Some(k) => {
            proof {
                lemma_find_sub_from(text@, nl@, 0);
            }
            let mut head = copy_range(text, 0, k);
            assert(head@ =~= text@.take(k as int));
            if head.len() > 0 && head[head.len() - 1] == '\r' {
                head.pop();
            }
            assert(head@ == strip_cr(text@.take(k as int)));
            let rest = copy_range(text, k + 1, text.len());
            assert(rest@ =~= text@.skip(k + 1));
            let tail = split_lines_chars(&rest);
            r.push(head);
            let ghost lines = split_lines(text@);
            let ghost tail_lines = split_lines(text@.skip(k + 1));
            assert(lines == seq![strip_cr(text@.take(k as int))] + tail_lines);
            let mut ti: usize = 0;
            while ti < tail.len()
                invariant
                    ti <= tail@.len(),
                    tail@.len() == tail_lines.len(),
                    forall|q: int| 0 <= q < tail@.len() ==> tail@[q]@ == tail_lines[q],
                    lines == seq![strip_cr(text@.take(k as int))] + tail_lines,
                    r@.len() == 1 + ti,
                    r@[0]@ == strip_cr(text@.take(k as int)),
                    forall|q: int| 0 <= q < ti ==> r@[1 + q]@ == tail@[q]@,
                decreases tail@.len() - ti,
            {
                let elem = copy_range(&tail[ti], 0, tail[ti].len());
                assert(elem@ =~= tail@[ti as int]@);
                r.push(elem);
                ti = ti + 1;
            }
            assert(r@.len() == lines.len());
            assert(forall|i: int| 0 <= i < r@.len() ==> r@[i]@ == lines[i]);
            r
        },
    }
}

pub fn trim_chars(s: &Vec<char>) -> (r: Vec<char>)
    ensures
        r@ == trim_spec(s@),
{
    let n = s.len();
    let mut a: usize = 0;
    while a < n && is_space(s[a])
        invariant
            a <= n,
            n == s@.len(),
            forall|k: int| 0 <= k < a ==> is_space_char(s@[k]),
        decreases n - a,
    {
        a = a + 1;
    }
    proof {
        lemma_trim_left_at(s@, a as int);
    }
    let mut b: usize = n;
    while b > a && is_space(s[b - 1])
        invariant
            a <= b <= n,
            n == s@.len(),
            forall|k: int| b <= k < n ==> is_space_char(s@[k]),
        decreases b,
    {
        b = b - 1;
    }
    proof {
        let left = s@.skip(a as int);
        lemma_trim_right_at(left, b - a);
        assert(left.take(b - a) =~= s@.subrange(a as int, b as int));
    }
    copy_range(s, a, b)
}

pub fn first_token_chars(s: &Vec<char>) -> (r: Vec<char>)
    ensures
        r@ == first_token_spec(s@),
{
    let n = s.len();
    let mut a: usize = 0;
    while a < n && is_space(s[a])
        invariant
            a <= n,
            n == s@.len(),
            forall|k: int| 0 <= k < a ==> is_space_char(s@[k]),
        decreases n - a,
    {
        a = a + 1;
    }
    proof {
        lemma_trim_left_at(s@, a as int);
    }
    let mut t: usize = a;
    while t < n && !is_space(s[t])
        invariant
            a <= t <= n,
            n == s@.len(),
            forall|k: int| a <= k < t ==> !is_space_char(s@[k]),
        decreases n - t,
    {
        t = t + 1;
    }
    proof {
        let left = s@.skip(a as int);
        lemma_leading_token_at(left, t - a);
        assert(left.take(t - a) =~= s@.subrange(a as int, t as int));
    }
    copy_range(s, a, t)
}

/// Everything after the first occurrence of `pat`. Meaningful only when
/// `pat` occurs in `l`.
pub open spec fn rest_after_first(l: Seq<char>, pat: Seq<char>) -> Seq<char> {
    l.skip(find_sub(l, pat) + pat.len())
}

/// Everything after the first occurrence of `pat`, when `pat` occurs at
/// all.
pub fn rest_after(l: &Vec<char>, pat: &Vec<char>) -> (r: Option<Vec<char>>)
    ensures
        contains_seq(l@, pat@) ==> (r matches Some(v) && v@ == rest_after_first(l@, pat@)),
        !contains_seq(l@, pat@) ==> r is None,
{
    proof {
        lemma_find_sub_contains(l@, pat@);
    }
    let found = find_sub_chars(l, pat);
    match found {
        None => None,
        Some(i) => {
            proof {
                lemma_find_sub_from(l@, pat@, 0);
            }
            let ln = l.len();
            let start = i + pat.len();
            let rest = copy_range(l, start, ln);
            assert(rest@ =~= l@.skip(i + pat@.len()));
            Some(rest)
        },
    }
}

/// The segment between the first occurrence of `pat` and the next one, when
/// `pat` occurs at all.
pub fn segment_between(l: &Vec<char>, pat: &Vec<char>) -> (r: Option<Vec<char>>)
    ensures
        contains_seq(l@, pat@) ==> (r matches Some(v) && v@ == segment_after_first(l@, pat@)),
        !contains_seq(l@, pat@) ==> r is None,
{
    proof {
        lemma_find_sub_contains(l@, pat@);
    }
    let found = find_sub_chars(l, pat);
    match found {
        None => None,
        Some(i) => {
            proof {
                lemma_find_sub_from(l@, pat@, 0);
            }
            let ln = l.len();
            let start = i + pat.len();
            let rest = copy_range(l, start, ln);
            assert(rest@ =~= l@.skip(i + pat@.len()));
            proof {
                lemma_find_sub_contains(rest@, pat@);
            }
            let found2 = find_sub_chars(&rest, pat);
            match found2 {
                None => Some(rest),
                Some(j) => {
                    proof {
                        lemma_find_sub_from(rest@, pat@, 0);
                    }
                    let seg = copy_range(&rest, 0, j);
                    assert(seg@ =~= rest@.take(j as int));
                    Some(seg)
                },
            }
        },
    }
}

/// Relies on `String::push`: appends one character to the string.
#[verifier::external_body]
fn push_char(s: &mut String, c: char)
    ensures
        final(s)@ == old(s)@.push(c),
{
    s.push(c);
}

pub fn chars_to_string(v: &Vec<char>) -> (r: String)
    ensures
        r@ == v@,
{
    let mut s = String::new();
    let mut i: usize = 0;
    while i < v.len()
        invariant
            i <= v@.len(),
            s@ == v@.take(i as int),
        decreases v@.len() - i,
    {
        push_char(&mut s, v[i]);
        proof {
            assert(v@.take(i as int).push(v@[i as int]) =~= v@.take(i + 1));
        }
        i = i + 1;
    }
    assert(v@.take(v@.len() as int) =~= v@);
    s
}

} // verus!
