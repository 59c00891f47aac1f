//! Verified character-sequence utilities: ASCII lowercasing and substring
//! search, shared by the log classifier and the text parsers.

use vstd::prelude::*;

verus! {

/// ASCII lowercasing of a single character; other characters are unchanged.
pub open spec fn lower_char_spec(c: char) -> char {
    match c {
        'A' => 'a',
        'B' => 'b',
        'C' => 'c',
        'D' => 'd',
        'E' => 'e',
        'F' => 'f',
        'G' => 'g',
        'H' => 'h',
        'I' => 'i',
        'J' => 'j',
        'K' => 'k',
        'L' => 'l',
        'M' => 'm',
        'N' => 'n',
        'O' => 'o',
        'P' => 'p',
        'Q' => 'q',
        'R' => 'r',
        'S' => 's',
        'T' => 't',
        'U' => 'u',
        'V' => 'v',
        'W' => 'w',
        'X' => 'x',
        'Y' => 'y',
        'Z' => 'z',
        _ => c,
    }
}

/// ASCII lowercasing of a whole sequence.
pub open spec fn lower_seq(s: Seq<char>) -> Seq<char> {
    Seq::new(s.len(), |i: int| lower_char_spec(s[i]))
}

/// The pattern occurs in `text` starting at position `i`.
pub open spec fn matches_at(text: Seq<char>, pat: Seq<char>, i: int) -> bool {
    0 <= i && i + pat.len() <= text.len() && text.subrange(i, i + pat.len()) == pat
}

/// The pattern occurs somewhere in `text`.
pub open spec fn contains_seq(text: Seq<char>, pat: Seq<char>) -> bool {
    exists|i: int| matches_at(text, pat, i)
}

pub fn lower_char(c: char) -> (r: char)
    ensures
        r == lower_char_spec(c),
{
    match c {
        'A' => 'a',
        'B' => 'b',
        'C' => 'c',
        'D' => 'd',
        'E' => 'e',
        'F' => 'f',
        'G' => 'g',
        'H' => 'h',
        'I' => 'i',
        'J' => 'j',
        'K' => 'k',
        'L' => 'l',
        'M' => 'm',
        'N' => 'n',
        'O' => 'o',
        'P' => 'p',
        'Q' => 'q',
        'R' => 'r',
        'S' => 's',
        'T' => 't',
        'U' => 'u',
        'V' => 'v',
        'W' => 'w',
        'X' => 'x',
        'Y' => 'y',
        'Z' => 'z',
        _ => c,
    }
}

/// Copy of a string slice as a character vector, so that verified loops can
/// index it directly.
pub fn str_to_chars(s: &str) -> (r: Vec<char>)
    ensures
        r@ == s@,
{
    let n: usize = s.unicode_len();
    let mut r: Vec<char> = Vec::new();
    let mut i: usize = 0;
    while i < n
        invariant
            i <= n,
            n == s@.len(),
            r@.len() == i,
            forall|k: int| 0 <= k < i ==> r@[k] == s@[k],
        decreases n - i,
    {
        r.push(s.get_char(i));
        i = i + 1;
    }
    assert(r@ =~= s@);
    r
}

pub fn to_lower(s: &Vec<char>) -> (r: Vec<char>)
    ensures
        r@ == lower_seq(s@),
{
    let mut r: Vec<char> = Vec::new();
    let mut i: usize = 0;
    while i < s.len()
        invariant
            i <= s@.len(),
            r@.len() == i,
            forall|k: int| 0 <= k < i ==> r@[k] == lower_char_spec(s@[k]),
        decreases s@.len() - i,
    {
        r.push(lower_char(s[i]));
        i = i + 1;
    }
    assert(r@ =~= lower_seq(s@));
    r
}

pub fn chars_eq(a: &Vec<char>, b: &Vec<char>) -> (r: bool)
    ensures
        r == (a@ == b@),
{
    if a.len() != b.len() {
        return false;
    }
    let mut i: usize = 0;
    while i < a.len()
        invariant
            i <= a@.len(),
            a@.len() == b@.len(),
            forall|k: int| 0 <= k < i ==> a@[k] == b@[k],
        decreases a@.len() - i,
    {
        if a[i] != b[i] {
            return false;
        }
        i = i + 1;
    }
    assert(a@ =~= b@);
    true
}

pub fn str_eq(a: &str, b: &str) -> (r: bool)
    ensures
        r == (a@ == b@),
{
    let av = str_to_chars(a);
    let bv = str_to_chars(b);
    chars_eq(&av, &bv)
}

pub fn contains_chars(text: &Vec<char>, pat: &Vec<char>) -> (r: bool)
    ensures
        r == contains_seq(text@, pat@),
{
    let tn = text.len();
    let pn = pat.len();
    if pn > tn {
        assert(!contains_seq(text@, pat@)) by {
            assert forall|i: int| !matches_at(text@, pat@, i) by {}
        }
        return false;
    }
    if pn == 0 {
        assert(text@.subrange(0, 0) =~= pat@);
        assert(matches_at(text@, pat@, 0));
        return true;
    }
    let mut i: usize = 0;
    while i <= tn - pn
        invariant
            1 <= pn <= tn,
            tn == text@.len(),
            pn == pat@.len(),
            i <= tn - pn + 1,
            forall|k: int| 0 <= k < i ==> !matches_at(text@, pat@, k),
        decreases tn - pn - i + 1,
    {
        let mut j: usize = 0;
        let mut mismatch: bool = false;
        while j < pn && !mismatch
            invariant
                1 <= pn <= tn,
                tn == text@.len(),
                pn == pat@.len(),
                i <= tn - pn,
                j <= pn,
                !mismatch ==> forall|q: int| 0 <= q < j ==> text@[i + q] == pat@[q],
                mismatch ==> !matches_at(text@, pat@, i as int),
            decreases pn - j + (if mismatch { 0int } else { 1int }),
        {
            if text[i + j] != pat[j] {
                proof {
                    if matches_at(text@, pat@, i as int) {
                        assert(text@.subrange(i as int, i + pat@.len())[j as int] == pat@[j as int]);
                    }
                }
                mismatch = true;
            } else {
                j = j + 1;
            }
        }
        if !mismatch {
            assert(text@.subrange(i as int, i + pat@.len()) =~= pat@);
            assert(matches_at(text@, pat@, i as int));
            return true;
        }
        i = i + 1;
    }
    assert(!contains_seq(text@, pat@)) by {
        assert forall|k: int| !matches_at(text@, pat@, k) by {
            if 0 <= k && k + pat@.len() <= text@.len() {
                assert(k < i);
            }
        }
    }
    false
}

/// The pattern is a prefix of `s`.
pub open spec fn starts_with_seq(s: Seq<char>, pat: Seq<char>) -> bool {
    pat.len() <= s.len() && s.subrange(0, pat.len() as int) == pat
}

/// The pattern is a suffix of `s`.
pub open spec fn ends_with_seq(s: Seq<char>, pat: Seq<char>) -> bool {
    pat.len() <= s.len() && s.subrange(s.len() - pat.len(), s.len() as int) == pat
}

/// Index of the first occurrence of `pat` at or after `from`, or -1.
pub open spec fn find_sub_from(text: Seq<char>, pat: Seq<char>, from: int) -> int
    decreases text.len() - from + 1,
{
    if from < 0 || from + pat.len() > text.len() {
        -1
    } else if matches_at(text, pat, from) {
        from
    } else {
        find_sub_from(text, pat, from + 1)
    }
}

/// Index of the first occurrence of `pat` in `text`, or -1.
pub open spec fn find_sub(text: Seq<char>, pat: Seq<char>) -> int {
    find_sub_from(text, pat, 0)
}

pub proof fn lemma_find_sub_from(text: Seq<char>, pat: Seq<char>, from: int)
    requires
        from >= 0,
    ensures
        find_sub_from(text, pat, from) == -1 || find_sub_from(text, pat, from) >= from,
        find_sub_from(text, pat, from) == -1 ==> forall|k: int|
            from <= k ==> !matches_at(text, pat, k),
        find_sub_from(text, pat, from) >= 0 ==> from <= find_sub_from(text, pat, from)
            && find_sub_from(text, pat, from) + pat.len() <= text.len() && matches_at(
            text,
            pat,
            find_sub_from(text, pat, from),
        ) && forall|k: int|
            from <= k < find_sub_from(text, pat, from) ==> !matches_at(text, pat, k),
    decreases text.len() - from + 1,
{
    if from + pat.len() > text.len() {
        assert forall|k: int| from <= k implies !matches_at(text, pat, k) by {}
    } else if matches_at(text, pat, from) {
    } else {
        lemma_find_sub_from(text, pat, from + 1);
    }
}

/// The pattern occurs somewhere iff the first-occurrence index is defined.
pub proof fn lemma_find_sub_contains(text: Seq<char>, pat: Seq<char>)
    ensures
        contains_seq(text, pat) <==> find_sub(text, pat) >= 0,
{
    lemma_find_sub_from(text, pat, 0);
    if contains_seq(text, pat) {
        let i = choose|i: int| matches_at(text, pat, i);
        assert(matches_at(text, pat, i));
        assert(i >= 0);
        assert(find_sub(text, pat) >= 0);
    }
    if find_sub(text, pat) >= 0 {
        assert(matches_at(text, pat, find_sub(text, pat)));
    }
}

pub fn match_at_index(text: &Vec<char>, pat: &Vec<char>, i: usize) -> (r: bool)
    ensures
        r == matches_at(text@, pat@, i as int),
{
    if pat.len() > text.len() || i > text.len() - pat.len() {
        return false;
    }
    let mut j: usize = 0;
    while j < pat.len()
        invariant
            i + pat@.len() <= text@.len(),
            text@.len() <= usize::MAX,
            j <= pat@.len(),
            forall|q: int| 0 <= q < j ==> text@[i + q] == pat@[q],
        decreases pat@.len() - j,
    {
        if text[i + j] != pat[j] {
            proof {
                if matches_at(text@, pat@, i as int) {
                    assert(text@.subrange(i as int, i + pat@.len())[j as int] == pat@[j as int]);
                }
            }
            return false;
        }
        j = j + 1;
    }
    assert(text@.subrange(i as int, i + pat@.len()) =~= pat@);
    true
}

/// First occurrence of `pat` in `text`, if any.
pub fn find_sub_chars(text: &Vec<char>, pat: &Vec<char>) -> (r: Option<usize>)
    ensures
        match r {
            Some(i) => find_sub(text@, pat@) == i as int,
            None => find_sub(text@, pat@) == -1,
        },
{
    let tn = text.len();
    let pn = pat.len();
    if pn > tn {
        return None;
    }
    if pn == 0 {
        assert(text@.subrange(0, 0) =~= pat@);
        return Some(0);
    }
    let mut i: usize = 0;
    while i <= tn - pn
        invariant
            1 <= pn <= tn,
            tn == text@.len(),
            pn == pat@.len(),
            i <= tn - pn + 1,
            find_sub_from(text@, pat@, 0) == find_sub_from(text@, pat@, i as int),
        decreases tn - pn - i + 1,
    {
        if match_at_index(text, pat, i) {
            return Some(i);
        }
        i = i + 1;
    }
    None
}

pub fn starts_with_chars(s: &Vec<char>, pat: &Vec<char>) -> (r: bool)
    ensures
        r == starts_with_seq(s@, pat@),
{
    let r = match_at_index(s, pat, 0);
    r
}

pub fn ends_with_chars(s: &Vec<char>, pat: &Vec<char>) -> (r: bool)
    ensures
        r == ends_with_seq(s@, pat@),
{
    if pat.len() > s.len() {
        return false;
    }
    let r = match_at_index(s, pat, s.len() - pat.len());
    assert(s@.len() - pat@.len() + pat@.len() == s@.len());
    r
}

} // verus!
