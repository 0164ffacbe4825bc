use vstd::prelude::*;

verus! {

/// `pat` occurs in `text` starting at position `i`.
pub open spec fn occurs_at(text: Seq<char>, pat: Seq<char>, i: int) -> bool {
    &&& 0 <= i
    &&& i + pat.len() <= text.len()
    &&& text.subrange(i, i + pat.len() as int) == pat
}

/// `pat` occurs somewhere in `text`.
pub open spec fn occurs_in(text: Seq<char>, pat: Seq<char>) -> bool {
    exists|i: int| occurs_at(text, pat, i)
}

/// The least position at or after `from` where `term` occurs, provided no
/// newline stands between `from` and it; `None` when a newline or the end of
/// `text` comes first. This is where a lazy dot capture starting at `from`
/// would close: the dot matches anything but a newline, and laziness stops it
/// at the nearest closing occurrence.
pub open spec fn first_close_from(text: Seq<char>, term: Seq<char>, from: int) -> Option<int>
    decreases text.len() + 1 - from,
{
    if from < 0 || from + term.len() > text.len() {
        None
    } else if occurs_at(text, term, from) {
        Some(from)
    } else if text[from] == '\n' {
        None
    } else {
        first_close_from(text, term, from + 1)
    }
}

/// The least position at or after `i` where `pre` occurs and an occurrence of
/// `term` follows on the same line; `None` when there is no such position.
pub open spec fn first_hit_from(text: Seq<char>, pre: Seq<char>, term: Seq<char>, i: int) -> Option<
    int,
>
    decreases text.len() + 1 - i,
{
    if i < 0 || i + pre.len() > text.len() {
        None
    } else if occurs_at(text, pre, i) && first_close_from(text, term, i + pre.len()) is Some {
        Some(i)
    } else {
        first_hit_from(text, pre, term, i + 1)
    }
}

/// What the pattern "`pre`, then a lazy dot capture, then `term`" captures on
/// `text`: at the leftmost position where `pre` occurs with `term` following
/// on the same line, the characters between `pre` and the nearest such `term`.
pub open spec fn lazy_capture(text: Seq<char>, pre: Seq<char>, term: Seq<char>) -> Option<
    Seq<char>,
> {
    match first_hit_from(text, pre, term, 0) {
        Some(i) => match first_close_from(text, term, i + pre.len()) {
            Some(j) => Some(text.subrange(i + pre.len(), j)),
            None => None,
        },
        None => None,
    }
}

/// A closing position is at or after the position the search started from,
/// and `term` occurs there.
proof fn lemma_first_close_bounds(text: Seq<char>, term: Seq<char>, from: int, j: int)
    requires
        first_close_from(text, term, from) == Some(j),
    ensures
        from <= j,
        occurs_at(text, term, j),
    decreases text.len() + 1 - from,
{
    if from < 0 || from + term.len() > text.len() {
    } else if occurs_at(text, term, from) {
    } else if text[from] == '\n' {
    } else {
        lemma_first_close_bounds(text, term, from + 1, j);
    }
}

/// Whether `pat` occurs in `text` at position `i`, by comparing characters.
fn matches_at(text: &str, pat: &str, i: usize, pat_len: usize) -> (r: bool)
    requires
        pat_len == pat@.len(),
        i + pat@.len() <= text@.len() <= usize::MAX,
    ensures
        r == occurs_at(text@, pat@, i as int),
{
    let mut k: usize = 0;
    while k < pat_len
        invariant
            k <= pat_len,
            pat_len == pat@.len(),
            i + pat@.len() <= text@.len() <= usize::MAX,
            forall|m: int| 0 <= m < k ==> text@[i + m] == pat@[m],
        decreases pat_len - k,
    {
        if text.get_char(i + k) != pat.get_char(k) {
            proof {
                assert(text@.subrange(i as int, i + pat@.len() as int) != pat@) by {
                    if text@.subrange(i as int, i + pat@.len() as int) == pat@ {
                        assert(text@.subrange(i as int, i + pat@.len() as int)[k as int]
                            == text@[i + k]);
                    }
                }
            }
            return false;
        }
        k = k + 1;
    }
    proof {
        assert(text@.subrange(i as int, i + pat@.len() as int) =~= pat@);
    }
    true
}

/// Whether two string slices hold the same characters.
pub fn str_eq(a: &str, b: &str) -> (r: bool)
    ensures
        r == (a@ == b@),
{
    let n = a.unicode_len();
    let m = b.unicode_len();
    if n != m {
        return false;
    }
    let r = matches_at(a, b, 0, m);
    proof {
        assert(a@.subrange(0, m as int) =~= a@);
    }
    r
}

/// The position of the leftmost occurrence of `pat` in `text`, if any.
pub fn find_sub(text: &str, pat: &str) -> (r: Option<usize>)
    ensures
        match r {
            Some(i) => occurs_at(text@, pat@, i as int) && forall|j: int|
                0 <= j < i ==> !occurs_at(text@, pat@, j),
            None => !occurs_in(text@, pat@),
        },
{
    let n = text.unicode_len();
    let m = pat.unicode_len();
    if m > n {
        assert(forall|j: int| !occurs_at(text@, pat@, j));
        return None;
    }
    if m == 0 {
        proof {
            assert(text@.subrange(0, 0) =~= pat@);
        }
        return Some(0);
    }
    let mut i: usize = 0;
    while i <= n - m
        invariant
            1 <= m <= n,
            n == text@.len(),
            m == pat@.len(),
            i <= n - m + 1,
            text@.len() <= usize::MAX,
            forall|j: int| 0 <= j < i ==> !occurs_at(text@, pat@, j),
        decreases n - i,
    {
        if matches_at(text, pat, i, m) {
            return Some(i);
        }
        i = i + 1;
    }
    assert(forall|j: int| !occurs_at(text@, pat@, j));
    None
}

/// Whether `pat` occurs anywhere in `text`.
pub fn contains_sub(text: &str, pat: &str) -> (r: bool)
    ensures
        r == occurs_in(text@, pat@),
{
    let r = find_sub(text, pat);
    match r {
        Some(_) => {
            assert(occurs_in(text@, pat@));
            true
        },
        None => false,
    }
}

/// The nearest position at or after `from` where `term` occurs on the same
/// line, as `first_close_from` describes it.
fn find_close(text: &str, term: &str, from: usize, text_len: usize, term_len: usize) -> (r: Option<
    usize,
>)
    requires
        text_len == text@.len(),
        term_len == term@.len(),
        from <= text@.len() <= usize::MAX,
    ensures
        match r {
            Some(j) => first_close_from(text@, term@, from as int) == Some(j as int),
            None => first_close_from(text@, term@, from as int) is None,
        },
{
    if term_len > text_len {
        return None;
    }
    let mut j: usize = from;
    while j <= text_len - term_len
        invariant
            text_len == text@.len(),
            term_len == term@.len(),
            term_len <= text_len,
            from <= j <= text@.len() <= usize::MAX,
            first_close_from(text@, term@, from as int) == first_close_from(
                text@,
                term@,
                j as int,
            ),
        decreases text_len - j,
    {
        if matches_at(text, term, j, term_len) {
            return Some(j);
        }
        proof {
            if term@.len() == 0 {
                assert(text@.subrange(j as int, j as int) =~= term@);
            }
        }
        if text.get_char(j) == '\n' {
            return None;
        }
        j = j + 1;
    }
    None
}

/// The capture of the pattern "`pre`, then a lazy dot capture, then `term`"
/// on `text`, as `lazy_capture` describes it: the text between the leftmost
/// same-line occurrence of `pre`...`term` and its nearest close.
pub fn capture_between(text: &str, pre: &str, term: &str) -> (r: Option<String>)
    requires
        pre@.len() >= 1,
    ensures
        match r {
            Some(c) => lazy_capture(text@, pre@, term@) == Some(c@),
            None => lazy_capture(text@, pre@, term@) is None,
        },
{
    let n = text.unicode_len();
    let p = pre.unicode_len();
    if p > n {
        return None;
    }
    let mut i: usize = 0;
    while i <= n - p
        invariant
            1 <= p <= n,
            n == text@.len(),
            p == pre@.len(),
            i <= n - p + 1,
            text@.len() <= usize::MAX,
            first_hit_from(text@, pre@, term@, 0) == first_hit_from(text@, pre@, term@, i as int),
        decreases n - i,
    {
        if matches_at(text, pre, i, p) {
            let close = find_close(text, term, i + p, n, term.unicode_len());
            match close {
                Some(j) => {
                    proof {
                        lemma_first_close_bounds(text@, term@, i + p, j as int);
                    }
                    let cap = text.substring_char(i + p, j);
                    return Some(cap.to_owned());
                },
                None => {},
            }
        }
        i = i + 1;
    }
    None
}

} // verus!
