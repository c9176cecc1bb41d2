//! Character-level scanning shared by the renderer: locating literal
//! occurrences and `{{tag…}}`-style tokens inside a text, with the
//! specifications the render passes are proved against.

use vstd::prelude::*;
use vstd::string::StrSliceExecFns;

verus! {

/// `pat` occurs in `s` starting at position `i`.
pub open spec fn lit_at(s: Seq<char>, pat: Seq<char>, i: int) -> bool {
    &&& 0 <= i
    &&& i + pat.len() <= s.len()
    &&& forall|j: int| 0 <= j < pat.len() ==> s[i + j] == pat[j]
}

/// Position of the first `}` at or after `p`, if any.
pub open spec fn first_close(s: Seq<char>, p: int) -> Option<int>
    decreases s.len() - p,
{
    if p < 0 || p >= s.len() {
        None
    } else if s[p] == '}' {
        Some(p)
    } else {
        first_close(s, p + 1)
    }
}

/// A complete token opens with `tag` at `i`, holds at least one argument
/// character, and is closed by the first `}` after the tag followed
/// immediately by a second `}`.
pub open spec fn tagged_at(s: Seq<char>, tag: Seq<char>, i: int) -> bool {
    &&& lit_at(s, tag, i)
    &&& match first_close(s, i + tag.len()) {
        Some(k) => i + tag.len() < k && k + 1 < s.len() && s[k + 1] == '}',
        None => false,
    }
}

/// Start of the leftmost complete token opened by `tag` at or after `from`.
pub open spec fn first_tag(s: Seq<char>, tag: Seq<char>, from: int) -> Option<int>
    decreases s.len() - from,
{
    if from < 0 || from >= s.len() {
        None
    } else if tagged_at(s, tag, from) {
        Some(from)
    } else {
        first_tag(s, tag, from + 1)
    }
}

/// Start of the leftmost occurrence of `pat` at or after `from`.
pub open spec fn first_lit(s: Seq<char>, pat: Seq<char>, from: int) -> Option<int>
    decreases s.len() - from,
{
    if from < 0 || from >= s.len() {
        None
    } else if lit_at(s, pat, from) {
        Some(from)
    } else {
        first_lit(s, pat, from + 1)
    }
}

pub proof fn lemma_first_close_at(s: Seq<char>, p: int, k: int)
    requires
        0 <= p <= k < s.len(),
        s[k] == '}',
        forall|j: int| p <= j < k ==> s[j] != '}',
    ensures
        first_close(s, p) == Some(k),
    decreases k - p,
{
    if p < k {
        lemma_first_close_at(s, p + 1, k);
    }
}

pub proof fn lemma_first_close_none(s: Seq<char>, p: int)
    requires
        0 <= p,
        forall|j: int| p <= j < s.len() ==> s[j] != '}',
    ensures
        first_close(s, p) is None,
    decreases s.len() - p,
{
    if p < s.len() {
        lemma_first_close_none(s, p + 1);
    }
}

pub proof fn lemma_first_tag_props(s: Seq<char>, tag: Seq<char>, from: int)
    requires
        0 <= from,
    ensures
        match first_tag(s, tag, from) {
            Some(i) => from <= i < s.len() && tagged_at(s, tag, i) && (forall|j: int|
                from <= j < i ==> !tagged_at(s, tag, j)),
            None => forall|j: int| from <= j < s.len() ==> !tagged_at(s, tag, j),
        },
    decreases s.len() - from,
{
    if from < s.len() && !tagged_at(s, tag, from) {
        lemma_first_tag_props(s, tag, from + 1);
    }
}

pub proof fn lemma_first_tag_at(s: Seq<char>, tag: Seq<char>, from: int, i: int)
    requires
        0 <= from <= i < s.len(),
        tagged_at(s, tag, i),
        forall|j: int| from <= j < i ==> !tagged_at(s, tag, j),
    ensures
        first_tag(s, tag, from) == Some(i),
    decreases i - from,
{
    if from < i {
        lemma_first_tag_at(s, tag, from + 1, i);
    }
}

pub proof fn lemma_first_tag_none(s: Seq<char>, tag: Seq<char>, from: int)
    requires
        0 <= from,
        forall|j: int| from <= j < s.len() ==> !tagged_at(s, tag, j),
    ensures
        first_tag(s, tag, from) is None,
    decreases s.len() - from,
{
    if from < s.len() {
        lemma_first_tag_none(s, tag, from + 1);
    }
}

pub proof fn lemma_first_lit_props(s: Seq<char>, pat: Seq<char>, from: int)
    requires
        0 <= from,
    ensures
        match first_lit(s, pat, from) {
            Some(i) => from <= i < s.len() && lit_at(s, pat, i) && (forall|j: int|
                from <= j < i ==> !lit_at(s, pat, j)),
            None => forall|j: int| from <= j < s.len() ==> !lit_at(s, pat, j),
        },
    decreases s.len() - from,
{
    if from < s.len() && !lit_at(s, pat, from) {
        lemma_first_lit_props(s, pat, from + 1);
    }
}

pub proof fn lemma_first_lit_at(s: Seq<char>, pat: Seq<char>, from: int, i: int)
    requires
        0 <= from <= i < s.len(),
        lit_at(s, pat, i),
        forall|j: int| from <= j < i ==> !lit_at(s, pat, j),
    ensures
        first_lit(s, pat, from) == Some(i),
    decreases i - from,
{
    if from < i {
        lemma_first_lit_at(s, pat, from + 1, i);
    }
}

pub proof fn lemma_first_lit_none(s: Seq<char>, pat: Seq<char>, from: int)
    requires
        0 <= from,
        forall|j: int| from <= j < s.len() ==> !lit_at(s, pat, j),
    ensures
        first_lit(s, pat, from) is None,
    decreases s.len() - from,
{
    if from < s.len() {
        lemma_first_lit_none(s, pat, from + 1);
    }
}

/// Does `pat` occur at position `i` of `s`?
pub fn lit_matches_at(s: &str, pat: &Vec<char>, i: usize) -> (r: bool)
    requires
        i + pat@.len() <= s@.len(),
        s@.len() <= usize::MAX,
    ensures
        r == lit_at(s@, pat@, i as int),
{
    let mut j: usize = 0;
    while j < pat.len()
        invariant
            0 <= j <= pat@.len(),
            i + pat@.len() <= s@.len(),
            s@.len() <= usize::MAX,
            forall|t: int| 0 <= t < j ==> s@[i + t] == pat@[t],
        decreases pat@.len() - j,
    {
        if s.get_char(i + j) != pat[j] {
            return false;
        }
        j += 1;
    }
    true
}

/// Leftmost occurrence of `pat` at or after `from`.
pub fn find_literal(s: &str, pat: &Vec<char>, from: usize) -> (r: Option<usize>)
    ensures
        match r {
            Some(i) => {
                &&& first_lit(s@, pat@, from as int) == Some(i as int)
                &&& from <= i
                &&& lit_at(s@, pat@, i as int)
            },
            None => first_lit(s@, pat@, from as int) is None,
        },
{
    let n = s.unicode_len();
    let mut i = from;
    while i < n
        invariant
            from <= i,
            n == s@.len(),
            forall|j: int| from <= j < i ==> !lit_at(s@, pat@, j),
        decreases n - i,
    {
        if pat.len() <= n - i {
            if lit_matches_at(s, pat, i) {
                proof {
                    lemma_first_lit_at(s@, pat@, from as int, i as int);
                }
                return Some(i);
            }
        }
        i += 1;
    }
    proof {
        lemma_first_lit_none(s@, pat@, from as int);
    }
    None
}

/// Leftmost complete token opened by `tag` at or after `from`; yields the
/// token's start and the position of its first closing brace.
pub fn find_tagged(s: &str, tag: &Vec<char>, from: usize) -> (r: Option<(usize, usize)>)
    ensures
        match r {
            Some(ik) => {
                &&& first_tag(s@, tag@, from as int) == Some(ik.0 as int)
                &&& tagged_at(s@, tag@, ik.0 as int)
                &&& first_close(s@, ik.0 + tag@.len()) == Some(ik.1 as int)
                &&& from <= ik.0
                &&& ik.0 + tag@.len() < ik.1
                &&& ik.1 + 1 < s@.len()
                &&& s@[ik.1 as int] == '}'
                &&& s@[ik.1 + 1] == '}'
            },
            None => first_tag(s@, tag@, from as int) is None,
        },
{
    let n = s.unicode_len();
    let mut i = from;
    while i < n
        invariant
            from <= i,
            n == s@.len(),
            forall|j: int| from <= j < i ==> !tagged_at(s@, tag@, j),
        decreases n - i,
    {
        if tag.len() <= n - i {
            if lit_matches_at(s, tag, i) {
                let start = i + tag.len();
                let mut k = start;
                while k < n && s.get_char(k) != '}'
                    invariant
                        start <= k <= n,
                        n == s@.len(),
                        forall|j: int| start <= j < k ==> s@[j] != '}',
                    decreases n - k,
                {
                    k += 1;
                }
                if k == n {
                    // No closing brace anywhere to the right: no candidate at
                    // or after `i` can complete.
                    proof {
                        assert forall|j: int| i <= j < s@.len() implies !tagged_at(
                            s@,
                            tag@,
                            j,
                        ) by {
                            if lit_at(s@, tag@, j) {
                                lemma_first_close_none(s@, j + tag@.len());
                            }
                        }
                        lemma_first_tag_none(s@, tag@, from as int);
                    }
                    return None;
                }
                proof {
                    lemma_first_close_at(s@, start as int, k as int);
                }
                if k > start && k + 1 < n {
                    if s.get_char(k + 1) == '}' {
                        proof {
                            lemma_first_tag_at(s@, tag@, from as int, i as int);
                        }
                        return Some((i, k));
                    }
                }
            }
        }
        i += 1;
    }
    proof {
        lemma_first_tag_none(s@, tag@, from as int);
    }
    None
}

} // verus!
