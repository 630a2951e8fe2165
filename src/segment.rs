use vstd::prelude::*;
use vstd::string::*;

use crate::utils::chars_of;

verus! {

/// Closing marker of a reasoning block.
pub const THINK_END: &'static str = "</think>";

/// `delim` occurs in `text` starting at character `i`.
pub open spec fn occurs_at(text: Seq<char>, delim: Seq<char>, i: int) -> bool {
    &&& 0 <= i
    &&& i + delim.len() <= text.len()
    &&& text.subrange(i, i + delim.len()) == delim
}

/// `i` is the first position at which `delim` occurs in `text`.
pub open spec fn is_first_occurrence(text: Seq<char>, delim: Seq<char>, i: int) -> bool {
    &&& occurs_at(text, delim, i)
    &&& forall|j: int| 0 <= j < i ==> !occurs_at(text, delim, j)
}

pub open spec fn contains_delim(text: Seq<char>, delim: Seq<char>) -> bool {
    exists|i: int| occurs_at(text, delim, i)
}

/// Splits `text` at the first occurrence of `delim`: the part before it and the part
/// after it; with no occurrence, an empty first part and the whole text.
pub open spec fn split_first(text: Seq<char>, delim: Seq<char>) -> (Seq<char>, Seq<char>) {
    if contains_delim(text, delim) {
        let i = choose|i: int| is_first_occurrence(text, delim, i);
        (text.subrange(0, i), text.subrange(i + delim.len(), text.len() as int))
    } else {
        (Seq::empty(), text)
    }
}

/// The (thinking, answer) segmentation of a decoded text.
pub open spec fn think_split(text: Seq<char>) -> (Seq<char>, Seq<char>) {
    split_first(text, THINK_END@)
}

fn matches_at(t: &Vec<char>, d: &Vec<char>, i: usize) -> (r: bool)
    requires
        i + d@.len() <= t@.len(),
    ensures
        r == occurs_at(t@, d@, i as int),
{
    let n = t.len();
    let mut k: usize = 0;
    while k < d.len()
        invariant
            n == t@.len(),
            k <= d@.len(),
            i + d@.len() <= t@.len(),
            forall|j: int| 0 <= j < k ==> t@[i + j] == d@[j],
        decreases d@.len() - k,
    {
        if t[i + k] != d[k] {
            assert(t@.subrange(i as int, i + d@.len())[k as int] != d@[k as int]);
            return false;
        }
        k = k + 1;
    }
    assert(t@.subrange(i as int, i + d@.len()) =~= d@);
    true
}

fn find_first(t: &Vec<char>, d: &Vec<char>) -> (r: Option<usize>)
    ensures
        match r {
            Some(i) => is_first_occurrence(t@, d@, i as int),
            None => !contains_delim(t@, d@),
        },
{
    if d.len() > t.len() {
        return None;
    }
    if d.len() == 0 {
        assert(t@.subrange(0, 0) =~= d@);
        return Some(0);
    }
    let last = t.len() - d.len();
    let mut i: usize = 0;
    while i <= last
        invariant
            i <= last + 1,
            last < usize::MAX,
            last + d@.len() == t@.len(),
            forall|j: int| 0 <= j < i ==> !occurs_at(t@, d@, j),
        decreases last + 1 - i,
    {
        if matches_at(t, d, i) {
            return Some(i);
        }
        i = i + 1;
    }
    None
}

/// Splits a decoded text into its reasoning part and its answer, at the first
/// closing reasoning marker.
pub fn split_think(text: &str) -> (r: (String, String))
    ensures
        (r.0@, r.1@) == think_split(text@),
{
    let t = chars_of(text);
    let d = chars_of(THINK_END);
    match find_first(&t, &d) {
        Some(i) => {
            let n = t.len();
            let end = i + d.len();
            let thinking = text.substring_char(0, i).to_owned();
            let answer = text.substring_char(end, n).to_owned();
            proof {
                let c = choose|c: int| is_first_occurrence(text@, THINK_END@, c);
                if c < i {
                } else if c > i {
                }
            }
            (thinking, answer)
        },
        None => (String::new(), text.to_owned()),
    }
}

/// `delim` occurs in `text` at exactly one position.
pub open spec fn occurs_once(text: Seq<char>, delim: Seq<char>) -> bool {
    exists|i: int| #[trigger] occurs_at(text, delim, i)
        && forall|j: int| occurs_at(text, delim, j) ==> j == i
}

/// Segmentation loses nothing: with exactly one closing marker in the text, the
/// reasoning part, the marker and the answer put back together give the text; with
/// none, the reasoning part is empty and the answer is the whole text.
pub proof fn lemma_split_think_segmentation(text: Seq<char>)
    ensures
        occurs_once(text, THINK_END@) ==> think_split(text).0 + THINK_END@ + think_split(
            text,
        ).1 == text,
        !contains_delim(text, THINK_END@) ==> think_split(text).0 == Seq::<char>::empty()
            && think_split(text).1 == text,
{
    let d = THINK_END@;
    if occurs_once(text, d) {
        let i = choose|i: int| #[trigger] occurs_at(text, d, i)
            && forall|j: int| occurs_at(text, d, j) ==> j == i;
        assert(is_first_occurrence(text, d, i));
        let c = choose|c: int| is_first_occurrence(text, d, c);
        assert(c == i);
        let (a, b) = think_split(text);
        assert(a + d + b =~= text) by {
            assert(text.subrange(i, i + d.len()) == d);
        }
    }
}

} // verus!
