//! Shortening of window titles to a character budget.
use vstd::prelude::*;
use vstd::string::*;

verus! {

/// Longest title, in characters, that a presentation layer should show.
pub const MAX_WINDOW_TITLE_LENGTH: usize = 128;

/// The three dots that stand for the characters left out.
pub open spec fn ellipsis() -> Seq<char> {
    seq!['.', '.', '.']
}

/// Characters kept from the start of a title that is shortened to `budget`:
/// two short of half the budget when it is even, one short when it is odd,
/// and none where the budget is too small for that.
pub open spec fn prefix_len(budget: nat) -> nat {
    if budget % 2 == 0 {
        if budget / 2 >= 2 { (budget / 2 - 2) as nat } else { 0 }
    } else {
        if budget / 2 >= 1 { (budget / 2 - 1) as nat } else { 0 }
    }
}

/// Characters kept from the end: what is left of the budget after the prefix
/// and the ellipsis.
pub open spec fn suffix_len(budget: nat) -> nat {
    if budget >= prefix_len(budget) + 3 { (budget - prefix_len(budget) - 3) as nat } else { 0 }
}

/// The title `s` shortened to `budget` characters.
pub open spec fn shrunk(s: Seq<char>, budget: nat) -> Seq<char> {
    if s.len() <= budget {
        s
    } else {
        s.subrange(0, prefix_len(budget) as int) + ellipsis() + s.subrange(
            s.len() - suffix_len(budget),
            s.len() as int,
        )
    }
}

/// Kept prefix and suffix never overlap: together they fit in the budget.
pub proof fn lemma_parts_fit(budget: nat)
    ensures
        prefix_len(budget) + suffix_len(budget) <= budget,
        budget >= 3 ==> prefix_len(budget) + 3 + suffix_len(budget) == budget,
{
}

/// Three dots in a row start at position `i` of `r`.
pub open spec fn ellipsis_at(r: Seq<char>, i: int) -> bool {
    &&& 0 <= i
    &&& i + 3 <= r.len()
    &&& r[i] == '.'
    &&& r[i + 1] == '.'
    &&& r[i + 2] == '.'
}

/// A title longer than the budget comes back as its kept prefix, one `"..."`
/// and its kept suffix, with their lengths added up. That `"..."` is the only
/// run of three dots in the result whenever the kept parts hold no such run
/// themselves, the prefix does not end with a dot and the suffix does not
/// start with one.
pub proof fn lemma_single_ellipsis(s: Seq<char>, budget: nat)
    requires
        s.len() > budget,
        forall|i: int| !#[trigger] ellipsis_at(s.subrange(0, prefix_len(budget) as int), i),
        forall|i: int|
            !#[trigger] ellipsis_at(
                s.subrange(s.len() - suffix_len(budget), s.len() as int),
                i,
            ),
        prefix_len(budget) > 0 ==> s[prefix_len(budget) - 1] != '.',
        suffix_len(budget) > 0 ==> s[s.len() - suffix_len(budget)] != '.',
    ensures
        shrunk(s, budget).len() == prefix_len(budget) + 3 + suffix_len(budget),
        ellipsis_at(shrunk(s, budget), prefix_len(budget) as int),
        forall|i: int| ellipsis_at(shrunk(s, budget), i) ==> i == prefix_len(budget),
{
    lemma_parts_fit(budget);
    let p = prefix_len(budget) as int;
    let q = suffix_len(budget) as int;
    let head = s.subrange(0, p);
    let tail = s.subrange(s.len() - q, s.len() as int);
    let r = shrunk(s, budget);
    assert(r == head + ellipsis() + tail);
    assert(r.len() == p + 3 + q);
    assert forall|i: int| ellipsis_at(r, i) implies i == p by {
        if i + 3 <= p {
            assert(ellipsis_at(head, i));
        } else if i < p {
            assert(r[p - 1] == '.');
        } else if p < i && i < p + 3 {
            assert(r[p + 3] == '.');
            assert(r[p + 3] == tail[0]);
        } else if i >= p + 3 {
            assert(ellipsis_at(tail, i - p - 3));
        }
    }
}

fn prefix_chars(budget: usize) -> (r: usize)
    ensures
        r == prefix_len(budget as nat),
{
    if budget % 2 == 0 {
        if budget / 2 >= 2 { budget / 2 - 2 } else { 0 }
    } else {
        if budget / 2 >= 1 { budget / 2 - 1 } else { 0 }
    }
}

/// Shortens `the_string` to `shrink_len` characters: a title that fits is
/// returned as it is; a longer one keeps its first and last characters around
/// `"..."`. Characters, not bytes, are counted, so no character is split.
pub fn shrink(the_string: &str, shrink_len: usize) -> (r: String)
    ensures
        r@ == shrunk(the_string@, shrink_len as nat),
        the_string@.len() <= shrink_len ==> r@ == the_string@,
        the_string@.len() > shrink_len ==> r@.len() == prefix_len(shrink_len as nat) + 3
            + suffix_len(shrink_len as nat),
{
    let n = the_string.unicode_len();
    if n > shrink_len {
        proof {
            lemma_parts_fit(shrink_len as nat);
        }
        let p = prefix_chars(shrink_len);
        let q: usize = if shrink_len >= p + 3 { shrink_len - p - 3 } else { 0 };
        let head = the_string.substring_char(0, p);
        let tail = the_string.substring_char(n - q, n);
        let mut out = String::from_str(head);
        out.append("...");
        out.append(tail);
        proof {
            reveal_strlit("...");
        }
        out
    } else {
        String::from_str(the_string)
    }
}

} // verus!
