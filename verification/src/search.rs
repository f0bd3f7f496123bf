//! Substring search over byte strings.

use vstd::prelude::*;

verus! {

/// `pat` occurs in `text` starting at byte offset `at`.
pub open spec fn occurs_at(pat: Seq<u8>, text: Seq<u8>, at: int) -> bool {
    &&& 0 <= at
    &&& at + pat.len() <= text.len()
    &&& text.subrange(at, at + pat.len()) == pat
}

/// `pat` occurs somewhere in `text` as a contiguous run of bytes.
pub open spec fn occurs_in(pat: Seq<u8>, text: Seq<u8>) -> bool {
    exists|at: int| occurs_at(pat, text, at)
}

/// Compares `pat` with the bytes of `text` that start at `at`.
fn matches_at(text: &[u8], pat: &[u8], at: usize) -> (same: bool)
    requires
        at + pat@.len() <= text@.len(),
    ensures
        same == occurs_at(pat@, text@, at as int),
{
    let width: usize = pat.len();
    let mut k: usize = 0;
    while k < width
        invariant
            k <= width == pat@.len(),
            at + width <= text.len() == text@.len(),
            forall|j: int| 0 <= j < k ==> text@[at + j] == pat@[j],
        decreases width - k,
    {
        if text[at + k] != pat[k] {
            assert(text@.subrange(at as int, at + pat@.len())[k as int] != pat@[k as int]);
            return false;
        }
        k += 1;
    }
    assert(text@.subrange(at as int, at + pat@.len()) =~= pat@);
    true
}

/// Tells whether `pat` occurs in `text`. The empty pattern occurs in every text.
pub fn contains(text: &[u8], pat: &[u8]) -> (found: bool)
    ensures
        found == occurs_in(pat@, text@),
{
    if pat.len() > text.len() {
        return false;
    }
    let last: usize = text.len() - pat.len();
    let mut at: usize = 0;
    loop
        invariant
            at <= last,
            last + pat@.len() == text@.len(),
            forall|j: int| 0 <= j < at ==> !occurs_at(pat@, text@, j),
        decreases last - at,
    {
        if matches_at(text, pat, at) {
            return true;
        }
        if at == last {
            return false;
        }
        at += 1;
    }
}

/// A pattern occurs in every text that is built around it, whatever stands
/// before and after.
pub proof fn lemma_occurs_in_embedding(pat: Seq<u8>, before: Seq<u8>, after: Seq<u8>)
    ensures
        occurs_in(pat, before + pat + after),
{
    let text = before + pat + after;
    let at = before.len() as int;
    assert(text.subrange(at, at + pat.len()) =~= pat);
    assert(occurs_at(pat, text, at));
}

/// A text that holds a pattern is some bytes, then the pattern, then some bytes.
pub proof fn lemma_occurs_in_splits(pat: Seq<u8>, text: Seq<u8>) -> (parts: (Seq<u8>, Seq<u8>))
    requires
        occurs_in(pat, text),
    ensures
        text == parts.0 + pat + parts.1,
{
    let at = choose|at: int| occurs_at(pat, text, at);
    let before = text.subrange(0, at);
    let after = text.subrange(at + pat.len(), text.len() as int);
    assert(text =~= before + text.subrange(at, at + pat.len()) + after);
    (before, after)
}

/// Bytes added before or after a text remove no occurrence from it.
pub proof fn lemma_occurs_in_widened(pat: Seq<u8>, text: Seq<u8>, before: Seq<u8>, after: Seq<u8>)
    requires
        occurs_in(pat, text),
    ensures
        occurs_in(pat, before + text + after),
{
    let at = choose|at: int| occurs_at(pat, text, at);
    let wide = before + text + after;
    let moved = before.len() as int + at;
    assert(wide.subrange(moved, moved + pat.len()) =~= text.subrange(at, at + pat.len()));
    assert(occurs_at(pat, wide, moved));
}

/// A pattern does not occur in a text that is shorter than it.
pub proof fn lemma_occurs_in_needs_room(pat: Seq<u8>, text: Seq<u8>)
    requires
        occurs_in(pat, text),
    ensures
        pat.len() <= text.len(),
{
}

/// A pattern does not occur in a text that lacks one of its bytes.
pub proof fn lemma_missing_byte_excludes(pat: Seq<u8>, text: Seq<u8>, k: int)
    requires
        0 <= k < pat.len(),
        forall|i: int| 0 <= i < text.len() ==> text[i] != pat[k],
    ensures
        !occurs_in(pat, text),
{
    if occurs_in(pat, text) {
        let at = choose|at: int| occurs_at(pat, text, at);
        assert(text.subrange(at, at + pat.len())[k] == pat[k]);
        assert(text[at + k] == pat[k]);
    }
}

/// A gap of bytes that the pattern does not hold cuts a text in two: the
/// pattern occurs in the whole exactly when it occurs before the gap or
/// after it, since no occurrence can reach across.
pub proof fn lemma_gap_splits_occurrences(
    pat: Seq<u8>,
    before: Seq<u8>,
    gap: Seq<u8>,
    after: Seq<u8>,
)
    requires
        gap.len() > 0,
        forall|i: int, j: int| 0 <= i < gap.len() && 0 <= j < pat.len() ==> gap[i] != pat[j],
    ensures
        occurs_in(pat, before + gap + after) <==> occurs_in(pat, before) || occurs_in(pat, after),
{
    let text = before + gap + after;
    let none = Seq::<u8>::empty();
    if occurs_in(pat, before) {
        assert(text =~= none + before + (gap + after));
        lemma_occurs_in_widened(pat, before, none, gap + after);
    }
    if occurs_in(pat, after) {
        assert(text =~= (before + gap) + after + none);
        lemma_occurs_in_widened(pat, after, before + gap, none);
    }
    if occurs_in(pat, text) {
        let at = choose|at: int| occurs_at(pat, text, at);
        let start = before.len() as int;
        let end = start + gap.len();
        let width = pat.len() as int;
        if width == 0 {
            assert(before.subrange(0, 0) =~= pat);
            assert(occurs_at(pat, before, 0));
        } else if at + width <= start {
            assert(before.subrange(at, at + width) =~= text.subrange(at, at + width));
            assert(occurs_at(pat, before, at));
        } else if at >= end {
            assert(after.subrange(at - end, at - end + width) =~= text.subrange(at, at + width));
            assert(occurs_at(pat, after, at - end));
        } else {
            let inside = if at >= start {
                at
            } else {
                start
            };
            assert(text[inside] == gap[inside - start]);
            assert(text.subrange(at, at + width)[inside - at] == pat[inside - at]);
            assert(false);
        }
    }
}

} // verus!
