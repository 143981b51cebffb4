//! Replacing the occurrences of a pattern in a text.

use vstd::prelude::*;
use vstd::string::*;

verus! {

/// `text` with every occurrence of `pattern` replaced by `replacement`.
///
/// Occurrences are looked for from left to right and do not overlap: after
/// one has been found, the search goes on behind it. What was put in is not
/// searched again. An empty pattern occurs nowhere.
pub open spec fn replaced(text: Seq<char>, pattern: Seq<char>, replacement: Seq<char>) -> Seq<char>
    decreases text.len(),
{
    if pattern.len() == 0 || text.len() == 0 {
        text
    } else if pattern.is_prefix_of(text) {
        replacement + replaced(text.skip(pattern.len() as int), pattern, replacement)
    } else {
        seq![text[0]] + replaced(text.skip(1), pattern, replacement)
    }
}

/// Whether `pattern` stands somewhere in `text`. An empty pattern stands
/// nowhere.
pub open spec fn occurs_in(pattern: Seq<char>, text: Seq<char>) -> bool {
    &&& pattern.len() > 0
    &&& exists|at: int| 0 <= at <= text.len() && pattern.is_prefix_of(#[trigger] text.skip(at))
}

/// A text in which the pattern does not occur stays as it is.
pub proof fn law_absent_pattern_changes_nothing(
    text: Seq<char>,
    pattern: Seq<char>,
    replacement: Seq<char>,
)
    requires
        !occurs_in(pattern, text),
    ensures
        replaced(text, pattern, replacement) == text,
    decreases text.len(),
{
    if pattern.len() > 0 && text.len() > 0 {
        let rest = text.skip(1);
        assert(text.skip(0) =~= text);
        assert forall|at: int| 0 <= at <= rest.len() implies !pattern.is_prefix_of(
            #[trigger] rest.skip(at),
        ) by {
            assert(rest.skip(at) =~= text.skip(at + 1));
        }
        law_absent_pattern_changes_nothing(rest, pattern, replacement);
        assert(seq![text[0]] + rest =~= text);
    }
}

/// Replacing a pattern by itself changes nothing.
pub proof fn law_pattern_for_itself_changes_nothing(text: Seq<char>, pattern: Seq<char>)
    ensures
        replaced(text, pattern, pattern) == text,
    decreases text.len(),
{
    if pattern.len() > 0 && text.len() > 0 {
        if pattern.is_prefix_of(text) {
            let rest = text.skip(pattern.len() as int);
            law_pattern_for_itself_changes_nothing(rest, pattern);
            assert(pattern + rest =~= text);
        } else {
            law_pattern_for_itself_changes_nothing(text.skip(1), pattern);
            assert(seq![text[0]] + text.skip(1) =~= text);
        }
    }
}

/// The characters of `text`, in order.
fn chars_of(text: &str) -> (chars: Vec<char>)
    ensures
        chars@ == text@,
{
    let mut chars: Vec<char> = Vec::new();
    for c in it: text.chars()
        invariant
            it.seq() == text@,
            chars@ == text@.take(it.index() as int),
    {
        chars.push(c);
    }
    chars
}

/// Whether `pattern` stands in `text` at position `at`.
fn occurs_at(text: &Vec<char>, pattern: &Vec<char>, at: usize) -> (found: bool)
    requires
        at <= text.len(),
    ensures
        found == pattern@.is_prefix_of(text@.skip(at as int)),
{
    if pattern.len() > text.len() - at {
        return false;
    }
    let mut k: usize = 0;
    while k < pattern.len()
        invariant
            k <= pattern.len(),
            at + pattern.len() <= text.len(),
            forall|j: int| 0 <= j < k ==> text@[at + j] == pattern@[j],
        decreases pattern.len() - k,
    {
        if text[at + k] != pattern[k] {
            assert(text@.skip(at as int).subrange(0, pattern@.len() as int)[k as int]
                != pattern@[k as int]);
            return false;
        }
        k += 1;
    }
    assert(pattern@ =~= text@.skip(at as int).subrange(0, pattern@.len() as int));
    true
}

/// Replaces every occurrence of `pattern` in `text` by `replacement`.
pub fn replace_all(text: &str, pattern: &str, replacement: &str) -> (out: String)
    ensures
        out@ == replaced(text@, pattern@, replacement@),
{
    let source = chars_of(text);
    let sought = chars_of(pattern);
    let mut out = String::new();
    if sought.len() == 0 {
        out.append(text);
        return out;
    }
    let mut at: usize = 0;
    let mut copied: usize = 0;
    assert(text@.skip(0) =~= text@);
    assert(out@ + text@.subrange(0, 0) =~= Seq::<char>::empty());
    while at < source.len()
        invariant
            source@ == text@,
            sought@ == pattern@,
            sought@.len() > 0,
            copied <= at <= source@.len(),
            out@ + text@.subrange(copied as int, at as int) + replaced(
                text@.skip(at as int),
                pattern@,
                replacement@,
            ) == replaced(text@, pattern@, replacement@),
        decreases source@.len() - at,
    {
        let ghost rest = text@.skip(at as int);
        if occurs_at(&source, &sought, at) {
            out.append(text.substring_char(copied, at));
            out.append(replacement);
            at = at + sought.len();
            copied = at;
            assert(rest.skip(pattern@.len() as int) =~= text@.skip(at as int));
            assert(text@.subrange(copied as int, at as int) =~= Seq::<char>::empty());
        } else {
            assert(rest.skip(1) =~= text@.skip(at + 1));
            assert(text@.subrange(copied as int, at as int) + seq![rest[0]] =~= text@.subrange(
                copied as int,
                at + 1,
            ));
            at = at + 1;
        }
    }
    out.append(text.substring_char(copied, at));
    out
}

} // verus!
