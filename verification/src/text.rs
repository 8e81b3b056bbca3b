//! Text normalisation: locale tags, stray control characters, hyphenation
//! artifacts and duplicate entries.

use itertools::Itertools;
use vstd::prelude::*;

verus! {

/// Whether `pattern` occurs in `text` as a run of adjacent characters.
pub open spec fn has_substring(text: Seq<char>, pattern: Seq<char>) -> bool {
    exists|i: int|
        0 <= i && i + pattern.len() <= text.len() && #[trigger] text.subrange(
            i,
            i + pattern.len(),
        ) == pattern
}

/// `text` in which each occurrence of `pattern` is replaced by `with`. Occurrences
/// are found from the left and do not overlap. An empty pattern replaces nothing.
pub open spec fn replaced(text: Seq<char>, pattern: Seq<char>, with: Seq<char>) -> Seq<char>
    decreases text.len(),
{
    if pattern.len() == 0 || text.len() < pattern.len() {
        text
    } else if text.subrange(0, pattern.len() as int) == pattern {
        with + replaced(text.subrange(pattern.len() as int, text.len() as int), pattern, with)
    } else {
        seq![text[0]] + replaced(text.subrange(1, text.len() as int), pattern, with)
    }
}

/// Whether two occurrences of `pattern` can overlap: an end of the pattern is
/// also its beginning.
pub open spec fn overlaps_itself(pattern: Seq<char>) -> bool {
    exists|k: int|
        0 < k < pattern.len() && #[trigger] pattern.subrange(k, pattern.len() as int)
            == pattern.subrange(0, pattern.len() - k)
}

/// The items of a sequence in the order of their first occurrence, each once.
pub open spec fn first_occurrences(items: Seq<Seq<char>>) -> Seq<Seq<char>>
    decreases items.len(),
{
    if items.len() == 0 {
        Seq::empty()
    } else {
        let earlier = first_occurrences(items.drop_last());
        if earlier.contains(items.last()) {
            earlier
        } else {
            earlier.push(items.last())
        }
    }
}

/// Calls `str::contains` of std with a string pattern. Trusted: the result says
/// whether the pattern's characters occur in the text one after another.
#[verifier::external_body]
fn str_contains(text: &str, pattern: &str) -> (found: bool)
    ensures
        found == has_substring(text@, pattern@),
{
    text.contains(pattern)
}

/// Calls `str::replace` of std with a string pattern that is not empty and
/// whose occurrences cannot overlap. Trusted: std replaces every match of the
/// pattern and copies the rest of the text as it is.
#[verifier::external_body]
pub(crate) fn str_replace(text: &str, pattern: &str, with: &str) -> (out: String)
    requires
        pattern@.len() > 0,
        !overlaps_itself(pattern@),
    ensures
        out@ == replaced(text@, pattern@, with@),
{
    text.replace(pattern, with)
}

/// Calls `Itertools::unique` of itertools on the strings. Trusted: the adaptor
/// drops every item that it has produced before and keeps the others in the
/// order in which they came.
#[verifier::external_body]
fn unique_strings(items: Vec<String>) -> (out: Vec<String>)
    ensures
        out.deep_view() == first_occurrences(items.deep_view()),
{
    items.into_iter().unique().collect()
}

/// The tag of a locale counts as English if it holds the letters `en` side by side.
pub open spec fn is_english_tag(tag: Seq<char>) -> bool {
    has_substring(tag, seq!['e', 'n'])
}

/// Tests a locale tag for English.
pub fn is_english(tag: &str) -> (english: bool)
    ensures
        english == is_english_tag(tag@),
{
    proof {
        reveal_strlit("en");
        assert("en"@ =~= seq!['e', 'n']);
    }
    str_contains(tag, "en")
}

/// A line break or a form feed becomes a space; any other character stays.
pub open spec fn spaced(c: char) -> char {
    if c == '\n' || c == '\u{c}' {
        ' '
    } else {
        c
    }
}

/// `text` with each line break and each form feed replaced by one space.
pub open spec fn cleaned(text: Seq<char>) -> Seq<char> {
    text.map_values(|c: char| spaced(c))
}

/// `text` without the hyphenation artifacts: a soft hyphen followed by a space.
pub open spec fn unhyphenated(text: Seq<char>) -> Seq<char> {
    replaced(text, seq!['\u{ad}', ' '], Seq::empty())
}

/// `text` with every `from` exchanged for `to`.
pub open spec fn exchanged(text: Seq<char>, from: char, to: char) -> Seq<char> {
    text.map_values(
        |c: char|
            if c == from {
                to
            } else {
                c
            },
    )
}

/// Replacing a pattern of one character by one character exchanges that
/// character wherever it stands.
pub proof fn lemma_replaced_single(text: Seq<char>, from: char, to: char)
    ensures
        replaced(text, seq![from], seq![to]) == exchanged(text, from, to),
    decreases text.len(),
{
    if text.len() > 0 {
        let rest = text.subrange(1, text.len() as int);
        lemma_replaced_single(rest, from, to);
        assert(text.subrange(0, 1) =~= seq![text[0]]);
        assert((text.subrange(0, 1) == seq![from]) == (text[0] == from)) by {
            if text[0] == from {
                assert(text.subrange(0, 1) =~= seq![from]);
            } else {
                assert(text.subrange(0, 1)[0] != seq![from][0]);
            }
        }
        assert(replaced(text, seq![from], seq![to]) =~= exchanged(text, from, to));
    } else {
        assert(replaced(text, seq![from], seq![to]) =~= exchanged(text, from, to));
    }
}

/// A cleaned text is as long as the text, holds neither a line break nor a form
/// feed, and differs from the text only where one of them stood.
pub proof fn lemma_cleaned(text: Seq<char>)
    ensures
        cleaned(text).len() == text.len(),
        forall|i: int|
            0 <= i < text.len() ==> (#[trigger] cleaned(text)[i]) != '\n' && cleaned(text)[i]
                != '\u{c}',
        forall|i: int|
            0 <= i < text.len() && text[i] != '\n' && text[i] != '\u{c}' ==> (#[trigger] cleaned(
                text,
            )[i]) == text[i],
        cleaned(cleaned(text)) == cleaned(text),
{
    assert(cleaned(cleaned(text)) =~= cleaned(text));
}

/// Replaces line breaks and form feeds by spaces.
pub fn clean_text(text: &str) -> (out: String)
    ensures
        out@ == cleaned(text@),
{
    proof {
        reveal_strlit("\n");
        reveal_strlit("\u{c}");
        reveal_strlit(" ");
        assert("\n"@ =~= seq!['\n']);
        assert("\u{c}"@ =~= seq!['\u{c}']);
        assert(" "@ =~= seq![' ']);
    }
    let unbroken = str_replace(text, "\n", " ");
    let out = str_replace(unbroken.as_str(), "\u{c}", " ");
    proof {
        lemma_replaced_single(text@, '\n', ' ');
        lemma_replaced_single(unbroken@, '\u{c}', ' ');
        assert(out@ =~= cleaned(text@));
    }
    out
}

/// Removes the hyphenation artifacts: each soft hyphen that a space follows, with
/// that space.
pub fn strip_soft_hyphens(text: &str) -> (out: String)
    ensures
        out@ == unhyphenated(text@),
{
    proof {
        reveal_strlit("\u{ad} ");
        reveal_strlit("");
        let pattern = seq!['\u{ad}', ' '];
        assert("\u{ad} "@ =~= pattern);
        assert(""@ =~= Seq::<char>::empty());
        assert forall|k: int| 0 < k < pattern.len() implies #[trigger] pattern.subrange(
            k,
            pattern.len() as int,
        ) != pattern.subrange(0, pattern.len() - k) by {
            assert(pattern.subrange(1, 2)[0] == ' ');
            assert(pattern.subrange(0, 1)[0] == '\u{ad}');
        }
    }
    str_replace(text, "\u{ad} ", "")
}

/// The first occurrences of a sequence hold no text twice, and hold exactly the
/// texts of the sequence.
pub proof fn lemma_first_occurrences(items: Seq<Seq<char>>)
    ensures
        first_occurrences(items).no_duplicates(),
        first_occurrences(items).len() <= items.len(),
        forall|t: Seq<char>| first_occurrences(items).contains(t) <==> items.contains(t),
    decreases items.len(),
{
    let kept = first_occurrences(items);
    if items.len() > 0 {
        let front = items.drop_last();
        let earlier = first_occurrences(front);
        lemma_first_occurrences(front);
        assert forall|t: Seq<char>| kept.contains(t) <==> items.contains(t) by {
            if items.contains(t) {
                let i = choose|i: int| 0 <= i < items.len() && items[i] == t;
                if i < items.len() - 1 {
                    assert(front[i] == t);
                    assert(front.contains(t));
                    assert(first_occurrences(front).contains(t));
                    let k = choose|k: int| 0 <= k < earlier.len() && earlier[k] == t;
                    assert(kept[k] == t);
                } else if !earlier.contains(t) {
                    assert(kept[kept.len() - 1] == t);
                }
            }
            if kept.contains(t) {
                let k = choose|k: int| 0 <= k < kept.len() && kept[k] == t;
                if k < earlier.len() {
                    assert(earlier[k] == t);
                    assert(first_occurrences(front).contains(t));
                    assert(front.contains(t));
                    let i = choose|i: int| 0 <= i < front.len() && front[i] == t;
                    assert(items[i] == t);
                } else {
                    assert(items[items.len() - 1] == t);
                }
            }
        }
    }
}

/// Drops each text that came before, and keeps the others in their order.
pub fn unique_texts(items: Vec<String>) -> (kept: Vec<String>)
    ensures
        kept.deep_view() == first_occurrences(items.deep_view()),
        kept.deep_view().no_duplicates(),
        kept.len() <= items.len(),
        forall|t: Seq<char>| kept.deep_view().contains(t) <==> items.deep_view().contains(t),
{
    proof {
        lemma_first_occurrences(items.deep_view());
    }
    unique_strings(items)
}

/// A copy of the texts.
pub fn copy_texts(texts: &Vec<String>) -> (copy: Vec<String>)
    ensures
        copy.deep_view() == texts.deep_view(),
{
    let mut copy: Vec<String> = Vec::new();
    let mut i: usize = 0;
    while i < texts.len()
        invariant
            i <= texts.len(),
            copy.len() == i,
            forall|k: int| 0 <= k < i ==> copy[k]@ == texts[k]@,
        decreases texts.len() - i,
    {
        copy.push(texts[i].clone());
        i += 1;
    }
    proof {
        assert(copy.deep_view() =~= texts.deep_view());
    }
    copy
}

} // verus!
