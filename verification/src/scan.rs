//! Going through a text character by character: lines, the first
//! occurrence of a character, and what leads a text.

use vstd::prelude::*;
use vstd::string::StrSliceExecFns;
use crate::text::texts;

verus! {

/// Whether `char::is_whitespace` of the standard library holds of a
/// character.
pub uninterp spec fn whitespace(c: char) -> bool;

/// `char::is_whitespace` of the standard library: the answer depends on
/// the character alone.
pub assume_specification[ char::is_whitespace ](c: char) -> (space: bool)
    ensures
        space == whitespace(c),
;

/// The place of the first `c` in `text` at or after `from`, or the length
/// of `text` where there is none.
pub open spec fn first_at(text: Seq<char>, c: char, from: int) -> int
    decreases text.len() - from,
{
    if from < 0 || from >= text.len() {
        text.len() as int
    } else if text[from] == c {
        from
    } else {
        first_at(text, c, from + 1)
    }
}

/// The first `c` at or after `from` is where a `c` stands with none
/// between `from` and it; with none up to the end, it is the end.
pub proof fn lemma_first_at(text: Seq<char>, c: char, from: int, found: int)
    requires
        0 <= from <= found <= text.len(),
        forall|j: int| from <= j < found ==> text[j] != c,
        found == text.len() || text[found] == c,
    ensures
        first_at(text, c, from) == found,
    decreases found - from,
{
    if from < found {
        lemma_first_at(text, c, from + 1, found);
    }
}

/// The first `c` lies within the text or at its end, with no `c` before
/// it.
pub proof fn lemma_first_at_is_first(text: Seq<char>, c: char, from: int)
    requires
        0 <= from <= text.len(),
    ensures
        from <= first_at(text, c, from) <= text.len(),
        first_at(text, c, from) < text.len() ==> text[first_at(text, c, from)] == c,
        forall|j: int| from <= j < first_at(text, c, from) ==> text[j] != c,
    decreases text.len() - from,
{
    if from < text.len() && text[from] != c {
        lemma_first_at_is_first(text, c, from + 1);
    }
}

/// A line without the carriage return that ends it, if one does.
pub open spec fn spec_without_return(line: Seq<char>) -> Seq<char> {
    if line.len() > 0 && line.last() == '\r' {
        line.drop_last()
    } else {
        line
    }
}

/// The lines of a text. A line ends with a line feed, which is not part
/// of it, nor is a carriage return just before the line feed. What
/// follows the last line feed is a line of its own unless it is empty.
pub open spec fn spec_lines(text: Seq<char>) -> Seq<Seq<char>>
    decreases text.len(),
{
    let end = first_at(text, '\n', 0);
    if text.len() == 0 {
        Seq::empty()
    } else if end < 0 || end >= text.len() {
        seq![text]
    } else {
        seq![spec_without_return(text.take(end))] + spec_lines(text.skip(end + 1))
    }
}

/// The text before the first `c` and the text after it, or `None` for a
/// text without `c`.
pub open spec fn spec_split_once(text: Seq<char>, c: char) -> Option<(Seq<char>, Seq<char>)> {
    let at = first_at(text, c, 0);
    if 0 <= at < text.len() {
        Some((text.take(at), text.skip(at + 1)))
    } else {
        None
    }
}

/// A text without the document markers `---` that lead it.
pub open spec fn spec_without_markers(text: Seq<char>) -> Seq<char>
    decreases text.len(),
{
    if text.len() >= 3 && text[0] == '-' && text[1] == '-' && text[2] == '-' {
        spec_without_markers(text.skip(3))
    } else {
        text
    }
}

/// A text without the whitespace that leads it.
pub open spec fn spec_trim_start(text: Seq<char>) -> Seq<char>
    decreases text.len(),
{
    if text.len() > 0 && whitespace(text[0]) {
        spec_trim_start(text.skip(1))
    } else {
        text
    }
}

/// Splits a text into its lines.
pub fn split_lines(text: &str) -> (lines: Vec<String>)
    ensures
        texts(lines@) == spec_lines(text@),
{
    let count = text.unicode_len();
    let mut lines: Vec<String> = Vec::new();
    let mut current = String::new();
    let mut i: usize = 0;
    let ghost mut start: int = 0;
    assert(text@.skip(0) == text@);
    assert(texts(lines@) + spec_lines(text@) == spec_lines(text@));
    assert(text@.subrange(0, 0) == Seq::<char>::empty());
    while i < count
        invariant
            count == text@.len(),
            0 <= start <= i <= count,
            texts(lines@) + spec_lines(text@.skip(start)) == spec_lines(text@),
            current@ == text@.subrange(start, i as int),
            forall|j: int| start <= j < i ==> text@[j] != '\n',
        decreases count - i,
    {
        let c = text.get_char(i);
        let ghost rest = text@.skip(start);
        let ghost done = texts(lines@);
        if c == '\n' {
            proof {
                assert forall|j: int| 0 <= j < i - start implies rest[j] != '\n' by {
                    assert(rest[j] == text@[start + j]);
                }
                lemma_first_at(rest, '\n', 0, i - start);
                assert(rest.take(i - start) == current@);
                assert(rest.skip(i - start + 1) == text@.skip(i + 1));
            }
            let ghost whole = current@;
            let last = current.pop();
            match last {
                Some(other) => {
                    if other != '\r' {
                        current.push(other);
                        assert(current@ == whole);
                    }
                },
                None => {},
            }
            assert(current@ == spec_without_return(whole));
            lines.push(current);
            current = String::new();
            proof {
                start = i + 1;
                assert(texts(lines@) == done.push(spec_without_return(whole)));
                assert(texts(lines@) + spec_lines(text@.skip(start)) == done + (seq![
                    spec_without_return(whole),
                ] + spec_lines(text@.skip(start))));
                assert(text@.subrange(start, i + 1) == Seq::<char>::empty());
            }
        } else {
            current.push(c);
            assert(text@.subrange(start, i + 1) == text@.subrange(start, i as int).push(c));
        }
        i += 1;
    }
    let ghost rest = text@.skip(start);
    let ghost done = texts(lines@);
    if !current.as_str().is_empty() {
        proof {
            assert(rest == current@);
            assert forall|j: int| 0 <= j < rest.len() implies rest[j] != '\n' by {
                assert(rest[j] == text@[start + j]);
            }
            lemma_first_at(rest, '\n', 0, rest.len() as int);
        }
        lines.push(current);
        assert(texts(lines@) == done + seq![rest]);
    } else {
        assert(rest.len() == 0);
        assert(done + Seq::<Seq<char>>::empty() == done);
    }
    lines
}

/// Splits a text at its first `c`.
pub fn split_once(text: &str, c: char) -> (parts: Option<(String, String)>)
    ensures
        parts.is_some() <==> spec_split_once(text@, c).is_some(),
        parts matches Some(pair) ==> Some((pair.0@, pair.1@)) == spec_split_once(text@, c),
{
    let count = text.unicode_len();
    let mut before = String::new();
    let mut i: usize = 0;
    assert(text@.take(0) == Seq::<char>::empty());
    while i < count && text.get_char(i) != c
        invariant
            count == text@.len(),
            i <= count,
            before@ == text@.take(i as int),
            forall|j: int| 0 <= j < i ==> text@[j] != c,
        decreases count - i,
    {
        before.push(text.get_char(i));
        assert(text@.take(i + 1) == text@.take(i as int).push(text@[i as int]));
        i += 1;
    }
    proof {
        lemma_first_at(text@, c, 0, i as int);
    }
    if i == count {
        return None;
    }
    let after = text.substring_char(i + 1, count).to_owned();
    assert(text@.subrange(i + 1, count as int) == text@.skip(i + 1));
    Some((before, after))
}

/// A text without the document markers and then the whitespace that lead
/// it.
pub fn clean_yaml(yaml: &str) -> (cleaned: String)
    ensures
        cleaned@ == spec_trim_start(spec_without_markers(yaml@)),
{
    let count = yaml.unicode_len();
    let mut i: usize = 0;
    assert(yaml@.skip(0) == yaml@);
    while count - i >= 3 && yaml.get_char(i) == '-' && yaml.get_char(i + 1) == '-' && yaml.get_char(
        i + 2,
    ) == '-'
        invariant
            count == yaml@.len(),
            i <= count,
            spec_without_markers(yaml@.skip(i as int)) == spec_without_markers(yaml@),
        decreases count - i,
    {
        assert(yaml@.skip(i as int).skip(3) == yaml@.skip(i + 3));
        i += 3;
    }
    assert(spec_without_markers(yaml@) == yaml@.skip(i as int));
    let ghost bare = yaml@.skip(i as int);
    let mut k: usize = i;
    while k < count && yaml.get_char(k).is_whitespace()
        invariant
            count == yaml@.len(),
            i <= k <= count,
            bare == yaml@.skip(i as int),
            spec_trim_start(yaml@.skip(k as int)) == spec_trim_start(bare),
        decreases count - k,
    {
        assert(yaml@.skip(k as int).skip(1) == yaml@.skip(k + 1));
        k += 1;
    }
    assert(spec_trim_start(bare) == yaml@.skip(k as int));
    assert(yaml@.subrange(k as int, count as int) == yaml@.skip(k as int));
    yaml.substring_char(k, count).to_owned()
}

} // verus!
