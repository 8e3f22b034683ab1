//! Texts as sequences of characters.
use vstd::prelude::*;
use vstd::string::*;

verus! {

/// The characters with Unicode's property `White_Space`.
pub open spec fn is_white_space(c: char) -> bool {
    let code = c as u32;
    ||| 0x9 <= code <= 0xd
    ||| code == 0x20
    ||| code == 0x85
    ||| code == 0xa0
    ||| code == 0x1680
    ||| 0x2000 <= code <= 0x200a
    ||| code == 0x2028
    ||| code == 0x2029
    ||| code == 0x202f
    ||| code == 0x205f
    ||| code == 0x3000
}

/// A text without its leading white space.
pub open spec fn trimmed_start(text: Seq<char>) -> Seq<char>
    decreases text.len(),
{
    if text.len() > 0 && is_white_space(text[0]) {
        trimmed_start(text.drop_first())
    } else {
        text
    }
}

/// A text without its trailing white space.
pub open spec fn trimmed_end(text: Seq<char>) -> Seq<char>
    decreases text.len(),
{
    if text.len() > 0 && is_white_space(text.last()) {
        trimmed_end(text.drop_last())
    } else {
        text
    }
}

/// A text without its leading and trailing white space.
pub open spec fn trimmed(text: Seq<char>) -> Seq<char> {
    trimmed_end(trimmed_start(text))
}

/// Nothing but white space.
pub open spec fn is_blank(text: Seq<char>) -> bool {
    trimmed(text).len() == 0
}

/// A text without the run of a character at its end.
pub open spec fn without_trailing(text: Seq<char>, c: char) -> Seq<char>
    decreases text.len(),
{
    if text.len() > 0 && text.last() == c {
        without_trailing(text.drop_last(), c)
    } else {
        text
    }
}

/// Whether a text ends in another.
pub open spec fn has_suffix(text: Seq<char>, suffix: Seq<char>) -> bool {
    text.len() >= suffix.len() && text.skip(text.len() - suffix.len()) == suffix
}

/// `str::trim`: the text without leading and trailing white space, as Unicode's
/// `White_Space` defines it.
pub assume_specification[ str::trim ](text: &str) -> (rest: &str)
    ensures
        rest@ == trimmed(text@),
;

/// Whether two texts are equal.
pub(crate) fn same_text(left: &str, right: &str) -> (same: bool)
    ensures
        same == (left@ == right@),
{
    left.to_owned() == right.to_owned()
}

/// The two texts in a row.
pub(crate) fn join(left: &str, right: &str) -> (joined: String)
    ensures
        joined@ == left@ + right@,
{
    left.to_owned().concat(right)
}

/// The text without the run of a character at its end.
pub(crate) fn trim_end_char(text: &str, c: char) -> (rest: &str)
    ensures
        rest@ == without_trailing(text@, c),
{
    let mut end: usize = text.unicode_len();
    assert(text@.take(end as int) =~= text@);
    while end > 0 && text.get_char(end - 1) == c
        invariant
            end <= text@.len(),
            without_trailing(text@.take(end as int), c) == without_trailing(text@, c),
        decreases end,
    {
        assert(text@.take(end as int).drop_last() =~= text@.take(end - 1));
        end = end - 1;
    }
    text.substring_char(0, end)
}

/// Whether the text ends in the suffix.
pub(crate) fn ends_with(text: &str, suffix: &str) -> (found: bool)
    ensures
        found == has_suffix(text@, suffix@),
{
    let length: usize = text.unicode_len();
    let suffix_length: usize = suffix.unicode_len();
    length >= suffix_length && same_text(text.substring_char(length - suffix_length, length), suffix)
}

// ---------------------------------------------------------------------------
// Laws

/// What trimming at the start leaves out is white space, and what it leaves begins with
/// none.
proof fn lemma_trimmed_start(text: Seq<char>) -> (start: int)
    ensures
        0 <= start <= text.len(),
        trimmed_start(text) == text.skip(start),
        forall|i: int| 0 <= i < start ==> is_white_space(#[trigger] text[i]),
        start < text.len() ==> !is_white_space(text[start]),
    decreases text.len(),
{
    if text.len() > 0 && is_white_space(text[0]) {
        let rest = text.drop_first();
        let start = lemma_trimmed_start(rest);
        assert(rest.skip(start) =~= text.skip(start + 1));
        assert forall|i: int| 0 <= i < start + 1 implies is_white_space(#[trigger] text[i]) by {
            if i > 0 {
                assert(rest[i - 1] == text[i]);
            }
        }
        start + 1
    } else {
        assert(text.skip(0) =~= text);
        0
    }
}

/// What trimming at the end leaves out is white space, and what it leaves ends in none.
proof fn lemma_trimmed_end(text: Seq<char>) -> (end: int)
    ensures
        0 <= end <= text.len(),
        trimmed_end(text) == text.take(end),
        forall|i: int| end <= i < text.len() ==> is_white_space(#[trigger] text[i]),
        end > 0 ==> !is_white_space(text[end - 1]),
    decreases text.len(),
{
    if text.len() > 0 && is_white_space(text.last()) {
        let rest = text.drop_last();
        let end = lemma_trimmed_end(rest);
        assert(rest.take(end) =~= text.take(end));
        assert forall|i: int| end <= i < text.len() implies is_white_space(#[trigger] text[i]) by {
            if i < rest.len() {
                assert(rest[i] == text[i]);
            }
        }
        end
    } else {
        assert(text.take(text.len() as int) =~= text);
        text.len() as int
    }
}

/// Trimming takes away the white space around a text and nothing else: a text that
/// begins and ends in something else is what is left of it, whatever white space is put
/// around it.
pub proof fn law_trimming_removes_the_white_space_around(
    before: Seq<char>,
    text: Seq<char>,
    after: Seq<char>,
)
    requires
        forall|i: int| 0 <= i < before.len() ==> is_white_space(#[trigger] before[i]),
        forall|i: int| 0 <= i < after.len() ==> is_white_space(#[trigger] after[i]),
        text.len() > 0 ==> !is_white_space(text[0]) && !is_white_space(text.last()),
    ensures
        trimmed(before + text + after) == text,
{
    let whole = before + text + after;
    let start = lemma_trimmed_start(whole);
    let rest = trimmed_start(whole);
    let end = lemma_trimmed_end(rest);
    assert forall|i: int| 0 <= i < before.len() implies is_white_space(#[trigger] whole[i]) by {
        assert(whole[i] == before[i]);
    }
    assert forall|i: int|
        before.len() + text.len() <= i < whole.len() implies is_white_space(
        #[trigger] whole[i],
    ) by {
        assert(whole[i] == after[i - before.len() - text.len()]);
    }
    if text.len() > 0 {
        assert(whole[before.len() as int] == text[0]);
        assert(start == before.len());
        let last = before.len() + text.len() - 1;
        assert(whole[last] == text.last());
        assert(rest[text.len() - 1] == whole[last]);
        assert(end == text.len()) by {
            if end > text.len() {
                assert(rest[end - 1] == whole[start + end - 1]);
            }
        }
    } else {
        assert(start == whole.len());
    }
    assert(trimmed(whole) =~= text);
}

/// A text is blank exactly where each of its characters is white space.
pub proof fn law_blank_is_all_white_space(text: Seq<char>)
    ensures
        is_blank(text) <==> forall|i: int| 0 <= i < text.len() ==> is_white_space(#[trigger] text[i]),
{
    let start = lemma_trimmed_start(text);
    let rest = trimmed_start(text);
    let end = lemma_trimmed_end(rest);
    if start < text.len() {
        assert(rest[0] == text[start]);
    }
}

/// The white space of a text: tabulators, ends of lines, and spaces of every width.
pub proof fn law_white_space(c: char)
    ensures
        is_white_space(c) <==> ('\u{9}' <= c <= '\u{d}' || c == ' ' || c == '\u{85}' || c
            == '\u{a0}' || c == '\u{1680}' || '\u{2000}' <= c <= '\u{200a}' || c == '\u{2028}' || c
            == '\u{2029}' || c == '\u{202f}' || c == '\u{205f}' || c == '\u{3000}'),
{
}

/// A run of a character at the end of a text is taken away whole, and nothing else is.
pub proof fn law_trailing_run_is_removed(text: Seq<char>, run: Seq<char>, c: char)
    requires
        text.len() > 0 ==> text.last() != c,
        forall|i: int| 0 <= i < run.len() ==> #[trigger] run[i] == c,
    ensures
        without_trailing(text + run, c) == text,
    decreases run.len(),
{
    if run.len() > 0 {
        assert((text + run).drop_last() =~= text + run.drop_last());
        assert((text + run).last() == run[run.len() - 1]);
        law_trailing_run_is_removed(text, run.drop_last(), c);
    } else {
        assert(text + run =~= text);
    }
}

/// A text has a suffix exactly where it is something followed by the suffix.
pub proof fn law_suffix_is_at_the_end(text: Seq<char>, suffix: Seq<char>)
    ensures
        has_suffix(text, suffix) <==> exists|start: Seq<char>| text == #[trigger] (start + suffix),
{
    if has_suffix(text, suffix) {
        let start = text.take(text.len() - suffix.len());
        assert(text =~= start + suffix);
    }
    if exists|start: Seq<char>| text == #[trigger] (start + suffix) {
        let start = choose|start: Seq<char>| text == #[trigger] (start + suffix);
        assert(text.skip(text.len() - suffix.len()) =~= suffix);
    }
}

} // verus!
