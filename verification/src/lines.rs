//! Lines of a text. The line feed is the only line break: a line starts at
//! the start of the text and behind every line feed, and a line feed belongs
//! to the line that it ends.

use vstd::prelude::*;

verus! {

/// The number of line feeds among the first `idx` characters of `text`.
pub open spec fn line_feeds_before(text: Seq<char>, idx: int) -> nat
    decreases idx,
{
    if idx <= 0 {
        0
    } else {
        line_feeds_before(text, idx - 1) + if text[idx - 1] == '\n' {
            1nat
        } else {
            0nat
        }
    }
}

/// The number of lines of `text`: one more than it has line feeds.
pub open spec fn line_count(text: Seq<char>) -> nat {
    line_feeds_before(text, text.len() as int) + 1
}

/// The index of the first character of line `line`: 0 for line 0, else the
/// index behind the `line`-th line feed; the length of `text` where it has
/// fewer line feeds.
pub open spec fn line_start(text: Seq<char>, line: nat) -> nat
    decreases text.len(),
{
    if line == 0 || text.len() == 0 {
        0
    } else if text[0] == '\n' {
        1 + line_start(text.drop_first(), (line - 1) as nat)
    } else {
        1 + line_start(text.drop_first(), line)
    }
}

/// Line `line` of `text`, with the line feed that ends it, if one does.
pub open spec fn line_text(text: Seq<char>, line: nat) -> Seq<char> {
    text.subrange(line_start(text, line) as int, line_start(text, line + 1) as int)
}

/// No prefix of a text holds more line feeds than a longer one.
pub proof fn lemma_line_feeds_monotonic(text: Seq<char>, i: int, j: int)
    requires
        i <= j,
    ensures
        line_feeds_before(text, i) <= line_feeds_before(text, j),
    decreases j - i,
{
    if i < j {
        lemma_line_feeds_monotonic(text, i, j - 1);
    }
}

/// The line feeds before an index are the first character, if it is one, and
/// the line feeds before that index in the rest.
pub proof fn lemma_line_feeds_behind_first(text: Seq<char>, idx: int)
    requires
        0 < idx <= text.len(),
    ensures
        line_feeds_before(text, idx) == line_feeds_before(text.drop_first(), idx - 1) + if text[0]
            == '\n' {
            1nat
        } else {
            0nat
        },
    decreases idx,
{
    if idx > 1 {
        lemma_line_feeds_behind_first(text, idx - 1);
        assert(text.drop_first()[idx - 2] == text[idx - 1]);
    } else {
        assert(line_feeds_before(text, 0) == 0);
        assert(line_feeds_before(text.drop_first(), 0) == 0);
    }
}

/// A line starts inside the text or at its end, and no line starts before an
/// earlier one.
pub proof fn lemma_line_start_bounds(text: Seq<char>, line: nat)
    ensures
        line_start(text, line) <= text.len(),
        line_start(text, line) <= line_start(text, line + 1),
    decreases text.len(),
{
    if text.len() > 0 {
        let rest = text.drop_first();
        lemma_line_start_bounds(rest, line);
        if line > 0 {
            lemma_line_start_bounds(rest, (line - 1) as nat);
        }
    }
}

/// The line whose index is the number of line feeds before `idx` holds the
/// character at `idx`: it starts at or before `idx` and ends behind it. At
/// the end of the text, that line is the last, and ends there.
pub proof fn lemma_line_holds_index(text: Seq<char>, idx: int)
    requires
        0 <= idx <= text.len(),
    ensures
        line_start(text, line_feeds_before(text, idx)) <= idx,
        idx < text.len() ==> idx < line_start(text, line_feeds_before(text, idx) + 1),
        idx == text.len() ==> line_start(text, line_feeds_before(text, idx) + 1) == idx,
    decreases text.len(),
{
    if text.len() == 0 {
    } else if idx == 0 {
        lemma_line_start_bounds(text.drop_first(), 0);
        lemma_line_start_bounds(text.drop_first(), 1);
    } else {
        let rest = text.drop_first();
        lemma_line_feeds_behind_first(text, idx);
        lemma_line_holds_index(rest, idx - 1);
    }
}

/// The line that ends a text holds no line feed.
pub proof fn lemma_last_line_has_no_line_feed(text: Seq<char>, idx: int)
    requires
        line_start(text, line_feeds_before(text, text.len() as int)) <= idx < text.len(),
    ensures
        text[idx] != '\n',
    decreases text.len(),
{
    let total = line_feeds_before(text, text.len() as int);
    let rest = text.drop_first();
    lemma_line_feeds_behind_first(text, text.len() as int);
    if idx == 0 {
        if text[0] == '\n' {
            assert(line_start(text, total) >= 1);
        }
    } else {
        assert(rest[idx - 1] == text[idx]);
        if total == 0 {
            lemma_line_feeds_monotonic(text, idx + 1, text.len() as int);
        } else {
            lemma_last_line_has_no_line_feed(rest, idx - 1);
        }
    }
}

} // verus!
