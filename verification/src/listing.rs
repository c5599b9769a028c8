//! The process listing: the text that the OS's process-listing command
//! prints, one comma-separated record per line with the quoted image name
//! first, and the executable names read out of it.

use vstd::prelude::*;
use vstd::std_specs::iter::IteratorSpec;

verus! {

/// `text` with every leading `c` removed.
pub open spec fn without_leading(text: Seq<char>, c: char) -> Seq<char>
    decreases text.len(),
{
    if text.len() > 0 && text[0] == c {
        without_leading(text.drop_first(), c)
    } else {
        text
    }
}

/// `text` with every trailing `c` removed.
pub open spec fn without_trailing(text: Seq<char>, c: char) -> Seq<char>
    decreases text.len(),
{
    if text.len() > 0 && text.last() == c {
        without_trailing(text.drop_last(), c)
    } else {
        text
    }
}

/// `text` with every leading and trailing `c` removed.
pub open spec fn trimmed(text: Seq<char>, c: char) -> Seq<char> {
    without_trailing(without_leading(text, c), c)
}

/// The part of `text` before the first `c`; all of `text` when it holds no
/// `c`.
pub open spec fn before_first(text: Seq<char>, c: char) -> Seq<char>
    decreases text.len(),
{
    if text.len() == 0 || text[0] == c {
        Seq::empty()
    } else {
        seq![text[0]] + before_first(text.drop_first(), c)
    }
}

/// `line` without the carriage return at its end, if it has one.
pub open spec fn without_carriage_return(line: Seq<char>) -> Seq<char> {
    if line.len() > 0 && line.last() == '\r' {
        line.drop_last()
    } else {
        line
    }
}

/// The lines of `text`. A line ends at a line feed, or at a carriage return
/// directly followed by one; neither belongs to the line. The last line need
/// not be ended, and a line feed at the very end of `text` starts no further
/// line.
pub open spec fn listing_lines(text: Seq<char>) -> Seq<Seq<char>>
    decreases text.len(),
{
    if text.len() == 0 {
        Seq::empty()
    } else {
        let first = before_first(text, '\n');
        if first.len() < text.len() {
            seq![without_carriage_return(first)] + listing_lines(text.skip(first.len() as int + 1))
        } else {
            seq![first]
        }
    }
}

/// What `str::to_lowercase` makes of `text`: its lowercase equivalent under
/// the Unicode case mapping.
pub uninterp spec fn lowercase(text: Seq<char>) -> Seq<char>;

/// `str::to_lowercase` of std. The result is a function of the characters of
/// `text` alone; nothing more is claimed of it.
#[verifier::external_body]
fn to_lowercase(text: &str) -> (lowered: String)
    ensures
        lowered@ == lowercase(text@),
{
    text.to_lowercase()
}

/// The image name as a line of the listing spells it: the first
/// comma-separated field, without the double quotes around it.
pub open spec fn image_field(line: Seq<char>) -> Seq<char> {
    trimmed(before_first(line, ','), '"')
}

/// The executable name that a line of the listing stands for: its image name
/// in lowercase.
pub open spec fn entry_name(line: Seq<char>) -> Seq<char> {
    lowercase(image_field(line))
}

/// The names that `lines` stand for, empty ones left out.
pub open spec fn names_in(lines: Seq<Seq<char>>) -> Set<Seq<char>> {
    Set::new(
        |name: Seq<char>|
            name.len() > 0 && exists|i: int|
                0 <= i < lines.len() && #[trigger] entry_name(lines[i]) == name,
    )
}

/// The executable names in a process listing.
pub open spec fn listing_names(text: Seq<char>) -> Set<Seq<char>> {
    names_in(listing_lines(text))
}

/// Scans `chars[from..to]` for the first `c`. Returns its index, or `to` when
/// there is none.
pub(crate) fn find_in(chars: &Vec<char>, from: usize, to: usize, c: char) -> (at: usize)
    requires
        from <= to <= chars.len(),
    ensures
        from <= at <= to,
        before_first(chars@.subrange(from as int, to as int), c) == chars@.subrange(
            from as int,
            at as int,
        ),
        at < to ==> chars[at as int] == c,
{
    let ghost span = chars@.subrange(from as int, to as int);
    let mut at: usize = from;
    assert(span.skip(0) == span);
    assert(span.take(0) + before_first(span, c) == before_first(span, c));
    while at < to && chars[at] != c
        invariant
            from <= at <= to <= chars.len(),
            span == chars@.subrange(from as int, to as int),
            before_first(span, c) == span.take(at - from) + before_first(span.skip(at - from), c),
        decreases to - at,
    {
        let ghost rest = span.skip(at - from);
        assert(rest[0] == chars[at as int]);
        assert(rest.drop_first() == span.skip(at - from + 1));
        assert(span.take(at - from) + (seq![rest[0]] + before_first(rest.drop_first(), c))
            == span.take(at - from + 1) + before_first(rest.drop_first(), c));
        at = at + 1;
    }
    proof {
        let rest = span.skip(at - from);
        if at < to {
            assert(rest[0] == chars[at as int]);
        }
        assert(before_first(rest, c) == Seq::<char>::empty());
        assert(span.take(at - from) + Seq::<char>::empty() == chars@.subrange(
            from as int,
            at as int,
        ));
    }
    at
}

/// Skips every `c` at the start of `chars[from..to]`. Returns the index of
/// the first character that is kept, or `to` when none is.
pub(crate) fn skip_leading(chars: &Vec<char>, from: usize, to: usize, c: char) -> (at: usize)
    requires
        from <= to <= chars.len(),
    ensures
        from <= at <= to,
        without_leading(chars@.subrange(from as int, to as int), c) == chars@.subrange(
            at as int,
            to as int,
        ),
{
    let mut at: usize = from;
    while at < to && chars[at] == c
        invariant
            from <= at <= to <= chars.len(),
            without_leading(chars@.subrange(from as int, to as int), c) == without_leading(
                chars@.subrange(at as int, to as int),
                c,
            ),
        decreases to - at,
    {
        assert(chars@.subrange(at as int, to as int).drop_first() == chars@.subrange(
            at + 1,
            to as int,
        ));
        at = at + 1;
    }
    at
}

/// Skips every `c` at the end of `chars[from..to]`. Returns the index just
/// after the last character that is kept, or `from` when none is.
pub(crate) fn skip_trailing(chars: &Vec<char>, from: usize, to: usize, c: char) -> (at: usize)
    requires
        from <= to <= chars.len(),
    ensures
        from <= at <= to,
        without_trailing(chars@.subrange(from as int, to as int), c) == chars@.subrange(
            from as int,
            at as int,
        ),
{
    let mut at: usize = to;
    while at > from && chars[at - 1] == c
        invariant
            from <= at <= to <= chars.len(),
            without_trailing(chars@.subrange(from as int, to as int), c) == without_trailing(
                chars@.subrange(from as int, at as int),
                c,
            ),
        decreases at - from,
    {
        assert(chars@.subrange(from as int, at as int).drop_last() == chars@.subrange(
            from as int,
            at - 1,
        ));
        at = at - 1;
    }
    at
}

/// The characters of `text`, in order.
pub fn chars_of(text: &str) -> (chars: Vec<char>)
    ensures
        chars@ == text@,
{
    let mut chars: Vec<char> = Vec::new();
    let mut rest = text.chars();
    loop
        invariant
            rest.obeys_prophetic_iter_laws(),
            rest.decrease() is Some,
            chars@ + rest.remaining() == text@,
        ensures
            chars@ == text@,
        decreases rest.decrease()->0,
    {
        let ghost before = rest.remaining();
        match rest.next() {
            Some(c) => {
                assert(before == seq![c] + before.drop_first());
                chars.push(c);
            },
            None => {
                assert(before == Seq::<char>::empty());
                break ;
            },
        }
    }
    chars
}

/// Reads the image name off one line of the listing, as the line spells it:
/// the text before the first comma, with the double quotes at both ends
/// removed.
pub fn image_field_of(line: &str) -> (field: &str)
    ensures
        field@ == image_field(line@),
{
    let chars = chars_of(line);
    let comma = find_in(&chars, 0, chars.len(), ',');
    let start = skip_leading(&chars, 0, comma, '"');
    let end = skip_trailing(&chars, start, comma, '"');
    assert(chars@.subrange(0, chars.len() as int) == chars@);
    line.substring_char(start, end)
}

/// Reads the executable name off one line of the listing: the image name in
/// lowercase. It comes out empty for a line without one.
pub fn entry_name_of(line: &str) -> (name: String)
    ensures
        name@ == entry_name(line@),
{
    to_lowercase(image_field_of(line))
}

/// Splits `text` into its lines.
pub fn split_lines(text: &str) -> (lines: Vec<&str>)
    ensures
        lines.deep_view() == listing_lines(text@),
{
    let chars = chars_of(text);
    let mut lines: Vec<&str> = Vec::new();
    let mut pos: usize = 0;
    assert(text@.skip(0) == text@);
    assert(lines.deep_view() == Seq::<Seq<char>>::empty());
    while pos < chars.len()
        invariant
            pos <= chars.len(),
            chars@ == text@,
            listing_lines(text@) == lines.deep_view() + listing_lines(text@.skip(pos as int)),
        decreases chars.len() - pos,
    {
        let ghost rest = text@.skip(pos as int);
        let ghost before = lines.deep_view();
        let feed = find_in(&chars, pos, chars.len(), '\n');
        assert(chars@.subrange(pos as int, chars.len() as int) == rest);
        let ghost first = before_first(rest, '\n');
        assert(first == text@.subrange(pos as int, feed as int));
        if feed < chars.len() {
            let end = if feed > pos && chars[feed - 1] == '\r' {
                feed - 1
            } else {
                feed
            };
            let line = text.substring_char(pos, end);
            assert(line@ == without_carriage_return(first)) by {
                if feed > pos && chars[feed - 1] == '\r' {
                    assert(first.last() == chars[feed - 1]);
                    assert(first.drop_last() == text@.subrange(pos as int, feed - 1));
                }
            }
            lines.push(line);
            assert(rest.skip(first.len() as int + 1) == text@.skip(feed + 1));
            pos = feed + 1;
            assert(lines.deep_view() == before + seq![without_carriage_return(first)]);
        } else {
            let line = text.substring_char(pos, feed);
            lines.push(line);
            pos = feed;
            assert(lines.deep_view() == before + seq![first]);
            assert(listing_lines(text@.skip(pos as int)) == Seq::<Seq<char>>::empty());
        }
    }
    assert(listing_lines(text@.skip(pos as int)) == Seq::<Seq<char>>::empty());
    lines
}

} // verus!
