//! Deep links: picking the sign-in callback address out of what the OS hands
//! the application when one of its address schemes is opened.

use crate::listing::{chars_of, skip_leading, skip_trailing, trimmed};
use vstd::prelude::*;

verus! {

/// Whether `url` uses one of the application's address schemes.
pub open spec fn is_callback_address(url: Seq<char>) -> bool {
    "myapp://"@.is_prefix_of(url) || "prophase://"@.is_prefix_of(url)
}

/// The callback address in a deep-link event payload. The payload is a list
/// in square brackets; what stands between them, without the double quotes
/// at both ends, is the address, and it counts only if it uses one of the
/// application's schemes.
pub open spec fn payload_address(payload: Seq<char>) -> Option<Seq<char>> {
    if payload.len() >= 2 && payload[0] == '[' && payload.last() == ']' {
        let url = trimmed(payload.subrange(1, payload.len() - 1), '"');
        if is_callback_address(url) {
            Some(url)
        } else {
            None
        }
    } else {
        None
    }
}

/// Whether `text[from..to]` starts with `prefix`.
fn starts_with(text: &Vec<char>, from: usize, to: usize, prefix: &Vec<char>) -> (starts: bool)
    requires
        from <= to <= text.len(),
    ensures
        starts == prefix@.is_prefix_of(text@.subrange(from as int, to as int)),
{
    let ghost span = text@.subrange(from as int, to as int);
    if prefix.len() > to - from {
        return false;
    }
    let mut i: usize = 0;
    while i < prefix.len()
        invariant
            i <= prefix.len() <= to - from,
            from <= to <= text.len(),
            span == text@.subrange(from as int, to as int),
            forall|j: int| 0 <= j < i ==> prefix[j] == span[j],
        decreases prefix.len() - i,
    {
        if prefix[i] != text[from + i] {
            assert(span.subrange(0, prefix.len() as int)[i as int] == span[i as int]);
            return false;
        }
        i = i + 1;
    }
    assert(prefix@ =~= span.subrange(0, prefix.len() as int));
    true
}

/// Whether `url` is a callback address: one that starts with `myapp://` or
/// `prophase://`.
pub fn is_callback_url(url: &str) -> (accepted: bool)
    ensures
        accepted == is_callback_address(url@),
{
    let chars = chars_of(url);
    let first = chars_of("myapp://");
    let second = chars_of("prophase://");
    assert(chars@.subrange(0, chars.len() as int) == chars@);
    starts_with(&chars, 0, chars.len(), &first) || starts_with(&chars, 0, chars.len(), &second)
}

/// Picks the callback address out of a deep-link event payload. Gives
/// nothing for a payload that is not a bracketed list or whose address does
/// not use one of the application's schemes.
pub fn callback_url(payload: &str) -> (url: Option<&str>)
    ensures
        match url {
            Some(found) => payload_address(payload@) == Some(found@),
            None => payload_address(payload@) is None,
        },
{
    let chars = chars_of(payload);
    let len = chars.len();
    if len < 2 || chars[0] != '[' || chars[len - 1] != ']' {
        return None;
    }
    let start = skip_leading(&chars, 1, len - 1, '"');
    let end = skip_trailing(&chars, start, len - 1, '"');
    let first = chars_of("myapp://");
    let second = chars_of("prophase://");
    if starts_with(&chars, start, end, &first) || starts_with(&chars, start, end, &second) {
        Some(payload.substring_char(start, end))
    } else {
        None
    }
}

} // verus!
