//! The grammar of one line of a hosts file.
//!
//! A line loses its trailing white space and everything from the first `#`.
//! Where the rest begins with `127.0.0.1`, `::1` or `0.0.0.0`, that address
//! and the white space behind it are skipped. What remains is the host
//! token; lowercased, it is a host name unless it is empty or holds white
//! space.

use crate::text::{char_is_whitespace, chars_of, has_whitespace, is_whitespace, lowercased};
use vstd::prelude::*;

verus! {

/// `s` without the white space at its end.
pub open spec fn trim_end(s: Seq<char>) -> Seq<char>
    decreases s.len(),
{
    if s.len() > 0 && is_whitespace(s.last()) {
        trim_end(s.drop_last())
    } else {
        s
    }
}

/// `s` without the white space at its start.
pub open spec fn trim_start(s: Seq<char>) -> Seq<char>
    decreases s.len(),
{
    if s.len() > 0 && is_whitespace(s.first()) {
        trim_start(s.drop_first())
    } else {
        s
    }
}

/// `s` up to its first `#`, or all of `s` where it holds none.
pub open spec fn strip_comment(s: Seq<char>) -> Seq<char>
    decreases s.len(),
{
    if s.len() == 0 || s[0] == '#' {
        Seq::empty()
    } else {
        seq![s[0]] + strip_comment(s.drop_first())
    }
}

/// The length of the loopback or no-route address that `content` begins
/// with, 0 where it begins with none. The three addresses are tried in the
/// order `127.0.0.1`, `::1`, `0.0.0.0`.
pub open spec fn address_prefix_len(content: Seq<char>) -> nat {
    if "127.0.0.1"@.is_prefix_of(content) {
        "127.0.0.1"@.len()
    } else if "::1"@.is_prefix_of(content) {
        "::1"@.len()
    } else if "0.0.0.0"@.is_prefix_of(content) {
        "0.0.0.0"@.len()
    } else {
        0
    }
}

/// The host token of a line, before it is lowercased.
pub open spec fn host_token(line: Seq<char>) -> Seq<char> {
    let content = strip_comment(trim_end(line));
    let skipped = address_prefix_len(content);
    if skipped == 0 {
        content
    } else {
        trim_start(content.skip(skipped as int))
    }
}

/// A lowercased token is a host name unless it is empty or holds white space.
pub open spec fn accepted_host(host: Seq<char>) -> Option<Seq<char>> {
    if host.len() == 0 || has_whitespace(host) {
        None
    } else {
        Some(host)
    }
}

/// The host name that a line of a hosts file gives, if any.
pub open spec fn parsed_host(line: Seq<char>) -> Option<Seq<char>> {
    accepted_host(lowercased(host_token(line)))
}

/// The view of an optional string.
pub open spec fn string_view(s: Option<String>) -> Option<Seq<char>> {
    match s {
        Some(s) => Some(s@),
        None => None,
    }
}

/// Index behind the last character of `chars` that is no white space.
pub(crate) fn trim_end_index(chars: &Vec<char>) -> (end: usize)
    ensures
        end <= chars@.len(),
        chars@.take(end as int) == trim_end(chars@),
{
    let mut end: usize = chars.len();
    assert(chars@.take(end as int) =~= chars@);
    while end > 0 && char_is_whitespace(chars[end - 1])
        invariant
            end <= chars@.len(),
            trim_end(chars@.take(end as int)) == trim_end(chars@),
        decreases end,
    {
        assert(chars@.take(end as int).drop_last() =~= chars@.take(end - 1));
        end -= 1;
    }
    end
}

/// Index of the first `#` among the first `end` characters, or `end`.
pub(crate) fn comment_index(chars: &Vec<char>, end: usize) -> (stop: usize)
    requires
        end <= chars@.len(),
    ensures
        stop <= end,
        chars@.take(stop as int) == strip_comment(chars@.take(end as int)),
{
    let ghost content = chars@.take(end as int);
    let mut stop: usize = 0;
    assert(content.take(0) + strip_comment(content.skip(0)) =~= strip_comment(content)) by {
        assert(content.skip(0) =~= content);
    }
    while stop < end && chars[stop] != '#'
        invariant
            stop <= end <= chars@.len(),
            content == chars@.take(end as int),
            content.take(stop as int) + strip_comment(content.skip(stop as int)) == strip_comment(
                content,
            ),
        decreases end - stop,
    {
        assert(content.skip(stop as int).drop_first() =~= content.skip(stop + 1));
        assert(content.take(stop as int) + (seq![content[stop as int]] + strip_comment(
            content.skip(stop + 1),
        )) =~= content.take(stop + 1) + strip_comment(content.skip(stop + 1)));
        stop += 1;
    }
    assert(strip_comment(content.skip(stop as int)) =~= Seq::<char>::empty());
    assert(content.take(stop as int) =~= chars@.take(stop as int));
    assert(content.take(stop as int) + Seq::<char>::empty() =~= content.take(stop as int));
    stop
}

/// Whether the first `stop` characters begin with `prefix`.
pub(crate) fn has_prefix(chars: &Vec<char>, stop: usize, prefix: &Vec<char>) -> (found: bool)
    requires
        stop <= chars@.len(),
    ensures
        found == prefix@.is_prefix_of(chars@.take(stop as int)),
{
    let ghost content = chars@.take(stop as int);
    if prefix.len() > stop {
        return false;
    }
    let mut i: usize = 0;
    while i < prefix.len()
        invariant
            i <= prefix@.len() <= stop <= chars@.len(),
            content == chars@.take(stop as int),
            forall|j: int| 0 <= j < i ==> prefix@[j] == content[j],
        decreases prefix@.len() - i,
    {
        if prefix[i] != chars[i] {
            assert(content[i as int] != prefix@[i as int]);
            assert(!(content.subrange(0, prefix@.len() as int) =~= prefix@));
            return false;
        }
        i += 1;
    }
    assert(content.subrange(0, prefix@.len() as int) =~= prefix@);
    true
}

/// Index of the first character at or behind `from` and before `stop` that
/// is no white space, or `stop`.
pub(crate) fn skip_whitespace(chars: &Vec<char>, from: usize, stop: usize) -> (start: usize)
    requires
        from <= stop <= chars@.len(),
    ensures
        from <= start <= stop,
        chars@.subrange(start as int, stop as int) == trim_start(
            chars@.subrange(from as int, stop as int),
        ),
{
    let mut start: usize = from;
    while start < stop && char_is_whitespace(chars[start])
        invariant
            from <= start <= stop <= chars@.len(),
            trim_start(chars@.subrange(start as int, stop as int)) == trim_start(
                chars@.subrange(from as int, stop as int),
            ),
        decreases stop - start,
    {
        assert(chars@.subrange(start as int, stop as int).drop_first() =~= chars@.subrange(
            start + 1,
            stop as int,
        ));
        start += 1;
    }
    start
}

/// Whether some character of `host` is white space.
pub(crate) fn contains_whitespace(host: &str) -> (found: bool)
    ensures
        found == has_whitespace(host@),
{
    let chars = chars_of(host);
    let mut i: usize = 0;
    while i < chars.len()
        invariant
            i <= chars@.len(),
            chars@ == host@,
            forall|j: int| 0 <= j < i ==> !is_whitespace(#[trigger] chars@[j]),
        decreases chars@.len() - i,
    {
        if char_is_whitespace(chars[i]) {
            return true;
        }
        i += 1;
    }
    false
}

} // verus!
