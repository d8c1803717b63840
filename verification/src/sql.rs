//! Patterns for `LIKE`, with `\` as the escape character.

use vstd::prelude::*;

use crate::text::{chars_of, string_of};

verus! {

/// Whether a character means something in a pattern.
pub open spec fn is_special(c: char) -> bool {
    c == '%' || c == '_' || c == '\\'
}

/// A character of a pattern that stands for `c` alone.
pub open spec fn escaped_char(c: char) -> Seq<char> {
    if is_special(c) {
        seq!['\\', c]
    } else {
        seq![c]
    }
}

/// A pattern that stands for the text `s` alone.
pub open spec fn escaped(s: Seq<char>) -> Seq<char>
    decreases s.len(),
{
    if s.len() == 0 {
        Seq::empty()
    } else {
        escaped(s.drop_last()) + escaped_char(s.last())
    }
}

/// The one text that a pattern stands for; none where the pattern has a placeholder in it, or
/// ends in an escape character with nothing behind it.
pub open spec fn only_match(pattern: Seq<char>) -> Option<Seq<char>>
    decreases pattern.len(),
{
    if pattern.len() == 0 {
        Some(Seq::empty())
    } else if pattern[0] == '\\' {
        if pattern.len() == 1 {
            None
        } else {
            match only_match(pattern.skip(2)) {
                Some(rest) => Some(seq![pattern[1]] + rest),
                None => None,
            }
        }
    } else if is_special(pattern[0]) {
        None
    } else {
        match only_match(pattern.skip(1)) {
            Some(rest) => Some(seq![pattern[0]] + rest),
            None => None,
        }
    }
}

/// The pattern for everything below a workspace.
pub open spec fn pattern_below(workspace: Seq<char>) -> Seq<char> {
    escaped(workspace).push('%')
}

/// The pattern for everything below a workspace.
pub fn workspace_pattern(workspace: &str) -> (r: String)
    ensures
        r@ == pattern_below(workspace@),
{
    let chars = chars_of(workspace);
    let mut out: Vec<char> = Vec::new();
    let mut i: usize = 0;
    while i < chars.len()
        invariant
            chars@ == workspace@,
            i <= chars@.len(),
            out@ == escaped(chars@.take(i as int)),
        decreases chars@.len() - i,
    {
        proof {
            assert(chars@.take(i + 1).drop_last() =~= chars@.take(i as int));
        }
        let c = chars[i];
        if c == '%' || c == '_' || c == '\\' {
            out.push('\\');
        }
        out.push(c);
        i += 1;
        proof {
            assert(out@ =~= escaped(chars@.take(i - 1)) + escaped_char(c));
        }
    }
    proof {
        assert(chars@.take(i as int) =~= chars@);
    }
    out.push('%');
    proof {
        assert(out@.subrange(0, out@.len() as int) =~= out@);
    }
    string_of(&out, 0, out.len())
}

/// A workspace whose name has special characters in it stands for itself alone.
pub proof fn an_escaped_text_matches_only_itself(s: Seq<char>)
    ensures
        only_match(escaped(s)) == Some(s),
{
    escaped_from_front(s, Seq::empty());
    assert(escaped(s) + Seq::<char>::empty() =~= escaped(s));
    assert(s + Seq::<char>::empty() =~= s);
}

/// What an escaped text and more stands for.
proof fn escaped_from_front(s: Seq<char>, rest: Seq<char>)
    ensures
        only_match(escaped(s) + rest) == match only_match(rest) {
            Some(t) => Some(s + t),
            None => None,
        },
    decreases s.len(),
{
    if s.len() == 0 {
        assert(escaped(s) + rest =~= rest);
        match only_match(rest) {
            Some(t) => assert(s + t =~= t),
            None => {},
        }
    } else {
        let c = s.last();
        let more = escaped_char(c) + rest;
        assert(escaped(s) + rest =~= escaped(s.drop_last()) + more);
        escaped_from_front(s.drop_last(), more);
        if is_special(c) {
            assert(more.skip(2) =~= rest);
        } else {
            assert(more.skip(1) =~= rest);
        }
        match only_match(rest) {
            Some(t) => {
                assert(only_match(more) == Some(seq![c] + t));
                assert(s.drop_last() + (seq![c] + t) =~= s + t);
            },
            None => {},
        }
    }
}

/// Each of the three characters that mean something in a pattern gets the escape character before
/// it, and every other character stands as it is.
pub proof fn special_characters_are_escaped(s: Seq<char>, c: char)
    ensures
        escaped(Seq::empty()).len() == 0,
        c == '%' || c == '_' || c == '\\' ==> escaped(s.push(c)) == escaped(s) + seq!['\\', c],
        c != '%' && c != '_' && c != '\\' ==> escaped(s.push(c)) == escaped(s) + seq![c],
{
    assert(s.push(c).drop_last() =~= s);
}

/// Whether a text is like a pattern, letters of both cases apart: `%` stands for any text, `_` for
/// any character, `\\` makes the next character stand for itself, and so does every other
/// character.
pub open spec fn like(pattern: Seq<char>, text: Seq<char>) -> bool
    decreases pattern.len() + text.len(),
{
    if pattern.len() == 0 {
        text.len() == 0
    } else if pattern[0] == '%' {
        like(pattern.skip(1), text) || text.len() > 0 && like(pattern, text.skip(1))
    } else if pattern[0] == '\\' {
        pattern.len() > 1 && text.len() > 0 && text[0] == pattern[1] && like(
            pattern.skip(2),
            text.skip(1),
        )
    } else {
        text.len() > 0 && (pattern[0] == '_' || text[0] == pattern[0]) && like(
            pattern.skip(1),
            text.skip(1),
        )
    }
}

/// Of all texts, those are like the pattern for a workspace that begin with the workspace,
/// whatever characters are in it.
pub proof fn the_pattern_stands_for_what_begins_with_the_workspace(
    workspace: Seq<char>,
    text: Seq<char>,
)
    ensures
        like(pattern_below(workspace), text) <==> workspace.is_prefix_of(text),
{
    assert(pattern_below(workspace) =~= escaped(workspace) + seq!['%']);
    escaped_is_like_itself(workspace, seq!['%'], text);
    if workspace.is_prefix_of(text) {
        anything_is_like_a_placeholder(text.skip(workspace.len() as int));
    }
}

proof fn anything_is_like_a_placeholder(text: Seq<char>)
    ensures
        like(seq!['%'], text),
    decreases text.len(),
{
    reveal_with_fuel(like, 2);
    if text.len() > 0 {
        anything_is_like_a_placeholder(text.skip(1));
    }
}

proof fn escaped_is_like_itself(s: Seq<char>, rest: Seq<char>, text: Seq<char>)
    ensures
        like(escaped(s) + rest, text) <==> s.is_prefix_of(text) && like(
            rest,
            text.skip(s.len() as int),
        ),
    decreases s.len(),
{
    if s.len() == 0 {
        assert(escaped(s) + rest =~= rest);
        assert(text.skip(0) =~= text);
    } else {
        let c = s.last();
        let before = s.drop_last();
        let more = escaped_char(c) + rest;
        assert(escaped(s) + rest =~= escaped(before) + more);
        escaped_is_like_itself(before, more, text);
        if before.len() <= text.len() {
            let tail = text.skip(before.len() as int);
            if is_special(c) {
                assert(more.skip(2) =~= rest);
            } else {
                assert(more.skip(1) =~= rest);
            }
            assert(like(more, tail) <==> tail.len() > 0 && tail[0] == c && like(
                rest,
                tail.skip(1),
            ));
            if tail.len() > 0 {
                assert(tail.skip(1) =~= text.skip(s.len() as int));
            }
        }
        if s.is_prefix_of(text) {
            assert(before =~= text.subrange(0, before.len() as int));
            assert(text[before.len() as int] == text.subrange(0, s.len() as int)[before.len()
                as int]);
        }
        if before.is_prefix_of(text) && text.len() > before.len() && text[before.len() as int]
            == c {
            assert forall|i: int| 0 <= i < s.len() implies s[i] == text[i] by {
                if i < before.len() {
                    assert(before[i] == text.subrange(0, before.len() as int)[i]);
                }
            }
            assert(s =~= text.subrange(0, s.len() as int));
        }
    }
}

} // verus!
