//! What an agent is told about earlier sessions when a new one begins.
//!
//! The digest is short: a line for each session, with the first thing that the user said in it.
//! It is there to let the agent know that more can be looked up.

use vstd::prelude::*;
use vstd::string::StringExecFns;

use crate::decimal::{signed_decimal, signed_decimal_text};
use crate::text::{
    begins_with, contains, glue3, head, head_of, includes, is_space, join,
    only_white_space_is_trimmed, owned_text, single_spaced, texts, trim, trimmed, words,
};

verus! {

/// An earlier session.
#[derive(Debug, PartialEq, Eq)]
pub struct PastSession {
    pub date: String,
    pub entry_count: i64,
    /// What the user said, from the beginning on.
    pub said: Vec<String>,
}

/// What is known of an earlier session.
pub struct PastView {
    pub date: Seq<char>,
    pub entry_count: i64,
    pub said: Seq<Seq<char>>,
}

impl View for PastSession {
    type V = PastView;

    open spec fn view(&self) -> PastView {
        PastView { date: self.date@, entry_count: self.entry_count, said: texts(self.said@) }
    }
}

/// What is known of earlier sessions.
pub open spec fn past_of(sessions: Seq<PastSession>) -> Seq<PastView> {
    sessions.map_values(|s: PastSession| s@)
}

/// Whether a text holds something that a program put there.
pub open spec fn has_noise(t: Seq<char>) -> bool {
    ||| contains(t, "<command-"@)
    ||| contains(t, "<local-command"@)
    ||| contains(t, "<system-reminder"@)
    ||| contains(t, "Caveat:"@)
    ||| contains(t, "[Tool:"@)
    ||| contains(t, "tool_use_id"@)
    ||| contains(t, "tool_result"@)
}

/// Whether a text is something that a user said, rather than a command that was expanded, the
/// result of a tool, or something that a program put there.
pub open spec fn is_natural(s: Seq<char>) -> bool {
    let t = trim(s);
    t.len() > 0 && !"[{"@.is_prefix_of(t) && !"[\""@.is_prefix_of(t) && !has_noise(t)
}

/// A text on one line, with single blanks.
pub open spec fn on_one_line(content: Seq<char>) -> Seq<char> {
    join(words(content), " "@)
}

/// The first thing that the user said in a session, on one line.
pub open spec fn first_said(said: Seq<Seq<char>>) -> Option<Seq<char>>
    decreases said.len(),
{
    if said.len() == 0 {
        None
    } else if is_natural(on_one_line(said[0])) {
        Some(on_one_line(said[0]))
    } else {
        first_said(said.drop_first())
    }
}

/// What is shown of the first thing that the user said in a session.
pub open spec fn preview_of(said: Seq<Seq<char>>) -> Seq<char> {
    match first_said(said) {
        Some(line) => head(line, 100),
        None => Seq::empty(),
    }
}

/// The line of the digest about a session.
pub open spec fn digest_line(session: PastView) -> Seq<char> {
    let start = "- "@ + session.date + " ("@ + signed_decimal(session.entry_count as int);
    let preview = preview_of(session.said);
    if preview.len() == 0 {
        start + " entries)\n"@
    } else {
        start + " entries): "@ + preview + "\n"@
    }
}

/// The lines of the digest about sessions.
pub open spec fn digest_lines(sessions: Seq<PastView>) -> Seq<char>
    decreases sessions.len(),
{
    if sessions.len() == 0 {
        Seq::empty()
    } else {
        digest_lines(sessions.drop_last()) + digest_line(sessions.last())
    }
}

/// The digest.
pub open spec fn digest(sessions: Seq<PastView>) -> Seq<char> {
    if sessions.len() == 0 {
        Seq::empty()
    } else {
        "## 🧠 agents-relay — past session memory (this workspace)\n\n"@ + digest_lines(sessions)
            + "\nThese are summaries of prior sessions in this workspace. To recall specific details, use the `memory_search` tool.\n"@
    }
}

fn holds_noise(t: &str) -> (r: bool)
    ensures
        r == has_noise(t@),
{
    includes(t, "<command-") || includes(t, "<local-command") || includes(t, "<system-reminder")
        || includes(t, "Caveat:") || includes(t, "[Tool:") || includes(t, "tool_use_id")
        || includes(t, "tool_result")
}

/// Whether a text is something that a user said.
pub fn is_natural_user_text(s: &str) -> (r: bool)
    ensures
        r == is_natural(s@),
{
    let t = trimmed(s);
    !t.as_str().is_empty() && !begins_with(t.as_str(), "[{") && !begins_with(t.as_str(), "[\"")
        && !holds_noise(t.as_str())
}

/// The first thing that the user said in a session, on one line.
pub fn first_user_line(said: &Vec<String>) -> (r: Option<String>)
    ensures
        owned_text(r) == first_said(texts(said@)),
{
    let ghost all = texts(said@);
    let mut i: usize = 0;
    proof {
        assert(all.skip(0) =~= all);
    }
    while i < said.len()
        invariant
            i <= said@.len(),
            all == texts(said@),
            first_said(all.skip(i as int)) == first_said(all),
        decreases said@.len() - i,
    {
        proof {
            assert(all.skip(i as int)[0] == said@[i as int]@);
            assert(all.skip(i as int).drop_first() =~= all.skip(i + 1));
        }
        let line = single_spaced(said[i].as_str());
        if is_natural_user_text(line.as_str()) {
            return Some(line);
        }
        i += 1;
    }
    None
}

fn line_about(session: &PastSession) -> (r: String)
    ensures
        r@ == digest_line(session@),
{
    let preview = match first_user_line(&session.said) {
        Some(line) => head_of(line.as_str(), 100),
        None => String::new(),
    };
    let mut out = glue3("- ", session.date.as_str(), " (");
    out.append(signed_decimal_text(session.entry_count).as_str());
    if preview.as_str().is_empty() {
        out.append(" entries)\n");
    } else {
        out.append(" entries): ");
        out.append(preview.as_str());
        out.append("\n");
    }
    out
}

/// The digest.
pub fn build_digest(sessions: &Vec<PastSession>) -> (r: String)
    ensures
        r@ == digest(past_of(sessions@)),
{
    if sessions.len() == 0 {
        return String::new();
    }
    let ghost all = past_of(sessions@);
    let ghost title = "## 🧠 agents-relay — past session memory (this workspace)\n\n"@;
    let mut out = "## 🧠 agents-relay — past session memory (this workspace)\n\n".to_owned();
    let mut i: usize = 0;
    proof {
        assert(all.take(0) =~= Seq::empty());
        assert(title + Seq::<char>::empty() =~= title);
    }
    while i < sessions.len()
        invariant
            i <= sessions@.len(),
            all == past_of(sessions@),
            out@ == title + digest_lines(all.take(i as int)),
        decreases sessions@.len() - i,
    {
        let line = line_about(&sessions[i]);
        out.append(line.as_str());
        proof {
            assert(all.take(i + 1).drop_last() =~= all.take(i as int));
            assert(all.take(i + 1).last() == sessions@[i as int]@);
            assert(title + digest_lines(all.take(i as int)) + line@ =~= title + digest_lines(
                all.take(i + 1),
            ));
        }
        i += 1;
    }
    proof {
        assert(all.take(i as int) =~= all);
    }
    out.append(
        "\nThese are summaries of prior sessions in this workspace. To recall specific details, use the `memory_search` tool.\n",
    );
    out
}

/// There is a digest just where there are sessions.
pub proof fn no_sessions_no_digest(sessions: Seq<PastView>)
    ensures
        digest(sessions).len() == 0 <==> sessions.len() == 0,
{
    reveal_strlit("\nThese are summaries of prior sessions in this workspace. To recall specific details, use the `memory_search` tool.\n");
}

/// What is shown of a session is the beginning of something that a user said in it: at most a
/// hundred characters, and no line break.
pub proof fn a_preview_is_short(said: Seq<Seq<char>>)
    ensures
        preview_of(said).len() <= 100,
        forall|i: int| 0 <= i < preview_of(said).len() ==> #[trigger] preview_of(said)[i] != '\n',
        preview_of(said).len() > 0 ==> exists|j: int|
            0 <= j < said.len() && is_natural(#[trigger] on_one_line(said[j]))
                && preview_of(said).is_prefix_of(on_one_line(said[j])),
    decreases said.len(),
{
    if said.len() > 0 {
        if is_natural(on_one_line(said[0])) {
            words_have_no_space(said[0]);
            joined_words_have_no_break(words(said[0]));
            let line = on_one_line(said[0]);
            let shown = preview_of(said);
            assert(shown =~= line.subrange(0, shown.len() as int));
            assert(shown.is_prefix_of(on_one_line(said[0])));
        } else {
            a_preview_is_short(said.drop_first());
            if preview_of(said).len() > 0 {
                let j = choose|j: int|
                    0 <= j < said.drop_first().len() && is_natural(
                        #[trigger] on_one_line(said.drop_first()[j]),
                    ) && preview_of(said).is_prefix_of(on_one_line(said.drop_first()[j]));
                assert(said[j + 1] == said.drop_first()[j]);
                assert(is_natural(on_one_line(said[j + 1])));
            }
        }
    }
}

/// Whether no character of a text is white space.
spec fn without_space(s: Seq<char>) -> bool {
    forall|i: int| 0 <= i < s.len() ==> !is_space(#[trigger] s[i])
}

proof fn words_have_no_space(s: Seq<char>)
    ensures
        forall|i: int| 0 <= i < words(s).len() ==> without_space(#[trigger] words(s)[i]),
        forall|i: int| 0 <= i < words(s).len() ==> (#[trigger] words(s)[i]).len() > 0,
        s.len() > 0 && !is_space(s.last()) ==> words(s).len() > 0,
    decreases s.len(),
{
    if s.len() > 0 {
        let found = words(s.drop_last());
        words_have_no_space(s.drop_last());
        if !is_space(s.last()) {
            if s.len() >= 2 && !is_space(s[s.len() - 2]) {
                assert(s.drop_last().last() == s[s.len() - 2]);
                assert(without_space(found[found.len() - 1]));
                assert(without_space(found.last().push(s.last())));
            } else {
                assert(without_space(seq![s.last()]));
            }
        }
    }
}

proof fn joined_words_have_no_break(parts: Seq<Seq<char>>)
    requires
        forall|i: int| 0 <= i < parts.len() ==> without_space(#[trigger] parts[i]),
    ensures
        forall|i: int| 0 <= i < join(parts, " "@).len() ==> #[trigger] join(parts, " "@)[i] != '\n',
    decreases parts.len(),
{
    reveal_strlit(" ");
    assert(is_space('\n'));
    if parts.len() == 1 {
        assert(without_space(parts[0]));
    } else if parts.len() > 1 {
        let before = parts.drop_last();
        assert forall|i: int| 0 <= i < before.len() implies without_space(#[trigger] before[i]) by {
            assert(without_space(parts[i]));
        }
        joined_words_have_no_break(before);
        assert(without_space(parts[parts.len() - 1]));
        let whole = join(parts, " "@);
        let n = join(before, " "@).len();
        assert forall|i: int| 0 <= i < whole.len() implies #[trigger] whole[i] != '\n' by {
            if i < n {
                assert(whole[i] == join(before, " "@)[i]);
            } else if i == n {
                assert(whole[i] == " "@[0]);
            } else {
                assert(whole[i] == parts.last()[i - n - 1]);
            }
        }
    }
}

// ---------------------------------------------------------------------------
// Laws
// ---------------------------------------------------------------------------

/// Whether a line is something that a user said: it is not empty, it does not begin like a list of
/// objects or of strings, and it has none of the marks in it that programs leave.
pub open spec fn spoken(line: Seq<char>) -> bool {
    &&& line.len() > 0
    &&& !(line.len() >= 2 && line[0] == '[' && (line[1] == '{' || line[1] == '"'))
    &&& !contains(line, "<command-"@)
    &&& !contains(line, "<local-command"@)
    &&& !contains(line, "<system-reminder"@)
    &&& !contains(line, "Caveat:"@)
    &&& !contains(line, "[Tool:"@)
    &&& !contains(line, "tool_use_id"@)
    &&& !contains(line, "tool_result"@)
}

proof fn joined_words_have_no_space_around(parts: Seq<Seq<char>>)
    requires
        parts.len() > 0,
        forall|i: int| 0 <= i < parts.len() ==> without_space(#[trigger] parts[i]),
        forall|i: int| 0 <= i < parts.len() ==> (#[trigger] parts[i]).len() > 0,
    ensures
        join(parts, " "@).len() > 0,
        !is_space(join(parts, " "@)[0]),
        !is_space(join(parts, " "@).last()),
    decreases parts.len(),
{
    let last = parts[parts.len() - 1];
    assert(without_space(last));
    assert(!is_space(last[0]) && !is_space(last[last.len() - 1]));
    if parts.len() > 1 {
        let before = parts.drop_last();
        assert forall|i: int| 0 <= i < before.len() implies without_space(#[trigger] before[i]) by {
            assert(without_space(parts[i]));
        }
        assert forall|i: int| 0 <= i < before.len() implies (#[trigger] before[i]).len() > 0 by {
            assert(parts[i].len() > 0);
        }
        joined_words_have_no_space_around(before);
        let whole = join(parts, " "@);
        assert(whole[0] == join(before, " "@)[0]);
        assert(whole.last() == last.last());
    }
}

proof fn natural_is_spoken(s: Seq<char>)
    ensures
        is_natural(s) == spoken(trim(s)),
{
    reveal_strlit("[{");
    reveal_strlit("[\"");
    let t = trim(s);
    assert("[{"@ =~= seq!['[', '{']);
    assert("[\""@ =~= seq!['[', '"']);
    if t.len() >= 2 {
        let two = t.subrange(0, 2);
        assert(two[0] == t[0] && two[1] == t[1]);
        if t[0] == '[' && t[1] == '{' {
            assert("[{"@ =~= two);
        }
        if t[0] == '[' && t[1] == '"' {
            assert("[\""@ =~= two);
        }
    }
}

proof fn a_line_is_natural_where_it_is_spoken(content: Seq<char>)
    ensures
        is_natural(on_one_line(content)) == spoken(join(words(content), " "@)),
{
    let line = join(words(content), " "@);
    natural_is_spoken(line);
    only_white_space_is_trimmed(line);
    words_have_no_space(content);
    if words(content).len() > 0 {
        joined_words_have_no_space_around(words(content));
    }
}

/// A text counts as something that a user said just where it is so without the white space around
/// it.
pub proof fn a_text_is_natural_just_where_it_was_spoken(s: Seq<char>)
    ensures
        is_natural(s) <==> spoken(trim(s)),
{
    natural_is_spoken(s);
}

/// The line of the digest about a session ends with the first hundred characters of the first
/// thing that the user said in it, put on one line.
pub proof fn the_first_thing_said_is_shown(session: PastView, n: int)
    requires
        0 <= n < session.said.len(),
        spoken(join(words(session.said[n]), " "@)),
        forall|i: int| 0 <= i < n ==> !spoken(join(words(#[trigger] session.said[i]), " "@)),
    ensures
        ({
            let line = join(words(session.said[n]), " "@);
            &&& line.len() <= 100 ==> digest_line(session) == "- "@ + session.date + " ("@
                + signed_decimal(session.entry_count as int) + " entries): "@ + line + "\n"@
            &&& line.len() > 100 ==> digest_line(session) == "- "@ + session.date + " ("@
                + signed_decimal(session.entry_count as int) + " entries): "@ + line.take(100)
                + "\n"@
        }),
{
    first_said_is(session.said, n);
    a_line_is_natural_where_it_is_spoken(session.said[n]);
}

proof fn first_said_is(said: Seq<Seq<char>>, n: int)
    requires
        0 <= n <= said.len(),
        n < said.len() ==> spoken(join(words(said[n]), " "@)),
        forall|i: int| 0 <= i < n ==> !spoken(join(words(#[trigger] said[i]), " "@)),
    ensures
        first_said(said) == if n < said.len() {
            Some(join(words(said[n]), " "@))
        } else {
            None
        },
    decreases said.len(),
{
    if said.len() > 0 {
        a_line_is_natural_where_it_is_spoken(said[0]);
        if n > 0 {
            assert(!spoken(join(words(said[0]), " "@)));
            let rest = said.drop_first();
            assert forall|i: int| 0 <= i < n - 1 implies !spoken(
                join(words(#[trigger] rest[i]), " "@),
            ) by {
                assert(!spoken(join(words(said[i + 1]), " "@)));
            }
            first_said_is(rest, n - 1);
        }
    }
}

/// Where the user said nothing in a session, its line in the digest ends with the number of
/// entries.
pub proof fn nothing_said_is_not_shown(session: PastView)
    requires
        forall|i: int|
            0 <= i < session.said.len() ==> !spoken(join(words(#[trigger] session.said[i]), " "@)),
    ensures
        digest_line(session) == "- "@ + session.date + " ("@ + signed_decimal(
            session.entry_count as int,
        ) + " entries)\n"@,
{
    first_said_is(session.said, session.said.len() as int);
}

/// The digest of sessions has a line for each of them, in their order, between its title and the
/// note at its end: with one session more it is the same but for one line more before the note.
pub proof fn each_session_has_its_line(sessions: Seq<PastView>, s: PastView)
    ensures
        ({
            let title = "## 🧠 agents-relay — past session memory (this workspace)\n\n"@;
            let note
                = "\nThese are summaries of prior sessions in this workspace. To recall specific details, use the `memory_search` tool.\n"@;
            &&& digest(seq![s]) == title + digest_line(s) + note
            &&& sessions.len() > 0 ==> exists|lines: Seq<char>|
                digest(sessions) == #[trigger] (title + lines + note) && digest(sessions.push(s))
                    == title + (lines + digest_line(s)) + note
        }),
{
    reveal_with_fuel(digest_lines, 2);
    let title = "## 🧠 agents-relay — past session memory (this workspace)\n\n"@;
    let note
        = "\nThese are summaries of prior sessions in this workspace. To recall specific details, use the `memory_search` tool.\n"@;
    assert(seq![s].drop_last() =~= Seq::empty());
    assert(Seq::<char>::empty() + digest_line(s) =~= digest_line(s));
    assert(sessions.push(s).drop_last() =~= sessions);
    if sessions.len() > 0 {
        let lines = digest_lines(sessions);
        assert(digest(sessions) == title + lines + note);
        assert(digest(sessions.push(s)) == title + (lines + digest_line(s)) + note);
    }
}

/// What is known of earlier sessions is what their fields hold, one by one and in their order.
pub proof fn past_sessions_say_what_they_hold(sessions: Seq<PastSession>, i: int, j: int)
    requires
        0 <= i < sessions.len(),
    ensures
        past_of(sessions).len() == sessions.len(),
        past_of(sessions)[i].date == sessions[i].date@,
        past_of(sessions)[i].entry_count == sessions[i].entry_count,
        past_of(sessions)[i].said.len() == sessions[i].said@.len(),
        0 <= j < sessions[i].said@.len() ==> past_of(sessions)[i].said[j] == sessions[i].said@[j]@,
{
}

} // verus!
