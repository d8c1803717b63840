//! What the database keeps: entries, and the sessions that they make up.

use vstd::prelude::*;

use crate::text::owned_text;

verus! {

/// An entry of the database.
#[derive(Debug, PartialEq, Eq)]
pub struct RawEntry {
    pub id: i64,
    pub session_id: String,
    pub timestamp: String,
    pub date: String,
    pub time: String,
    pub entry_type: String,
    pub tool_name: Option<String>,
    pub content: String,
    pub cwd: Option<String>,
    pub git_branch: Option<String>,
    pub source: String,
}

/// What an entry says.
pub struct EntryView {
    pub id: i64,
    pub session_id: Seq<char>,
    pub timestamp: Seq<char>,
    pub date: Seq<char>,
    pub time: Seq<char>,
    pub entry_type: Seq<char>,
    pub tool_name: Option<Seq<char>>,
    pub content: Seq<char>,
    pub cwd: Option<Seq<char>>,
    pub git_branch: Option<Seq<char>>,
    pub source: Seq<char>,
}

impl View for RawEntry {
    type V = EntryView;

    open spec fn view(&self) -> EntryView {
        EntryView {
            id: self.id,
            session_id: self.session_id@,
            timestamp: self.timestamp@,
            date: self.date@,
            time: self.time@,
            entry_type: self.entry_type@,
            tool_name: owned_text(self.tool_name),
            content: self.content@,
            cwd: owned_text(self.cwd),
            git_branch: owned_text(self.git_branch),
            source: self.source@,
        }
    }
}

/// What a sequence of entries says.
pub open spec fn entries_of(entries: Seq<RawEntry>) -> Seq<EntryView> {
    entries.map_values(|e: RawEntry| e@)
}

/// An entry that is to be put into the database, which gives it its number. None of the
/// entries that this program makes up names a branch.
#[derive(Debug, PartialEq, Eq)]
pub struct NewEntry {
    pub session_id: String,
    pub timestamp: String,
    pub date: String,
    pub time: String,
    pub entry_type: String,
    pub tool_name: Option<String>,
    pub content: String,
    pub cwd: Option<String>,
    pub source: String,
}

/// What a new entry says.
pub struct NewEntryView {
    pub session_id: Seq<char>,
    pub timestamp: Seq<char>,
    pub date: Seq<char>,
    pub time: Seq<char>,
    pub entry_type: Seq<char>,
    pub tool_name: Option<Seq<char>>,
    pub content: Seq<char>,
    pub cwd: Option<Seq<char>>,
    pub source: Seq<char>,
}

impl View for NewEntry {
    type V = NewEntryView;

    open spec fn view(&self) -> NewEntryView {
        NewEntryView {
            session_id: self.session_id@,
            timestamp: self.timestamp@,
            date: self.date@,
            time: self.time@,
            entry_type: self.entry_type@,
            tool_name: owned_text(self.tool_name),
            content: self.content@,
            cwd: owned_text(self.cwd),
            source: self.source@,
        }
    }
}

/// A session, summed up.
#[derive(Debug, PartialEq, Eq)]
pub struct SessionSummary {
    pub session_id: String,
    pub first_timestamp: String,
    pub last_timestamp: String,
    pub date: String,
    pub entry_count: i64,
}

/// What the summary of a session says.
pub struct SummaryView {
    pub session_id: Seq<char>,
    pub first_timestamp: Seq<char>,
    pub last_timestamp: Seq<char>,
    pub date: Seq<char>,
    pub entry_count: i64,
}

impl View for SessionSummary {
    type V = SummaryView;

    open spec fn view(&self) -> SummaryView {
        SummaryView {
            session_id: self.session_id@,
            first_timestamp: self.first_timestamp@,
            last_timestamp: self.last_timestamp@,
            date: self.date@,
            entry_count: self.entry_count,
        }
    }
}

/// What a sequence of summaries says.
pub open spec fn summaries_of(sessions: Seq<SessionSummary>) -> Seq<SummaryView> {
    sessions.map_values(|s: SessionSummary| s@)
}

/// The content of a summary that an agent gives: the text, after its tags where it has any.
pub open spec fn tagged(summary: Seq<char>, tags: Seq<char>) -> Seq<char> {
    if tags.len() == 0 {
        summary
    } else {
        "[Tags: "@ + tags + "]\n"@ + summary
    }
}

/// The content of a summary that an agent gives.
pub fn tag_summary(summary: &str, tags: &str) -> (r: String)
    ensures
        r@ == tagged(summary@, tags@),
{
    if tags.is_empty() {
        summary.to_owned()
    } else {
        let head = crate::text::glue3("[Tags: ", tags, "]\n");
        crate::text::glue(head.as_str(), summary)
    }
}

/// A summary without tags is kept as it is, and one with tags behind them, in brackets and on a
/// line of their own.
pub proof fn tags_stand_before_the_summary(summary: Seq<char>, tags: Seq<char>)
    ensures
        tags.len() == 0 ==> tagged(summary, tags) == summary,
        tags.len() > 0 ==> tagged(summary, tags) == "[Tags: "@ + tags + "]\n"@ + summary,
{
}

/// What a new entry says is what its fields hold, one by one.
pub proof fn a_new_entry_says_what_it_holds(e: NewEntry)
    ensures
        e@.session_id == e.session_id@ && e@.timestamp == e.timestamp@ && e@.date == e.date@
            && e@.time == e.time@ && e@.entry_type == e.entry_type@ && e@.content == e.content@
            && e@.source == e.source@,
        e.tool_name is Some ==> e@.tool_name == Some(e.tool_name->0@),
        e.tool_name is None ==> e@.tool_name is None,
        e.cwd is Some ==> e@.cwd == Some(e.cwd->0@),
        e.cwd is None ==> e@.cwd is None,
{
}

/// What an entry says is what its fields hold, one by one.
pub proof fn an_entry_says_what_it_holds(e: RawEntry)
    ensures
        e@.id == e.id && e@.session_id == e.session_id@ && e@.timestamp == e.timestamp@ && e@.date
            == e.date@ && e@.time == e.time@ && e@.entry_type == e.entry_type@ && e@.content
            == e.content@ && e@.source == e.source@,
        e.tool_name is Some ==> e@.tool_name == Some(e.tool_name->0@),
        e.tool_name is None ==> e@.tool_name is None,
        e.cwd is Some ==> e@.cwd == Some(e.cwd->0@),
        e.cwd is None ==> e@.cwd is None,
        e.git_branch is Some ==> e@.git_branch == Some(e.git_branch->0@),
        e.git_branch is None ==> e@.git_branch is None,
{
}

/// What the summary of a session says is what its fields hold, one by one, and entries and
/// summaries say theirs in their order.
pub proof fn a_summary_says_what_it_holds(
    s: SessionSummary,
    sessions: Seq<SessionSummary>,
    entries: Seq<RawEntry>,
    i: int,
)
    ensures
        s@.session_id == s.session_id@ && s@.first_timestamp == s.first_timestamp@
            && s@.last_timestamp == s.last_timestamp@ && s@.date == s.date@ && s@.entry_count
            == s.entry_count,
        summaries_of(sessions).len() == sessions.len(),
        0 <= i < sessions.len() ==> summaries_of(sessions)[i] == sessions[i]@,
        entries_of(entries).len() == entries.len(),
        0 <= i < entries.len() ==> entries_of(entries)[i] == entries[i]@,
{
}

} // verus!
