//! What the commands of the program decide and print.

use vstd::prelude::*;
use vstd::string::StringExecFns;

use crate::clock::{Timestamp, TimestampView};
use crate::decimal::{signed_decimal, signed_decimal_text};
use crate::failure::Failure;
use crate::memory::{
    tag_summary, tagged, EntryView, NewEntry, NewEntryView, RawEntry, SessionSummary, SummaryView,
};
use crate::paths::{join_path, joined};
use crate::text::{
    ascii_takes_a_byte_each, byte_range, byte_size, can_split, chars_of, glue, glue3, head, head_of,
    pieces_make_up_the_text, same, size_of, slice_bytes, split, split_text, splits_at, text_of,
    texts, texts_are_split_at_separators, trim, trimmed,
};

verus! {

// ---------------------------------------------------------------------------
// Resetting the database
// ---------------------------------------------------------------------------

/// Whether an answer means yes.
pub open spec fn means_yes(input: Seq<char>) -> bool {
    trim(input) == "y"@ || trim(input) == "Y"@
}

/// Whether what the user typed means yes. Everything else means no.
pub fn confirms(input: &str) -> (r: bool)
    ensures
        r == means_yes(input@),
{
    let answer = trimmed(input);
    same(answer.as_str(), "y") || same(answer.as_str(), "Y")
}

// ---------------------------------------------------------------------------
// Archiving
// ---------------------------------------------------------------------------

/// Where the entries of a date are archived.
#[derive(Debug, PartialEq, Eq)]
pub struct ArchiveTarget {
    pub dir: String,
    pub file: String,
}

/// The directory and the file in which the entries of a date are archived: one directory for
/// each year, in it one for each month, and in that one file for each day. A date that does not
/// consist of three parts is not archived.
pub open spec fn archived_at(archive_dir: Seq<char>, date: Seq<char>) -> Option<
    (Seq<char>, Seq<char>),
> {
    let parts = split(date, '-');
    if parts.len() == 3 {
        let dir = joined(joined(archive_dir, parts[0]), parts[1]);
        Some((dir, joined(dir, parts[2] + ".md"@)))
    } else {
        None
    }
}

/// Where the entries of a date are archived.
pub fn archive_target(archive_dir: &str, date: &str) -> (r: Option<ArchiveTarget>)
    ensures
        match r {
            Some(t) => archived_at(archive_dir@, date@) == Some((t.dir@, t.file@)),
            None => archived_at(archive_dir@, date@) is None,
        },
{
    let parts = split_text(date, '-');
    proof {
        assert(forall|i: int|
            0 <= i < parts@.len() ==> #[trigger] texts(parts@)[i] == parts@[i]@);
    }
    if parts.len() != 3 {
        return None;
    }
    let year = join_path(archive_dir, parts[0].as_str());
    let dir = join_path(year.as_str(), parts[1].as_str());
    let leaf = glue(parts[2].as_str(), ".md");
    let file = join_path(dir.as_str(), leaf.as_str());
    Some(ArchiveTarget { dir, file })
}

/// Whether a date is made of three parts that can each name a file.
pub open spec fn is_filed(date: Seq<char>) -> bool {
    let parts = split(date, '-');
    parts.len() == 3 && forall|i: int|
        0 <= i < 3 ==> (#[trigger] parts[i]).len() > 0 && !parts[i].contains('/')
}

/// No two dates are archived in one file. What is archived of one date is thus never taken for
/// what is archived of another.
pub proof fn each_date_has_its_own_file(archive_dir: Seq<char>, a: Seq<char>, b: Seq<char>)
    requires
        is_filed(a),
        is_filed(b),
        archived_at(archive_dir, a) matches Some((_, file)) && archived_at(archive_dir, b) matches Some(
            (_, other),
        ) && file == other,
    ensures
        a == b,
{
    reveal_strlit("/");
    reveal_strlit(".md");
    let p = split(a, '-');
    let q = split(b, '-');
    assert(p[0].len() > 0 && p[1].len() > 0 && p[2].len() > 0);
    assert(q[0].len() > 0 && q[1].len() > 0 && q[2].len() > 0);
    let root = if archive_dir.len() == 0 || archive_dir.last() == '/' {
        archive_dir
    } else {
        archive_dir + "/"@
    };
    file_below(archive_dir, root, p[0], p[1], p[2] + ".md"@);
    file_below(archive_dir, root, q[0], q[1], q[2] + ".md"@);
    let x = p[0] + "/"@ + (p[1] + "/"@ + (p[2] + ".md"@));
    let y = q[0] + "/"@ + (q[1] + "/"@ + (q[2] + ".md"@));
    assert((root + x).skip(root.len() as int) =~= x);
    assert((root + y).skip(root.len() as int) =~= y);
    first_part_is_shared(p[0], q[0], p[1] + "/"@ + (p[2] + ".md"@), q[1] + "/"@ + (q[2] + ".md"@));
    first_part_is_shared(p[1], q[1], p[2] + ".md"@, q[2] + ".md"@);
    assert((p[2] + ".md"@).take(p[2].len() as int) =~= p[2]);
    assert((q[2] + ".md"@).take(q[2].len() as int) =~= q[2]);
    assert((p[2] + ".md"@).len() == (q[2] + ".md"@).len());
    assert(p =~= q);
    pieces_make_up_the_text(a, '-');
    pieces_make_up_the_text(b, '-');
}

proof fn file_below(dir: Seq<char>, root: Seq<char>, year: Seq<char>, month: Seq<char>, leaf: Seq<char>)
    requires
        root == if dir.len() == 0 || dir.last() == '/' {
            dir
        } else {
            dir + "/"@
        },
        year.len() > 0 && !year.contains('/'),
        month.len() > 0 && !month.contains('/'),
        leaf.len() > 0 && leaf[0] != '/',
    ensures
        joined(joined(joined(dir, year), month), leaf) == root + (year + "/"@ + (month + "/"@
            + leaf)),
{
    assert(year.contains(year[0]) && year.contains(year.last()));
    assert(month.contains(month[0]) && month.contains(month.last()));
    let one = joined(dir, year);
    assert(one =~= root + year);
    assert(one.last() == year.last());
    let two = joined(one, month);
    assert(two =~= one + "/"@ + month);
    assert(two.last() == month.last());
    assert(joined(two, leaf) =~= two + "/"@ + leaf);
    assert(two + "/"@ + leaf =~= root + (year + "/"@ + (month + "/"@ + leaf)));
}

proof fn first_part_is_shared(a: Seq<char>, b: Seq<char>, x: Seq<char>, y: Seq<char>)
    requires
        !a.contains('/'),
        !b.contains('/'),
        a + "/"@ + x == b + "/"@ + y,
    ensures
        a == b,
        x == y,
{
    reveal_strlit("/");
    let s = a + "/"@ + x;
    let t = b + "/"@ + y;
    assert(s[a.len() as int] == '/');
    assert(t[b.len() as int] == '/');
    if a.len() < b.len() {
        assert(t[a.len() as int] == b[a.len() as int]);
        assert(b.contains(b[a.len() as int]));
    }
    if b.len() < a.len() {
        assert(s[b.len() as int] == a[b.len() as int]);
        assert(a.contains(a[b.len() as int]));
    }
    assert(s.take(a.len() as int) =~= a);
    assert(t.take(b.len() as int) =~= b);
    assert(s.skip((a.len() + 1) as int) =~= x);
    assert(t.skip((b.len() + 1) as int) =~= y);
}

// ---------------------------------------------------------------------------
// Listing sessions
// ---------------------------------------------------------------------------

/// `s` with blanks behind it, so that it is at least `width` characters long.
pub open spec fn padded(s: Seq<char>, width: int) -> Seq<char> {
    if s.len() >= width {
        s
    } else {
        s + blanks(width - s.len())
    }
}

/// `s` with blanks before it, so that it is at least `width` characters long.
pub open spec fn indented(s: Seq<char>, width: int) -> Seq<char> {
    if s.len() >= width {
        s
    } else {
        blanks(width - s.len()) + s
    }
}

/// So many blanks.
pub open spec fn blanks(n: int) -> Seq<char> {
    Seq::new(n as nat, |i: int| ' ')
}

/// Four columns.
pub open spec fn columns(a: Seq<char>, b: Seq<char>, c: Seq<char>, d: Seq<char>) -> Seq<char> {
    padded(a, 40) + " "@ + padded(b, 12) + " "@ + padded(c, 12) + " "@ + indented(d, 6)
}

/// Whether the time can be taken out of a timestamp: it is too short to have one, or
/// characters begin where the time does and where it ends.
pub open spec fn shows_time(ts: Seq<char>) -> bool {
    byte_size(ts) >= 19 ==> splits_at(ts, 11) && splits_at(ts, 19)
}

/// What is shown of the time of a timestamp; one that is too short is shown whole.
pub open spec fn shown_time(ts: Seq<char>) -> Seq<char> {
    if byte_size(ts) >= 19 {
        byte_range(ts, 11, 19)
    } else {
        ts
    }
}

/// The line of the list about a session.
pub open spec fn list_line(s: SummaryView) -> Seq<char> {
    columns(
        s.session_id,
        s.date,
        shown_time(s.last_timestamp),
        signed_decimal(s.entry_count as int),
    )
}

fn blank_text(n: usize) -> (r: String)
    ensures
        r@ == blanks(n as int),
{
    let mut out = String::new();
    let mut i: usize = 0;
    proof {
        assert(out@ =~= blanks(0));
    }
    while i < n
        invariant
            i <= n,
            out@ == blanks(i as int),
        decreases n - i,
    {
        out.push(' ');
        i += 1;
        proof {
            assert(blanks(i - 1).push(' ') =~= blanks(i as int));
        }
    }
    out
}

fn pad(s: &str, width: usize) -> (r: String)
    ensures
        r@ == padded(s@, width as int),
{
    let length: usize = chars_of(s).len();
    if length >= width {
        s.to_owned()
    } else {
        glue(s, blank_text(width - length).as_str())
    }
}

fn indent(s: &str, width: usize) -> (r: String)
    ensures
        r@ == indented(s@, width as int),
{
    let length: usize = chars_of(s).len();
    if length >= width {
        s.to_owned()
    } else {
        glue(blank_text(width - length).as_str(), s)
    }
}

fn in_columns(a: &str, b: &str, c: &str, d: &str) -> (r: String)
    ensures
        r@ == columns(a@, b@, c@, d@),
{
    let mut out = glue(pad(a, 40).as_str(), " ");
    out.append(pad(b, 12).as_str());
    out.append(" ");
    out.append(pad(c, 12).as_str());
    out.append(" ");
    out.append(indent(d, 6).as_str());
    out
}

/// The line above the list of sessions.
pub fn list_heading() -> (r: String)
    ensures
        r@ == columns("SESSION_ID"@, "DATE"@, "LAST_TIME"@, "ENTRIES"@),
{
    in_columns("SESSION_ID", "DATE", "LAST_TIME", "ENTRIES")
}

/// Whether the time can be taken out of a timestamp.
pub fn can_show_time(ts: &str) -> (r: bool)
    ensures
        r == shows_time(ts@),
{
    size_of(ts) < 19 || (can_split(ts, 11) && can_split(ts, 19))
}

/// The line of the list about a session.
pub fn list_session(s: &SessionSummary) -> (r: String)
    requires
        shows_time(s.last_timestamp@),
    ensures
        r@ == list_line(s@),
{
    let time = if size_of(s.last_timestamp.as_str()) >= 19 {
        slice_bytes(s.last_timestamp.as_str(), 11, 19)
    } else {
        s.last_timestamp.clone()
    };
    in_columns(
        s.session_id.as_str(),
        s.date.as_str(),
        time.as_str(),
        signed_decimal_text(s.entry_count).as_str(),
    )
}

// ---------------------------------------------------------------------------
// Exporting
// ---------------------------------------------------------------------------

/// What is to be exported.
#[derive(Debug, PartialEq, Eq)]
pub enum ExportPlan {
    /// A session.
    Session(String),
    /// The entries of a date.
    Date(String),
    /// The entries from one date to another.
    Range { from: String, to: String },
    /// Nothing: the command does not say.
    Reject(Failure),
}

/// What an export plan is.
pub enum ExportView {
    Session(Seq<char>),
    Date(Seq<char>),
    Range { from: Seq<char>, to: Seq<char> },
    Reject(Seq<char>),
}

impl View for ExportPlan {
    type V = ExportView;

    open spec fn view(&self) -> ExportView {
        match *self {
            ExportPlan::Session(s) => ExportView::Session(s@),
            ExportPlan::Date(d) => ExportView::Date(d@),
            ExportPlan::Range { from, to } => ExportView::Range { from: from@, to: to@ },
            ExportPlan::Reject(e) => ExportView::Reject(e@),
        }
    }
}

/// What a command exports: a session comes before a date, and a date before a range, which is
/// open where no end is given.
pub open spec fn exported(
    session_id: Option<Seq<char>>,
    date: Option<Seq<char>>,
    from: Option<Seq<char>>,
    to: Option<Seq<char>>,
) -> ExportView {
    match (session_id, date) {
        (Some(s), _) => ExportView::Session(s),
        (None, Some(d)) => ExportView::Date(d),
        (None, None) => if from is Some || to is Some {
            ExportView::Range {
                from: match from {
                    Some(f) => f,
                    None => "2000-01-01"@,
                },
                to: match to {
                    Some(t) => t,
                    None => "2099-12-31"@,
                },
            }
        } else {
            ExportView::Reject("Specify session_id, --date, or --from/--to"@)
        },
    }
}

/// What a command exports.
pub fn plan_export(
    session_id: Option<&str>,
    date: Option<&str>,
    from: Option<&str>,
    to: Option<&str>,
) -> (r: ExportPlan)
    ensures
        r@ == exported(text_of(session_id), text_of(date), text_of(from), text_of(to)),
{
    match (session_id, date) {
        (Some(s), _) => ExportPlan::Session(s.to_owned()),
        (None, Some(d)) => ExportPlan::Date(d.to_owned()),
        (None, None) => if from.is_some() || to.is_some() {
            ExportPlan::Range {
                from: match from {
                    Some(f) => f.to_owned(),
                    None => "2000-01-01".to_owned(),
                },
                to: match to {
                    Some(t) => t.to_owned(),
                    None => "2099-12-31".to_owned(),
                },
            }
        } else {
            ExportPlan::Reject(Failure::new("Specify session_id, --date, or --from/--to"))
        },
    }
}

/// Several exports one after the other, each with a line break behind it.
pub open spec fn stacked(parts: Seq<Seq<char>>) -> Seq<char>
    decreases parts.len(),
{
    if parts.len() == 0 {
        Seq::empty()
    } else {
        stacked(parts.drop_last()) + parts.last() + "\n"@
    }
}

/// Several exports one after the other, each with a line break behind it.
pub fn stack(parts: &Vec<String>) -> (r: String)
    ensures
        r@ == stacked(texts(parts@)),
{
    let ghost all = texts(parts@);
    let mut out = String::new();
    let mut i: usize = 0;
    proof {
        assert(all.take(0) =~= Seq::empty());
    }
    while i < parts.len()
        invariant
            i <= parts@.len(),
            all == texts(parts@),
            out@ == stacked(all.take(i as int)),
        decreases parts@.len() - i,
    {
        out.append(parts[i].as_str());
        out.append("\n");
        i += 1;
        proof {
            assert(all.take(i as int).drop_last() =~= all.take(i - 1));
            assert(all.take(i as int).last() == parts@[i - 1]@);
        }
    }
    proof {
        assert(all.take(i as int) =~= all);
    }
    out
}

// ---------------------------------------------------------------------------
// Entries made by hand
// ---------------------------------------------------------------------------

/// An entry that a user writes.
pub open spec fn written_entry(
    content: Seq<char>,
    entry_type: Seq<char>,
    session_id: Seq<char>,
    source: Seq<char>,
    now: TimestampView,
) -> NewEntryView {
    NewEntryView {
        session_id,
        timestamp: now.iso,
        date: now.date,
        time: now.time,
        entry_type,
        tool_name: None,
        content,
        cwd: None,
        source,
    }
}

/// An entry that a user writes, kept under `source`.
pub fn write_entry(
    content: &str,
    entry_type: &str,
    session_id: &str,
    source: &str,
    now: &Timestamp,
) -> (r: NewEntry)
    ensures
        r@ == written_entry(content@, entry_type@, session_id@, source@, now@),
{
    NewEntry {
        session_id: session_id.to_owned(),
        timestamp: now.iso.clone(),
        date: now.date.clone(),
        time: now.time.clone(),
        entry_type: entry_type.to_owned(),
        tool_name: None,
        content: content.to_owned(),
        cwd: None,
        source: source.to_owned(),
    }
}

/// The entry for a summary that a program writes.
pub open spec fn summarized_entry(
    summary: Seq<char>,
    session_id: Option<Seq<char>>,
    tags: Option<Seq<char>>,
    now: TimestampView,
) -> NewEntryView {
    NewEntryView {
        session_id: match session_id {
            Some(s) => s,
            None => "agent-summary"@,
        },
        timestamp: now.iso,
        date: now.date,
        time: now.time,
        entry_type: "summary"@,
        tool_name: Some("skill_hook"@),
        content: match tags {
            Some(t) => tagged(summary, t),
            None => summary,
        },
        cwd: None,
        source: "summarizer"@,
    }
}

/// The entry for a summary that a program writes.
pub fn summarize_entry(
    summary: &str,
    session_id: Option<&str>,
    tags: Option<&str>,
    now: &Timestamp,
) -> (r: NewEntry)
    ensures
        r@ == summarized_entry(summary@, text_of(session_id), text_of(tags), now@),
{
    NewEntry {
        session_id: match session_id {
            Some(s) => s.to_owned(),
            None => "agent-summary".to_owned(),
        },
        timestamp: now.iso.clone(),
        date: now.date.clone(),
        time: now.time.clone(),
        entry_type: "summary".to_owned(),
        tool_name: Some("skill_hook".to_owned()),
        content: match tags {
            Some(t) => tag_summary(summary, t),
            None => summary.to_owned(),
        },
        cwd: None,
        source: "summarizer".to_owned(),
    }
}

// ---------------------------------------------------------------------------
// Entries on the screen
// ---------------------------------------------------------------------------

/// The line about an entry that a search has found.
pub open spec fn result_line(e: EntryView) -> Seq<char> {
    "["@ + signed_decimal(e.id as int) + "] "@ + e.date + " | "@ + e.time + " | "@ + e.source
        + " | "@ + e.entry_type + ": "@ + head(e.content, 120)
}

/// The line about an entry that a search has found, with the beginning of its content.
pub fn show_result(e: &RawEntry) -> (r: String)
    ensures
        r@ == result_line(e@),
{
    let mut out = glue3("[", signed_decimal_text(e.id).as_str(), "] ");
    out.append(e.date.as_str());
    out.append(" | ");
    out.append(e.time.as_str());
    out.append(" | ");
    out.append(e.source.as_str());
    out.append(" | ");
    out.append(e.entry_type.as_str());
    out.append(": ");
    out.append(head_of(e.content.as_str(), 120).as_str());
    out
}

/// An entry on the screen.
pub open spec fn entry_lines(e: EntryView) -> Seq<char> {
    "id="@ + signed_decimal(e.id as int) + " session="@ + e.session_id + " "@ + e.date + " "@
        + e.time + " type="@ + e.entry_type + "\n"@ + e.content
}

/// An entry on the screen.
pub fn show_entry(e: &RawEntry) -> (r: String)
    ensures
        r@ == entry_lines(e@),
{
    let mut out = glue3("id=", signed_decimal_text(e.id).as_str(), " session=");
    out.append(e.session_id.as_str());
    out.append(" ");
    out.append(e.date.as_str());
    out.append(" ");
    out.append(e.time.as_str());
    out.append(" type=");
    out.append(e.entry_type.as_str());
    out.append("\n");
    out.append(e.content.as_str());
    out
}

/// An entry among the others of its session on the screen.
pub open spec fn session_entry_line(e: EntryView) -> Seq<char> {
    "["@ + signed_decimal(e.id as int) + "] "@ + e.time + " "@ + e.entry_type + ": "@ + e.content
}

/// An entry among the others of its session on the screen.
pub fn show_session_entry(e: &RawEntry) -> (r: String)
    ensures
        r@ == session_entry_line(e@),
{
    let mut out = glue3("[", signed_decimal_text(e.id).as_str(), "] ");
    out.append(e.time.as_str());
    out.append(" ");
    out.append(e.entry_type.as_str());
    out.append(": ");
    out.append(e.content.as_str());
    out
}

// ---------------------------------------------------------------------------
// Laws
// ---------------------------------------------------------------------------

/// An answer means yes where it is the one letter, small or large, with white space around it or
/// not. Everything else, and nothing at all, means no.
pub proof fn only_one_letter_means_yes(input: Seq<char>)
    ensures
        means_yes(input) <==> trim(input) == seq!['y'] || trim(input) == seq!['Y'],
{
    reveal_strlit("y");
    reveal_strlit("Y");
    assert("y"@ =~= seq!['y']);
    assert("Y"@ =~= seq!['Y']);
}

/// The entries of a date in three parts are archived in a file named after the day, below
/// directories named after the year and the month. No other date is archived.
pub proof fn a_date_is_archived_by_year_month_and_day(
    archive_dir: Seq<char>,
    year: Seq<char>,
    month: Seq<char>,
    day: Seq<char>,
    date: Seq<char>,
)
    requires
        !year.contains('-') && !month.contains('-') && !day.contains('-'),
    ensures
        ({
            let dir = joined(joined(archive_dir, year), month);
            archived_at(archive_dir, year + seq!['-'] + (month + seq!['-'] + day)) == Some(
                (dir, joined(dir, day + ".md"@)),
            )
        }),
        split(date, '-').len() != 3 ==> archived_at(archive_dir, date) is None,
{
    texts_are_split_at_separators(year, month + seq!['-'] + day, '-');
    texts_are_split_at_separators(month, day, '-');
    texts_are_split_at_separators(day, Seq::empty(), '-');
    let parts = split(year + seq!['-'] + (month + seq!['-'] + day), '-');
    assert(parts =~= seq![year, month, day]);
}

/// In the list, each column begins with what is shown in it and is filled up with blanks, the last
/// one before what is shown. What is too long for its column is shown whole.
pub proof fn columns_are_filled_up_with_blanks(s: Seq<char>, width: int, i: int)
    requires
        0 <= width,
    ensures
        padded(s, width).len() == if s.len() < width {
            width
        } else {
            s.len() as int
        },
        indented(s, width).len() == padded(s, width).len(),
        0 <= i < s.len() ==> padded(s, width)[i] == s[i] && indented(s, width)[indented(
            s,
            width,
        ).len() - s.len() + i] == s[i],
        s.len() <= i < padded(s, width).len() ==> padded(s, width)[i] == ' ',
        0 <= i < indented(s, width).len() - s.len() ==> indented(s, width)[i] == ' ',
{
}

/// The line of the list about a session has its name, its date, the time at which it ended, and how
/// many entries it has. Of a timestamp that is too short all is shown.
pub proof fn a_session_is_listed_by_name_date_time_and_size(s: SummaryView)
    ensures
        ({
            let ts = s.last_timestamp;
            let time = if byte_size(ts) >= 19 {
                byte_range(ts, 11, 19)
            } else {
                ts
            };
            list_line(s) == padded(s.session_id, 40) + " "@ + padded(s.date, 12) + " "@ + padded(
                time,
                12,
            ) + " "@ + indented(signed_decimal(s.entry_count as int), 6)
        }),
        shows_time(s.last_timestamp) <==> byte_size(s.last_timestamp) < 19 || splits_at(
            s.last_timestamp,
            11,
        ) && splits_at(s.last_timestamp, 19),
        vstd::utf8::is_ascii_chars(s.last_timestamp) && s.last_timestamp.len() >= 19 ==> shown_time(
            s.last_timestamp,
        ) == s.last_timestamp.subrange(11, 19) && shows_time(s.last_timestamp),
{
    if vstd::utf8::is_ascii_chars(s.last_timestamp) && s.last_timestamp.len() >= 19 {
        ascii_takes_a_byte_each(s.last_timestamp, 11, 19);
        ascii_takes_a_byte_each(s.last_timestamp, 19, 19);
    }
}

/// A session that is named is exported whatever else is; without one the date that is named, and
/// without that the range, open where no end is named. Nothing named is nothing to export.
pub proof fn what_is_named_first_is_exported(
    session_id: Option<Seq<char>>,
    date: Option<Seq<char>>,
    from: Option<Seq<char>>,
    to: Option<Seq<char>>,
)
    ensures
        session_id is Some ==> exported(session_id, date, from, to) == ExportView::Session(
            session_id->0,
        ),
        session_id is None && date is Some ==> exported(session_id, date, from, to)
            == ExportView::Date(date->0),
        session_id is None && date is None && from is Some && to is Some ==> exported(
            session_id,
            date,
            from,
            to,
        ) == (ExportView::Range { from: from->0, to: to->0 }),
        session_id is None && date is None && from is Some && to is None ==> exported(
            session_id,
            date,
            from,
            to,
        ) == (ExportView::Range { from: from->0, to: "2099-12-31"@ }),
        session_id is None && date is None && from is None && to is Some ==> exported(
            session_id,
            date,
            from,
            to,
        ) == (ExportView::Range { from: "2000-01-01"@, to: to->0 }),
        session_id is None && date is None && from is None && to is None ==> exported(
            session_id,
            date,
            from,
            to,
        ) == ExportView::Reject("Specify session_id, --date, or --from/--to"@),
{
}

/// Exports follow one another, each with a line break behind it.
pub proof fn exports_follow_one_another(parts: Seq<Seq<char>>, part: Seq<char>)
    ensures
        stacked(Seq::empty()).len() == 0,
        stacked(parts.push(part)) == stacked(parts) + part + "\n"@,
{
    assert(parts.push(part).drop_last() =~= parts);
}

/// What a user writes is kept as it is, and what a program sums up after its tags, both dated now.
pub proof fn entries_by_hand_are_kept_as_given(
    content: Seq<char>,
    entry_type: Seq<char>,
    session_id: Seq<char>,
    source: Seq<char>,
    tags: Seq<char>,
    now: TimestampView,
)
    ensures
        written_entry(content, entry_type, session_id, source, now) == (NewEntryView {
            session_id,
            timestamp: now.iso,
            date: now.date,
            time: now.time,
            entry_type,
            tool_name: None,
            content,
            cwd: None,
            source,
        }),
        ({
            let plain = NewEntryView {
                session_id: "agent-summary"@,
                timestamp: now.iso,
                date: now.date,
                time: now.time,
                entry_type: "summary"@,
                tool_name: Some("skill_hook"@),
                content,
                cwd: None,
                source: "summarizer"@,
            };
            &&& summarized_entry(content, None, None, now) == plain
            &&& summarized_entry(content, Some(session_id), None, now) == (NewEntryView {
                session_id,
                ..plain
            })
            &&& tags.len() == 0 ==> summarized_entry(content, None, Some(tags), now) == plain
            &&& tags.len() > 0 ==> summarized_entry(content, None, Some(tags), now) == (
            NewEntryView { content: "[Tags: "@ + tags + "]\n"@ + content, ..plain })
            &&& tags.len() > 0 ==> summarized_entry(content, Some(session_id), Some(tags), now)
                == (NewEntryView {
                session_id,
                content: "[Tags: "@ + tags + "]\n"@ + content,
                ..plain
            })
        }),
{
}

/// Entries are shown on the screen with their number, when they were made, what they are and what
/// they say: of one that a search has found at most 120 characters.
pub proof fn entries_are_shown_on_the_screen(e: EntryView)
    ensures
        e.content.len() <= 120 ==> result_line(e) == "["@ + signed_decimal(e.id as int) + "] "@
            + e.date + " | "@ + e.time + " | "@ + e.source + " | "@ + e.entry_type + ": "@
            + e.content,
        e.content.len() > 120 ==> result_line(e) == "["@ + signed_decimal(e.id as int) + "] "@
            + e.date + " | "@ + e.time + " | "@ + e.source + " | "@ + e.entry_type + ": "@
            + e.content.take(120),
        entry_lines(e) == "id="@ + signed_decimal(e.id as int) + " session="@ + e.session_id + " "@
            + e.date + " "@ + e.time + " type="@ + e.entry_type + "\n"@ + e.content,
        session_entry_line(e) == "["@ + signed_decimal(e.id as int) + "] "@ + e.time + " "@
            + e.entry_type + ": "@ + e.content,
{
}

/// What an export plan is, is what it holds.
pub proof fn an_export_plan_is_what_it_holds(s: String, t: String, failure: Failure)
    ensures
        ExportPlan::Session(s)@ == ExportView::Session(s@),
        ExportPlan::Date(s)@ == ExportView::Date(s@),
        (ExportPlan::Range { from: s, to: t })@ == (ExportView::Range { from: s@, to: t@ }),
        ExportPlan::Reject(failure)@ == ExportView::Reject(failure@),
{
}

} // verus!
