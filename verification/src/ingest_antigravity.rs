//! What Antigravity leaves behind, brought into the database.
//!
//! Below its directory of sessions, Antigravity keeps one directory for each session. An artifact
//! in it is a Markdown file, a file with what is known about it, and earlier versions.

use vstd::prelude::*;
use vstd::string::StringExecFns;
use vstd::utf8::*;

use crate::decimal::{parse_signed, signed_value};
use crate::failure::{outcome, Failure};
use crate::json::{parse_json, parsed, Json, JsonView};
use crate::memory::{NewEntry, NewEntryView};
use crate::paths::{home_dir, join_path, joined};
use crate::text::{
    after_prefix, ascii_takes_a_byte_each, byte_range, byte_size, can_split, chars_of, contains,
    cut_suffixes, find, finishes_with, fit, fitting, fitting_fits, glue, glue3, is_space,
    is_space_char, join, join_chars, occurs_at, owned, owned_text, pieces_make_up_the_text,
    pieces_of, position, same, size_of, slice, slice_bytes, split, split_chars, splits_at,
    string_of, suffixes_are_cut_off, text_of, texts, texts_are_split_at_separators,
    without_suffixes,
};

verus! {

/// The source under which the database keeps what Antigravity remembers.
pub const SOURCE: &'static str = "antigravity";

/// How many bytes of a file an entry keeps.
pub const MAX_CONTENT: usize = 48_000;

// ---------------------------------------------------------------------------
// Directories and files
// ---------------------------------------------------------------------------

/// The directory of the sessions of Antigravity, below the home directory.
pub open spec fn brain_of(home: Option<Seq<char>>) -> Result<Seq<char>, Seq<char>> {
    match home {
        Some(h) => Ok(joined(joined(joined(h, ".gemini"@), "antigravity"@), "brain"@)),
        None => Err("Cannot find home directory"@),
    }
}

/// The directory of the sessions of Antigravity, below `home`.
pub fn brain_dir(home: Option<&str>) -> (r: Result<String, Failure>)
    ensures
        outcome(r) == brain_of(text_of(home)),
{
    match home {
        Some(h) => {
            let above = join_path(h, ".gemini");
            let above = join_path(above.as_str(), "antigravity");
            Ok(join_path(above.as_str(), "brain"))
        },
        None => Err(Failure::new("Cannot find home directory")),
    }
}

/// The directory of the sessions of Antigravity, below the user's home directory.
pub fn brain_dir_at_home() -> (r: Result<String, Failure>)
    ensures
        exists|home: Option<Seq<char>>| outcome(r) == #[trigger] brain_of(home),
{
    let home = home_dir();
    let r = brain_dir(slice(&home));
    proof {
        assert(outcome(r) == brain_of(owned_text(home)));
    }
    r
}

/// How many hyphens a text has.
pub open spec fn hyphens(s: Seq<char>) -> nat
    decreases s.len(),
{
    if s.len() == 0 {
        0
    } else {
        hyphens(s.drop_last()) + if s.last() == '-' {
            1nat
        } else {
            0nat
        }
    }
}

/// Whether a name is that of a session.
pub open spec fn names_session(s: Seq<char>) -> bool {
    byte_size(s) == 36 && hyphens(s) == 4
}

/// Whether a directory is that of a session, by its name.
pub fn looks_like_uuid(s: &str) -> (r: bool)
    ensures
        r == names_session(s@),
{
    if size_of(s) != 36 {
        return false;
    }
    let chars = chars_of(s);
    let mut count: usize = 0;
    let mut i: usize = 0;
    while i < chars.len()
        invariant
            chars@ == s@,
            i <= chars@.len(),
            count <= i,
            count == hyphens(s@.take(i as int)),
        decreases chars@.len() - i,
    {
        proof {
            assert(s@.take(i + 1).drop_last() =~= s@.take(i as int));
        }
        if chars[i] == '-' {
            count += 1;
        }
        i += 1;
    }
    proof {
        assert(s@.take(i as int) =~= s@);
    }
    count == 4
}

/// The artifact that a file says something about, where it does.
pub open spec fn artifact_named(name: Seq<char>) -> Option<Seq<char>> {
    if ".metadata.json"@.is_suffix_of(name) {
        Some(without_suffixes(name, ".metadata.json"@))
    } else {
        None
    }
}

/// The artifact that the file `name` says something about.
pub fn artifact_of(name: &str) -> (r: Option<String>)
    ensures
        owned_text(r) == artifact_named(name@),
{
    if finishes_with(name, ".metadata.json") {
        Some(cut_suffixes(name, ".metadata.json"))
    } else {
        None
    }
}

/// Whether an artifact of the given size has to be read, when `last_offset` is its size at the
/// last time, or 0 where there was none: it has grown, or has never been read. Antigravity
/// replaces files rather than appending to them, and only their sizes show that.
pub open spec fn must_read(size: int, last_offset: int) -> bool {
    size > last_offset || last_offset <= 0
}

/// The size of an artifact, where it has to be read.
pub fn size_to_read(meta_size: i64, md_size: i64, last_offset: i64) -> (r: Option<i64>)
    requires
        i64::MIN <= meta_size + md_size <= i64::MAX,
    ensures
        r == if must_read(meta_size + md_size, last_offset as int) {
            Some((meta_size + md_size) as i64)
        } else {
            None
        },
{
    let combined: i64 = meta_size + md_size;
    if combined <= last_offset && last_offset > 0 {
        None
    } else {
        Some(combined)
    }
}

/// An artifact that has been read is not read again until it has become larger.
pub proof fn a_read_artifact_is_left_alone(size: int, later: int)
    requires
        0 < size,
    ensures
        must_read(size, 0),
        must_read(later, size) <==> later > size,
{
}

/// Which version of the artifact a file is, where it is a numbered one.
pub open spec fn version_of(name: Seq<char>, md_name: Seq<char>) -> Option<int> {
    let prefix = md_name + ".resolved."@;
    if prefix.is_prefix_of(name) {
        signed_value(name.skip(prefix.len() as int))
    } else {
        None
    }
}

/// The first file of the highest version among `names`, if any has a version that is not negative.
pub open spec fn highest(names: Seq<Seq<char>>, md_name: Seq<char>) -> Option<(int, Seq<char>)>
    decreases names.len(),
{
    if names.len() == 0 {
        None
    } else {
        let before = highest(names.drop_last(), md_name);
        let bound = match before {
            Some((n, _)) => n,
            None => -1,
        };
        match version_of(names.last(), md_name) {
            Some(n) => if n > bound {
                Some((n, names.last()))
            } else {
                before
            },
            None => before,
        }
    }
}

/// The latest version of an artifact, among the files of its session: the highest number, or
/// else the one without a number.
pub open spec fn latest_version(names: Seq<Seq<char>>, md_name: Seq<char>, base_exists: bool) -> Option<
    Seq<char>,
> {
    match highest(names, md_name) {
        Some((_, name)) => Some(name),
        None => if base_exists {
            Some(md_name + ".resolved"@)
        } else {
            None
        },
    }
}

/// The file that holds the latest version of the artifact `md_name`, among the files of its
/// session. `base_exists` says whether there is one without a number.
pub fn find_latest_resolved(names: &Vec<String>, md_name: &str, base_exists: bool) -> (r: Option<
    String,
>)
    ensures
        owned_text(r) == latest_version(texts(names@), md_name@, base_exists),
{
    let prefix = glue(md_name, ".resolved.");
    let mut bound: i64 = -1;
    let mut best: Option<String> = if base_exists {
        Some(glue(md_name, ".resolved"))
    } else {
        None
    };
    let ghost base = owned_text(best);
    let ghost all = texts(names@);
    let mut i: usize = 0;
    proof {
        assert(all.take(0) =~= Seq::empty());
    }
    while i < names.len()
        invariant
            i <= names@.len(),
            all == texts(names@),
            prefix@ == md_name@ + ".resolved."@,
            match highest(all.take(i as int), md_name@) {
                Some((n, name)) => bound == n && owned_text(best) == Some(name),
                None => bound == -1 && owned_text(best) == base,
            },
        decreases names@.len() - i,
    {
        proof {
            assert(all.take(i + 1).drop_last() =~= all.take(i as int));
            assert(all.take(i + 1).last() == names@[i as int]@);
        }
        match after_prefix(names[i].as_str(), prefix.as_str()) {
            Some(suffix) => match parse_signed(suffix.as_str()) {
                Some(n) => if n > bound {
                    bound = n;
                    best = Some(names[i].clone());
                },
                None => {},
            },
            None => {},
        }
        i += 1;
    }
    proof {
        assert(all.take(i as int) =~= all);
    }
    best
}

/// No version is later than the latest one.
pub proof fn the_latest_version_is_the_highest(names: Seq<Seq<char>>, md_name: Seq<char>, i: int)
    requires
        0 <= i < names.len(),
        version_of(names[i], md_name) is Some,
    ensures
        match highest(names, md_name) {
            Some((n, name)) => version_of(names[i], md_name)->0 <= n && version_of(name, md_name)
                == Some(n) && names.contains(name),
            None => version_of(names[i], md_name)->0 < 0,
        },
    decreases names.len(),
{
    let last = names.len() - 1;
    the_highest_is_there(names, md_name);
    if i < last {
        assert(names.drop_last()[i] == names[i]);
        the_latest_version_is_the_highest(names.drop_last(), md_name, i);
    }
}

proof fn the_highest_is_there(names: Seq<Seq<char>>, md_name: Seq<char>)
    ensures
        highest(names, md_name) matches Some((n, name)) ==> 0 <= n && version_of(name, md_name)
            == Some(n) && names.contains(name),
    decreases names.len(),
{
    if names.len() > 0 {
        the_highest_is_there(names.drop_last(), md_name);
        assert(names[names.len() - 1] == names.last());
        match highest(names.drop_last(), md_name) {
            Some((n, name)) => {
                let j = choose|j: int|
                    0 <= j < names.drop_last().len() && names.drop_last()[j] == name;
                assert(names[j] == name);
            },
            None => {},
        }
    }
}

// ---------------------------------------------------------------------------
// Contents
// ---------------------------------------------------------------------------

/// Whether a timestamp can be taken apart: it is too short to be, or characters begin where
/// its date and its time do.
pub open spec fn comes_apart(ts: Seq<char>) -> bool {
    byte_size(ts) >= 19 ==> splits_at(ts, 10) && splits_at(ts, 11) && splits_at(ts, 19)
}

/// The date of a timestamp: its first ten bytes.
pub open spec fn date_of(ts: Seq<char>) -> Seq<char> {
    if byte_size(ts) >= 19 {
        byte_range(ts, 0, 10)
    } else {
        ts
    }
}

/// The time of a timestamp: the eight bytes after the date and one more.
pub open spec fn time_of(ts: Seq<char>) -> Seq<char> {
    if byte_size(ts) >= 19 {
        byte_range(ts, 11, 19)
    } else {
        "00:00:00"@
    }
}

/// Whether a timestamp can be taken apart.
pub fn can_come_apart(ts: &str) -> (r: bool)
    ensures
        r == comes_apart(ts@),
{
    size_of(ts) < 19 || (can_split(ts, 10) && can_split(ts, 11) && can_split(ts, 19))
}

/// The date and the time of a timestamp.
pub fn parse_datetime(ts: &str) -> (r: (String, String))
    requires
        comes_apart(ts@),
    ensures
        r.0@ == date_of(ts@),
        r.1@ == time_of(ts@),
{
    if size_of(ts) >= 19 {
        proof {
            encode_utf8_valid_utf8(ts@);
            is_char_boundary_start_end_of_seq(encode_utf8(ts@));
        }
        (slice_bytes(ts, 0, 10), slice_bytes(ts, 11, 19))
    } else {
        (ts.to_owned(), "00:00:00".to_owned())
    }
}

/// Of a timestamp in ASCII that is long enough, the first ten characters are the date, and the
/// eight after the next one the time.
pub proof fn an_ascii_timestamp_comes_apart(ts: Seq<char>)
    requires
        is_ascii_chars(ts),
        ts.len() >= 19,
    ensures
        comes_apart(ts),
        date_of(ts) == ts.subrange(0, 10),
        time_of(ts) == ts.subrange(11, 19),
{
    ascii_takes_a_byte_each(ts, 0, 10);
    ascii_takes_a_byte_each(ts, 10, 10);
    ascii_takes_a_byte_each(ts, 11, 19);
    ascii_takes_a_byte_each(ts, 19, 19);
}

/// A text that is not longer than `max` bytes, or as much of it as fits and a mark.
pub open spec fn truncated(s: Seq<char>, max: nat) -> Seq<char> {
    if byte_size(s) <= max {
        s
    } else {
        fitting(s, max) + "... [truncated]"@
    }
}

/// The text, or as much of it as takes at most `max` bytes, with a mark behind it.
pub fn truncate(s: &str, max: usize) -> (r: String)
    ensures
        r@ == truncated(s@, max as nat),
{
    if size_of(s) <= max {
        s.to_owned()
    } else {
        glue(fit(s, max).as_str(), "... [truncated]")
    }
}

/// Of a text that has been cut off, a beginning is kept that takes at most `max` bytes, and one
/// character more would take more. A text that fits is kept as it is.
pub proof fn what_is_kept_fits(s: Seq<char>, max: nat)
    ensures
        byte_size(s) <= max ==> truncated(s, max) == s,
        byte_size(s) > max ==> exists|n: int|
            0 <= n < s.len() && truncated(s, max) == #[trigger] s.take(n) + "... [truncated]"@
                && byte_size(s.take(n)) <= max && byte_size(s.take(n + 1)) > max,
{
    fitting_fits(s, max);
    if byte_size(s) > max {
        let kept = fitting(s, max);
        let n = kept.len() as int;
        if n == s.len() {
            assert(kept =~= s);
        }
        assert(kept =~= s.take(n));
        assert(truncated(s, max) == s.take(n) + "... [truncated]"@);
    }
}

/// Whether a character can be part of an address in Markdown.
pub open spec fn in_address(c: char) -> bool {
    !is_space(c) && c != ')' && c != ']'
}

/// The characters with which `s` begins that can be part of an address.
pub open spec fn address_run(s: Seq<char>) -> Seq<char>
    decreases s.len(),
{
    if s.len() > 0 && in_address(s[0]) {
        seq![s[0]] + address_run(s.drop_first())
    } else {
        Seq::empty()
    }
}

/// The workspace that a path lies in: its first three directories, or four below `/Volumes`.
pub open spec fn workspace_of_path(path: Seq<char>) -> Option<Seq<char>> {
    let parts = split(path, '/');
    if parts.len() >= 5 {
        let depth = if parts[1] == "Volumes"@ {
            5int
        } else {
            4int
        };
        Some(join(parts.take(depth), "/"@))
    } else {
        None
    }
}

/// The workspace of the first file address in a line.
pub open spec fn workspace_in_line(line: Seq<char>) -> Option<Seq<char>> {
    if contains(line, "file:///"@) {
        workspace_of_path(address_run(line.skip(position(line, "file:///"@) + 7)))
    } else {
        None
    }
}

/// The workspace that the first of the lines tells, of those that tell one.
pub open spec fn workspace_in_lines(lines: Seq<Seq<char>>) -> Option<Seq<char>>
    decreases lines.len(),
{
    if lines.len() == 0 {
        None
    } else {
        match workspace_in_line(lines[0]) {
            Some(ws) => Some(ws),
            None => workspace_in_lines(lines.drop_first()),
        }
    }
}

/// The workspace that a text is about, by the file addresses in it.
pub open spec fn workspace_in(content: Seq<char>) -> Option<Seq<char>> {
    workspace_in_lines(split(content, '\n'))
}

proof fn address_run_is(s: Seq<char>, n: int)
    requires
        0 <= n <= s.len(),
        forall|i: int| 0 <= i < n ==> in_address(#[trigger] s[i]),
        n < s.len() ==> !in_address(s[n]),
    ensures
        address_run(s) == s.take(n),
    decreases n,
{
    if n == 0 {
        assert(s.take(0) =~= Seq::empty());
    } else {
        let rest = s.drop_first();
        assert(in_address(s[0]));
        assert forall|i: int| 0 <= i < n - 1 implies in_address(#[trigger] rest[i]) by {
            assert(in_address(s[i + 1]));
        }
        address_run_is(rest, n - 1);
        assert(seq![s[0]] + rest.take(n - 1) =~= s.take(n));
    }
}

fn find_workspace_in_line(line: &Vec<char>) -> (r: Option<String>)
    ensures
        owned_text(r) == workspace_in_line(line@),
{
    let wanted = chars_of("file:///");
    let at = match find(line, &wanted) {
        Some(at) => at,
        None => {
            return None;
        },
    };
    proof {
        reveal_strlit("file:///");
        assert("file:///"@.len() == 8);
        assert(contains(line@, "file:///"@));
    }
    let length: usize = line.len();
    assert(at + 8 <= length);
    let from: usize = at + 7;
    let mut to: usize = from;
    while to < line.len() && !is_space_char(line[to]) && line[to] != ')' && line[to] != ']'
        invariant
            from <= to <= line@.len(),
            forall|i: int| from <= i < to ==> in_address(#[trigger] line@[i]),
        decreases line@.len() - to,
    {
        to += 1;
    }
    let ghost tail = line@.skip(from as int);
    let mut path: Vec<char> = Vec::new();
    let mut i: usize = from;
    while i < to
        invariant
            from <= i <= to <= line@.len(),
            path@ == line@.subrange(from as int, i as int),
        decreases to - i,
    {
        path.push(line[i]);
        i += 1;
    }
    proof {
        assert forall|j: int| 0 <= j < to - from implies in_address(#[trigger] tail[j]) by {
            assert(in_address(line@[from + j]));
        }
        address_run_is(tail, to - from);
        assert(tail.take(to - from) =~= path@);
    }
    let parts = split_chars(&path, '/');
    if parts.len() < 5 {
        return None;
    }
    let first = string_of(&parts[1], 0, parts[1].len());
    proof {
        assert(first@ =~= pieces_of(parts@)[1]);
    }
    let depth: usize = if same(first.as_str(), "Volumes") {
        5
    } else {
        4
    };
    Some(join_chars(&parts, depth, "/"))
}

/// The workspace that a text is about, by the file addresses in it.
pub fn extract_workspace_from_content(content: &str) -> (r: Option<String>)
    ensures
        owned_text(r) == workspace_in(content@),
{
    let chars = chars_of(content);
    let lines = split_chars(&chars, '\n');
    let ghost all = pieces_of(lines@);
    let mut i: usize = 0;
    proof {
        assert(all.skip(0) =~= all);
    }
    while i < lines.len()
        invariant
            i <= lines@.len(),
            all == pieces_of(lines@),
            all == split(content@, '\n'),
            workspace_in_lines(all.skip(i as int)) == workspace_in(content@),
        decreases lines@.len() - i,
    {
        proof {
            assert(all.skip(i as int)[0] == lines@[i as int]@);
            assert(all.skip(i as int).drop_first() =~= all.skip(i + 1));
        }
        match find_workspace_in_line(&lines[i]) {
            Some(ws) => {
                return Some(ws);
            },
            None => {},
        }
        i += 1;
    }
    None
}

// ---------------------------------------------------------------------------
// Entries
// ---------------------------------------------------------------------------

/// What is known about an artifact.
#[derive(Debug, PartialEq, Eq)]
pub struct Artifact {
    pub updated_at: String,
    pub summary: String,
    pub artifact_type: String,
}

/// What is known about an artifact.
pub struct ArtifactView {
    pub updated_at: Seq<char>,
    pub summary: Seq<char>,
    pub artifact_type: Seq<char>,
}

impl View for Artifact {
    type V = ArtifactView;

    open spec fn view(&self) -> ArtifactView {
        ArtifactView {
            updated_at: self.updated_at@,
            summary: self.summary@,
            artifact_type: self.artifact_type@,
        }
    }
}

/// What a file says about its artifact. Where it does not say when the artifact was written, it
/// says nothing.
pub open spec fn artifact_in(meta: JsonView) -> Option<ArtifactView> {
    match meta.text_field("updatedAt"@) {
        Some(at) => if at.len() == 0 {
            None
        } else {
            Some(
                ArtifactView {
                    updated_at: at,
                    summary: match meta.text_field("summary"@) {
                        Some(t) => t,
                        None => Seq::empty(),
                    },
                    artifact_type: match meta.text_field("artifactType"@) {
                        Some(t) => t,
                        None => "unknown"@,
                    },
                },
            )
        },
        None => None,
    }
}

/// What a file says about its artifact.
pub fn read_artifact(meta: &Json) -> (r: Option<Artifact>)
    ensures
        match r {
            Some(a) => artifact_in(meta@) == Some(a@),
            None => artifact_in(meta@) is None,
        },
{
    let updated_at = match meta.text_at("updatedAt") {
        Some(t) => t.to_owned(),
        None => {
            return None;
        },
    };
    if updated_at.as_str().is_empty() {
        return None;
    }
    let summary = match meta.text_at("summary") {
        Some(t) => t.to_owned(),
        None => String::new(),
    };
    let artifact_type = match meta.text_at("artifactType") {
        Some(t) => t.to_owned(),
        None => "unknown".to_owned(),
    };
    Some(Artifact { updated_at, summary, artifact_type })
}

/// What the text of a file says about its artifact. One that is no JSON says nothing.
pub fn parse_artifact(text: &str) -> (r: Option<Artifact>)
    ensures
        match r {
            Some(a) => parsed(text@) is Some && artifact_in(parsed(text@)->0) == Some(a@),
            None => parsed(text@) is None || artifact_in(parsed(text@)->0) is None,
        },
{
    match parse_json(text) {
        Some(meta) => read_artifact(&meta),
        None => None,
    }
}

/// What the database keeps of an artifact: its summary, and its text as far as it fits.
pub open spec fn artifact_content(artifact: ArtifactView, md: Seq<char>) -> Seq<char> {
    let headline = "["@ + artifact.artifact_type + "] "@ + artifact.summary;
    if artifact.summary.len() > 0 && md.len() > 0 {
        headline + "\n\n"@ + truncated(md, MAX_CONTENT as nat)
    } else if artifact.summary.len() > 0 {
        headline
    } else {
        truncated(md, MAX_CONTENT as nat)
    }
}

/// What tells the entry of an artifact from all others of its session.
pub open spec fn marker(session_id: Seq<char>, md_name: Seq<char>) -> Seq<char> {
    "ag:"@ + session_id + ":"@ + md_name
}

/// What tells the entry of an earlier version from all others of its session.
pub open spec fn latest_marker(session_id: Seq<char>, md_name: Seq<char>) -> Seq<char> {
    marker(session_id, md_name) + ".latest"@
}

/// The entry of an artifact.
pub open spec fn artifact_entry(
    session_id: Seq<char>,
    md_name: Seq<char>,
    artifact: ArtifactView,
    md: Seq<char>,
) -> NewEntryView {
    NewEntryView {
        session_id,
        timestamp: artifact.updated_at,
        date: date_of(artifact.updated_at),
        time: time_of(artifact.updated_at),
        entry_type: "assistant"@,
        tool_name: Some(marker(session_id, md_name)),
        content: artifact_content(artifact, md),
        cwd: workspace_in(md),
        source: SOURCE@,
    }
}

/// The entry of the latest version of an artifact. Where that version tells no workspace, it
/// is that of the artifact.
pub open spec fn version_entry(
    session_id: Seq<char>,
    md_name: Seq<char>,
    artifact: ArtifactView,
    md: Seq<char>,
    version: Seq<char>,
) -> NewEntryView {
    NewEntryView {
        session_id,
        timestamp: artifact.updated_at,
        date: date_of(artifact.updated_at),
        time: time_of(artifact.updated_at),
        entry_type: "user"@,
        tool_name: Some(latest_marker(session_id, md_name)),
        content: truncated(version, MAX_CONTENT as nat),
        cwd: match workspace_in(version) {
            Some(ws) => Some(ws),
            None => workspace_in(md),
        },
        source: SOURCE@,
    }
}

/// The entries that an artifact makes: none where there is nothing to keep, and one more for
/// its latest version where that says something else.
pub open spec fn artifact_entries(
    session_id: Seq<char>,
    md_name: Seq<char>,
    artifact: ArtifactView,
    md: Seq<char>,
    version: Option<Seq<char>>,
) -> Seq<NewEntryView> {
    if artifact_content(artifact, md).len() == 0 {
        Seq::empty()
    } else {
        let first = artifact_entry(session_id, md_name, artifact, md);
        match version {
            Some(v) => if v.len() > 0 && v != md {
                seq![first, version_entry(session_id, md_name, artifact, md, v)]
            } else {
                seq![first]
            },
            None => seq![first],
        }
    }
}

/// What a sequence of new entries says.
pub open spec fn new_entries_of(entries: Seq<NewEntry>) -> Seq<NewEntryView> {
    entries.map_values(|e: NewEntry| e@)
}

fn content_of_artifact(artifact: &Artifact, md: &str) -> (r: String)
    ensures
        r@ == artifact_content(artifact@, md@),
{
    let mut headline = glue3("[", artifact.artifact_type.as_str(), "] ");
    headline.append(artifact.summary.as_str());
    if artifact.summary.as_str().is_empty() {
        truncate(md, MAX_CONTENT)
    } else if md.is_empty() {
        headline
    } else {
        headline.append("\n\n");
        headline.append(truncate(md, MAX_CONTENT).as_str());
        headline
    }
}

fn marker_of(session_id: &str, md_name: &str) -> (r: String)
    ensures
        r@ == marker(session_id@, md_name@),
{
    let head = glue3("ag:", session_id, ":");
    glue(head.as_str(), md_name)
}

/// The entries that an artifact of a session makes: `md` is the text of the artifact, and
/// `version` that of its latest version. An entry replaces the one with the same `tool_name`.
pub fn ingest_session(
    session_id: &str,
    md_name: &str,
    artifact: &Artifact,
    md: &str,
    version: Option<&str>,
) -> (r: Vec<NewEntry>)
    requires
        comes_apart(artifact.updated_at@),
    ensures
        new_entries_of(r@) == artifact_entries(
            session_id@,
            md_name@,
            artifact@,
            md@,
            text_of(version),
        ),
{
    let mut out: Vec<NewEntry> = Vec::new();
    let content = content_of_artifact(artifact, md);
    if content.as_str().is_empty() {
        proof {
            assert(new_entries_of(out@) =~= Seq::empty());
        }
        return out;
    }
    let (date, time) = parse_datetime(artifact.updated_at.as_str());
    let cwd = extract_workspace_from_content(md);
    let first = NewEntry {
        session_id: session_id.to_owned(),
        timestamp: artifact.updated_at.clone(),
        date: date.clone(),
        time: time.clone(),
        entry_type: "assistant".to_owned(),
        tool_name: Some(marker_of(session_id, md_name)),
        content,
        cwd: owned(slice(&cwd)),
        source: SOURCE.to_owned(),
    };
    let ghost made = first@;
    out.push(first);
    proof {
        assert(made == artifact_entry(session_id@, md_name@, artifact@, md@));
        assert(new_entries_of(out@) =~= seq![made]);
    }
    match version {
        Some(v) => if !v.is_empty() && !same(v, md) {
            let version_cwd = match extract_workspace_from_content(v) {
                Some(ws) => Some(ws),
                None => cwd,
            };
            let second = NewEntry {
                session_id: session_id.to_owned(),
                timestamp: artifact.updated_at.clone(),
                date,
                time,
                entry_type: "user".to_owned(),
                tool_name: Some(glue(marker_of(session_id, md_name).as_str(), ".latest")),
                content: truncate(v, MAX_CONTENT),
                cwd: version_cwd,
                source: SOURCE.to_owned(),
            };
            let ghost earlier = second@;
            out.push(second);
            proof {
                assert(earlier == version_entry(session_id@, md_name@, artifact@, md@, v@));
                assert(new_entries_of(out@) =~= seq![made, earlier]);
            }
        },
        None => {},
    }
    out
}

/// An artifact that is brought in again replaces its own entries and no others of its session
/// but one: the entry of a version of `x` stands where that of an artifact `x.latest` would.
pub proof fn an_artifact_replaces_its_own_entries(session_id: Seq<char>, a: Seq<char>, b: Seq<char>)
    ensures
        marker(session_id, a) == marker(session_id, b) <==> a == b,
        latest_marker(session_id, a) == latest_marker(session_id, b) <==> a == b,
        marker(session_id, a) == latest_marker(session_id, b) <==> a == b + ".latest"@,
{
    let head = "ag:"@ + session_id + ":"@;
    assert forall|x: Seq<char>, y: Seq<char>| (#[trigger] (head + x)) == #[trigger] (head
        + y) implies x == y by {
        assert((head + x).skip(head.len() as int) =~= x);
        assert((head + y).skip(head.len() as int) =~= y);
    }
    assert(marker(session_id, a) =~= head + a);
    assert(marker(session_id, b) =~= head + b);
    assert(latest_marker(session_id, a) =~= head + (a + ".latest"@));
    assert(latest_marker(session_id, b) =~= head + (b + ".latest"@));
    if latest_marker(session_id, a) == latest_marker(session_id, b) {
        assert((a + ".latest"@).take(a.len() as int) =~= a);
        assert((b + ".latest"@).take(b.len() as int) =~= b);
        assert((a + ".latest"@).len() == (b + ".latest"@).len());
    }
}

/// All entries of an artifact belong to its session and to Antigravity, carry its markers, and
/// say something.
pub proof fn entries_belong_to_their_artifact(
    session_id: Seq<char>,
    md_name: Seq<char>,
    artifact: ArtifactView,
    md: Seq<char>,
    version: Option<Seq<char>>,
    i: int,
)
    requires
        0 <= i < artifact_entries(session_id, md_name, artifact, md, version).len(),
    ensures
        ({
            let entries = artifact_entries(session_id, md_name, artifact, md, version);
            &&& entries.len() <= 2
            &&& entries[i].session_id == session_id
            &&& entries[i].source == SOURCE@
            &&& entries[i].timestamp == artifact.updated_at
            &&& entries[i].content.len() > 0
            &&& entries[i].tool_name == Some(
                if i == 0 {
                    marker(session_id, md_name)
                } else {
                    latest_marker(session_id, md_name)
                },
            )
        }),
{
    if i == 1 {
        let v = version->0;
        if byte_size(v) > MAX_CONTENT {
            reveal_strlit("... [truncated]");
            assert("... [truncated]"@.len() == 15);
        }
    }
}

// ---------------------------------------------------------------------------
// A run over a session
// ---------------------------------------------------------------------------

/// What a run over a session has seen of one of its files.
#[derive(Debug, PartialEq, Eq)]
pub enum Seen {
    /// The name of the file.
    Name { name: String },
    /// The sizes of the two files of an artifact, and the offset that is stored for it, or 0
    /// where there is none.
    Sizes { md_name: String, meta_size: i64, md_size: i64, last_offset: i64 },
    /// The text of the file that says something about an artifact.
    Meta { md_name: String, size: i64, text: String },
    /// The text of an artifact, and of its latest version where there is one.
    Texts { md_name: String, size: i64, artifact: Artifact, md: String, version: Option<String> },
}

/// What a run has seen.
pub enum SeenView {
    Name { name: Seq<char> },
    Sizes { md_name: Seq<char>, meta_size: int, md_size: int, last_offset: int },
    Meta { md_name: Seq<char>, size: int, text: Seq<char> },
    Texts {
        md_name: Seq<char>,
        size: int,
        artifact: ArtifactView,
        md: Seq<char>,
        version: Option<Seq<char>>,
    },
}

impl View for Seen {
    type V = SeenView;

    open spec fn view(&self) -> SeenView {
        match *self {
            Seen::Name { name } => SeenView::Name { name: name@ },
            Seen::Sizes { md_name, meta_size, md_size, last_offset } => SeenView::Sizes {
                md_name: md_name@,
                meta_size: meta_size as int,
                md_size: md_size as int,
                last_offset: last_offset as int,
            },
            Seen::Meta { md_name, size, text } => SeenView::Meta {
                md_name: md_name@,
                size: size as int,
                text: text@,
            },
            Seen::Texts { md_name, size, artifact, md, version } => SeenView::Texts {
                md_name: md_name@,
                size: size as int,
                artifact: artifact@,
                md: md@,
                version: owned_text(version),
            },
        }
    }
}

/// What a run does next about a file.
#[derive(Debug, PartialEq, Eq)]
pub enum Step {
    /// It goes on to the next file.
    Done,
    /// It looks up the sizes of the file and of `md_name`, and the offset stored for the file.
    Measure { md_name: String },
    /// It reads the file.
    ReadMeta { md_name: String, size: i64 },
    /// It reads `md_name`, and its latest version.
    ReadTexts { md_name: String, size: i64, artifact: Artifact },
    /// It stores the entries, each in place of the one with the same `tool_name`, and then the
    /// offset of the file.
    Store { entries: Vec<NewEntry>, offset: i64 },
}

/// What a run does next.
pub enum StepView {
    Done,
    Measure { md_name: Seq<char> },
    ReadMeta { md_name: Seq<char>, size: int },
    ReadTexts { md_name: Seq<char>, size: int, artifact: ArtifactView },
    Store { entries: Seq<NewEntryView>, offset: int },
}

impl View for Step {
    type V = StepView;

    open spec fn view(&self) -> StepView {
        match *self {
            Step::Done => StepView::Done,
            Step::Measure { md_name } => StepView::Measure { md_name: md_name@ },
            Step::ReadMeta { md_name, size } => StepView::ReadMeta {
                md_name: md_name@,
                size: size as int,
            },
            Step::ReadTexts { md_name, size, artifact } => StepView::ReadTexts {
                md_name: md_name@,
                size: size as int,
                artifact: artifact@,
            },
            Step::Store { entries, offset } => StepView::Store {
                entries: new_entries_of(entries@),
                offset: offset as int,
            },
        }
    }
}

/// Whether a run can go on from what it has seen: sizes have to have a sum, and a timestamp to
/// come apart.
pub open spec fn can_go_on(seen: SeenView) -> bool {
    match seen {
        SeenView::Sizes { meta_size, md_size, .. } => i64::MIN <= meta_size + md_size <= i64::MAX,
        SeenView::Texts { artifact, .. } => comes_apart(artifact.updated_at),
        _ => true,
    }
}

/// What a run over the session `session_id` does once it has seen `seen`. A file that is not
/// about an artifact is passed over, and so is an artifact that has not grown, one of which
/// nothing is known, and one that makes no entry.
pub open spec fn step_after(session_id: Seq<char>, seen: SeenView) -> StepView {
    match seen {
        SeenView::Name { name } => match artifact_named(name) {
            Some(md_name) => StepView::Measure { md_name },
            None => StepView::Done,
        },
        SeenView::Sizes { md_name, meta_size, md_size, last_offset } => if must_read(
            meta_size + md_size,
            last_offset,
        ) {
            StepView::ReadMeta { md_name, size: meta_size + md_size }
        } else {
            StepView::Done
        },
        SeenView::Meta { md_name, size, text } => match parsed(text) {
            Some(meta) => match artifact_in(meta) {
                Some(artifact) => StepView::ReadTexts { md_name, size, artifact },
                None => StepView::Done,
            },
            None => StepView::Done,
        },
        SeenView::Texts { md_name, size, artifact, md, version } => {
            let entries = artifact_entries(session_id, md_name, artifact, md, version);
            if entries.len() > 0 {
                StepView::Store { entries, offset: size }
            } else {
                StepView::Done
            }
        },
    }
}

/// What a run over the session `session_id` does once it has seen `seen`.
pub fn next_step(session_id: &str, seen: Seen) -> (r: Step)
    requires
        can_go_on(seen@),
    ensures
        r@ == step_after(session_id@, seen@),
{
    match seen {
        Seen::Name { name } => match artifact_of(name.as_str()) {
            Some(md_name) => Step::Measure { md_name },
            None => Step::Done,
        },
        Seen::Sizes { md_name, meta_size, md_size, last_offset } => match size_to_read(
            meta_size,
            md_size,
            last_offset,
        ) {
            Some(size) => Step::ReadMeta { md_name, size },
            None => Step::Done,
        },
        Seen::Meta { md_name, size, text } => match parse_artifact(text.as_str()) {
            Some(artifact) => Step::ReadTexts { md_name, size, artifact },
            None => Step::Done,
        },
        Seen::Texts { md_name, size, artifact, md, version } => {
            let entries = ingest_session(
                session_id,
                md_name.as_str(),
                &artifact,
                md.as_str(),
                slice(&version),
            );
            if entries.len() > 0 {
                Step::Store { entries, offset: size }
            } else {
                Step::Done
            }
        },
    }
}

/// A file of a session as it stands on the disk, with what belongs to it.
pub struct OnDisk {
    pub name: Seq<char>,
    pub meta_size: int,
    pub md_size: int,
    pub meta: Seq<char>,
    pub md: Seq<char>,
    pub version: Option<Seq<char>>,
}

/// The last step of a run about a file for which `last_offset` is stored, when it sees what
/// stands on the disk.
pub open spec fn last_step(session_id: Seq<char>, file: OnDisk, last_offset: int) -> StepView {
    match step_after(session_id, SeenView::Name { name: file.name }) {
        StepView::Measure { md_name } => match step_after(
            session_id,
            SeenView::Sizes {
                md_name,
                meta_size: file.meta_size,
                md_size: file.md_size,
                last_offset,
            },
        ) {
            StepView::ReadMeta { md_name, size } => match step_after(
                session_id,
                SeenView::Meta { md_name, size, text: file.meta },
            ) {
                StepView::ReadTexts { md_name, size, artifact } => step_after(
                    session_id,
                    SeenView::Texts { md_name, size, artifact, md: file.md, version: file.version },
                ),
                step => step,
            },
            step => step,
        },
        step => step,
    }
}

/// The offset that is stored for a file after a run.
pub open spec fn offset_after(session_id: Seq<char>, file: OnDisk, last_offset: int) -> int {
    match last_step(session_id, file, last_offset) {
        StepView::Store { offset, .. } => offset,
        _ => last_offset,
    }
}

/// The offsets that are stored for the files of a session after a run.
pub open spec fn offsets_after(session_id: Seq<char>, files: Seq<OnDisk>, offsets: Seq<int>) -> Seq<
    int,
> {
    Seq::new(files.len(), |i: int| offset_after(session_id, files[i], offsets[i]))
}

/// A run over a session ends, for each file, by passing over it or by storing its entries and its
/// size. A second run in which nothing has changed passes over all files, so that it stores
/// nothing, and leaves all offsets as they are. What makes an entry has a size, as it cannot be
/// empty.
pub proof fn a_second_run_stores_nothing(
    session_id: Seq<char>,
    files: Seq<OnDisk>,
    offsets: Seq<int>,
)
    requires
        files.len() == offsets.len(),
        forall|i: int|
            0 <= i < files.len() && last_step(session_id, #[trigger] files[i], offsets[i]) is Store
                ==> files[i].meta_size + files[i].md_size > 0,
    ensures
        forall|i: int|
            0 <= i < files.len() ==> match last_step(session_id, #[trigger] files[i], offsets[i]) {
                StepView::Done => true,
                StepView::Store { entries, offset } => entries.len() > 0 && offset
                    == files[i].meta_size + files[i].md_size,
                _ => false,
            },
        ({
            let once = offsets_after(session_id, files, offsets);
            &&& forall|i: int|
                0 <= i < files.len() ==> last_step(session_id, #[trigger] files[i], once[i])
                    == StepView::Done
            &&& offsets_after(session_id, files, once) == once
        }),
{
    let once = offsets_after(session_id, files, offsets);
    assert forall|i: int| 0 <= i < files.len() implies last_step(
        session_id,
        #[trigger] files[i],
        once[i],
    ) == StepView::Done by {
        assert(once[i] == offset_after(session_id, files[i], offsets[i]));
    }
    assert(offsets_after(session_id, files, once) =~= once);
}

// ---------------------------------------------------------------------------
// Laws
// ---------------------------------------------------------------------------

proof fn hyphens_are_counted(s: Seq<char>)
    ensures
        hyphens(s) == s.filter(|c: char| c == '-').len(),
    decreases s.len(),
{
    reveal(Seq::filter);
    if s.len() > 0 {
        hyphens_are_counted(s.drop_last());
    }
}

/// A name in ASCII is that of a session just where it has 36 characters and four of them are
/// hyphens. Any other name is one where it takes as many bytes.
pub proof fn sessions_are_named_like_this(s: Seq<char>)
    ensures
        names_session(s) <==> encode_utf8(s).len() == 36 && s.filter(|c: char| c == '-').len() == 4,
        is_ascii_chars(s) ==> (names_session(s) <==> s.len() == 36 && s.filter(
            |c: char| c == '-',
        ).len() == 4),
{
    hyphens_are_counted(s);
    if is_ascii_chars(s) {
        ascii_takes_a_byte_each(s, 0, 0);
    }
}

/// The sessions of Antigravity lie below the home directory, and cannot be found without one.
pub proof fn sessions_lie_below_the_home_directory(home: Seq<char>)
    ensures
        home.len() > 0 && home.last() != '/' ==> brain_of(Some(home)) == Ok::<Seq<char>, Seq<char>>(
            home + "/"@ + ".gemini"@ + "/"@ + "antigravity"@ + "/"@ + "brain"@,
        ),
        brain_of(None) == Err::<Seq<char>, Seq<char>>("Cannot find home directory"@),
{
    reveal_strlit(".gemini");
    reveal_strlit("antigravity");
    reveal_strlit("brain");
    assert(".gemini"@.len() == 7 && ".gemini"@[0] == '.' && ".gemini"@[6] == 'i');
    assert("antigravity"@.len() == 11 && "antigravity"@[0] == 'a' && "antigravity"@[10] == 'y');
    assert("brain"@.len() == 5 && "brain"@[0] == 'b');
}

/// All entries of an artifact, that of its version as well as its own, have the date and the time
/// of its timestamp: of one in ASCII that is long enough the first ten characters, and the eight
/// after the next one. One that is too short to be taken apart is the date, and the time is
/// midnight.
pub proof fn entries_are_dated_like_their_artifact(
    session_id: Seq<char>,
    md_name: Seq<char>,
    artifact: ArtifactView,
    md: Seq<char>,
    version: Option<Seq<char>>,
    i: int,
)
    requires
        0 <= i < artifact_entries(session_id, md_name, artifact, md, version).len(),
    ensures
        ({
            let e = artifact_entries(session_id, md_name, artifact, md, version)[i];
            let ts = artifact.updated_at;
            &&& e.timestamp == ts
            &&& is_ascii_chars(ts) && ts.len() >= 19 ==> e.date == ts.subrange(0, 10) && e.time
                == ts.subrange(11, 19)
            &&& encode_utf8(ts).len() >= 19 ==> e.date == decode_utf8(
                encode_utf8(ts).subrange(0, 10),
            ) && e.time == decode_utf8(encode_utf8(ts).subrange(11, 19))
            &&& encode_utf8(ts).len() < 19 ==> e.date == ts && e.time == "00:00:00"@
            &&& comes_apart(ts) <==> encode_utf8(ts).len() < 19 || is_char_boundary(
                encode_utf8(ts),
                10,
            ) && is_char_boundary(encode_utf8(ts), 11) && is_char_boundary(encode_utf8(ts), 19)
        }),
{
    let ts = artifact.updated_at;
    if is_ascii_chars(ts) && ts.len() >= 19 {
        an_ascii_timestamp_comes_apart(ts);
    }
}

/// An artifact makes an entry where it has a summary or a text: the agent's, under its own mark,
/// with its type and its summary before its text. It makes a second one, the user's, where its
/// latest version says something and something else, with the text of that version. Both are kept
/// for the session and for Antigravity, and the second one for the workspace of the first where
/// it tells none of its own.
pub proof fn an_artifact_makes_these_entries(
    session_id: Seq<char>,
    md_name: Seq<char>,
    artifact: ArtifactView,
    md: Seq<char>,
    version: Option<Seq<char>>,
)
    ensures
        ({
            let made = artifact_entries(session_id, md_name, artifact, md, version);
            let kept = truncated(md, 48_000);
            let said = "["@ + artifact.artifact_type + "] "@ + artifact.summary;
            &&& made.len() == 0 <==> artifact.summary.len() == 0 && md.len() == 0
            &&& made.len() <= 2
            &&& made.len() > 0 ==> {
                &&& made[0].session_id == session_id
                &&& made[0].timestamp == artifact.updated_at
                &&& made[0].entry_type == "assistant"@
                &&& made[0].tool_name == Some("ag:"@ + session_id + ":"@ + md_name)
                &&& made[0].source == "antigravity"@
                &&& made[0].cwd == workspace_in(md)
                &&& artifact.summary.len() == 0 ==> made[0].content == kept
                &&& md.len() == 0 ==> made[0].content == said
                &&& artifact.summary.len() > 0 && md.len() > 0 ==> made[0].content == said
                    + "\n\n"@ + kept
            }
            &&& made.len() == 2 <==> made.len() > 0 && version is Some && version->0.len() > 0
                && version->0 != md
            &&& made.len() == 2 ==> {
                &&& made[1].session_id == session_id
                &&& made[1].timestamp == artifact.updated_at
                &&& made[1].entry_type == "user"@
                &&& made[1].tool_name == Some("ag:"@ + session_id + ":"@ + md_name + ".latest"@)
                &&& made[1].source == "antigravity"@
                &&& made[1].content == truncated(version->0, 48_000)
                &&& made[1].cwd == match workspace_in(version->0) {
                    Some(ws) => Some(ws),
                    None => workspace_in(md),
                }
            }
        }),
{
    reveal_strlit("... [truncated]");
    assert("... [truncated]"@.len() == 15);
}

/// A file is about an artifact where its name ends so, and the artifact has the name before that.
pub proof fn a_file_is_about_the_artifact_it_is_named_after(
    session_id: Seq<char>,
    name: Seq<char>,
    artifact: Seq<char>,
)
    ensures
        !".metadata.json"@.is_suffix_of(artifact) ==> step_after(
            session_id,
            SeenView::Name { name: artifact + ".metadata.json"@ },
        ) == (StepView::Measure { md_name: artifact }),
        !".metadata.json"@.is_suffix_of(name) ==> step_after(session_id, SeenView::Name { name })
            == StepView::Done,
{
    reveal_strlit(".metadata.json");
    assert(".metadata.json"@.len() == 14);
    suffixes_are_cut_off(artifact, ".metadata.json"@);
    let whole = artifact + ".metadata.json"@;
    assert(".metadata.json"@ =~= whole.subrange(whole.len() - 14, whole.len() as int));
}

/// An artifact is read where its two files together have grown, or none of its sizes is stored.
pub proof fn a_grown_artifact_is_read(
    session_id: Seq<char>,
    md_name: Seq<char>,
    meta_size: int,
    md_size: int,
    last_offset: int,
)
    ensures
        ({
            let step = step_after(
                session_id,
                SeenView::Sizes { md_name, meta_size, md_size, last_offset },
            );
            &&& last_offset <= 0 ==> step == (StepView::ReadMeta {
                md_name,
                size: meta_size + md_size,
            })
            &&& meta_size + md_size > last_offset ==> step == (StepView::ReadMeta {
                md_name,
                size: meta_size + md_size,
            })
            &&& 0 < last_offset && meta_size + md_size <= last_offset ==> step == StepView::Done
        }),
{
}

/// What is known of an artifact is what its file says, where that is JSON and says when the
/// artifact was written. A summary that is missing is empty, and a type that is missing unknown.
pub proof fn what_a_file_says_of_an_artifact(
    session_id: Seq<char>,
    md_name: Seq<char>,
    size: int,
    text: Seq<char>,
)
    ensures
        ({
            let step = step_after(session_id, SeenView::Meta { md_name, size, text });
            &&& parsed(text) is None ==> step == StepView::Done
            &&& parsed(text) matches Some(meta) ==> {
                let at = meta.text_field("updatedAt"@);
                &&& at is None || at->0.len() == 0 ==> step == StepView::Done
                &&& at is Some && at->0.len() > 0 ==> (step matches StepView::ReadTexts {
                    md_name: of,
                    size: stored,
                    artifact,
                } && of == md_name && stored == size && artifact.updated_at == at->0
                    && artifact.summary == (match meta.text_field("summary"@) {
                    Some(t) => t,
                    None => Seq::empty(),
                }) && artifact.artifact_type == (match meta.text_field("artifactType"@) {
                    Some(t) => t,
                    None => "unknown"@,
                }))
            }
        }),
{
}

/// What an artifact makes is stored, and with it the size that the artifact had. One that has
/// neither a summary nor a text is passed over.
pub proof fn what_an_artifact_makes_is_stored(
    session_id: Seq<char>,
    md_name: Seq<char>,
    size: int,
    artifact: ArtifactView,
    md: Seq<char>,
    version: Option<Seq<char>>,
)
    ensures
        ({
            let step = step_after(
                session_id,
                SeenView::Texts { md_name, size, artifact, md, version },
            );
            &&& artifact.summary.len() == 0 && md.len() == 0 ==> step == StepView::Done
            &&& artifact.summary.len() > 0 || md.len() > 0 ==> step == (StepView::Store {
                entries: artifact_entries(session_id, md_name, artifact, md, version),
                offset: size,
            })
        }),
{
    an_artifact_makes_these_entries(session_id, md_name, artifact, md, version);
}

/// Where a file has the name of an artifact and a number behind it, the version of the artifact
/// that is taken is such a file too, and none with a lower number, nor with the same number a
/// later one.
pub proof fn the_latest_version_is_taken(
    names: Seq<Seq<char>>,
    md_name: Seq<char>,
    base_exists: bool,
    i: int,
    number: Seq<char>,
)
    requires
        0 <= i < names.len(),
        names[i] == md_name + ".resolved."@ + number,
        signed_value(number) is Some && signed_value(number)->0 >= 0,
    ensures
        ({
            let prefix = md_name + ".resolved."@;
            &&& latest_version(names, md_name, base_exists) matches Some(name)
            &&& prefix.is_prefix_of(name)
            &&& signed_value(name.skip(prefix.len() as int)) matches Some(n)
            &&& n >= signed_value(number)->0
            &&& exists|k: int|
                0 <= k < names.len() && #[trigger] names[k] == name && (n > signed_value(number)->0
                    || k <= i)
        }),
{
    numbered(names[i], md_name, number);
    let k = highest_stands_at(names, md_name);
}

/// Where no file has the name of an artifact and a number behind it, the version that is taken is
/// the one without a number, if there is one.
pub proof fn a_version_without_a_number_comes_last(
    names: Seq<Seq<char>>,
    md_name: Seq<char>,
    base_exists: bool,
)
    requires
        forall|i: int|
            0 <= i < names.len() ==> !(md_name + ".resolved."@).is_prefix_of(#[trigger] names[i])
                || signed_value(names[i].skip((md_name + ".resolved."@).len() as int)) is None
                || signed_value(names[i].skip((md_name + ".resolved."@).len() as int))->0 < 0,
    ensures
        latest_version(names, md_name, base_exists) == if base_exists {
            Some(md_name + ".resolved"@)
        } else {
            None
        },
{
    let k = highest_stands_at(names, md_name);
    if highest(names, md_name) is Some {
        assert(names[k] == names[k]);
    }
}

proof fn numbered(name: Seq<char>, md_name: Seq<char>, number: Seq<char>)
    requires
        name == md_name + ".resolved."@ + number,
    ensures
        version_of(name, md_name) == signed_value(number),
{
    let prefix = md_name + ".resolved."@;
    assert(prefix =~= name.subrange(0, prefix.len() as int));
    assert(name.skip(prefix.len() as int) =~= number);
}

/// Where the highest version stands: no version before it is as high, and none is higher.
proof fn highest_stands_at(names: Seq<Seq<char>>, md_name: Seq<char>) -> (k: int)
    ensures
        match highest(names, md_name) {
            Some((n, name)) => 0 <= k < names.len() && names[k] == name && 0 <= n && version_of(
                name,
                md_name,
            ) == Some(n) && (forall|i: int|
                0 <= i < names.len() ==> version_of(#[trigger] names[i], md_name) is None || (
                version_of(names[i], md_name)->0 <= n && (i < k ==> version_of(
                    names[i],
                    md_name,
                )->0 < n))),
            None => forall|i: int|
                0 <= i < names.len() ==> version_of(#[trigger] names[i], md_name) is None
                    || version_of(names[i], md_name)->0 < 0,
        },
        highest(names, md_name) is Some ==> (md_name + ".resolved."@).is_prefix_of(names[k]),
    decreases names.len(),
{
    if names.len() == 0 {
        0
    } else {
        let before = names.drop_last();
        let at = highest_stands_at(before, md_name);
        assert forall|i: int| 0 <= i < before.len() implies #[trigger] names[i] == before[i] by {}
        assert(names[names.len() - 1] == names.last());
        if highest(names, md_name) == highest(before, md_name) {
            at
        } else {
            names.len() - 1
        }
    }
}

/// The workspace of a path is its first three directories, or the first four of one below
/// `/Volumes`, where the path goes on after the third.
pub proof fn a_workspace_is_the_beginning_of_a_path(
    a: Seq<char>,
    b: Seq<char>,
    c: Seq<char>,
    d: Seq<char>,
    more: Seq<char>,
)
    requires
        !a.contains('/') && !b.contains('/') && !c.contains('/') && !d.contains('/'),
    ensures
        ({
            let place = "/"@ + a + "/"@ + b + "/"@ + c;
            &&& a != "Volumes"@ ==> workspace_of_path(place + "/"@ + d) == Some(place)
                && workspace_of_path(place + "/"@ + d + "/"@ + more) == Some(place)
            &&& a == "Volumes"@ ==> workspace_of_path(place + "/"@ + d) == Some(place + "/"@ + d)
                && workspace_of_path(place + "/"@ + d + "/"@ + more) == Some(place + "/"@ + d)
            &&& workspace_of_path(place) is None
            &&& workspace_of_path("/"@ + a + "/"@ + b) is None
            &&& workspace_of_path("/"@ + a) is None
            &&& workspace_of_path(a) is None
        }),
{
    reveal_strlit("/");
    let slash = seq!['/'];
    assert("/"@ =~= slash);
    let none = Seq::<char>::empty();
    texts_are_split_at_separators(none, a, '/');
    texts_are_split_at_separators(a, none, '/');
    texts_are_split_at_separators(b, none, '/');
    texts_are_split_at_separators(c, none, '/');
    texts_are_split_at_separators(d, none, '/');
    let one = slash + a;
    assert(none + slash + a =~= one);
    assert(split(one, '/') =~= seq![none, a]);
    texts_are_split_at_separators(one, b, '/');
    let two = one + slash + b;
    assert(split(two, '/') =~= seq![none, a, b]);
    texts_are_split_at_separators(two, c, '/');
    let three = two + slash + c;
    assert(split(three, '/') =~= seq![none, a, b, c]);
    texts_are_split_at_separators(three, d, '/');
    let four = three + slash + d;
    assert(split(four, '/') =~= seq![none, a, b, c, d]);
    texts_are_split_at_separators(four, more, '/');
    let long = four + slash + more;
    assert(split(long, '/') =~= seq![none, a, b, c, d] + split(more, '/'));
    pieces_make_up_the_text(more, '/');
    pieces_make_up_the_text(three, '/');
    pieces_make_up_the_text(four, '/');
    assert(split(four, '/').take(4) =~= split(three, '/'));
    assert(split(four, '/').take(5) =~= split(four, '/'));
    assert(split(long, '/').take(4) =~= split(three, '/'));
    assert(split(long, '/').take(5) =~= split(four, '/'));
}

/// A line tells the workspace of the first file address in it, which goes on to the next white
/// space or closing bracket, and one without an address tells none.
pub proof fn a_line_tells_the_workspace_of_its_first_address(
    before: Seq<char>,
    path: Seq<char>,
    after: Seq<char>,
)
    ensures
        !contains(before, "file:///"@) ==> workspace_in_line(before) is None,
        ({
            let line = before + "file://"@ + path + after;
            path.len() > 0 && path[0] == '/' && position(line, "file:///"@) == before.len()
                && (forall|i: int|
                0 <= i < path.len() ==> !is_space(#[trigger] path[i]) && path[i] != ')' && path[i]
                    != ']') && (after.len() == 0 || is_space(after[0]) || after[0] == ')'
                || after[0] == ']') ==> workspace_in_line(line) == workspace_of_path(path)
        }),
{
    reveal_strlit("file:///");
    reveal_strlit("file://");
    assert("file://"@.len() == 7);
    let line = before + "file://"@ + path + after;
    if path.len() > 0 && path[0] == '/' && position(line, "file:///"@) == before.len() && (forall|
        i: int,
    |
        0 <= i < path.len() ==> !is_space(#[trigger] path[i]) && path[i] != ')' && path[i] != ']')
        && (after.len() == 0 || is_space(after[0]) || after[0] == ')' || after[0] == ']') {
        assert(line.subrange(before.len() as int, (before.len() + 8) as int) =~= "file:///"@);
        assert(occurs_at(line, "file:///"@, before.len() as int));
        assert(contains(line, "file:///"@));
        let tail = line.skip((before.len() + 7) as int);
        assert(tail =~= path + after);
        assert forall|i: int| 0 <= i < path.len() implies in_address(#[trigger] tail[i]) by {
            assert(tail[i] == path[i]);
        }
        address_run_is(tail, path.len() as int);
        assert(tail.take(path.len() as int) =~= path);
    }
}

/// A text tells the workspace that the first of its lines tells which tells one.
pub proof fn the_first_line_that_tells_a_workspace_counts(a: Seq<char>, b: Seq<char>)
    ensures
        !a.contains('\n') ==> workspace_in(a) == workspace_in_line(a),
        workspace_in(a + seq!['\n'] + b) == match workspace_in(a) {
            Some(ws) => Some(ws),
            None => workspace_in(b),
        },
{
    texts_are_split_at_separators(a, b, '\n');
    if !a.contains('\n') {
        reveal_with_fuel(workspace_in_lines, 2);
        assert(seq![a].drop_first() =~= Seq::empty());
    }
    first_lines_come_first(split(a, '\n'), split(b, '\n'));
}

proof fn first_lines_come_first(a: Seq<Seq<char>>, b: Seq<Seq<char>>)
    ensures
        workspace_in_lines(a + b) == match workspace_in_lines(a) {
            Some(ws) => Some(ws),
            None => workspace_in_lines(b),
        },
    decreases a.len(),
{
    if a.len() == 0 {
        assert(a + b =~= b);
    } else {
        assert((a + b).drop_first() =~= a.drop_first() + b);
        first_lines_come_first(a.drop_first(), b);
    }
}

/// What a run has seen, and what it does next, is what the fields hold, one by one.
pub proof fn a_run_sees_and_does_what_is_held(
    md_name: String,
    text: String,
    size: i64,
    other: i64,
    last_offset: i64,
    artifact: Artifact,
    version: Option<String>,
    entries: Vec<NewEntry>,
    i: int,
)
    ensures
        (Seen::Name { name: md_name })@ == (SeenView::Name { name: md_name@ }),
        (Seen::Sizes { md_name, meta_size: size, md_size: other, last_offset })@ == (
        SeenView::Sizes {
            md_name: md_name@,
            meta_size: size as int,
            md_size: other as int,
            last_offset: last_offset as int,
        }),
        (Seen::Meta { md_name, size, text })@ == (SeenView::Meta {
            md_name: md_name@,
            size: size as int,
            text: text@,
        }),
        (Seen::Texts { md_name, size, artifact, md: text, version })@ == (SeenView::Texts {
            md_name: md_name@,
            size: size as int,
            artifact: artifact@,
            md: text@,
            version: owned_text(version),
        }),
        artifact@.updated_at == artifact.updated_at@ && artifact@.summary == artifact.summary@
            && artifact@.artifact_type == artifact.artifact_type@,
        Step::Done@ == StepView::Done,
        (Step::Measure { md_name })@ == (StepView::Measure { md_name: md_name@ }),
        (Step::ReadMeta { md_name, size })@ == (StepView::ReadMeta {
            md_name: md_name@,
            size: size as int,
        }),
        (Step::ReadTexts { md_name, size, artifact })@ == (StepView::ReadTexts {
            md_name: md_name@,
            size: size as int,
            artifact: artifact@,
        }),
        (Step::Store { entries, offset: size })@ == (StepView::Store {
            entries: new_entries_of(entries@),
            offset: size as int,
        }),
        new_entries_of(entries@).len() == entries@.len(),
        0 <= i < entries@.len() ==> new_entries_of(entries@)[i] == entries@[i]@,
{
}

} // verus!
