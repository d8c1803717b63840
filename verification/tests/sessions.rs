use agents_relay::clock::Timestamp;
use agents_relay::commands::{
    archive_target, can_show_time, confirms, list_heading, list_session, plan_export, show_entry,
    show_result, show_session_entry, stack, summarize_entry, write_entry, ExportPlan,
};
use agents_relay::failure::Failure;
use agents_relay::ingest_antigravity::{
    artifact_of, brain_dir, brain_dir_at_home, can_come_apart, extract_workspace_from_content,
    find_latest_resolved, ingest_session, looks_like_uuid, next_step, parse_artifact, parse_datetime,
    size_to_read, truncate, Artifact, Seen, Step,
};
use agents_relay::memory::{RawEntry, SessionSummary};
use agents_relay::session_hook::{
    build_digest, first_user_line, is_natural_user_text, PastSession,
};

fn strings(parts: &[&str]) -> Vec<String> {
    parts.iter().map(|s| s.to_string()).collect()
}

// --- what Antigravity leaves behind ---------------------------------------------------

#[test]
fn sessions_lie_below_the_home_directory() {
    assert_eq!(brain_dir(Some("/h")), Ok("/h/.gemini/antigravity/brain".to_string()));
    assert_eq!(brain_dir(None), Err(Failure::new("Cannot find home directory")));
    let home = dirs::home_dir().map(|p| p.to_string_lossy().into_owned());
    assert_eq!(brain_dir_at_home(), brain_dir(home.as_deref()));
}

#[test]
fn sessions_are_known_by_their_names() {
    assert!(looks_like_uuid("123e4567-e89b-12d3-a456-426614174000"));
    assert!(!looks_like_uuid("tempmediaStorage"));
    assert!(!looks_like_uuid("123e4567-e89b-12d3-a456-42661417400"));
    assert!(!looks_like_uuid("123e4567-e89b-12d3-a456-42661417-000"));
    assert!(!looks_like_uuid("123e4567ae89b-12d3-a456-426614174000"));
    assert!(looks_like_uuid("é3e4567-e89b-12d3-a456-426614174000"));
}

#[test]
fn artifacts_are_known_by_their_files() {
    assert_eq!(artifact_of("task.md.metadata.json").as_deref(), Some("task.md"));
    assert_eq!(artifact_of("x.metadata.json.metadata.json").as_deref(), Some("x"));
    assert_eq!(artifact_of("task.md"), None);
}

#[test]
fn only_what_has_grown_is_read() {
    assert_eq!(size_to_read(10, 20, 0), Some(30));
    assert_eq!(size_to_read(10, 20, 30), None);
    assert_eq!(size_to_read(10, 20, 31), None);
    assert_eq!(size_to_read(10, 20, 29), Some(30));
    assert_eq!(size_to_read(0, 0, 0), Some(0));
    assert_eq!(size_to_read(10, 20, -1), Some(30));
}

#[test]
fn what_is_known_of_an_artifact_is_read() {
    let a = parse_artifact(r#"{"updatedAt": "t", "summary": "s", "artifactType": "plan"}"#);
    assert_eq!(
        a,
        Some(Artifact {
            updated_at: "t".to_string(),
            summary: "s".to_string(),
            artifact_type: "plan".to_string(),
        })
    );
    let a = parse_artifact(r#"{"updatedAt": "t"}"#).unwrap();
    assert_eq!((a.summary.as_str(), a.artifact_type.as_str()), ("", "unknown"));
    assert!(parse_artifact(r#"{"updatedAt": ""}"#).is_none());
    assert!(parse_artifact(r#"{"summary": "s"}"#).is_none());
    assert!(parse_artifact("{").is_none());
}

#[test]
fn timestamps_come_apart() {
    let pair = |d: &str, t: &str| (d.to_string(), t.to_string());
    assert_eq!(parse_datetime("2024-03-01T10:20:30.5Z"), pair("2024-03-01", "10:20:30"));
    assert_eq!(parse_datetime("2024-03-01T10:20:30"), pair("2024-03-01", "10:20:30"));
    assert_eq!(parse_datetime("2024-03-01"), pair("2024-03-01", "00:00:00"));
    assert_eq!(parse_datetime(""), pair("", "00:00:00"));
    assert!(can_come_apart("2024-03-01T10:20:30"));
    assert!(can_come_apart("é"));
    assert!(!can_come_apart("2024-03-0éT10:20:30"));
    assert!(!can_come_apart("2024-03-01T10:20:3é"));
}

#[test]
fn long_texts_are_cut_off() {
    assert_eq!(truncate("abc", 3), "abc");
    assert_eq!(truncate("abcd", 3), "abc... [truncated]");
    assert_eq!(truncate("aéb", 2), "a... [truncated]");
    assert_eq!(truncate("é", 1), "... [truncated]");
    assert_eq!(truncate("", 0), "");
}

#[test]
fn the_workspace_is_read_from_addresses() {
    let at = |s: &str| extract_workspace_from_content(s);
    assert_eq!(at("see [x](file:///Users/me/project/src/a.rs)").as_deref(), Some("/Users/me/project"));
    assert_eq!(at("file:///Volumes/D/dev/proj/a/b").as_deref(), Some("/Volumes/D/dev/proj"));
    assert_eq!(at("file:///Volumes/D/dev/proj").as_deref(), Some("/Volumes/D/dev/proj"));
    assert_eq!(at("file:///a/b/c"), None);
    assert_eq!(at("file:///a/b/c/d e").as_deref(), Some("/a/b/c"));
    assert_eq!(at("file:///a/b\nfile:///x/y/z/w\r\n").as_deref(), Some("/x/y/z"));
    assert_eq!(at("file:///a/b file:///x/y/z/w"), None);
    assert_eq!(at("https://x/y/z/w"), None);
    assert_eq!(at(""), None);
}

#[test]
fn the_latest_version_is_found() {
    let names = strings(&[
        "t.md.resolved.2",
        "t.md.resolved.10",
        "t.md.resolved.x",
        "t.md.resolved.010",
        "u.md.resolved.99",
        "t.md.resolved.-4",
    ]);
    assert_eq!(find_latest_resolved(&names, "t.md", true).as_deref(), Some("t.md.resolved.10"));
    assert_eq!(find_latest_resolved(&names, "v.md", true).as_deref(), Some("v.md.resolved"));
    assert_eq!(find_latest_resolved(&names, "v.md", false), None);
    let negative = strings(&["t.md.resolved.-4"]);
    assert_eq!(find_latest_resolved(&negative, "t.md", false), None);
}

fn artifact(summary: &str) -> Artifact {
    Artifact {
        updated_at: "2024-03-01T10:20:30Z".to_string(),
        summary: summary.to_string(),
        artifact_type: "plan".to_string(),
    }
}

#[test]
fn an_artifact_makes_entries() {
    let md = "about file:///Users/me/p/x";
    let made = ingest_session("sid", "t.md", &artifact("sum"), md, Some("do it"));
    assert_eq!(made.len(), 2);
    assert_eq!(made[0].session_id, "sid");
    assert_eq!(made[0].timestamp, "2024-03-01T10:20:30Z");
    assert_eq!((made[0].date.as_str(), made[0].time.as_str()), ("2024-03-01", "10:20:30"));
    assert_eq!(made[0].entry_type, "assistant");
    assert_eq!(made[0].tool_name.as_deref(), Some("ag:sid:t.md"));
    assert_eq!(made[0].content, format!("[plan] sum\n\n{md}"));
    assert_eq!(made[0].cwd.as_deref(), Some("/Users/me/p"));
    assert_eq!(made[0].source, "antigravity");
    assert_eq!(made[1].entry_type, "user");
    assert_eq!(made[1].tool_name.as_deref(), Some("ag:sid:t.md.latest"));
    assert_eq!(made[1].content, "do it");
    assert_eq!(made[1].cwd.as_deref(), Some("/Users/me/p"));
}

#[test]
fn an_artifact_may_make_fewer_entries() {
    assert_eq!(ingest_session("s", "t.md", &artifact(""), "", Some("v")), vec![]);
    assert_eq!(ingest_session("s", "t.md", &artifact("sum"), "", None)[0].content, "[plan] sum");
    assert_eq!(ingest_session("s", "t.md", &artifact(""), "text", None)[0].content, "text");
    assert_eq!(ingest_session("s", "t.md", &artifact("x"), "same", Some("same")).len(), 1);
    assert_eq!(ingest_session("s", "t.md", &artifact("x"), "text", Some("")).len(), 1);
}

fn sizes(meta_size: i64, md_size: i64, last_offset: i64) -> Step {
    next_step("s", Seen::Sizes { md_name: "t.md".to_string(), meta_size, md_size, last_offset })
}

fn meta(text: &str) -> Step {
    next_step("s", Seen::Meta { md_name: "t.md".to_string(), size: 30, text: text.to_string() })
}

fn contents(artifact: Artifact, md: &str, version: Option<&str>) -> Step {
    let (md, version) = (md.to_string(), version.map(|v| v.to_string()));
    next_step("s", Seen::Texts { md_name: "t.md".to_string(), size: 30, artifact, md, version })
}

#[test]
fn a_run_goes_on_step_by_step() {
    let named = |name: &str| next_step("s", Seen::Name { name: name.to_string() });
    let md_name = || "t.md".to_string();
    assert_eq!(named("t.md.metadata.json"), Step::Measure { md_name: md_name() });
    assert_eq!(named("t.md"), Step::Done);
    assert_eq!(sizes(10, 20, 0), Step::ReadMeta { md_name: md_name(), size: 30 });
    let known = r#"{"updatedAt": "2024-03-01T10:20:30Z", "summary": "sum", "artifactType": "plan"}"#;
    let expected = Step::ReadTexts { md_name: md_name(), size: 30, artifact: artifact("sum") };
    assert_eq!(meta(known), expected);
    assert_eq!(meta("{"), Step::Done);
    assert_eq!(meta(r#"{"summary": "sum"}"#), Step::Done);
    let entries = ingest_session("s", "t.md", &artifact("sum"), "text", Some("v"));
    assert_eq!(entries.len(), 2);
    assert_eq!(contents(artifact("sum"), "text", Some("v")), Step::Store { entries, offset: 30 });
    assert_eq!(contents(artifact(""), "", Some("v")), Step::Done);
}

#[test]
fn a_second_run_finds_nothing_to_read() {
    let Step::Store { offset, .. } = contents(artifact("sum"), "text", None) else {
        panic!("nothing to store");
    };
    assert_eq!(offset, 30);
    assert_eq!(sizes(10, 20, offset), Step::Done);
    assert_eq!(sizes(10, 21, offset), Step::ReadMeta { md_name: "t.md".to_string(), size: 31 });
}

#[test]
fn a_version_may_tell_another_workspace() {
    let made = ingest_session(
        "s",
        "t.md",
        &artifact("x"),
        "file:///Users/me/p/x",
        Some("file:///Users/you/q/y"),
    );
    assert_eq!(made[1].cwd.as_deref(), Some("/Users/you/q"));
}

#[test]
fn a_long_artifact_is_cut_off() {
    let made = ingest_session("s", "t.md", &artifact(""), &"a".repeat(48_001), None);
    assert_eq!(made[0].content, format!("{}... [truncated]", "a".repeat(48_000)));
}

// --- the digest -----------------------------------------------------------------------

#[test]
fn what_a_user_said_is_told_from_noise() {
    for s in ["fix the bug", "  x ", "[x] done", "a <b> c"] {
        assert!(is_natural_user_text(s), "{s}");
    }
    for s in [
        "",
        "  ",
        "[{\"type\": 1}]",
        "[\"x\"]",
        "<command-name>x",
        "a <local-command-stdout>",
        "<system-reminder>",
        "Caveat: x",
        "[Tool: x]",
        "x tool_use_id y",
        "tool_result",
    ] {
        assert!(!is_natural_user_text(s), "{s}");
    }
}

#[test]
fn the_first_thing_that_was_said_is_found() {
    let said = strings(&["<command-x>", "  hello\n  world ", "later"]);
    assert_eq!(first_user_line(&said).as_deref(), Some("hello world"));
    assert_eq!(first_user_line(&strings(&["[{"])), None);
    assert_eq!(first_user_line(&vec![]), None);
}

#[test]
fn the_digest_has_a_line_for_each_session() {
    let sessions = vec![
        PastSession { date: "2024-03-01".to_string(), entry_count: 3, said: strings(&["hi"]) },
        PastSession { date: "2024-02-01".to_string(), entry_count: 1, said: vec![] },
    ];
    assert_eq!(
        build_digest(&sessions),
        "## 🧠 agents-relay — past session memory (this workspace)\n\n\
         - 2024-03-01 (3 entries): hi\n\
         - 2024-02-01 (1 entries)\n\
         \nThese are summaries of prior sessions in this workspace. \
         To recall specific details, use the `memory_search` tool.\n"
    );
    assert_eq!(build_digest(&vec![]), "");
}

#[test]
fn a_line_of_the_digest_is_short() {
    let long = "é".repeat(150);
    let digest = build_digest(&vec![PastSession {
        date: "d".to_string(),
        entry_count: 1,
        said: vec![long],
    }]);
    assert!(digest.contains(&format!("): {}\n", "é".repeat(100))));
}

// --- commands -------------------------------------------------------------------------

#[test]
fn only_yes_is_yes() {
    assert!(confirms("y\n") && confirms(" Y "));
    assert!(!confirms("") && !confirms("yes") && !confirms("n\n"));
}

#[test]
fn each_day_has_its_archive() {
    let t = archive_target("/a", "2024-03-01").unwrap();
    assert_eq!((t.dir.as_str(), t.file.as_str()), ("/a/2024/03", "/a/2024/03/01.md"));
    assert_eq!(archive_target("/a", "2024-03"), None);
    assert_eq!(archive_target("/a", "2024-03-01-02"), None);
    assert_ne!(archive_target("/a", "2024-03-02"), Some(t));
}

fn summary(last: &str) -> SessionSummary {
    SessionSummary {
        session_id: "sid".to_string(),
        first_timestamp: "f".to_string(),
        last_timestamp: last.to_string(),
        date: "2024-03-01".to_string(),
        entry_count: 12,
    }
}

#[test]
fn sessions_are_listed_in_columns() {
    assert_eq!(
        list_heading(),
        format!("{:<40} {:<12} {:<12} {:>6}", "SESSION_ID", "DATE", "LAST_TIME", "ENTRIES")
    );
    let row = |time: &str| format!("{:<40} {:<12} {:<12} {:>6}", "sid", "2024-03-01", time, 12);
    assert_eq!(list_session(&summary("2024-03-01T10:20:30Z")), row("10:20:30"));
    assert_eq!(list_session(&summary("short")), row("short"));
    assert!(can_show_time("2024-03-0éT10:20:30"));
    assert!(!can_show_time("2024-03-01é10:20:30"));
    let wide = SessionSummary { session_id: "é".repeat(41), ..summary("short") };
    assert!(list_session(&wide).starts_with(&format!("{} 2024-03-01   short", "é".repeat(41))));
}

#[test]
fn exports_are_planned() {
    let s = |t: &str| t.to_string();
    assert_eq!(plan_export(Some("x"), Some("d"), None, None), ExportPlan::Session(s("x")));
    assert_eq!(plan_export(None, Some("d"), Some("f"), None), ExportPlan::Date(s("d")));
    assert_eq!(
        plan_export(None, None, Some("f"), None),
        ExportPlan::Range { from: s("f"), to: s("2099-12-31") }
    );
    assert_eq!(
        plan_export(None, None, None, Some("t")),
        ExportPlan::Range { from: s("2000-01-01"), to: s("t") }
    );
    assert_eq!(
        plan_export(None, None, None, None),
        ExportPlan::Reject(Failure::new("Specify session_id, --date, or --from/--to"))
    );
    assert_eq!(stack(&strings(&["a", "b"])), "a\nb\n");
    assert_eq!(stack(&vec![]), "");
}

fn now() -> Timestamp {
    Timestamp { iso: "i".to_string(), date: "d".to_string(), time: "t".to_string() }
}

#[test]
fn entries_are_made_by_hand() {
    let e = write_entry("c", "user", "manual", "alpha", &now());
    assert_eq!((e.content.as_str(), e.entry_type.as_str()), ("c", "user"));
    assert_eq!((e.session_id.as_str(), e.source.as_str()), ("manual", "alpha"));
    assert_eq!((e.timestamp.as_str(), e.date.as_str(), e.time.as_str()), ("i", "d", "t"));
    assert_eq!((e.tool_name, e.cwd), (None, None));
    let e = summarize_entry("s", None, Some("a"), &now());
    assert_eq!((e.content.as_str(), e.session_id.as_str()), ("[Tags: a]\ns", "agent-summary"));
    assert_eq!((e.source.as_str(), e.entry_type.as_str()), ("summarizer", "summary"));
    assert_eq!(e.tool_name.as_deref(), Some("skill_hook"));
    let e = summarize_entry("s", Some("x"), Some(""), &now());
    assert_eq!((e.content.as_str(), e.session_id.as_str()), ("s", "x"));
    assert_eq!(summarize_entry("s", None, None, &now()).content, "s");
}

#[test]
fn entries_are_shown() {
    let e = RawEntry {
        id: 5,
        session_id: "s".to_string(),
        timestamp: "ts".to_string(),
        date: "d".to_string(),
        time: "t".to_string(),
        entry_type: "user".to_string(),
        tool_name: None,
        content: "é".repeat(121),
        cwd: None,
        git_branch: None,
        source: "alpha".to_string(),
    };
    assert_eq!(show_result(&e), format!("[5] d | t | alpha | user: {}", "é".repeat(120)));
    assert_eq!(show_entry(&e), format!("id=5 session=s d t type=user\n{}", "é".repeat(121)));
    assert_eq!(show_session_entry(&e), format!("[5] t user: {}", "é".repeat(121)));
}
