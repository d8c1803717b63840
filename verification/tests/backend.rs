use agents_relay::client::{judge_health, receive_response, tool_request, Backend, ToolResponse};
use agents_relay::clock::{Moment, Timestamp};
use agents_relay::failure::Failure;
use agents_relay::json::{parse_json, Json};
use agents_relay::memory::{tag_summary, NewEntry, RawEntry, SessionSummary};
use agents_relay::server::{
    answer_entry, answer_plan, answer_recorded, answer_registered, answer_search,
    answer_session_entries, answer_sessions, count_report, deregister, handle_tool, health, plan_tool, receive_request,
    register, respond, response_body, BadRequest, Found, Monitor, Registration, SearchQuery, ToolPlan, ToolRequest,
};

fn json(text: &str) -> Json {
    parse_json(text).unwrap()
}

fn now() -> Timestamp {
    Timestamp {
        iso: "2024-03-01T10:20:30+00:00".to_string(),
        date: "2024-03-01".to_string(),
        time: "10:20:30".to_string(),
    }
}

fn request(name: &str, args: &str) -> ToolRequest {
    ToolRequest {
        name: name.to_string(),
        arguments: json(args),
        workspace: Some("/w".to_string()),
        source: Some("alpha".to_string()),
        client: Some("alpha-code".to_string()),
    }
}

fn plan(name: &str, args: &str) -> ToolPlan {
    plan_tool(&request(name, args), &now())
}

fn some(s: &str) -> Option<String> {
    Some(s.to_string())
}

fn entry() -> RawEntry {
    RawEntry {
        id: 5,
        session_id: "s".to_string(),
        timestamp: "t".to_string(),
        date: "d".to_string(),
        time: "h".to_string(),
        entry_type: "user".to_string(),
        tool_name: None,
        content: "c".to_string(),
        cwd: some("/w"),
        git_branch: None,
        source: "alpha".to_string(),
    }
}

#[test]
fn a_request_is_received_as_it_was_sent() {
    let args = json(r#"{"query": "x"}"#);
    let sent = tool_request("memory_search", &args, Some("/w"), None, "c").to_text();
    assert_eq!(
        receive_request(&sent),
        Ok(ToolRequest {
            name: "memory_search".to_string(),
            arguments: args,
            workspace: some("/w"),
            source: None,
            client: some("c"),
        })
    );
}

#[test]
fn what_is_no_request_is_refused() {
    assert_eq!(receive_request("x"), Err(BadRequest::NotJson));
    for body in [
        "[]",
        r#"{"arguments": {}}"#,
        r#"{"name": 1, "arguments": {}}"#,
        r#"{"name": "t"}"#,
        r#"{"name": "t", "arguments": {}, "source": 1}"#,
    ] {
        assert_eq!(receive_request(body), Err(BadRequest::NotACall), "{body}");
    }
    assert!(receive_request(r#"{"name": "t", "arguments": null}"#).is_ok());
}

#[test]
fn a_response_is_read_as_it_was_sent() {
    let fine = respond(Ok("c".to_string()));
    assert_eq!(fine, ToolResponse { content: "c".to_string(), is_error: false });
    let failed = respond(Err(Failure::new("e")));
    assert_eq!(failed, ToolResponse { content: "Error: e".to_string(), is_error: true });
    assert_eq!(response_body(&fine), r#"{"content":"c","is_error":false}"#);
    assert_eq!(receive_response(&response_body(&failed)), Some(failed));
}

#[test]
fn a_search_is_planned() {
    assert_eq!(
        plan("memory_search", r#"{"query": "x", "date": "2024-01-01", "type": "user", "limit": 3.0}"#),
        ToolPlan::Search(SearchQuery {
            query: "x".to_string(),
            date: some("2024-01-01"),
            date_from: None,
            date_to: None,
            entry_type: some("user"),
            session_id: None,
            limit: 3,
            workspace: some("/w"),
            source: some("alpha"),
        })
    );
    match plan("memory_search", r#"{"date_from": "a", "date_to": "b", "session_id": "s"}"#) {
        ToolPlan::Search(q) => {
            assert_eq!(q.query, "");
            assert_eq!(q.limit, 20);
            assert_eq!(q.date_from, some("a"));
            assert_eq!(q.date_to, some("b"));
            assert_eq!(q.session_id, some("s"));
        }
        other => panic!("{other:?}"),
    }
}

#[test]
fn an_entry_is_asked_for() {
    assert_eq!(plan("memory_get_entry", r#"{"id": 4}"#), ToolPlan::GetEntry { id: 4 });
    assert_eq!(plan("memory_get_entry", r#"{"id": 4.0}"#), ToolPlan::GetEntry { id: 4 });
    assert_eq!(plan("memory_get_entry", r#"{"id": "4"}"#), ToolPlan::GetEntry { id: 0 });
}

#[test]
fn sessions_are_asked_for() {
    assert_eq!(
        plan("memory_list_sessions", r#"{"date": "d"}"#),
        ToolPlan::ListSessions { date: some("d"), limit: 10, workspace: some("/w") }
    );
}

#[test]
fn the_entries_of_a_session_are_asked_for() {
    assert_eq!(
        plan("memory_get_session", r#"{"session_id": "s", "date": "d", "limit": 1}"#),
        ToolPlan::SessionEntries { session_id: "s".to_string(), entry_type: None, limit: 1 }
    );
    let range = |args: &str| match plan("memory_get_session", args) {
        ToolPlan::DateRange { from, to, limit: 50, .. } => (from, to),
        other => panic!("{other:?}"),
    };
    let pair = |a: &str, b: &str| (a.to_string(), b.to_string());
    assert_eq!(range(r#"{"date": "d", "date_from": "x"}"#), pair("d", "d"));
    assert_eq!(range(r#"{"date_from": "a"}"#), pair("a", "2099-12-31"));
    assert_eq!(range(r#"{"date_to": "b"}"#), pair("2000-01-01", "b"));
    assert_eq!(
        plan("memory_get_session", "{}"),
        ToolPlan::Reject(Failure::new("Provide session_id or date/date_from/date_to"))
    );
}

#[test]
fn a_session_is_registered() {
    let planned = plan("memory_find_workspace", r#"{"conversation_id": "c", "workspace": "/v"}"#);
    let registration = match planned {
        ToolPlan::Register(r) => r,
        other => panic!("{other:?}"),
    };
    assert_eq!(
        registration,
        Registration {
            conversation_id: "c".to_string(),
            workspace: "/v".to_string(),
            dir: "/v/.agents-relay".to_string(),
            file: "/v/.agents-relay/session.json".to_string(),
            note: "{\n  \"conversation_id\": \"c\",\n  \"started_at\": \"2024-03-01T10:20:30+00:00\",\n  \"workspace\": \"/v\"\n}".to_string(),
            entry: NewEntry {
                session_id: "c".to_string(),
                timestamp: now().iso,
                date: now().date,
                time: now().time,
                entry_type: "system".to_string(),
                tool_name: some("session_start"),
                content: "Session Started in workspace: /v".to_string(),
                cwd: some("/v"),
                source: "alpha".to_string(),
            },
        }
    );
    assert_eq!(
        answer_registered(&registration),
        r#"{"conversation_id":"c","message":"Session registered and session.json written.","status":"success","workspace":"/v"}"#
    );
}

#[test]
fn a_session_needs_a_name_and_a_place() {
    assert_eq!(
        plan("memory_find_workspace", "{}"),
        ToolPlan::Reject(Failure::new("conversation_id is required"))
    );
    let mut q = request("memory_find_workspace", r#"{"conversation_id": "c", "started_at": "then"}"#);
    match plan_tool(&q, &now()) {
        ToolPlan::Register(r) => {
            assert_eq!(r.workspace, "/w");
            assert!(r.note.contains("\"started_at\": \"then\""));
        }
        other => panic!("{other:?}"),
    }
    q.workspace = None;
    assert_eq!(
        plan_tool(&q, &now()),
        ToolPlan::Reject(Failure::new(
            "workspace is required. Pass it as a tool argument: workspace=\"/your/workspace/path\""
        ))
    );
}

#[test]
fn a_summary_is_kept() {
    let recorded = |q: &ToolRequest| match plan_tool(q, &now()) {
        ToolPlan::Record(e) => e,
        other => panic!("{other:?}"),
    };
    let mut q = request("memory_record_summary", r#"{"summary": "s", "tags": "a,b"}"#);
    let e = recorded(&q);
    assert_eq!(e.session_id, "agent-summary");
    assert_eq!(e.content, "[Tags: a,b]\ns");
    assert_eq!(e.entry_type, "summary");
    assert_eq!(e.tool_name, some("skill_hook"));
    assert_eq!(e.cwd, some("/w"));
    assert_eq!(e.source, "alpha");
    q.source = None;
    assert_eq!(recorded(&q).source, "alpha-code");
    q.client = None;
    assert_eq!(recorded(&q).source, "unknown");
    assert_eq!(
        plan("memory_record_summary", r#"{"summary": ""}"#),
        ToolPlan::Reject(Failure::new("summary parameter is required"))
    );
    assert_eq!(tag_summary("s", ""), "s");
    assert_eq!(
        answer_recorded(9),
        r#"{"id":9,"message":"Successfully recorded summary with ID 9","status":"success"}"#
    );
}

#[test]
fn an_unknown_tool_is_refused() {
    assert_eq!(
        plan("memory_forget", "{}"),
        ToolPlan::Reject(Failure::new("Unknown tool: memory_forget"))
    );
}

#[test]
fn a_call_is_dated_when_it_is_made() {
    let before = Moment::now().secs;
    match handle_tool(&request("memory_record_summary", r#"{"summary": "s"}"#)) {
        ToolPlan::Record(e) => {
            let at = chrono::DateTime::parse_from_rfc3339(&e.timestamp).unwrap().timestamp();
            assert!(before <= at && at <= Moment::now().secs);
            assert!(e.timestamp.starts_with(&format!("{}T{}", e.date, e.time)));
        }
        other => panic!("{other:?}"),
    }
}

#[test]
fn entries_are_answered() {
    let full = r#"{"content":"c","cwd":"/w","date":"d","git_branch":null,"id":5,"session_id":"s","source":"alpha","time":"h","timestamp":"t","tool_name":null,"type":"user"}"#;
    assert_eq!(json(&answer_search(&vec![entry()])).to_text(), format!("[{full}]"));
    assert_eq!(answer_search(&vec![]), "[]");
    assert_eq!(json(&answer_entry(Some(&entry()), 5)).to_text(), full);
    assert_eq!(answer_entry(None, -5), "No entry found with id: -5");
    assert_eq!(
        json(&answer_session_entries(&vec![entry()])).to_text(),
        r#"[{"content":"c","id":5,"session_id":"s","source":"alpha","time":"h","timestamp":"t","tool_name":null,"type":"user"}]"#
    );
    assert!(answer_entry(Some(&entry()), 5).starts_with("{\n  \"content\": \"c\","));
}

#[test]
fn sessions_are_answered() {
    let s = SessionSummary {
        session_id: "s".to_string(),
        first_timestamp: "f".to_string(),
        last_timestamp: "l".to_string(),
        date: "d".to_string(),
        entry_count: 2,
    };
    assert_eq!(
        json(&answer_sessions(&vec![s])).to_text(),
        r#"[{"date":"d","entry_count":2,"first_timestamp":"f","last_timestamp":"l","session_id":"s"}]"#
    );
}

#[test]
fn the_backend_says_how_it_is() {
    let report = health(100, 2);
    assert_eq!(
        report.to_text(),
        r#"{"binary_mtime":100,"client_count":2,"status":"ok","version":"0.2.0"}"#
    );
    assert_eq!(judge_health(&report, 101), Backend::Outdated);
    assert_eq!(judge_health(&report, 100), Backend::Current);
    assert_eq!(judge_health(&health(0, 0), 100), Backend::Current);
}

#[test]
fn proxies_are_counted() {
    assert_eq!(register(0), 1);
    assert_eq!(deregister(register(4)), 4);
    assert_eq!(deregister(1), 0);
    assert_eq!(deregister(0), 0);
    assert_eq!(deregister(-3), 0);
    assert_eq!(count_report(3).to_text(), r#"{"client_count":3}"#);
}

#[test]
fn the_backend_looks_round() {
    let mut m = Monitor::start();
    assert_eq!(m.pause(), 500);
    let t = m.tick(1, true);
    assert_eq!((t.count, t.alone, t.stop), (1, None, false));
    assert_eq!(m.pause(), 30_000);
}

#[test]
fn a_backend_that_is_alone_for_a_minute_stops() {
    let mut m = Monitor::start();
    let t = m.tick(3, false);
    assert_eq!((t.count, t.alone, t.stop), (0, Some(0), false));
    let t = m.tick(0, false);
    assert_eq!((t.alone, t.stop), (Some(30_000), false));
    let t = m.tick(0, false);
    assert_eq!((t.alone, t.stop), (Some(60_000), true));
}

#[test]
fn a_proxy_restarts_the_wait() {
    let mut m = Monitor::start();
    m.tick(0, false);
    assert!(!m.tick(0, false).stop);
    assert_eq!(m.tick(0, true).alone, None);
    assert!(!m.tick(0, false).stop);
    assert!(!m.tick(0, false).stop);
    assert!(m.tick(0, false).stop);
}

#[test]
fn a_backend_with_proxies_goes_on() {
    let mut m = Monitor::start();
    for _ in 0..10 {
        assert!(!m.tick(1, true).stop);
        assert!(!m.tick(0, true).stop);
    }
}

#[test]
fn a_number_may_have_a_fraction_of_nothing() {
    for name in ["memory_get_entry", "memory_search", "memory_list_sessions", "memory_get_session"] {
        assert_eq!(
            plan(name, r#"{"id": 3.0, "limit": 7.0, "session_id": "s"}"#),
            plan(name, r#"{"id": 3, "limit": 7, "session_id": "s"}"#)
        );
    }
    assert_eq!(plan("memory_get_entry", "{}"), ToolPlan::GetEntry { id: 0 });
}

fn session() -> SessionSummary {
    SessionSummary {
        session_id: "s".to_string(),
        first_timestamp: "2024-03-01T10:00:00Z".to_string(),
        last_timestamp: "2024-03-01T11:00:00Z".to_string(),
        date: "2024-03-01".to_string(),
        entry_count: 2,
    }
}

#[test]
fn each_plan_has_its_answer() {
    let entries = || Found::Entries(vec![entry()]);
    let listed = || vec![entry()];
    let search = plan("memory_search", r#"{"query": "x"}"#);
    assert_eq!(answer_plan(&search, Ok(entries())), Ok(answer_search(&listed())));
    let get = plan("memory_get_entry", r#"{"id": 5}"#);
    let there = answer_plan(&get, Ok(Found::Entry(Some(entry()))));
    assert_eq!(there, Ok(answer_entry(Some(&entry()), 5)));
    let gone = answer_plan(&get, Ok(Found::Entry(None)));
    assert_eq!(gone, Ok(answer_entry(None, 5)));
    let list = plan("memory_list_sessions", "{}");
    let sessions = answer_plan(&list, Ok(Found::Sessions(vec![session()])));
    assert_eq!(sessions, Ok(answer_sessions(&vec![session()])));
    for args in [r#"{"session_id": "s"}"#, r#"{"date": "d"}"#] {
        let of_session = plan("memory_get_session", args);
        let told = answer_plan(&of_session, Ok(entries()));
        assert_eq!(told, Ok(answer_session_entries(&listed())), "{args}");
    }
    let place = plan("memory_find_workspace", r#"{"conversation_id": "c", "workspace": "/v"}"#);
    let ToolPlan::Register(registration) = &place else {
        panic!("not registered");
    };
    let registered = answer_plan(&place, Ok(Found::Inserted(9)));
    assert_eq!(registered, Ok(answer_registered(registration)));
    let record = plan("memory_record_summary", r#"{"summary": "s"}"#);
    assert_eq!(answer_plan(&record, Ok(Found::Inserted(9))), Ok(answer_recorded(9)));
}

#[test]
fn a_plan_that_fails_is_answered_so() {
    let denied = || Err(Failure::new("denied"));
    let wrong = plan("no_such_tool", "{}");
    let ToolPlan::Reject(e) = &wrong else {
        panic!("not rejected");
    };
    assert_eq!(answer_plan(&wrong, Ok(Found::Nothing)), Err(Failure::new(&e.message)));
    assert_eq!(answer_plan(&wrong, denied()), Err(Failure::new(&e.message)));
    let search = plan("memory_search", r#"{"query": "x"}"#);
    assert_eq!(answer_plan(&search, denied()), Err(Failure::new("denied")));
    assert_eq!(
        answer_plan(&search, Ok(Found::Inserted(3))),
        Err(Failure::new("The database did not give what it was asked for"))
    );
}

#[test]
fn a_request_may_be_an_array() {
    let r = receive_request(r#"["t", {"a": 1}, "/w", null, "alpha-code"]"#).unwrap();
    assert_eq!(r.name, "t");
    assert_eq!(r.arguments, json(r#"{"a": 1}"#));
    assert_eq!((r.workspace, r.source, r.client), (some("/w"), None, some("alpha-code")));
    for text in ["[]", r#"["t", {}, null, null]"#, r#"[1, {}, null, null, null]"#] {
        assert_eq!(receive_request(text), Err(BadRequest::NotACall), "{text}");
    }
}
