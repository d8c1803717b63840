use agents_relay::client::{
    call_tool, deregister_url, ensure_server_running, health_url, is_server_alive, judge_backend,
    port_file_path, port_note, read_server_port, receive_response, register_url, tool_request,
    tool_url, Backend, CallEvent, CallStep, Startup, StartupStep, ToolResponse,
};
use agents_relay::config::Config;
use agents_relay::context::{add_context, count_by_source};
use agents_relay::failure::Failure;
use agents_relay::json::{empty_object, parse_json, Json};
use agents_relay::mcp::{
    file_to_save, file_to_save_below, finish_call, finish_request, finish_save, handle_request, handle_tool_call, read_request,
    BackendCall, CallKind, RequestStep, Saving, ToolStep, INSTRUCTIONS,
};
use agents_relay::scope::{announced_client, client_to_source, ServerScope};
use agents_relay::tool_list::tool_definitions;
use agents_relay::workspace::WorkspaceConfig;

fn json(text: &str) -> Json {
    parse_json(text).unwrap()
}

fn scope_of(client: &str) -> ServerScope {
    ServerScope::start(
        "alpha".to_string(),
        client.to_string(),
        Some("/w".to_string()),
        WorkspaceConfig::default(),
        true,
        54322,
    )
}

fn scope() -> ServerScope {
    scope_of("alpha-code")
}

fn call(scope: &mut ServerScope, tool: &str, args: &str) -> ToolStep {
    let params = json(&format!(r#"{{"name": "{tool}", "arguments": {args}}}"#));
    handle_tool_call(&params, scope)
}

fn answer(step: ToolStep) -> Json {
    match step {
        ToolStep::Answer(Ok(text)) => json(&text),
        other => panic!("{other:?}"),
    }
}

fn sent(step: ToolStep) -> BackendCall {
    match step {
        ToolStep::Call(c) => c,
        other => panic!("{other:?}"),
    }
}

fn reply(content: &str, is_error: bool) -> Result<(ToolResponse, u16), Failure> {
    Ok((ToolResponse { content: content.to_string(), is_error }, 6000))
}

// --- the backend's addresses ---------------------------------------------------------

#[test]
fn the_backend_has_these_addresses() {
    assert_eq!(health_url(54322), "http://127.0.0.1:54322/health");
    assert_eq!(tool_url(1), "http://127.0.0.1:1/tool");
    assert_eq!(register_url(65535), "http://127.0.0.1:65535/register");
    assert_eq!(deregister_url(80), "http://127.0.0.1:80/deregister");
    assert!(port_file_path().ends_with("/.agents-relay/server.port"));
}

#[test]
fn the_port_file_names_the_port() {
    assert_eq!(read_server_port(None), 54322);
    assert_eq!(read_server_port(Some("")), 54322);
    assert_eq!(read_server_port(Some("x")), 54322);
    assert_eq!(read_server_port(Some("65536")), 54322);
    assert_eq!(read_server_port(Some(" 8080\n")), 8080);
    for port in [0u16, 80, 54322, 65535] {
        assert_eq!(read_server_port(Some(&port_note(port))), port);
    }
}

#[test]
fn a_backend_that_answers_lives() {
    assert!(is_server_alive(Some(r#"{"status": "ok"}"#)));
    assert!(!is_server_alive(Some("<html>")));
    assert!(!is_server_alive(None));
}

#[test]
fn an_older_program_is_outdated() {
    let health = r#"{"status": "ok", "binary_mtime": 100}"#;
    assert_eq!(judge_backend(Some(health), 100), Backend::Current);
    assert_eq!(judge_backend(Some(health), 99), Backend::Current);
    assert_eq!(judge_backend(Some(health), 101), Backend::Outdated);
    assert_eq!(judge_backend(Some(r#"{"binary_mtime": 0}"#), 101), Backend::Current);
    assert_eq!(judge_backend(Some("{}"), 101), Backend::Current);
    assert_eq!(judge_backend(Some("no"), 101), Backend::Absent);
    assert_eq!(judge_backend(None, 101), Backend::Absent);
}

#[test]
fn a_backend_is_started_where_there_is_none() {
    let step = ensure_server_running(Startup::Fresh, 7, Backend::Absent);
    let mut state = match step {
        StartupStep::Launch(s) => s,
        other => panic!("{other:?}"),
    };
    for _ in 0..49 {
        state = match ensure_server_running(state, 7, Backend::Absent) {
            StartupStep::Wait(s) => s,
            other => panic!("{other:?}"),
        };
    }
    assert_eq!(ensure_server_running(state, 8, Backend::Current), StartupStep::Ready(8));
    assert_eq!(
        ensure_server_running(state, 7, Backend::Absent),
        StartupStep::GiveUp(Failure::new("agents-relay server did not start within 5 seconds"))
    );
}

#[test]
fn an_outdated_backend_is_replaced() {
    assert!(matches!(
        ensure_server_running(Startup::Fresh, 7, Backend::Outdated),
        StartupStep::Replace(Startup::Launched { looks_left: 50 })
    ));
    assert_eq!(ensure_server_running(Startup::Fresh, 7, Backend::Current), StartupStep::Ready(7));
}

#[test]
fn a_call_that_fails_is_sent_once_more() {
    let failed = || Err(Failure::new("gone"));
    let fine = || Ok(ToolResponse { content: "x".to_string(), is_error: false });
    assert_eq!(call_tool(CallEvent::Sent { port: 1, reply: failed() }), CallStep::Restart);
    assert_eq!(call_tool(CallEvent::Restarted(Ok(2))), CallStep::SendAgain(2));
    assert_eq!(
        call_tool(CallEvent::SentAgain { port: 2, reply: failed() }),
        CallStep::Failed(Failure::new("gone"))
    );
    assert_eq!(
        call_tool(CallEvent::Restarted(Err(Failure::new("no")))),
        CallStep::Failed(Failure::new("no"))
    );
    assert_eq!(
        call_tool(CallEvent::Sent { port: 1, reply: fine() }),
        CallStep::Answered(fine().unwrap(), 1)
    );
    assert_eq!(
        call_tool(CallEvent::SentAgain { port: 2, reply: fine() }),
        CallStep::Answered(fine().unwrap(), 2)
    );
}

#[test]
fn a_tool_call_is_written_and_its_answer_read() {
    let message = tool_request("t", &json(r#"{"q": 1}"#), Some("/w"), None, "c");
    assert_eq!(
        message.to_text(),
        r#"{"arguments":{"q":1},"client":"c","name":"t","source":null,"workspace":"/w"}"#
    );
    let resp = receive_response(r#"{"content": "x", "is_error": true}"#).unwrap();
    assert_eq!(resp, ToolResponse { content: "x".to_string(), is_error: true });
    let resp = receive_response(r#"{"is_error": "true"}"#).unwrap();
    assert_eq!(resp, ToolResponse { content: String::new(), is_error: false });
    assert!(receive_response("oops").is_none());
}

// --- scope ---------------------------------------------------------------------------

#[test]
fn clients_are_kept_under_their_sources() {
    let source = |client: &str| client_to_source(client, "alpha");
    assert_eq!(source("alpha-code").as_deref(), Some("alpha"));
    assert_eq!(source("antigravity").as_deref(), Some("antigravity"));
    for other in ["alpha", "Alpha-Code", "alpha-code ", "beta-code", "cursor", "Antigravity", ""] {
        assert_eq!(source(other), None, "{other}");
    }
}

#[test]
fn the_workspace_says_whether_the_relay_answers() {
    let start = |ws: Option<bool>, global: bool| {
        let config = WorkspaceConfig { cross_scope: "ask".to_string(), enabled: ws };
        ServerScope::start("alpha".to_string(), "x".to_string(), None, config, global, 1).enabled
    };
    assert!(start(Some(true), false));
    assert!(!start(Some(false), true));
    assert!(start(None, true));
    assert!(!start(None, false));
}

#[test]
fn the_session_comes_before_the_workspace() {
    let mut s = scope();
    for (setting, allowed) in [("ask", None), ("allow", Some(true)), ("deny", Some(false)), ("?", None)] {
        s.ws_config.cross_scope = setting.to_string();
        s.session_cross_override = None;
        assert_eq!(s.is_cross_allowed(), allowed);
        s.session_cross_override = Some(true);
        assert_eq!(s.is_cross_allowed(), Some(true));
        s.session_cross_override = Some(false);
        assert_eq!(s.is_cross_allowed(), Some(false));
    }
}

#[test]
fn an_agent_introduces_itself() {
    let hello = json(
        r#"{"method": "initialize", "params": {"clientInfo": {"name": "Antigravity"},
            "roots": [{"uri": "file:///r/p"}, {"uri": "file:///other"}]}}"#,
    );
    assert_eq!(announced_client(&hello), Some("Antigravity"));
    let mut s = scope();
    s.introduce(&hello, Some("antigravity"));
    assert_eq!(s.client, "antigravity");
    assert_eq!(s.default_source.as_deref(), Some("antigravity"));
    assert_eq!(s.default_workspace.as_deref(), Some("/w"));
    let mut s = scope();
    s.default_workspace = None;
    s.introduce(&hello, None);
    assert_eq!(s.client, "alpha-code");
    assert_eq!(s.default_workspace.as_deref(), Some("/r/p"));
    let other = json(r#"{"method": "tools/list", "params": {"clientInfo": {"name": "x"}}}"#);
    assert_eq!(announced_client(&other), None);
    let mut s = scope();
    s.introduce(&other, Some("x"));
    assert_eq!(s.client, "alpha-code");
}

#[test]
fn a_root_need_not_be_an_address() {
    let hello = json(r#"{"method": "initialize", "params": {"roots": [{"uri": "/plain"}]}}"#);
    let mut s = scope();
    s.default_workspace = None;
    s.introduce(&hello, None);
    assert_eq!(s.default_workspace.as_deref(), Some("/plain"));
}

// --- tools ---------------------------------------------------------------------------

#[test]
fn antigravity_has_more_tools() {
    let names = |s: &ServerScope| match tool_definitions(s) {
        Json::Array(tools) => {
            tools.iter().map(|t| t.text_at("name").unwrap().to_string()).collect::<Vec<_>>()
        }
        _ => panic!("not an array"),
    };
    assert_eq!(
        names(&scope()),
        vec!["memory_search", "memory_get_session", "memory_set_enabled"]
    );
    assert_eq!(
        names(&scope_of("antigravity")),
        vec![
            "memory_search",
            "memory_get_session",
            "memory_set_enabled",
            "memory_find_workspace",
            "memory_unlock_cross_scope"
        ]
    );
}

#[test]
fn tools_are_described() {
    let tools = match tool_definitions(&scope()) {
        Json::Array(tools) => tools,
        _ => panic!("not an array"),
    };
    let search = &tools[0];
    let schema = search.get("inputSchema").unwrap();
    assert_eq!(schema.text_at("type"), Some("object"));
    assert_eq!(schema.get("required").unwrap().to_text(), r#"["query"]"#);
    let properties = schema.get("properties").unwrap();
    assert_eq!(
        properties.get("limit").unwrap().to_text(),
        r#"{"description":"Max results (default 20)","type":"number"}"#
    );
    assert_eq!(
        properties.get("source").unwrap().to_text(),
        r#"{"description":"Override source filter: alpha, antigravity (advanced).","type":"string"}"#
    );
    assert_eq!(search.get("_meta").unwrap().to_text(), r#"{"anthropic/alwaysLoad":true}"#);
    let session = tools[1].get("inputSchema").unwrap();
    assert!(session.get("required").is_none());
    assert_eq!(
        session.get("properties").unwrap().get("date").unwrap().to_text(),
        r#"{"type":"string"}"#
    );
    assert!(tools[2].get("_meta").is_none());
}

// --- tool calls ----------------------------------------------------------------------

#[test]
fn a_disabled_relay_answers_nothing_else() {
    let mut s = scope();
    s.enabled = false;
    for tool in ["memory_search", "memory_set_enabled", "anything"] {
        let a = answer(call(&mut s, tool, r#"{"enabled": true, "query": "x"}"#));
        assert_eq!(a.get("disabled"), Some(&Json::Bool(true)));
        assert!(a.text_at("message").unwrap().starts_with("agents-relay is disabled."));
    }
    assert!(!s.enabled);
}

#[test]
fn a_search_is_confined_to_the_agent() {
    let mut s = scope();
    let c = sent(call(&mut s, "memory_search", r#"{"query": "x"}"#));
    assert_eq!(c.kind, CallKind::Search);
    assert_eq!(c.name, "memory_search");
    assert_eq!(c.arguments, json(r#"{"query": "x"}"#));
    assert_eq!(c.workspace.as_deref(), Some("/w"));
    assert_eq!(c.source.as_deref(), Some("alpha"));
    let c = sent(call(&mut s, "memory_search", r#"{"workspace": "/v", "source": "beta"}"#));
    assert_eq!(c.workspace.as_deref(), Some("/v"));
    assert_eq!(c.source.as_deref(), Some("beta"));
    assert_eq!(s, scope());
}

#[test]
fn the_user_is_asked_before_a_search_reaches_further() {
    let mut s = scope();
    let a = answer(call(&mut s, "memory_search", r#"{"query": "x", "scope": "cross"}"#));
    assert_eq!(a.text_at("status"), Some("confirmation_required"));
    assert_eq!(a.text_at("scope_requested"), Some("cross"));
    assert_eq!(a.text_at("query"), Some("x"));
    assert_eq!(
        a.text_at("message"),
        Some(
            "⚠️ This search requires access to memories beyond your current scope.\n\
             Requested: all agents in this workspace (including other AI tools' memories)\n\n\
             Please ask the user: 'May I also search memory from other AI tools in this workspace?'\n\n\
             If approved: call again with confirmed=true.\n\
             If declined: call again with opt_out=true."
        )
    );
    let a = answer(call(&mut s, "memory_search", r#"{"scope": "all"}"#));
    assert!(a.text_at("message").unwrap().contains("all agents and ALL workspaces"));
    assert_eq!(a.get("query"), Some(&Json::Null));
    assert_eq!(s, scope());
}

#[test]
fn a_confirmation_holds_for_the_session() {
    let mut s = scope();
    let c = sent(call(&mut s, "memory_search", r#"{"scope": "cross", "confirmed": true}"#));
    assert_eq!((c.workspace.as_deref(), c.source.as_deref()), (Some("/w"), None));
    assert_eq!(s.session_cross_override, Some(true));
    let c = sent(call(&mut s, "memory_search", r#"{"scope": "all", "workspace": "/v"}"#));
    assert_eq!(c.kind, CallKind::Search);
    assert_eq!((c.workspace, c.source), (None, None));
}

#[test]
fn a_refusal_holds_for_good() {
    let mut s = scope();
    let step = call(&mut s, "memory_search", r#"{"scope": "cross", "opt_out": "true"}"#);
    assert_eq!(step, ToolStep::Save(Saving::Refusal));
    assert_eq!(s.ws_config.cross_scope, "deny");
    assert_eq!(s.is_cross_allowed(), Some(false));
    let text = finish_save(Saving::Refusal, Err(Failure::new("disk full")), &mut s).unwrap();
    assert_eq!(json(&text).text_at("status"), Some("opt_out_accepted"));
    let c = sent(call(&mut s, "memory_search", r#"{"scope": "all", "confirmed": true}"#));
    assert_eq!(c.kind, CallKind::ConfinedSearch);
    assert_eq!((c.workspace.as_deref(), c.source.as_deref()), (Some("/w"), Some("alpha")));
    assert_eq!(s.is_cross_allowed(), Some(false));
}

#[test]
fn a_confined_search_says_so() {
    let mut s = scope();
    let text = finish_call(CallKind::ConfinedSearch, reply(r#"[{"id": 1}]"#, false), &mut s);
    let notice = "Cross-scope denied for this workspace. Falling back to scope='self'.";
    assert_eq!(
        json(&text.unwrap()).to_text(),
        format!(r#"[{{"_notice":"{notice}"}},{{"id":1}}]"#)
    );
    assert_eq!(s.server_port, 54322);
    let text = finish_call(CallKind::ConfinedSearch, reply("garbage", true), &mut s);
    assert_eq!(json(&text.unwrap()).to_text(), format!(r#"[{{"_notice":"{notice}"}}]"#));
}

#[test]
fn access_can_be_unlocked() {
    let mut s = scope_of("antigravity");
    let a = answer(call(&mut s, "memory_unlock_cross_scope", "{}"));
    assert_eq!(a.text_at("status"), Some("confirmation_required"));
    assert_eq!(s.is_cross_allowed(), None);
    s.ws_config.cross_scope = "deny".to_string();
    let a = answer(call(&mut s, "memory_unlock_cross_scope", r#"{"confirmed": true}"#));
    assert_eq!(a.text_at("status"), Some("unlocked"));
    assert_eq!(s.is_cross_allowed(), Some(true));
}

#[test]
fn the_relay_is_turned_off_and_on() {
    let mut s = scope();
    assert_eq!(
        call(&mut s, "memory_set_enabled", "{}"),
        ToolStep::Answer(Err(Failure::new("enabled parameter is required")))
    );
    let step = call(&mut s, "memory_set_enabled", r#"{"enabled": false}"#);
    assert_eq!(step, ToolStep::Save(Saving::Workspace { enabled: false }));
    assert_eq!(s.ws_config.enabled, Some(false));
    assert!(s.enabled);
    let saving = Saving::Workspace { enabled: false };
    assert_eq!(
        finish_save(saving, Err(Failure::new("read-only")), &mut s),
        Err(Failure::new("read-only"))
    );
    assert!(s.enabled);
    let text = finish_save(saving, Ok(()), &mut s).unwrap();
    assert!(!s.enabled);
    assert_eq!(
        json(&text).text_at("message"),
        Some("agents-relay disabled for workspace '/w'. Saved to .agents-relay.json.")
    );
    let mut s = scope();
    let step = call(&mut s, "memory_set_enabled", r#"{"enabled": "true", "scope": "global"}"#);
    assert_eq!(step, ToolStep::Save(Saving::Global { enabled: true }));
    let text = finish_save(Saving::Global { enabled: true }, Ok(()), &mut s).unwrap();
    assert_eq!(
        json(&text).text_at("message"),
        Some("agents-relay globally enabled. Saved to ~/.agents-relay/config.json.")
    );
    assert_eq!(json(&text).text_at("scope"), Some("global"));
}

#[test]
fn other_tools_are_passed_on() {
    let mut s = scope();
    let c = sent(call(&mut s, "memory_get_entry", r#"{"id": 3}"#));
    assert_eq!(c.kind, CallKind::Other);
    assert_eq!((c.workspace.as_deref(), c.source.as_deref()), (Some("/w"), Some("alpha")));
    let c = sent(handle_tool_call(&empty_object(), &mut s));
    assert_eq!(c.name, "");
    assert_eq!(c.arguments, empty_object());
    assert_eq!(finish_call(CallKind::Other, reply("x", false), &mut s), Ok("x".to_string()));
    assert_eq!(s.server_port, 6000);
    assert_eq!(
        finish_call(CallKind::Other, reply("x", true), &mut s),
        Err(Failure::new("x"))
    );
    let down = finish_call(CallKind::Other, Err(Failure::new("down")), &mut s);
    assert_eq!(down, Err(Failure::new("down")));
}

#[test]
fn a_found_workspace_is_taken_up() {
    let mut s = scope_of("antigravity");
    let c = sent(call(&mut s, "memory_find_workspace", r#"{"conversation_id": "c"}"#));
    assert_eq!(c.kind, CallKind::FindWorkspace);
    let content = r#"{"status":"success","workspace":"/found"}"#;
    assert_eq!(
        finish_call(CallKind::FindWorkspace, reply(content, false), &mut s),
        Ok(content.to_string())
    );
    assert_eq!(s.default_workspace.as_deref(), Some("/found"));
    finish_call(CallKind::FindWorkspace, reply("no json", false), &mut s).unwrap();
    assert_eq!(s.default_workspace.as_deref(), Some("/found"));
    finish_call(CallKind::FindWorkspace, reply(r#"{"workspace":"/x"}"#, true), &mut s).unwrap_err();
    assert_eq!(s.default_workspace.as_deref(), Some("/found"));
}

// --- context -------------------------------------------------------------------------

#[test]
fn entries_are_counted_by_source() {
    let entries = match json(r#"[{"source": "b"}, {"source": "a"}, {}, {"source": "b"}, 3]"#) {
        Json::Array(entries) => entries,
        _ => panic!("not an array"),
    };
    let counted: Vec<(String, usize)> =
        count_by_source(&entries).into_iter().map(|s| (s.source, s.count)).collect();
    assert_eq!(
        counted,
        vec![("b".to_string(), 2), ("a".to_string(), 1), ("unknown".to_string(), 2)]
    );
}

#[test]
fn own_memories_come_without_a_warning() {
    let own = r#"[{"source": "alpha"}, {"source": "alpha"}]"#;
    assert_eq!(add_context(json(own), Some("alpha"), "alpha-code"), json(own));
    assert_eq!(add_context(json("[]"), None, "cursor"), json("[]"));
    assert_eq!(add_context(json(r#"{"a": 1}"#), None, "cursor"), json(r#"{"a": 1}"#));
}

#[test]
fn foreign_memories_come_with_a_warning() {
    let found = r#"[{"source": "alpha"}, {"source": "beta"}, {"source": "beta"}, {}]"#;
    let shown = match add_context(json(found), Some("alpha"), "alpha-code") {
        Json::Array(shown) => shown,
        _ => panic!("not an array"),
    };
    assert_eq!(shown.len(), 5);
    let context = shown[0].get("_context").unwrap();
    assert_eq!(context.text_at("your_source"), Some("alpha"));
    assert_eq!(
        context.get("results_breakdown").unwrap().to_text(),
        r#"{"alpha":1,"beta":2,"unknown":1}"#
    );
    assert_eq!(
        context.text_at("warning"),
        Some(
            "3 entries from other agent(s) (beta: 2, unknown: 1) are included in these results. \
             Do NOT treat them as your own memories. Check the 'source' field of each entry."
        )
    );
    assert_eq!(Json::Array(shown.into_iter().skip(1).collect()), json(found));
}

#[test]
fn one_foreign_memory_is_an_entry() {
    let shown = add_context(json(r#"[{"source": "beta"}]"#), Some("alpha"), "alpha-code");
    assert!(shown.to_text().contains("1 entry from other agent(s) (beta: 1)"));
}

#[test]
fn an_agent_without_a_source_is_always_warned() {
    let shown = match add_context(json(r#"[{"source": "beta"}]"#), None, "cursor") {
        Json::Array(shown) => shown,
        _ => panic!("not an array"),
    };
    let context = shown[0].get("_context").unwrap();
    assert_eq!(context.text_at("your_source"), Some("unknown"));
    assert_eq!(
        context.text_at("warning"),
        Some(
            "Source filter is not available for client 'cursor'. Results include memories from ALL \
             agents. Check the 'source' field of each entry to identify which agent it came from."
        )
    );
}

#[test]
fn a_search_shows_what_was_found() {
    let mut s = scope();
    let text = finish_call(CallKind::Search, reply(r#"[{"source": "alpha"}]"#, false), &mut s);
    assert_eq!(text, Ok("[\n  {\n    \"source\": \"alpha\"\n  }\n]".to_string()));
    assert_eq!(s.server_port, 6000);
    assert_eq!(finish_call(CallKind::Search, reply("junk", false), &mut s), Ok("[]".to_string()));
    assert_eq!(
        finish_call(CallKind::Search, reply("bad", true), &mut s),
        Err(Failure::new("bad"))
    );
}

// --- requests ------------------------------------------------------------------------

#[test]
fn blank_lines_and_noise_ask_nothing() {
    assert!(read_request("").is_none());
    assert!(read_request(" \t").is_none());
    assert!(read_request("hello").is_none());
    assert_eq!(read_request(r#" {"id": 1} "#), Some(json(r#"{"id": 1}"#)));
}

fn replied(step: RequestStep) -> Json {
    match step {
        RequestStep::Reply(v) => v,
        other => panic!("{other:?}"),
    }
}

#[test]
fn an_agent_is_welcomed() {
    let mut s = scope();
    let r = replied(handle_request(&json(r#"{"id": 7, "method": "initialize"}"#), &mut s));
    assert_eq!(r.text_at("jsonrpc"), Some("2.0"));
    assert_eq!(r.get("id"), Some(&Json::integer(7)));
    let result = r.get("result").unwrap();
    assert_eq!(result.text_at("protocolVersion"), Some("2024-11-05"));
    assert_eq!(result.get("capabilities").unwrap().to_text(), r#"{"tools":{}}"#);
    assert_eq!(
        result.get("serverInfo").unwrap().to_text(),
        r#"{"defaultSource":"alpha","defaultWorkspace":"/w","detectedClient":"alpha-code","name":"agents-relay","version":"0.2.0"}"#
    );
    assert_eq!(result.text_at("instructions"), Some(INSTRUCTIONS));
}

#[test]
fn requests_are_answered_or_not() {
    let mut s = scope();
    let note = json(r#"{"id": 1, "method": "notifications/initialized"}"#);
    assert_eq!(handle_request(&note, &mut s), RequestStep::Silent);
    let unknown = json(r#"{"method": "notifications/cancelled"}"#);
    assert_eq!(handle_request(&unknown, &mut s), RequestStep::Silent);
    let r = replied(handle_request(&json(r#"{"id": "x", "method": "ping"}"#), &mut s));
    assert_eq!(
        r.to_text(),
        r#"{"error":{"code":-32601,"message":"Method not found: ping"},"id":"x","jsonrpc":"2.0"}"#
    );
    let r = replied(handle_request(&json(r#"{"method": "tools/list"}"#), &mut s));
    assert_eq!(r.get("id"), Some(&Json::Null));
    assert_eq!(r.get("result").unwrap().get("tools"), Some(&tool_definitions(&s)));
}

#[test]
fn a_tool_is_called_and_answered() {
    let mut s = scope();
    let request = json(
        r#"{"id": 3, "method": "tools/call", "params": {"name": "memory_get_entry", "arguments": {"id": 1}}}"#,
    );
    match handle_request(&request, &mut s) {
        RequestStep::Tool { id, step } => {
            assert_eq!(id, Json::integer(3));
            assert_eq!(sent(step).name, "memory_get_entry");
        }
        other => panic!("{other:?}"),
    }
    assert_eq!(
        finish_request(Json::integer(3), Ok("text".to_string())).to_text(),
        r#"{"id":3,"jsonrpc":"2.0","result":{"content":[{"text":"text","type":"text"}]}}"#
    );
    assert_eq!(
        finish_request(Json::Null, Err(Failure::new("bad"))).to_text(),
        r#"{"id":null,"jsonrpc":"2.0","result":{"content":[{"text":"Error: bad","type":"text"}],"isError":true}}"#
    );
}

#[test]
fn a_saving_has_its_file() {
    let text = || Some(Ok(r#"{"retention_days": 7, "archive_dir": "/x"}"#.to_string()));
    let global = Saving::Global { enabled: false };
    let file = file_to_save_below(global, &scope(), text(), Some("/h")).unwrap();
    assert_eq!(file.path, "/h/.agents-relay/config.json");
    let stored = Config { retention_days: 7, archive_dir: "/x".to_string(), enabled: false };
    assert_eq!(Config::load(Some(Ok(file.text))), Ok(stored));
    let file = file_to_save(global, &scope(), None).unwrap();
    assert_eq!(file.path, Config::config_path());

    let mut s = scope();
    s.ws_config.enabled = Some(false);
    let here = Saving::Workspace { enabled: false };
    let file = file_to_save(here, &s, text()).unwrap();
    assert_eq!(file.path, WorkspaceConfig::config_path("/w"));
    assert_eq!(WorkspaceConfig::load(Some("/w"), Some(&file.text)), s.ws_config);
    s.default_workspace = None;
    assert_eq!(
        file_to_save(Saving::Refusal, &s, None),
        Err(Failure::new("No workspace path to save config to"))
    );
}
