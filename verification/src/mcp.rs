//! The proxy: what an agent asks over standard input, and what it is told.
//!
//! A request is answered at once, or after a file has been saved or the backend has been
//! called. The functions here decide which, and what the answer is once that is done.

use vstd::prelude::*;
use vstd::string::StringExecFns;

use crate::client::{ResponseView, ToolResponse};
use crate::config::{loads_as, look_view, settings_value, switched, Config};
use crate::context::{
    add_context, foreign_results_come_with_a_warning, has_foreign, is_warned, prepend, with_context,
};
use crate::failure::{outcome, Failure};
use crate::json::{
    compact, contents, contents_are_elementwise, empty_object, number_of_i64, parse_json, parsed,
    plain_with_room, pretty, text_or_null, Json, JsonObject, JsonView, MAX_DEPTH,
};
use crate::paths::{home_dir, relay_file, FileToWrite};
use crate::scope::{ScopeView, ServerScope};
use crate::text::{
    glue, glue3, is_some_text, is_space, only_white_space_is_trimmed, owned, owned_text, same,
    slice, text_of, trim, trimmed,
};
use crate::tool_list::{offered_tools, tool_definitions};
use crate::workspace::{workspace_file, workspace_loaded, workspace_value, WorkspaceView};

verus! {

/// The version of this program.
pub const VERSION: &'static str = "0.2.0";

// ---------------------------------------------------------------------------
// Tool calls: what is decided before anything is saved or sent
// ---------------------------------------------------------------------------

/// Why the backend is called.
#[derive(Debug, Clone, Copy, PartialEq, Eq, Structural)]
pub enum CallKind {
    /// For a search.
    Search,
    /// For a search beyond the agent's own memories that has been denied, and is
    /// confined to them.
    ConfinedSearch,
    /// To find out where the agent works.
    FindWorkspace,
    /// For anything else.
    Other,
}

/// A call of the backend. The client and the port are those of the scope.
#[derive(Debug, PartialEq)]
pub struct BackendCall {
    pub kind: CallKind,
    pub name: String,
    pub arguments: Json,
    pub workspace: Option<String>,
    pub source: Option<String>,
}

/// What a call of the backend says.
pub struct BackendCallView {
    pub kind: CallKind,
    pub name: Seq<char>,
    pub arguments: JsonView,
    pub workspace: Option<Seq<char>>,
    pub source: Option<Seq<char>>,
}

impl View for BackendCall {
    type V = BackendCallView;

    open spec fn view(&self) -> BackendCallView {
        BackendCallView {
            kind: self.kind,
            name: self.name@,
            arguments: self.arguments@,
            workspace: owned_text(self.workspace),
            source: owned_text(self.source),
        }
    }
}

/// What is to be saved.
#[derive(Debug, Clone, Copy, PartialEq, Eq, Structural)]
pub enum Saving {
    /// The user's settings, with this value of `enabled`.
    Global { enabled: bool },
    /// The settings of the workspace, in which `enabled` has been set.
    Workspace { enabled: bool },
    /// The settings of the workspace, in which searches beyond the agent's own
    /// memories have been denied.
    Refusal,
}

/// What a tool call leads to.
#[derive(Debug, PartialEq)]
pub enum ToolStep {
    /// An answer.
    Answer(Result<String, Failure>),
    /// Something to save first.
    Save(Saving),
    /// A call of the backend.
    Call(BackendCall),
}

/// What a step is.
pub enum ToolStepView {
    Answer(Result<Seq<char>, Seq<char>>),
    Save(Saving),
    Call(BackendCallView),
}

impl View for ToolStep {
    type V = ToolStepView;

    open spec fn view(&self) -> ToolStepView {
        match *self {
            ToolStep::Answer(r) => ToolStepView::Answer(outcome(r)),
            ToolStep::Save(s) => ToolStepView::Save(s),
            ToolStep::Call(c) => ToolStepView::Call(c@),
        }
    }
}

/// The name of the tool that is called.
pub open spec fn called_tool(params: JsonView) -> Seq<char> {
    match params.text_field("name"@) {
        Some(t) => t,
        None => Seq::empty(),
    }
}

/// The arguments of a tool call.
pub open spec fn call_arguments(params: JsonView) -> JsonView {
    match params.field("arguments"@) {
        Some(a) => a,
        None => JsonView::Object(Map::empty()),
    }
}

/// A flag among the arguments that is off unless it is given.
pub open spec fn switched_on(args: JsonView, key: Seq<char>) -> bool {
    args.flag_field(key) == Some(true)
}

/// A text among the arguments, or else the scope's.
pub open spec fn argument_or(args: JsonView, key: Seq<char>, default: Option<Seq<char>>) -> Option<
    Seq<char>,
> {
    match args.text_field(key) {
        Some(t) => Some(t),
        None => default,
    }
}

/// What every tool answers while the relay is off.
pub open spec fn disabled_answer() -> Seq<char> {
    compact(
        JsonView::Object(
            map![
                "disabled"@ => JsonView::Bool(true),
                "message"@ => JsonView::Text(
                    "agents-relay is disabled. To enable, set \"enabled\": true in ~/.agents-relay/config.json or .agents-relay.json in your workspace."@,
                ),
            ],
        ),
    )
}

/// An answer that consists of a status and a message.
pub open spec fn status_answer(status: Seq<char>, message: Seq<char>) -> Seq<char> {
    compact(
        JsonView::Object(
            map!["status"@ => JsonView::Text(status), "message"@ => JsonView::Text(message)],
        ),
    )
}

/// Turning the relay on or off.
pub open spec fn set_enabled_step(args: JsonView, scope: ScopeView) -> (ToolStepView, ScopeView) {
    match args.flag_field("enabled"@) {
        None => (ToolStepView::Answer(Err("enabled parameter is required"@)), scope),
        Some(enabled) => if args.text_field("scope"@) == Some("global"@) {
            (ToolStepView::Save(Saving::Global { enabled }), scope)
        } else {
            (
                ToolStepView::Save(Saving::Workspace { enabled }),
                ScopeView {
                    ws_config: WorkspaceView { enabled: Some(enabled), ..scope.ws_config },
                    ..scope
                },
            )
        },
    }
}

/// Permitting searches beyond the agent's own memories for the rest of the session.
pub open spec fn unlock_step(args: JsonView, scope: ScopeView) -> (ToolStepView, ScopeView) {
    if switched_on(args, "confirmed"@) {
        (
            ToolStepView::Answer(
                Ok(
                    status_answer(
                        "unlocked"@,
                        "Cross-workspace memory access is now enabled for this session."@,
                    ),
                ),
            ),
            ScopeView { session_cross_override: Some(true), ..scope },
        )
    } else {
        (
            ToolStepView::Answer(
                Ok(
                    status_answer(
                        "confirmation_required"@,
                        "Cross-workspace memory access requested.\nPlease ask the user: 'May I also search memory from other workspaces?'\nIf approved, call again with confirmed=true.\nIf declined, do NOT call again."@,
                    ),
                ),
            ),
            scope,
        )
    }
}

/// How far a search is to reach.
pub open spec fn requested_reach(args: JsonView) -> Seq<char> {
    match args.text_field("scope"@) {
        Some(t) => t,
        None => "self"@,
    }
}

/// Whether a search is to reach beyond the agent's own memories.
pub open spec fn reaches_beyond(args: JsonView) -> bool {
    requested_reach(args) == "cross"@ || requested_reach(args) == "all"@
}

/// What becomes of a search.
pub enum Gate {
    /// The user refuses searches beyond the agent's own memories, for good.
    Refuse,
    /// The search has been denied, and is confined to the agent's own memories.
    Confine,
    /// The user has to be asked.
    Ask,
    /// The search goes ahead; the user has just permitted it, or nothing had to be asked.
    Go { permitted_now: bool },
}

/// What becomes of a search.
pub open spec fn gate(args: JsonView, scope: ScopeView) -> Gate {
    if switched_on(args, "opt_out"@) {
        Gate::Refuse
    } else if !reaches_beyond(args) {
        Gate::Go { permitted_now: false }
    } else if scope.cross_allowed() == Some(false) {
        Gate::Confine
    } else if scope.cross_allowed() is None && !switched_on(args, "confirmed"@) {
        Gate::Ask
    } else {
        Gate::Go { permitted_now: switched_on(args, "confirmed"@) }
    }
}

/// The workspace that a search is confined to, if any.
pub open spec fn search_workspace(args: JsonView, scope: ScopeView) -> Option<Seq<char>> {
    if requested_reach(args) == "all"@ {
        None
    } else {
        argument_or(args, "workspace"@, scope.default_workspace)
    }
}

/// The source that a search is confined to, if any.
pub open spec fn search_source(args: JsonView, scope: ScopeView) -> Option<Seq<char>> {
    if reaches_beyond(args) {
        None
    } else {
        argument_or(args, "source"@, scope.default_source)
    }
}

/// The question that the user is to be asked before a search that reaches further.
pub open spec fn permission_message(all: bool) -> Seq<char> {
    "⚠️ This search requires access to memories beyond your current scope.\nRequested: "@ + (if all {
        "all agents and ALL workspaces (including other projects)"@
    } else {
        "all agents in this workspace (including other AI tools' memories)"@
    }) + "\n\nPlease ask the user: 'May I also search memory from "@ + (if all {
        "other workspaces and AI tools"@
    } else {
        "other AI tools in this workspace"@
    })
        + "?'\n\nIf approved: call again with confirmed=true.\nIf declined: call again with opt_out=true."@
}

/// The answer to a search for which the user has to be asked.
pub open spec fn permission_answer(args: JsonView) -> Seq<char> {
    compact(
        JsonView::Object(
            map![
                "status"@ => JsonView::Text("confirmation_required"@),
                "scope_requested"@ => JsonView::Text(requested_reach(args)),
                "message"@ => JsonView::Text(permission_message(requested_reach(args) == "all"@)),
                "query"@ => match args.field("query"@) {
                    Some(q) => q,
                    None => JsonView::Null,
                },
            ],
        ),
    )
}

/// A search.
pub open spec fn search_step(args: JsonView, scope: ScopeView) -> (ToolStepView, ScopeView) {
    match gate(args, scope) {
        Gate::Refuse => (
            ToolStepView::Save(Saving::Refusal),
            ScopeView {
                session_cross_override: Some(false),
                ws_config: WorkspaceView { cross_scope: "deny"@, ..scope.ws_config },
                ..scope
            },
        ),
        Gate::Confine => (
            ToolStepView::Call(
                BackendCallView {
                    kind: CallKind::ConfinedSearch,
                    name: "memory_search"@,
                    arguments: args,
                    workspace: argument_or(args, "workspace"@, scope.default_workspace),
                    source: argument_or(args, "source"@, scope.default_source),
                },
            ),
            scope,
        ),
        Gate::Ask => (ToolStepView::Answer(Ok(permission_answer(args))), scope),
        Gate::Go { permitted_now } => (
            ToolStepView::Call(
                BackendCallView {
                    kind: CallKind::Search,
                    name: "memory_search"@,
                    arguments: args,
                    workspace: search_workspace(args, scope),
                    source: search_source(args, scope),
                },
            ),
            if permitted_now {
                ScopeView { session_cross_override: Some(true), ..scope }
            } else {
                scope
            },
        ),
    }
}

/// What a tool call leads to, and the scope from then on.
pub open spec fn tool_step(params: JsonView, scope: ScopeView) -> (ToolStepView, ScopeView) {
    let name = called_tool(params);
    let args = call_arguments(params);
    if !scope.enabled {
        (ToolStepView::Answer(Ok(disabled_answer())), scope)
    } else if name == "memory_set_enabled"@ {
        set_enabled_step(args, scope)
    } else if name == "memory_unlock_cross_scope"@ {
        unlock_step(args, scope)
    } else if name == "memory_search"@ {
        search_step(args, scope)
    } else {
        (
            ToolStepView::Call(
                BackendCallView {
                    kind: if name == "memory_find_workspace"@ {
                        CallKind::FindWorkspace
                    } else {
                        CallKind::Other
                    },
                    name,
                    arguments: args,
                    workspace: scope.default_workspace,
                    source: scope.default_source,
                },
            ),
            scope,
        )
    }
}

fn answer_status(status: &str, message: &str) -> (r: ToolStep)
    ensures
        r@ == ToolStepView::Answer(Ok(status_answer(status@, message@))),
{
    let mut o = JsonObject::new();
    o.put_text("status", status);
    o.put_text("message", message);
    ToolStep::Answer(Ok(Json::Object(o).to_text()))
}

fn is_switched_on(args: &Json, key: &str) -> (r: bool)
    ensures
        r == switched_on(args@, key@),
{
    match args.flag_at(key) {
        Some(b) => b,
        None => false,
    }
}

fn text_or(args: &Json, key: &str, default: &Option<String>) -> (r: Option<String>)
    ensures
        owned_text(r) == argument_or(args@, key@, owned_text(*default)),
{
    match args.text_at(key) {
        Some(t) => Some(t.to_owned()),
        None => owned(slice(default)),
    }
}

fn set_enabled(args: &Json, scope: &mut ServerScope) -> (r: ToolStep)
    ensures
        (r@, final(scope)@) == set_enabled_step(args@, old(scope)@),
{
    match args.flag_at("enabled") {
        None => ToolStep::Answer(Err(Failure::new("enabled parameter is required"))),
        Some(enabled) => if is_some_text(args.text_at("scope"), "global") {
            ToolStep::Save(Saving::Global { enabled })
        } else {
            scope.ws_config.enabled = Some(enabled);
            ToolStep::Save(Saving::Workspace { enabled })
        },
    }
}

fn unlock_cross_scope(args: &Json, scope: &mut ServerScope) -> (r: ToolStep)
    ensures
        (r@, final(scope)@) == unlock_step(args@, old(scope)@),
{
    if is_switched_on(args, "confirmed") {
        scope.session_cross_override = Some(true);
        answer_status(
            "unlocked",
            "Cross-workspace memory access is now enabled for this session.",
        )
    } else {
        answer_status(
            "confirmation_required",
            "Cross-workspace memory access requested.\nPlease ask the user: 'May I also search memory from other workspaces?'\nIf approved, call again with confirmed=true.\nIf declined, do NOT call again.",
        )
    }
}

fn ask_permission(args: &Json, reach: &str) -> (r: ToolStep)
    requires
        reach@ == requested_reach(args@),
    ensures
        r@ == ToolStepView::Answer(Ok(permission_answer(args@))),
{
    let all = same(reach, "all");
    let mut message = glue(
        "⚠️ This search requires access to memories beyond your current scope.\nRequested: ",
        if all {
            "all agents and ALL workspaces (including other projects)"
        } else {
            "all agents in this workspace (including other AI tools' memories)"
        },
    );
    message.append("\n\nPlease ask the user: 'May I also search memory from ");
    message.append(
        if all {
            "other workspaces and AI tools"
        } else {
            "other AI tools in this workspace"
        },
    );
    message.append(
        "?'\n\nIf approved: call again with confirmed=true.\nIf declined: call again with opt_out=true.",
    );
    let mut o = JsonObject::new();
    o.put_text("status", "confirmation_required");
    o.put_text("scope_requested", reach);
    o.put_text("message", message.as_str());
    match args.get("query") {
        Some(q) => o.put("query", q.copy()),
        None => o.put("query", Json::Null),
    }
    ToolStep::Answer(Ok(Json::Object(o).to_text()))
}

fn search(args: Json, scope: &mut ServerScope) -> (r: ToolStep)
    ensures
        (r@, final(scope)@) == search_step(args@, old(scope)@),
{
    if is_switched_on(&args, "opt_out") {
        scope.session_cross_override = Some(false);
        scope.ws_config.cross_scope = "deny".to_owned();
        return ToolStep::Save(Saving::Refusal);
    }
    let reach = match args.text_at("scope") {
        Some(t) => t.to_owned(),
        None => "self".to_owned(),
    };
    let all = same(reach.as_str(), "all");
    let beyond = all || same(reach.as_str(), "cross");
    if beyond {
        let allowed = scope.is_cross_allowed();
        let confirmed = is_switched_on(&args, "confirmed");
        match allowed {
            Some(false) => {
                let workspace = text_or(&args, "workspace", &scope.default_workspace);
                let source = text_or(&args, "source", &scope.default_source);
                return ToolStep::Call(
                    BackendCall {
                        kind: CallKind::ConfinedSearch,
                        name: "memory_search".to_owned(),
                        arguments: args,
                        workspace,
                        source,
                    },
                );
            },
            None => if !confirmed {
                return ask_permission(&args, reach.as_str());
            },
            Some(true) => {},
        }
        if confirmed {
            scope.session_cross_override = Some(true);
        }
    }
    let workspace = if all {
        None
    } else {
        text_or(&args, "workspace", &scope.default_workspace)
    };
    let source = if beyond {
        None
    } else {
        text_or(&args, "source", &scope.default_source)
    };
    ToolStep::Call(
        BackendCall {
            kind: CallKind::Search,
            name: "memory_search".to_owned(),
            arguments: args,
            workspace,
            source,
        },
    )
}

/// What a tool call leads to.
pub fn handle_tool_call(params: &Json, scope: &mut ServerScope) -> (r: ToolStep)
    ensures
        (r@, final(scope)@) == tool_step(params@, old(scope)@),
{
    if !scope.enabled {
        let mut o = JsonObject::new();
        o.put("disabled", Json::Bool(true));
        o.put_text(
            "message",
            "agents-relay is disabled. To enable, set \"enabled\": true in ~/.agents-relay/config.json or .agents-relay.json in your workspace.",
        );
        return ToolStep::Answer(Ok(Json::Object(o).to_text()));
    }
    let name = match params.text_at("name") {
        Some(t) => t.to_owned(),
        None => String::new(),
    };
    let args = match params.get("arguments") {
        Some(a) => a.copy(),
        None => empty_object(),
    };
    if same(name.as_str(), "memory_set_enabled") {
        set_enabled(&args, scope)
    } else if same(name.as_str(), "memory_unlock_cross_scope") {
        unlock_cross_scope(&args, scope)
    } else if same(name.as_str(), "memory_search") {
        search(args, scope)
    } else {
        let kind = if same(name.as_str(), "memory_find_workspace") {
            CallKind::FindWorkspace
        } else {
            CallKind::Other
        };
        ToolStep::Call(
            BackendCall {
                kind,
                name,
                arguments: args,
                workspace: owned(slice(&scope.default_workspace)),
                source: owned(slice(&scope.default_source)),
            },
        )
    }
}

// ---------------------------------------------------------------------------
// Tool calls: the answer once something has been saved or the backend called
// ---------------------------------------------------------------------------

/// Whether the relay is on, in words.
pub open spec fn state_word(enabled: bool) -> Seq<char> {
    if enabled {
        "enabled"@
    } else {
        "disabled"@
    }
}

/// The answer once the user's settings have been saved.
pub open spec fn global_answer(enabled: bool) -> Seq<char> {
    compact(
        JsonView::Object(
            map![
                "status"@ => JsonView::Text("ok"@),
                "scope"@ => JsonView::Text("global"@),
                "enabled"@ => JsonView::Bool(enabled),
                "message"@ => JsonView::Text(
                    "agents-relay globally "@ + state_word(enabled)
                        + ". Saved to ~/.agents-relay/config.json."@,
                ),
            ],
        ),
    )
}

/// The answer once the settings of the workspace have been saved.
pub open spec fn workspace_answer(enabled: bool, workspace: Option<Seq<char>>) -> Seq<char> {
    let ws = match workspace {
        Some(w) => w,
        None => "(unknown)"@,
    };
    compact(
        JsonView::Object(
            map![
                "status"@ => JsonView::Text("ok"@),
                "scope"@ => JsonView::Text("workspace"@),
                "enabled"@ => JsonView::Bool(enabled),
                "workspace"@ => JsonView::Text(ws),
                "message"@ => JsonView::Text(
                    "agents-relay "@ + state_word(enabled) + " for workspace '"@ + ws
                        + "'. Saved to .agents-relay.json."@,
                ),
            ],
        ),
    )
}

/// The answer once a refusal has been noted.
pub open spec fn refusal_answer() -> Seq<char> {
    status_answer(
        "opt_out_accepted"@,
        "Cross-scope access disabled for this workspace. Saved to .agents-relay.json."@,
    )
}

/// The file that is written for a saving, below `home`, once the user's settings file has been
/// looked at: its path and its text, or why there is none. The user's other settings stay as they
/// are, and so do those of the workspace.
pub open spec fn file_saved(
    saving: Saving,
    scope: ScopeView,
    contents: Option<Result<Seq<char>, Seq<char>>>,
    home: Option<Seq<char>>,
) -> Result<(Seq<char>, Seq<char>), Seq<char>> {
    match saving {
        Saving::Global { enabled } => Ok(
            (
                relay_file(home, "config.json"@),
                pretty(settings_value(switched(contents, enabled, home))),
            ),
        ),
        _ => match scope.default_workspace {
            Some(ws) => Ok((workspace_file(ws), pretty(workspace_value(scope.ws_config)))),
            None => Err("No workspace path to save config to"@),
        },
    }
}

/// The answer once it is known whether the saving succeeded, and the scope from then on.
/// A refusal holds whether or not it could be saved.
pub open spec fn save_outcome(
    saving: Saving,
    saved: Result<(), Seq<char>>,
    scope: ScopeView,
) -> (Result<Seq<char>, Seq<char>>, ScopeView) {
    match (saving, saved) {
        (Saving::Refusal, _) => (Ok(refusal_answer()), scope),
        (_, Err(e)) => (Err(e), scope),
        (Saving::Global { enabled }, Ok(_)) => (
            Ok(global_answer(enabled)),
            ScopeView { enabled, ..scope },
        ),
        (Saving::Workspace { enabled }, Ok(_)) => (
            Ok(workspace_answer(enabled, scope.default_workspace)),
            ScopeView { enabled, ..scope },
        ),
    }
}

/// What has been read from what the backend sent; an empty array where that is no JSON.
pub open spec fn results_in(content: Seq<char>) -> JsonView {
    match parsed(content) {
        Some(v) => v,
        None => JsonView::Array(Seq::empty()),
    }
}

/// The words for a search that has been confined to the agent's own memories.
pub open spec fn confined_notice() -> Seq<char> {
    "Cross-scope denied for this workspace. Falling back to scope='self'."@
}

/// The results of a confined search as the agent gets them.
pub open spec fn confined_results(results: JsonView) -> JsonView {
    let notice = JsonView::Object(map!["_notice"@ => JsonView::Text(confined_notice())]);
    match results {
        JsonView::Array(entries) => JsonView::Array(seq![notice] + entries),
        _ => JsonView::Array(seq![notice]),
    }
}

/// The workspace that the backend has found, if it names one.
pub open spec fn found_workspace(content: Seq<char>) -> Option<Seq<char>> {
    match parsed(content) {
        Some(v) => v.text_field("workspace"@),
        None => None,
    }
}

/// The answer once the backend has answered or failed, and the scope from then on.
pub open spec fn call_result(
    kind: CallKind,
    reply: Result<(ResponseView, u16), Seq<char>>,
    scope: ScopeView,
) -> (Result<Seq<char>, Seq<char>>, ScopeView) {
    match reply {
        Err(e) => (Err(e), scope),
        Ok((resp, port)) => {
            let moved = ScopeView { server_port: port, ..scope };
            match kind {
                CallKind::ConfinedSearch => (
                    Ok(pretty(confined_results(results_in(resp.content)))),
                    scope,
                ),
                CallKind::Search => if resp.is_error {
                    (Err(resp.content), moved)
                } else {
                    (
                        Ok(
                            pretty(
                                with_context(
                                    results_in(resp.content),
                                    scope.default_source,
                                    scope.client,
                                ),
                            ),
                        ),
                        moved,
                    )
                },
                CallKind::FindWorkspace => if resp.is_error {
                    (Err(resp.content), moved)
                } else {
                    (
                        Ok(resp.content),
                        match found_workspace(resp.content) {
                            Some(ws) => ScopeView { default_workspace: Some(ws), ..moved },
                            None => moved,
                        },
                    )
                },
                CallKind::Other => if resp.is_error {
                    (Err(resp.content), moved)
                } else {
                    (Ok(resp.content), moved)
                },
            }
        },
    }
}

/// What a fallible saving came to.
pub open spec fn saving_view(saved: Result<(), Failure>) -> Result<(), Seq<char>> {
    match saved {
        Ok(_) => Ok(()),
        Err(e) => Err(e@),
    }
}

/// What a call of the backend came to.
pub open spec fn reply_view(reply: Result<(ToolResponse, u16), Failure>) -> Result<
    (ResponseView, u16),
    Seq<char>,
> {
    match reply {
        Ok((resp, port)) => Ok((resp@, port)),
        Err(e) => Err(e@),
    }
}

fn word_for(enabled: bool) -> (r: &'static str)
    ensures
        r@ == state_word(enabled),
{
    if enabled {
        "enabled"
    } else {
        "disabled"
    }
}

fn answer_global(enabled: bool) -> (r: String)
    ensures
        r@ == global_answer(enabled),
{
    let message = glue3(
        "agents-relay globally ",
        word_for(enabled),
        ". Saved to ~/.agents-relay/config.json.",
    );
    let mut o = JsonObject::new();
    o.put_text("status", "ok");
    o.put_text("scope", "global");
    o.put("enabled", Json::Bool(enabled));
    o.put_text("message", message.as_str());
    Json::Object(o).to_text()
}

fn answer_workspace(enabled: bool, workspace: Option<&str>) -> (r: String)
    ensures
        r@ == workspace_answer(enabled, text_of(workspace)),
{
    let ws = match workspace {
        Some(w) => w,
        None => "(unknown)",
    };
    let mut message = glue3("agents-relay ", word_for(enabled), " for workspace '");
    message.append(ws);
    message.append("'. Saved to .agents-relay.json.");
    let mut o = JsonObject::new();
    o.put_text("status", "ok");
    o.put_text("scope", "workspace");
    o.put("enabled", Json::Bool(enabled));
    o.put_text("workspace", ws);
    o.put_text("message", message.as_str());
    Json::Object(o).to_text()
}

/// A file to write, or why there is none.
pub open spec fn file_view(file: Result<FileToWrite, Failure>) -> Result<
    (Seq<char>, Seq<char>),
    Seq<char>,
> {
    match file {
        Ok(f) => Ok((f.path@, f.text@)),
        Err(e) => Err(e@),
    }
}

/// The file to write for a saving, below `home`, once the user's settings file has been looked
/// at. Whoever loads it finds what was to be saved.
pub fn file_to_save_below(
    saving: Saving,
    scope: &ServerScope,
    contents: Option<Result<String, Failure>>,
    home: Option<&str>,
) -> (r: Result<FileToWrite, Failure>)
    ensures
        file_view(r) == file_saved(saving, scope@, look_view(contents), text_of(home)),
        saving is Global && r is Ok ==> loads_as(
            r->Ok_0.text@,
            switched(look_view(contents), saving->Global_enabled, text_of(home)),
        ),
        !(saving is Global) && r is Ok ==> workspace_loaded(
            scope@.default_workspace,
            Some(r->Ok_0.text@),
        ) == scope@.ws_config,
{
    match saving {
        Saving::Global { enabled } => Ok(Config::switch_below(contents, enabled, home)),
        _ => scope.ws_config.save(slice(&scope.default_workspace)),
    }
}

/// The file to write for a saving, once the user's settings file has been looked at. Whoever
/// loads it finds what was to be saved.
pub fn file_to_save(
    saving: Saving,
    scope: &ServerScope,
    contents: Option<Result<String, Failure>>,
) -> (r: Result<FileToWrite, Failure>)
    ensures
        exists|home: Option<Seq<char>>|
            file_view(r) == #[trigger] file_saved(saving, scope@, look_view(contents), home) && (
            saving is Global && r is Ok ==> loads_as(
                r->Ok_0.text@,
                switched(look_view(contents), saving->Global_enabled, home),
            )),
        !(saving is Global) && r is Ok ==> workspace_loaded(
            scope@.default_workspace,
            Some(r->Ok_0.text@),
        ) == scope@.ws_config,
{
    let home = home_dir();
    let r = file_to_save_below(saving, scope, contents, slice(&home));
    proof {
        assert(file_view(r) == file_saved(
            saving,
            scope@,
            look_view(contents),
            owned_text(home),
        ));
    }
    r
}

/// The answer to a tool call once it is known whether the saving succeeded.
pub fn finish_save(saving: Saving, saved: Result<(), Failure>, scope: &mut ServerScope) -> (r: Result<
    String,
    Failure,
>)
    ensures
        (outcome(r), final(scope)@) == save_outcome(saving, saving_view(saved), old(scope)@),
{
    match (saving, saved) {
        (Saving::Refusal, _) => {
            let mut o = JsonObject::new();
            o.put_text("status", "opt_out_accepted");
            o.put_text(
                "message",
                "Cross-scope access disabled for this workspace. Saved to .agents-relay.json.",
            );
            Ok(Json::Object(o).to_text())
        },
        (_, Err(e)) => Err(e),
        (Saving::Global { enabled }, Ok(_)) => {
            scope.enabled = enabled;
            Ok(answer_global(enabled))
        },
        (Saving::Workspace { enabled }, Ok(_)) => {
            scope.enabled = enabled;
            Ok(answer_workspace(enabled, slice(&scope.default_workspace)))
        },
    }
}

fn read_results(content: &str) -> (r: Json)
    ensures
        r@ == results_in(content@),
{
    match parse_json(content) {
        Some(v) => v,
        None => {
            let none: Vec<Json> = Vec::new();
            proof {
                assert(contents(none@) =~= Seq::empty());
            }
            Json::Array(none)
        },
    }
}

/// The results of a confined search as the agent gets them: after a notice.
pub fn add_notice(results: Json) -> (r: Json)
    ensures
        r@ == confined_results(results@),
        results@.plain(MAX_DEPTH as nat) ==> r@.plain(MAX_DEPTH as nat),
{
    let mut o = JsonObject::new();
    o.put_text("_notice", "Cross-scope denied for this workspace. Falling back to scope='self'.");
    let notice = Json::Object(o);
    let entries = match results {
        Json::Array(entries) => entries,
        _ => Vec::new(),
    };
    proof {
        if !(results is Array) {
            assert(contents(entries@) =~= Seq::empty());
            assert(seq![notice@] + contents(entries@) =~= seq![notice@]);
        }
        reveal_with_fuel(JsonView::plain, 2);
        plain_with_room(notice@, 1, (MAX_DEPTH - 1) as nat);
        let all = seq![notice@] + contents(entries@);
        if results@.plain(MAX_DEPTH as nat) {
            assert forall|i: int| 0 <= i < all.len() implies (#[trigger] all[i]).plain(
                (MAX_DEPTH - 1) as nat,
            ) by {
                if i > 0 {
                    assert(all[i] == contents(entries@)[i - 1]);
                }
            }
        }
    }
    prepend(notice, entries)
}

/// The answer to a tool call once the backend has answered or failed. An agent that reads the
/// answer to its search finds the entries in it, after a warning where some are not its own, or
/// after a notice where the search was confined.
pub fn finish_call(
    kind: CallKind,
    reply: Result<(ToolResponse, u16), Failure>,
    scope: &mut ServerScope,
) -> (r: Result<String, Failure>)
    ensures
        (outcome(r), final(scope)@) == call_result(kind, reply_view(reply), old(scope)@),
        kind == CallKind::Search && reply is Ok ==> {
            let resp = reply_view(reply)->Ok_0.0;
            !resp.is_error ==> (parsed(resp.content) matches Some(JsonView::Array(entries))
                ==> JsonView::Array(entries).plain(MAX_DEPTH as nat) && entries.len() <= i64::MAX
                ==> r is Ok && parsed(r->Ok_0@) is Some && (if has_foreign(
                entries,
                old(scope)@.default_source,
            ) {
                is_warned(
                    parsed(r->Ok_0@)->0,
                    entries,
                    old(scope)@.default_source,
                    old(scope)@.client,
                )
            } else {
                parsed(r->Ok_0@)->0 == JsonView::Array(entries)
            }))
        },
        kind == CallKind::ConfinedSearch && reply is Ok ==> {
            let resp = reply_view(reply)->Ok_0.0;
            parsed(resp.content) matches Some(JsonView::Array(entries)) ==> JsonView::Array(
                entries,
            ).plain(MAX_DEPTH as nat) ==> r is Ok && (parsed(r->Ok_0@) matches Some(
                JsonView::Array(shown),
            ) && shown.len() == entries.len() + 1 && shown.skip(1) == entries
                && shown[0].text_field("_notice"@) == Some(
                "Cross-scope denied for this workspace. Falling back to scope='self'."@,
            ))
        },
{
    proof {
        if reply is Ok {
            let resp = reply_view(reply)->Ok_0.0;
            if let Some(results) = parsed(resp.content) {
                foreign_results_come_with_a_warning(
                    results,
                    scope@.default_source,
                    scope@.client,
                );
                if let JsonView::Array(entries) = results {
                    a_confined_search_shows_all_it_found(entries);
                }
            }
        }
    }
    let (resp, port) = match reply {
        Ok(answered) => answered,
        Err(e) => {
            return Err(e);
        },
    };
    match kind {
        CallKind::ConfinedSearch => {
            return Ok(add_notice(read_results(resp.content.as_str())).to_pretty_text());
        },
        _ => {},
    }
    scope.server_port = port;
    if resp.is_error {
        return Err(Failure { message: resp.content });
    }
    match kind {
        CallKind::Search => {
            let shown = add_context(
                read_results(resp.content.as_str()),
                slice(&scope.default_source),
                scope.client.as_str(),
            );
            Ok(shown.to_pretty_text())
        },
        CallKind::FindWorkspace => {
            match parse_json(resp.content.as_str()) {
                Some(v) => match v.text_at("workspace") {
                    Some(ws) => {
                        scope.default_workspace = Some(ws.to_owned());
                    },
                    None => {},
                },
                None => {},
            }
            Ok(resp.content)
        },
        _ => Ok(resp.content),
    }
}

// ---------------------------------------------------------------------------
// Requests
// ---------------------------------------------------------------------------

/// What a request leads to.
#[derive(Debug, PartialEq)]
pub enum RequestStep {
    /// Nothing: the agent expects no answer.
    Silent,
    /// An answer.
    Reply(Json),
    /// A tool call, whose answer carries this identifier.
    Tool { id: Json, step: ToolStep },
}

/// What a step is.
pub enum RequestStepView {
    Silent,
    Reply(JsonView),
    Tool { id: JsonView, step: ToolStepView },
}

impl View for RequestStep {
    type V = RequestStepView;

    open spec fn view(&self) -> RequestStepView {
        match *self {
            RequestStep::Silent => RequestStepView::Silent,
            RequestStep::Reply(v) => RequestStepView::Reply(v@),
            RequestStep::Tool { id, step } => RequestStepView::Tool { id: id@, step: step@ },
        }
    }
}

/// What a line of input asks; a blank line and one that is no JSON ask nothing.
pub open spec fn request_in(line: Seq<char>) -> Option<JsonView> {
    if trim(line).len() == 0 {
        None
    } else {
        parsed(line)
    }
}

/// The method that a request names.
pub open spec fn method_of(request: JsonView) -> Seq<char> {
    match request.text_field("method"@) {
        Some(t) => t,
        None => Seq::empty(),
    }
}

/// The identifier that the answer to a request carries.
pub open spec fn id_of(request: JsonView) -> JsonView {
    match request.field("id"@) {
        Some(id) => id,
        None => JsonView::Null,
    }
}

/// The parameters of a request.
pub open spec fn parameters_of(request: JsonView) -> JsonView {
    match request.field("params"@) {
        Some(p) => p,
        None => JsonView::Object(Map::empty()),
    }
}

/// An answer: the identifier of the request, and one more member.
pub open spec fn reply(id: JsonView, key: Seq<char>, value: JsonView) -> JsonView {
    JsonView::Object(
        map!["jsonrpc"@ => JsonView::Text("2.0"@), "id"@ => id, key => value],
    )
}

/// What an agent is told when it introduces itself.
pub open spec fn welcome(scope: ScopeView) -> JsonView {
    JsonView::Object(
        map![
            "protocolVersion"@ => JsonView::Text("2024-11-05"@),
            "capabilities"@ => JsonView::Object(map!["tools"@ => JsonView::Object(Map::empty())]),
            "serverInfo"@ => JsonView::Object(
                map![
                    "name"@ => JsonView::Text("agents-relay"@),
                    "version"@ => JsonView::Text(VERSION@),
                    "detectedClient"@ => JsonView::Text(scope.client),
                    "defaultSource"@ => text_or_null(scope.default_source),
                    "defaultWorkspace"@ => text_or_null(scope.default_workspace),
                ],
            ),
            "instructions"@ => JsonView::Text(INSTRUCTIONS@),
        ],
    )
}

pub const INSTRUCTIONS: &'static str = "This server provides cross-session memory search. To minimize token usage, ONLY call memory_search when the user explicitly asks about past sessions (e.g., 'what did we do last time', 'remember when...', 'in a previous conversation'). Never search speculatively or proactively. Most tasks can be completed without cross-session context.";

/// The error for a method that does not exist.
pub open spec fn no_such_method(method: Seq<char>) -> JsonView {
    JsonView::Object(
        map![
            "code"@ => JsonView::Number(number_of_i64(-32601i64)),
            "message"@ => JsonView::Text("Method not found: "@ + method),
        ],
    )
}

/// What a tool call returns to the agent.
pub open spec fn tool_result(result: Result<Seq<char>, Seq<char>>) -> JsonView {
    let text = match result {
        Ok(t) => t,
        Err(e) => "Error: "@ + e,
    };
    let content = JsonView::Array(
        seq![
            JsonView::Object(
                map!["type"@ => JsonView::Text("text"@), "text"@ => JsonView::Text(text)],
            ),
        ],
    );
    JsonView::Object(
        if result is Ok {
            map!["content"@ => content]
        } else {
            map!["content"@ => content, "isError"@ => JsonView::Bool(true)]
        },
    )
}

/// What a request leads to, and the scope from then on.
pub open spec fn request_step(request: JsonView, scope: ScopeView) -> (RequestStepView, ScopeView) {
    let method = method_of(request);
    let id = id_of(request);
    if method == "initialize"@ {
        (RequestStepView::Reply(reply(id, "result"@, welcome(scope))), scope)
    } else if method == "notifications/initialized"@ {
        (RequestStepView::Silent, scope)
    } else if method == "tools/list"@ {
        (
            RequestStepView::Reply(
                reply(
                    id,
                    "result"@,
                    JsonView::Object(map!["tools"@ => offered_tools(scope)]),
                ),
            ),
            scope,
        )
    } else if method == "tools/call"@ {
        let (step, then) = tool_step(parameters_of(request), scope);
        (RequestStepView::Tool { id, step }, then)
    } else if request.field("id"@) is None {
        (RequestStepView::Silent, scope)
    } else {
        (RequestStepView::Reply(reply(id, "error"@, no_such_method(method))), scope)
    }
}

/// Reads a line of input.
pub fn read_request(line: &str) -> (r: Option<Json>)
    ensures
        match r {
            Some(v) => request_in(line@) == Some(v@),
            None => request_in(line@) is None,
        },
{
    if trimmed(line).as_str().is_empty() {
        None
    } else {
        parse_json(line)
    }
}

fn reply_with(id: Json, key: &str, value: Json) -> (r: Json)
    ensures
        r@ == reply(id@, key@, value@),
{
    let mut o = JsonObject::new();
    o.put_text("jsonrpc", "2.0");
    o.put("id", id);
    o.put(key, value);
    Json::Object(o)
}

fn welcome_agent(scope: &ServerScope) -> (r: Json)
    ensures
        r@ == welcome(scope@),
{
    let mut capabilities = JsonObject::new();
    capabilities.put("tools", empty_object());
    let mut info = JsonObject::new();
    info.put_text("name", "agents-relay");
    info.put_text("version", VERSION);
    info.put_text("detectedClient", scope.client.as_str());
    info.put_optional("defaultSource", slice(&scope.default_source));
    info.put_optional("defaultWorkspace", slice(&scope.default_workspace));
    let mut o = JsonObject::new();
    o.put_text("protocolVersion", "2024-11-05");
    o.put("capabilities", Json::Object(capabilities));
    o.put("serverInfo", Json::Object(info));
    o.put_text("instructions", INSTRUCTIONS);
    Json::Object(o)
}

fn reject_method(method: &str) -> (r: Json)
    ensures
        r@ == no_such_method(method@),
{
    let message = glue("Method not found: ", method);
    let mut o = JsonObject::new();
    o.put("code", Json::integer(-32601));
    o.put_text("message", message.as_str());
    Json::Object(o)
}

/// What a request leads to.
pub fn handle_request(request: &Json, scope: &mut ServerScope) -> (r: RequestStep)
    ensures
        (r@, final(scope)@) == request_step(request@, old(scope)@),
{
    let method = match request.text_at("method") {
        Some(t) => t.to_owned(),
        None => String::new(),
    };
    let id = match request.get("id") {
        Some(v) => v.copy(),
        None => Json::Null,
    };
    if same(method.as_str(), "initialize") {
        RequestStep::Reply(reply_with(id, "result", welcome_agent(scope)))
    } else if same(method.as_str(), "notifications/initialized") {
        RequestStep::Silent
    } else if same(method.as_str(), "tools/list") {
        let mut o = JsonObject::new();
        o.put("tools", tool_definitions(scope));
        RequestStep::Reply(reply_with(id, "result", Json::Object(o)))
    } else if same(method.as_str(), "tools/call") {
        let params = match request.get("params") {
            Some(p) => p.copy(),
            None => empty_object(),
        };
        let step = handle_tool_call(&params, scope);
        RequestStep::Tool { id, step }
    } else if request.get("id").is_none() {
        RequestStep::Silent
    } else {
        RequestStep::Reply(reply_with(id, "error", reject_method(method.as_str())))
    }
}

/// The answer to a request that called a tool.
pub open spec fn tool_reply(id: JsonView, result: Result<Seq<char>, Seq<char>>) -> JsonView {
    reply(id, "result"@, tool_result(result))
}

/// The answer to a request that called a tool.
pub fn finish_request(id: Json, result: Result<String, Failure>) -> (r: Json)
    ensures
        r@ == tool_reply(id@, outcome(result)),
{
    let failed = result.is_err();
    let text = match result {
        Ok(t) => t,
        Err(e) => glue("Error: ", e.message.as_str()),
    };
    let mut part = JsonObject::new();
    part.put_text("type", "text");
    part.put_text("text", text.as_str());
    let mut content: Vec<Json> = Vec::new();
    content.push(Json::Object(part));
    proof {
        contents_are_elementwise(content@);
        assert(contents(content@) =~= seq![JsonView::Object(part@)]);
    }
    let mut o = JsonObject::new();
    o.put("content", Json::Array(content));
    if failed {
        o.put("isError", Json::Bool(true));
    }
    reply_with(id, "result", Json::Object(o))
}

// ---------------------------------------------------------------------------
// Laws
// ---------------------------------------------------------------------------

proof fn tool_names_differ()
    ensures
        "memory_search"@ != "memory_set_enabled"@,
        "memory_search"@ != "memory_unlock_cross_scope"@,
        "memory_set_enabled"@ != "memory_unlock_cross_scope"@,
{
    reveal_strlit("memory_search");
    reveal_strlit("memory_set_enabled");
    reveal_strlit("memory_unlock_cross_scope");
    assert("memory_search"@.len() == 13);
    assert("memory_set_enabled"@.len() == 18);
    assert("memory_unlock_cross_scope"@.len() == 25);
}

/// While the relay is off, every tool does nothing and says so.
pub proof fn a_disabled_relay_does_nothing(params: JsonView, scope: ScopeView)
    requires
        !scope.enabled,
    ensures
        tool_step(params, scope) == (
            ToolStepView::Answer(Ok::<Seq<char>, Seq<char>>(disabled_answer())),
            scope,
        ),
{
}

/// A search reaches the memories of other agents only where the user has permitted it:
/// in the settings, earlier in the session, or, where nothing has been said yet, with this
/// very call.
pub proof fn no_search_goes_beyond_without_permission(params: JsonView, scope: ScopeView)
    requires
        called_tool(params) == "memory_search"@,
    ensures
        tool_step(params, scope).0 matches ToolStepView::Call(c) ==> {
            let args = call_arguments(params);
            ||| c.source == argument_or(args, "source"@, scope.default_source) && c.workspace
                == argument_or(args, "workspace"@, scope.default_workspace)
            ||| scope.cross_allowed() == Some(true)
            ||| scope.cross_allowed() is None && switched_on(args, "confirmed"@)
        },
{
}

/// Where neither the settings nor the session say anything, a search that reaches further
/// and has not been confirmed is not carried out: the user is to be asked.
pub proof fn an_unconfirmed_search_is_not_carried_out(params: JsonView, scope: ScopeView)
    requires
        scope.enabled,
        called_tool(params) == "memory_search"@,
        reaches_beyond(call_arguments(params)),
        scope.cross_allowed() is None,
        !switched_on(call_arguments(params), "confirmed"@),
        !switched_on(call_arguments(params), "opt_out"@),
    ensures
        tool_step(params, scope) == (
            ToolStepView::Answer(
                Ok::<Seq<char>, Seq<char>>(permission_answer(call_arguments(params))),
            ),
            scope,
        ),
{
    tool_names_differ();
}

/// Whether a tool call lifts a refusal: only a confirmed request for the whole session does.
pub open spec fn lifts_refusal(params: JsonView) -> bool {
    called_tool(params) == "memory_unlock_cross_scope"@ && switched_on(
        call_arguments(params),
        "confirmed"@,
    )
}

/// Whether a tool call is a refusal.
pub open spec fn refuses(params: JsonView) -> bool {
    called_tool(params) == "memory_search"@ && switched_on(call_arguments(params), "opt_out"@)
}

/// After a refusal, searches that reach further are confined to the agent's own memories,
/// in this session and, once the settings have been saved, in every later one.
pub proof fn a_refusal_takes_effect(params: JsonView, scope: ScopeView, later: JsonView)
    requires
        scope.enabled,
        refuses(params),
        called_tool(later) == "memory_search"@,
        reaches_beyond(call_arguments(later)),
        !switched_on(call_arguments(later), "opt_out"@),
    ensures
        tool_step(params, scope).0 == ToolStepView::Save(Saving::Refusal),
        tool_step(params, scope).1.cross_allowed() == Some(false),
        tool_step(later, tool_step(params, scope).1).0 matches ToolStepView::Call(c) && c.kind
            == CallKind::ConfinedSearch,
        forall|
            agent: Seq<char>,
            client: Seq<char>,
            workspace: Option<Seq<char>>,
            enabled: bool,
            port: u16,
        |
            (#[trigger] ScopeView::at_start(
                agent,
                client,
                workspace,
                tool_step(params, scope).1.ws_config,
                enabled,
                port,
            )).cross_allowed() == Some(false),
{
    tool_names_differ();
    assert("deny"@ != "allow"@) by {
        reveal_strlit("deny");
        reveal_strlit("allow");
        assert("deny"@.len() != "allow"@.len());
    }
}

/// What has been denied stays denied through every tool call but a confirmed request for
/// the whole session.
pub proof fn what_is_denied_stays_denied(params: JsonView, scope: ScopeView)
    requires
        scope.cross_allowed() == Some(false),
        !lifts_refusal(params),
    ensures
        tool_step(params, scope).1.cross_allowed() == Some(false),
{
}

/// What has been permitted stays permitted through every tool call but a refusal, and is
/// not asked for again.
pub proof fn what_is_permitted_stays_permitted(params: JsonView, scope: ScopeView)
    requires
        scope.cross_allowed() == Some(true),
        !refuses(params),
    ensures
        tool_step(params, scope).1.cross_allowed() == Some(true),
        called_tool(params) == "memory_search"@ && scope.enabled ==> (tool_step(params, scope).0
            matches ToolStepView::Call(c) && c.kind == CallKind::Search),
{
    tool_names_differ();
}

/// A search that the user has confirmed, and a confirmed request for the whole session,
/// permit what follows in the session.
pub proof fn a_confirmation_lasts(params: JsonView, scope: ScopeView)
    requires
        scope.enabled,
        lifts_refusal(params) || called_tool(params) == "memory_search"@ && reaches_beyond(
            call_arguments(params),
        ) && switched_on(call_arguments(params), "confirmed"@) && !refuses(params)
            && scope.cross_allowed() != Some(false),
    ensures
        tool_step(params, scope).1.cross_allowed() == Some(true),
        tool_step(params, scope).1.ws_config == scope.ws_config,
{
    tool_names_differ();
}

/// What has been permitted or denied does not depend on what the backend answers or on
/// whether a file could be saved.
pub proof fn answers_permit_nothing(
    kind: CallKind,
    reply: Result<(ResponseView, u16), Seq<char>>,
    saving: Saving,
    saved: Result<(), Seq<char>>,
    scope: ScopeView,
)
    ensures
        call_result(kind, reply, scope).1.cross_allowed() == scope.cross_allowed(),
        call_result(kind, reply, scope).1.enabled == scope.enabled,
        save_outcome(saving, saved, scope).1.cross_allowed() == scope.cross_allowed(),
{
}

/// Turning the relay on or off takes effect once it has been saved, and not where it
/// could not be.
pub proof fn enabling_takes_effect_once_saved(
    params: JsonView,
    scope: ScopeView,
    saved: Result<(), Seq<char>>,
)
    requires
        scope.enabled,
        called_tool(params) == "memory_set_enabled"@,
        call_arguments(params).flag_field("enabled"@) is Some,
    ensures
        tool_step(params, scope).0 matches ToolStepView::Save(saving) && {
            let wanted = call_arguments(params).flag_field("enabled"@)->0;
            let (answer, then) = save_outcome(saving, saved, tool_step(params, scope).1);
            &&& then.enabled == if saved is Ok {
                wanted
            } else {
                scope.enabled
            }
            &&& answer is Ok <==> saved is Ok
        },
{
}

/// An answer carries the identifier of its request.
pub proof fn answers_carry_the_identifier(
    request: JsonView,
    scope: ScopeView,
    result: Result<Seq<char>, Seq<char>>,
)
    ensures
        request_step(request, scope).0 matches RequestStepView::Reply(v) ==> v.field("id"@)
            == Some(id_of(request)),
        request_step(request, scope).0 matches RequestStepView::Tool { id, step } ==> tool_reply(
            id,
            result,
        ).field("id"@) == Some(id_of(request)),
{
    reveal_strlit("id");
    reveal_strlit("result");
    reveal_strlit("error");
    reveal_strlit("jsonrpc");
    assert("id"@.len() == 2);
    assert("result"@.len() == 6);
    assert("error"@.len() == 5);
}

/// A request that carries an identifier gets an answer, unless it is the note that the
/// session has begun.
pub proof fn requests_with_an_identifier_are_answered(request: JsonView, scope: ScopeView)
    ensures
        request_step(request, scope).0 is Silent <==> method_of(request)
            == "notifications/initialized"@ || request.field("id"@) is None && method_of(request)
            != "initialize"@ && method_of(request) != "tools/list"@ && method_of(request)
            != "tools/call"@,
{
    reveal_strlit("initialize");
    reveal_strlit("notifications/initialized");
    assert("initialize"@.len() == 10);
    assert("notifications/initialized"@.len() == 25);
}

/// A confined search shows all that was found, in its order, after the notice.
pub proof fn a_confined_search_shows_all_it_found(entries: Seq<JsonView>)
    ensures
        confined_results(JsonView::Array(entries)) matches JsonView::Array(shown) && shown.skip(1)
            == entries,
{
    let notice = JsonView::Object(map!["_notice"@ => JsonView::Text(confined_notice())]);
    assert((seq![notice] + entries).skip(1) =~= entries);
}

/// Something that happens during a session.
pub enum SessionEvent {
    /// The agent asks something, and introduces itself as `client` where it does.
    Asked { request: JsonView, client: Option<Seq<char>> },
    /// Something has been saved, or could not be.
    Saved { saving: Saving, saved: Result<(), Seq<char>> },
    /// The backend has answered, or failed to.
    Answered { kind: CallKind, reply: Result<(ResponseView, u16), Seq<char>> },
}

/// The scope once something has happened.
pub open spec fn after_event(scope: ScopeView, event: SessionEvent) -> ScopeView {
    match event {
        SessionEvent::Asked { request, client } => request_step(
            request,
            scope.introduced(request, client),
        ).1,
        SessionEvent::Saved { saving, saved } => save_outcome(saving, saved, scope).1,
        SessionEvent::Answered { kind, reply } => call_result(kind, reply, scope).1,
    }
}

/// The scope once all this has happened, one after the other.
pub open spec fn after_events(scope: ScopeView, events: Seq<SessionEvent>) -> ScopeView
    decreases events.len(),
{
    if events.len() == 0 {
        scope
    } else {
        after_event(after_events(scope, events.drop_last()), events.last())
    }
}

/// Whether an event is a confirmed request for the whole session.
pub open spec fn is_lifting(event: SessionEvent) -> bool {
    event matches SessionEvent::Asked { request, client } && method_of(request)
        == "tools/call"@ && lifts_refusal(parameters_of(request))
}

/// Whether an event is a refusal.
pub open spec fn is_refusal(event: SessionEvent) -> bool {
    event matches SessionEvent::Asked { request, client } && method_of(request)
        == "tools/call"@ && refuses(parameters_of(request))
}

/// Whatever happens during a session, what has been denied stays denied until the user
/// confirms a request for the whole session.
pub proof fn a_denial_holds_through_a_session(scope: ScopeView, events: Seq<SessionEvent>)
    requires
        scope.cross_allowed() == Some(false),
        forall|i: int| 0 <= i < events.len() ==> !is_lifting(#[trigger] events[i]),
    ensures
        after_events(scope, events).cross_allowed() == Some(false),
    decreases events.len(),
{
    if events.len() > 0 {
        let earlier = events.drop_last();
        assert forall|i: int| 0 <= i < earlier.len() implies !is_lifting(#[trigger] earlier[i]) by {
            assert(!is_lifting(events[i]));
        }
        a_denial_holds_through_a_session(scope, earlier);
        let before = after_events(scope, earlier);
        assert(!is_lifting(events[events.len() - 1]));
        match events.last() {
            SessionEvent::Asked { request, client } => {
                let introduced = before.introduced(request, client);
                if method_of(request) == "tools/call"@ {
                    what_is_denied_stays_denied(parameters_of(request), introduced);
                }
            },
            _ => {},
        }
    }
}

/// Whatever happens during a session, what has been permitted stays permitted until the user
/// refuses.
pub proof fn a_permission_holds_through_a_session(scope: ScopeView, events: Seq<SessionEvent>)
    requires
        scope.cross_allowed() == Some(true),
        forall|i: int| 0 <= i < events.len() ==> !is_refusal(#[trigger] events[i]),
    ensures
        after_events(scope, events).cross_allowed() == Some(true),
    decreases events.len(),
{
    if events.len() > 0 {
        let earlier = events.drop_last();
        assert forall|i: int| 0 <= i < earlier.len() implies !is_refusal(#[trigger] earlier[i]) by {
            assert(!is_refusal(events[i]));
        }
        a_permission_holds_through_a_session(scope, earlier);
        let before = after_events(scope, earlier);
        assert(!is_refusal(events[events.len() - 1]));
        match events.last() {
            SessionEvent::Asked { request, client } => {
                let introduced = before.introduced(request, client);
                if method_of(request) == "tools/call"@ {
                    what_is_permitted_stays_permitted(parameters_of(request), introduced);
                }
            },
            _ => {},
        }
    }
}

// ---------------------------------------------------------------------------
// What each tool call comes to
// ---------------------------------------------------------------------------

/// Whether the user permits searches beyond the agent's own memories: during the session or, where
/// nothing was said during it, in the settings of the workspace.
pub open spec fn permits(scope: ScopeView) -> bool {
    scope.session_cross_override == Some(true) || scope.session_cross_override is None
        && scope.ws_config.cross_scope == "allow"@
}

/// Whether the user denies them, in the same way.
pub open spec fn denies(scope: ScopeView) -> bool {
    scope.session_cross_override == Some(false) || scope.session_cross_override is None
        && scope.ws_config.cross_scope == "deny"@
}

/// Whether a call is one of the tool `name` with the arguments `args`. A call that names no
/// arguments has none.
pub open spec fn is_call(params: JsonView, name: Seq<char>, args: JsonView) -> bool {
    params.text_field("name"@) == Some(name) && args == match params.field("arguments"@) {
        Some(a) => a,
        None => JsonView::Object(Map::empty()),
    }
}

proof fn permission_is_settled(scope: ScopeView)
    ensures
        permits(scope) == (scope.cross_allowed() == Some(true)),
        denies(scope) == (scope.cross_allowed() == Some(false)),
        !(permits(scope) && denies(scope)),
{
    reveal_strlit("allow");
    reveal_strlit("deny");
    assert("allow"@.len() == 5 && "deny"@.len() == 4);
}

proof fn reaches_differ()
    ensures
        "cross"@ != "all"@,
        "self"@ != "all"@,
        "self"@ != "cross"@,
{
    reveal_strlit("cross");
    reveal_strlit("all");
    reveal_strlit("self");
    assert("cross"@.len() == 5 && "all"@.len() == 3 && "self"@.len() == 4);
}

/// A search that asks for no more than the agent's own memories is always made, whatever has been
/// permitted or denied: in the agent's workspace and source, or those that it names. It changes
/// nothing of what is permitted.
pub proof fn an_agent_can_always_search_its_own_memories(
    params: JsonView,
    args: JsonView,
    scope: ScopeView,
)
    requires
        scope.enabled,
        is_call(params, "memory_search"@, args),
        args.text_field("scope"@) != Some("cross"@),
        args.text_field("scope"@) != Some("all"@),
        args.flag_field("opt_out"@) != Some(true),
    ensures
        tool_step(params, scope) == (
            ToolStepView::Call(
                BackendCallView {
                    kind: CallKind::Search,
                    name: "memory_search"@,
                    arguments: args,
                    workspace: match args.text_field("workspace"@) {
                        Some(ws) => Some(ws),
                        None => scope.default_workspace,
                    },
                    source: match args.text_field("source"@) {
                        Some(source) => Some(source),
                        None => scope.default_source,
                    },
                },
            ),
            scope,
        ),
{
    tool_names_differ();
    reaches_differ();
}

/// A search that reaches further and is permitted, already or by this call, is made: across agents
/// in the agent's workspace or the one that it names, and everywhere without any filter. Where
/// the call confirms it, it is permitted from then on.
pub proof fn a_permitted_search_is_made(params: JsonView, args: JsonView, scope: ScopeView)
    requires
        scope.enabled,
        is_call(params, "memory_search"@, args),
        args.text_field("scope"@) == Some("cross"@) || args.text_field("scope"@) == Some("all"@),
        args.flag_field("opt_out"@) != Some(true),
        permits(scope) || !denies(scope) && args.flag_field("confirmed"@) == Some(true),
    ensures
        tool_step(params, scope).0 == ToolStepView::Call(
            BackendCallView {
                kind: CallKind::Search,
                name: "memory_search"@,
                arguments: args,
                workspace: if args.text_field("scope"@) == Some("all"@) {
                    None
                } else {
                    match args.text_field("workspace"@) {
                        Some(ws) => Some(ws),
                        None => scope.default_workspace,
                    }
                },
                source: None,
            },
        ),
        tool_step(params, scope).1 == (ScopeView {
            session_cross_override: if args.flag_field("confirmed"@) == Some(true) {
                Some(true)
            } else {
                scope.session_cross_override
            },
            ..scope
        }),
{
    tool_names_differ();
    reaches_differ();
    permission_is_settled(scope);
}

/// A search that reaches further and has been denied is made all the same, but confined to the
/// agent's workspace and source, or those that it names. A confirmation does not help.
pub proof fn a_denied_search_is_confined(params: JsonView, args: JsonView, scope: ScopeView)
    requires
        scope.enabled,
        is_call(params, "memory_search"@, args),
        args.text_field("scope"@) == Some("cross"@) || args.text_field("scope"@) == Some("all"@),
        args.flag_field("opt_out"@) != Some(true),
        denies(scope),
    ensures
        tool_step(params, scope) == (
            ToolStepView::Call(
                BackendCallView {
                    kind: CallKind::ConfinedSearch,
                    name: "memory_search"@,
                    arguments: args,
                    workspace: match args.text_field("workspace"@) {
                        Some(ws) => Some(ws),
                        None => scope.default_workspace,
                    },
                    source: match args.text_field("source"@) {
                        Some(source) => Some(source),
                        None => scope.default_source,
                    },
                },
            ),
            scope,
        ),
{
    tool_names_differ();
    reaches_differ();
    permission_is_settled(scope);
}

/// A search that reaches further, of which the user has not said anything and which the call does
/// not confirm, is answered with the question for the user, and with what was asked for.
pub proof fn an_unsettled_search_is_answered_with_the_question(
    params: JsonView,
    args: JsonView,
    scope: ScopeView,
)
    requires
        scope.enabled,
        is_call(params, "memory_search"@, args),
        args.text_field("scope"@) == Some("cross"@) || args.text_field("scope"@) == Some("all"@),
        args.flag_field("opt_out"@) != Some(true),
        args.flag_field("confirmed"@) != Some(true),
        !permits(scope) && !denies(scope),
    ensures
        tool_step(params, scope).1 == scope,
        tool_step(params, scope).0 == ToolStepView::Answer(
            Ok::<Seq<char>, Seq<char>>(
                compact(
                    JsonView::Object(
                        map![
                            "status"@ => JsonView::Text("confirmation_required"@),
                            "scope_requested"@ => JsonView::Text(args.text_field("scope"@)->0),
                            "message"@ => JsonView::Text(
                                if args.text_field("scope"@) == Some("all"@) {
                                    "⚠️ This search requires access to memories beyond your current scope.\nRequested: "@
                                        + "all agents and ALL workspaces (including other projects)"@
                                        + "\n\nPlease ask the user: 'May I also search memory from "@
                                        + "other workspaces and AI tools"@
                                        + "?'\n\nIf approved: call again with confirmed=true.\nIf declined: call again with opt_out=true."@
                                } else {
                                    "⚠️ This search requires access to memories beyond your current scope.\nRequested: "@
                                        + "all agents in this workspace (including other AI tools' memories)"@
                                        + "\n\nPlease ask the user: 'May I also search memory from "@
                                        + "other AI tools in this workspace"@
                                        + "?'\n\nIf approved: call again with confirmed=true.\nIf declined: call again with opt_out=true."@
                                },
                            ),
                            "query"@ => match args.field("query"@) {
                                Some(q) => q,
                                None => JsonView::Null,
                            },
                        ],
                    ),
                ),
            ),
        ),
{
    tool_names_differ();
    reaches_differ();
    permission_is_settled(scope);
}

/// A refusal is noted at once for the session and for the workspace, and saved. However it ends,
/// the agent is told that it has been accepted, and nothing else changes.
pub proof fn a_refusal_is_noted_and_saved(
    params: JsonView,
    args: JsonView,
    scope: ScopeView,
    saved: Result<(), Seq<char>>,
)
    requires
        scope.enabled,
        is_call(params, "memory_search"@, args),
        args.flag_field("opt_out"@) == Some(true),
    ensures
        ({
            let after = ScopeView {
                session_cross_override: Some(false),
                ws_config: WorkspaceView { cross_scope: "deny"@, enabled: scope.ws_config.enabled },
                ..scope
            };
            &&& tool_step(params, scope) == (ToolStepView::Save(Saving::Refusal), after)
            &&& denies(after)
            &&& save_outcome(Saving::Refusal, saved, after) == (
                Ok::<Seq<char>, Seq<char>>(
                    compact(
                        JsonView::Object(
                            map![
                                "status"@ => JsonView::Text("opt_out_accepted"@),
                                "message"@ => JsonView::Text(
                                    "Cross-scope access disabled for this workspace. Saved to .agents-relay.json."@,
                                ),
                            ],
                        ),
                    ),
                ),
                after,
            )
        }),
{
    tool_names_differ();
}

/// A call to turn the relay on or off is wrong without saying which. Otherwise it is saved first:
/// for the user where it says so, and for the workspace, whose other setting stays, everywhere
/// else.
pub proof fn turning_the_relay_on_or_off_is_saved(params: JsonView, args: JsonView, scope: ScopeView)
    requires
        scope.enabled,
        is_call(params, "memory_set_enabled"@, args),
    ensures
        args.field("enabled"@) is None ==> tool_step(params, scope) == (
            ToolStepView::Answer(Err::<Seq<char>, Seq<char>>("enabled parameter is required"@)),
            scope,
        ),
        args.flag_field("enabled"@) matches Some(enabled) ==> tool_step(params, scope) == if
            args.text_field("scope"@) == Some("global"@) {
            (ToolStepView::Save(Saving::Global { enabled }), scope)
        } else {
            (
                ToolStepView::Save(Saving::Workspace { enabled }),
                ScopeView {
                    ws_config: WorkspaceView {
                        enabled: Some(enabled),
                        cross_scope: scope.ws_config.cross_scope,
                    },
                    ..scope
                },
            )
        },
{
}

/// Once turning the relay on or off has been saved, it is on or off and the agent is told so. Where
/// it could not be saved, the agent is told why, and the relay stays as it was.
pub proof fn what_was_saved_is_told(enabled: bool, saved: Result<(), Seq<char>>, scope: ScopeView)
    ensures
        saved matches Err(e) ==> save_outcome(Saving::Global { enabled }, saved, scope) == (
            Err::<Seq<char>, Seq<char>>(e),
            scope,
        ) && save_outcome(Saving::Workspace { enabled }, saved, scope) == (
            Err::<Seq<char>, Seq<char>>(e),
            scope,
        ),
        saved is Ok ==> save_outcome(Saving::Global { enabled }, saved, scope) == (
            Ok::<Seq<char>, Seq<char>>(
                compact(
                    JsonView::Object(
                        map![
                            "status"@ => JsonView::Text("ok"@),
                            "scope"@ => JsonView::Text("global"@),
                            "enabled"@ => JsonView::Bool(enabled),
                            "message"@ => JsonView::Text(
                                "agents-relay globally "@ + (if enabled {
                                    "enabled"@
                                } else {
                                    "disabled"@
                                }) + ". Saved to ~/.agents-relay/config.json."@,
                            ),
                        ],
                    ),
                ),
            ),
            ScopeView { enabled, ..scope },
        ),
        saved is Ok ==> save_outcome(Saving::Workspace { enabled }, saved, scope) == (
            Ok::<Seq<char>, Seq<char>>(
                compact(
                    JsonView::Object(
                        map![
                            "status"@ => JsonView::Text("ok"@),
                            "scope"@ => JsonView::Text("workspace"@),
                            "enabled"@ => JsonView::Bool(enabled),
                            "workspace"@ => JsonView::Text(match scope.default_workspace {
                                Some(ws) => ws,
                                None => "(unknown)"@,
                            }),
                            "message"@ => JsonView::Text(
                                "agents-relay "@ + (if enabled {
                                    "enabled"@
                                } else {
                                    "disabled"@
                                }) + " for workspace '"@ + (match scope.default_workspace {
                                    Some(ws) => ws,
                                    None => "(unknown)"@,
                                }) + "'. Saved to .agents-relay.json."@,
                            ),
                        ],
                    ),
                ),
            ),
            ScopeView { enabled, ..scope },
        ),
{
}

/// What is saved for a workspace lies in its file and says its settings as they are in the scope;
/// without a workspace nothing can be saved. What is saved for the user lies below the home
/// directory.
pub proof fn savings_have_their_files(
    saving: Saving,
    scope: ScopeView,
    contents: Option<Result<Seq<char>, Seq<char>>>,
    home: Option<Seq<char>>,
)
    ensures
        saving matches Saving::Global { enabled } ==> file_saved(saving, scope, contents, home)
            == Ok::<(Seq<char>, Seq<char>), Seq<char>>(
            (
                relay_file(home, "config.json"@),
                pretty(settings_value(switched(contents, enabled, home))),
            ),
        ),
        !(saving is Global) ==> file_saved(saving, scope, contents, home)
            == match scope.default_workspace {
            Some(ws) => Ok::<(Seq<char>, Seq<char>), Seq<char>>(
                (workspace_file(ws), pretty(workspace_value(scope.ws_config))),
            ),
            None => Err::<(Seq<char>, Seq<char>), Seq<char>>(
                "No workspace path to save config to"@,
            ),
        },
{
}

/// A request for the whole session permits searches everywhere where it is confirmed, and is
/// otherwise answered with the question for the user.
pub proof fn a_request_for_the_session_needs_confirmation(
    params: JsonView,
    args: JsonView,
    scope: ScopeView,
)
    requires
        scope.enabled,
        is_call(params, "memory_unlock_cross_scope"@, args),
    ensures
        args.flag_field("confirmed"@) == Some(true) ==> tool_step(params, scope) == (
            ToolStepView::Answer(
                Ok::<Seq<char>, Seq<char>>(
                    compact(
                        JsonView::Object(
                            map![
                                "status"@ => JsonView::Text("unlocked"@),
                                "message"@ => JsonView::Text(
                                    "Cross-workspace memory access is now enabled for this session."@,
                                ),
                            ],
                        ),
                    ),
                ),
            ),
            ScopeView { session_cross_override: Some(true), ..scope },
        ),
        args.flag_field("confirmed"@) != Some(true) ==> tool_step(params, scope) == (
            ToolStepView::Answer(
                Ok::<Seq<char>, Seq<char>>(
                    compact(
                        JsonView::Object(
                            map![
                                "status"@ => JsonView::Text("confirmation_required"@),
                                "message"@ => JsonView::Text(
                                    "Cross-workspace memory access requested.\nPlease ask the user: 'May I also search memory from other workspaces?'\nIf approved, call again with confirmed=true.\nIf declined, do NOT call again."@,
                                ),
                            ],
                        ),
                    ),
                ),
            ),
            scope,
        ),
{
    tool_names_differ();
}

/// Every other tool call goes to the backend as it is, for the agent's workspace and source, and
/// changes nothing before the backend has answered.
pub proof fn other_calls_go_to_the_backend(
    params: JsonView,
    name: Seq<char>,
    args: JsonView,
    scope: ScopeView,
)
    requires
        scope.enabled,
        is_call(params, name, args) || params.text_field("name"@) is None && name.len() == 0
            && args == (match params.field("arguments"@) {
            Some(a) => a,
            None => JsonView::Object(Map::empty()),
        }),
        name != "memory_search"@,
        name != "memory_set_enabled"@,
        name != "memory_unlock_cross_scope"@,
    ensures
        tool_step(params, scope) == (
            ToolStepView::Call(
                BackendCallView {
                    kind: if name == "memory_find_workspace"@ {
                        CallKind::FindWorkspace
                    } else {
                        CallKind::Other
                    },
                    name,
                    arguments: args,
                    workspace: scope.default_workspace,
                    source: scope.default_source,
                },
            ),
            scope,
        ),
{
    if params.text_field("name"@) is None {
        assert(name =~= Seq::empty());
    }
}

/// While the relay is off, every tool call, to turn it on too, is answered with how that is done.
pub proof fn a_relay_that_is_off_says_how_to_turn_it_on(params: JsonView, scope: ScopeView)
    requires
        !scope.enabled,
    ensures
        tool_step(params, scope) == (
            ToolStepView::Answer(
                Ok::<Seq<char>, Seq<char>>(
                    compact(
                        JsonView::Object(
                            map![
                                "disabled"@ => JsonView::Bool(true),
                                "message"@ => JsonView::Text(
                                    "agents-relay is disabled. To enable, set \"enabled\": true in ~/.agents-relay/config.json or .agents-relay.json in your workspace."@,
                                ),
                            ],
                        ),
                    ),
                ),
            ),
            scope,
        ),
{
}

/// The agent is shown what its search found, after a warning where some of it is not its own. An
/// error of the backend is passed on, and what is no JSON counts as nothing found.
pub proof fn the_results_of_a_search_are_shown(
    response: ResponseView,
    port: u16,
    scope: ScopeView,
    entries: Seq<JsonView>,
)
    ensures
        ({
            let reply = Ok::<(ResponseView, u16), Seq<char>>((response, port));
            let (answer, then) = call_result(CallKind::Search, reply, scope);
            &&& then == (ScopeView { server_port: port, ..scope })
            &&& response.is_error ==> answer == Err::<Seq<char>, Seq<char>>(response.content)
            &&& !response.is_error && parsed(response.content) is None ==> answer == Ok::<
                Seq<char>,
                Seq<char>,
            >(pretty(JsonView::Array(Seq::empty())))
            &&& !response.is_error && parsed(response.content) == Some(JsonView::Array(entries))
                && !has_foreign(entries, scope.default_source) ==> answer == Ok::<
                Seq<char>,
                Seq<char>,
            >(pretty(JsonView::Array(entries)))
            &&& !response.is_error && parsed(response.content) == Some(JsonView::Array(entries))
                && has_foreign(entries, scope.default_source) ==> exists|shown: JsonView|
                answer == Ok::<Seq<char>, Seq<char>>(#[trigger] pretty(shown)) && is_warned(
                    shown,
                    entries,
                    scope.default_source,
                    scope.client,
                )
            &&& !response.is_error && parsed(response.content) is Some && !(parsed(
                response.content,
            )->0 is Array) ==> answer == Ok::<Seq<char>, Seq<char>>(
                pretty(parsed(response.content)->0),
            )
        }),
{
    let results = results_in(response.content);
    foreign_results_come_with_a_warning(results, scope.default_source, scope.client);
    if parsed(response.content) is None {
        assert(!has_foreign(Seq::empty(), scope.default_source));
    }
    if !response.is_error {
        let shown = with_context(results, scope.default_source, scope.client);
        let reply = Ok::<(ResponseView, u16), Seq<char>>((response, port));
        assert(call_result(CallKind::Search, reply, scope).0 == Ok::<Seq<char>, Seq<char>>(
            pretty(shown),
        ));
    }
}

/// The agent is shown what its confined search found after a notice that it was confined, also
/// where that is nothing, and the scope stays as it is.
pub proof fn the_results_of_a_confined_search_are_shown(
    response: ResponseView,
    port: u16,
    scope: ScopeView,
    entries: Seq<JsonView>,
)
    requires
        parsed(response.content) == Some(JsonView::Array(entries)) || entries.len() == 0 && (
        parsed(response.content) is None || !(parsed(response.content)->0 is Array)),
    ensures
        call_result(
            CallKind::ConfinedSearch,
            Ok::<(ResponseView, u16), Seq<char>>((response, port)),
            scope,
        ) == (
            Ok::<Seq<char>, Seq<char>>(
                pretty(
                    JsonView::Array(
                        seq![
                            JsonView::Object(
                                map![
                                    "_notice"@ => JsonView::Text(
                                        "Cross-scope denied for this workspace. Falling back to scope='self'."@,
                                    ),
                                ],
                            ),
                        ] + entries,
                    ),
                ),
            ),
            scope,
        ),
{
    let notice = JsonView::Object(map!["_notice"@ => JsonView::Text(confined_notice())]);
    if entries.len() == 0 {
        assert(seq![notice] + entries =~= seq![notice]);
        assert(entries =~= Seq::empty());
    }
}

/// What the backend answers to any other call is passed on as it is, its errors as errors, and
/// the port that gave the answer is the one to call from then on. Only the answer to where the
/// agent works changes anything more: the workspace that it names is the agent's.
pub proof fn other_answers_are_passed_on(
    kind: CallKind,
    response: ResponseView,
    port: u16,
    message: Seq<char>,
    scope: ScopeView,
)
    ensures
        call_result(kind, Err::<(ResponseView, u16), Seq<char>>(message), scope) == (
            Err::<Seq<char>, Seq<char>>(message),
            scope,
        ),
        kind == CallKind::Other || kind == CallKind::FindWorkspace ==> {
            let reply = Ok::<(ResponseView, u16), Seq<char>>((response, port));
            let (answer, then) = call_result(kind, reply, scope);
            &&& response.is_error ==> answer == Err::<Seq<char>, Seq<char>>(response.content)
            &&& !response.is_error ==> answer == Ok::<Seq<char>, Seq<char>>(response.content)
            &&& then == (ScopeView {
                server_port: port,
                default_workspace: if kind == CallKind::FindWorkspace && !response.is_error
                    && parsed(response.content) is Some && parsed(response.content)->0.text_field(
                    "workspace"@,
                ) is Some {
                    parsed(response.content)->0.text_field("workspace"@)
                } else {
                    scope.default_workspace
                },
                ..scope
            })
        },
{
}

// ---------------------------------------------------------------------------
// What each request comes to
// ---------------------------------------------------------------------------

/// A line asks what its JSON says. A line of nothing but white space asks nothing.
pub proof fn a_line_asks_what_it_says(line: Seq<char>)
    ensures
        request_in(line) is Some ==> request_in(line) == parsed(line),
        (exists|i: int| 0 <= i < line.len() && !is_space(#[trigger] line[i]))
            ==> request_in(line) == parsed(line),
        (forall|i: int| 0 <= i < line.len() ==> is_space(#[trigger] line[i]))
            ==> request_in(line) is None,
{
    only_white_space_is_trimmed(line);
    let (i, j) = choose|i: int, j: int|
        0 <= i <= j <= line.len() && trim(line) == #[trigger] line.subrange(i, j) && (forall|
            k: int,
        |
            0 <= k < line.len() && !(i <= k < j) ==> is_space(#[trigger] line[k]));
    if i < j {
        assert(trim(line)[0] == line[i]);
    }
}

/// What a request comes to is up to its method. A session is opened with what the agent needs to
/// know, the tools are listed, and a tool is called with the parameters of the request. A note is
/// not answered, and a request for anything else is told that there is no such method.
pub proof fn requests_are_answered_by_their_method(
    request: JsonView,
    method: Seq<char>,
    id: JsonView,
    scope: ScopeView,
)
    requires
        request.text_field("method"@) == Some(method) || request.text_field("method"@) is None
            && method.len() == 0,
        request.field("id"@) == Some(id) || request.field("id"@) is None && id == JsonView::Null,
    ensures
        method == "initialize"@ ==> request_step(request, scope) == (
            RequestStepView::Reply(
                JsonView::Object(
                    map![
                        "jsonrpc"@ => JsonView::Text("2.0"@),
                        "id"@ => id,
                        "result"@ => JsonView::Object(
                            map![
                                "protocolVersion"@ => JsonView::Text("2024-11-05"@),
                                "capabilities"@ => JsonView::Object(
                                    map!["tools"@ => JsonView::Object(Map::empty())],
                                ),
                                "serverInfo"@ => JsonView::Object(
                                    map![
                                        "name"@ => JsonView::Text("agents-relay"@),
                                        "version"@ => JsonView::Text("0.2.0"@),
                                        "detectedClient"@ => JsonView::Text(scope.client),
                                        "defaultSource"@ => match scope.default_source {
                                            Some(source) => JsonView::Text(source),
                                            None => JsonView::Null,
                                        },
                                        "defaultWorkspace"@ => match scope.default_workspace {
                                            Some(ws) => JsonView::Text(ws),
                                            None => JsonView::Null,
                                        },
                                    ],
                                ),
                                "instructions"@ => JsonView::Text(
                                    "This server provides cross-session memory search. To minimize token usage, ONLY call memory_search when the user explicitly asks about past sessions (e.g., 'what did we do last time', 'remember when...', 'in a previous conversation'). Never search speculatively or proactively. Most tasks can be completed without cross-session context."@,
                                ),
                            ],
                        ),
                    ],
                ),
            ),
            scope,
        ),
        method == "notifications/initialized"@ ==> request_step(request, scope) == (
            RequestStepView::Silent,
            scope,
        ),
        method == "tools/list"@ ==> request_step(request, scope) == (
            RequestStepView::Reply(
                JsonView::Object(
                    map![
                        "jsonrpc"@ => JsonView::Text("2.0"@),
                        "id"@ => id,
                        "result"@ => JsonView::Object(map!["tools"@ => offered_tools(scope)]),
                    ],
                ),
            ),
            scope,
        ),
        method == "tools/call"@ ==> ({
            let params = match request.field("params"@) {
                Some(p) => p,
                None => JsonView::Object(Map::empty()),
            };
            request_step(request, scope) == (
                RequestStepView::Tool { id, step: tool_step(params, scope).0 },
                tool_step(params, scope).1,
            )
        }),
        method != "initialize"@ && method != "notifications/initialized"@ && method
            != "tools/list"@ && method != "tools/call"@ ==> request_step(request, scope) == (
            if request.field("id"@) is None {
                RequestStepView::Silent
            } else {
                RequestStepView::Reply(
                    JsonView::Object(
                        map![
                            "jsonrpc"@ => JsonView::Text("2.0"@),
                            "id"@ => id,
                            "error"@ => JsonView::Object(
                                map![
                                    "code"@ => JsonView::Number(number_of_i64(-32601i64)),
                                    "message"@ => JsonView::Text("Method not found: "@ + method),
                                ],
                            ),
                        ],
                    ),
                )
            },
            scope,
        ),
{
    if request.text_field("method"@) is None {
        assert(method =~= Seq::empty());
    }
    reveal_strlit("initialize");
    reveal_strlit("notifications/initialized");
    reveal_strlit("tools/list");
    reveal_strlit("tools/call");
    assert("initialize"@.len() == 10 && "initialize"@[0] == 'i');
    assert("notifications/initialized"@.len() == 25);
    assert("tools/list"@.len() == 10 && "tools/list"@[6] == 'l');
    assert("tools/call"@.len() == 10 && "tools/call"@[6] == 'c');
}

/// What a tool call comes to is passed to the agent as one text, an error marked as such.
pub proof fn what_a_tool_call_comes_to_is_passed_on(text: Seq<char>)
    ensures
        tool_result(Ok::<Seq<char>, Seq<char>>(text)) == JsonView::Object(
            map![
                "content"@ => JsonView::Array(
                    seq![
                        JsonView::Object(
                            map![
                                "type"@ => JsonView::Text("text"@),
                                "text"@ => JsonView::Text(text),
                            ],
                        ),
                    ],
                ),
            ],
        ),
        tool_result(Err::<Seq<char>, Seq<char>>(text)) == JsonView::Object(
            map![
                "content"@ => JsonView::Array(
                    seq![
                        JsonView::Object(
                            map![
                                "type"@ => JsonView::Text("text"@),
                                "text"@ => JsonView::Text("Error: "@ + text),
                            ],
                        ),
                    ],
                ),
                "isError"@ => JsonView::Bool(true),
            ],
        ),
{
}

/// The answer to a request that called a tool has the identifier of the request, and what the call
/// came to as its result.
pub proof fn an_answer_is_made_of_the_request_and_its_result(
    id: JsonView,
    result: Result<Seq<char>, Seq<char>>,
)
    ensures
        tool_reply(id, result).field("id"@) == Some(id),
        tool_reply(id, result).field("result"@) == Some(tool_result(result)),
        tool_reply(id, result).text_field("jsonrpc"@) == Some("2.0"@),
        tool_reply(id, result).field("error"@) is None,
{
    reveal_strlit("id");
    reveal_strlit("result");
    reveal_strlit("error");
    reveal_strlit("jsonrpc");
    assert("id"@.len() == 2 && "result"@.len() == 6);
    assert("error"@.len() == 5 && "jsonrpc"@.len() == 7);
}

/// What a step is, is what its parts hold.
pub proof fn a_step_is_what_it_holds(
    call: BackendCall,
    saving: Saving,
    result: Result<String, Failure>,
    id: Json,
    step: ToolStep,
    response: ToolResponse,
    port: u16,
    failure: Failure,
)
    ensures
        call@.kind == call.kind && call@.name == call.name@ && call@.arguments == call.arguments@
            && call@.workspace == owned_text(call.workspace) && call@.source == owned_text(
            call.source,
        ),
        ToolStep::Call(call)@ == ToolStepView::Call(call@),
        ToolStep::Save(saving)@ == ToolStepView::Save(saving),
        ToolStep::Answer(result)@ == ToolStepView::Answer(outcome(result)),
        RequestStep::Silent@ == RequestStepView::Silent,
        RequestStep::Reply(id)@ == RequestStepView::Reply(id@),
        (RequestStep::Tool { id, step })@ == (RequestStepView::Tool { id: id@, step: step@ }),
        reply_view(Ok((response, port))) == Ok::<(ResponseView, u16), Seq<char>>(
            (
                ResponseView { content: response.content@, is_error: response.is_error },
                port,
            ),
        ),
        reply_view(Err(failure)) == Err::<(ResponseView, u16), Seq<char>>(failure@),
        saving_view(Ok(())) == Ok::<(), Seq<char>>(()),
        saving_view(Err(failure)) == Err::<(), Seq<char>>(failure@),
{
}

} // verus!
