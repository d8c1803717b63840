//! The backend: what it does with the database for a tool call, what it answers, and when
//! it stops.
//!
//! How far a search reaches has been settled by the proxy. The backend takes the workspace
//! and the source that it is sent as they are.

use vstd::prelude::*;

use crate::client::{
    backend_in, response_in, tool_message, Backend, ResponseView, ToolResponse,
};
use crate::clock::{Moment, Timestamp, TimestampView};
use crate::decimal::{signed_decimal, signed_decimal_text};
use crate::failure::{outcome, Failure};
use crate::json::{
    compact, contents, contents_are_elementwise, number_of_i64, number_of_u64, parse_json, parsed,
    plain_with_room, pretty, text_or_null, Json, JsonObject, JsonView, MAX_DEPTH,
};
use crate::mcp::{
    argument_or, call_arguments, call_result, called_tool, found_workspace, reaches_beyond,
    requested_reach, tool_step, BackendCallView, CallKind, ToolStepView, VERSION,
};
use crate::memory::{
    entries_of, summaries_of, tag_summary, tagged, EntryView, NewEntry, NewEntryView, RawEntry,
    SessionSummary, SummaryView,
};
use crate::paths::{join_path, joined, RELAY_DIR};
use crate::scope::ScopeView;
use crate::text::{glue, owned, owned_text, same, slice, text_of};

verus! {

// ---------------------------------------------------------------------------
// Requests
// ---------------------------------------------------------------------------

/// A tool call as the backend receives it.
#[derive(Debug, PartialEq)]
pub struct ToolRequest {
    pub name: String,
    pub arguments: Json,
    /// The workspace to look in; all of them where it is missing.
    pub workspace: Option<String>,
    /// The source to look in; all of them where it is missing.
    pub source: Option<String>,
    /// The agent that asks.
    pub client: Option<String>,
}

/// What a tool call says.
pub struct ToolRequestView {
    pub name: Seq<char>,
    pub arguments: JsonView,
    pub workspace: Option<Seq<char>>,
    pub source: Option<Seq<char>>,
    pub client: Option<Seq<char>>,
}

impl View for ToolRequest {
    type V = ToolRequestView;

    open spec fn view(&self) -> ToolRequestView {
        ToolRequestView {
            name: self.name@,
            arguments: self.arguments@,
            workspace: owned_text(self.workspace),
            source: owned_text(self.source),
            client: owned_text(self.client),
        }
    }
}

/// Whether a part of a message can be read as an optional text: it is a text, null, or not there.
pub open spec fn optional_text(message: JsonView, key: Seq<char>, index: int) -> bool {
    match message.part(key, index) {
        None => true,
        Some(v) => v is Null || v is Text,
    }
}

/// The tool call that a message is, where it is one: an object, or an array of the five parts.
pub open spec fn request_of(message: JsonView) -> Option<ToolRequestView> {
    if message.is_record(5, 5) && message.text_part("name"@, 0) is Some && message.part(
        "arguments"@,
        1,
    ) is Some && optional_text(message, "workspace"@, 2) && optional_text(message, "source"@, 3)
        && optional_text(message, "client"@, 4) {
        Some(
            ToolRequestView {
                name: message.text_part("name"@, 0)->0,
                arguments: message.part("arguments"@, 1)->0,
                workspace: message.text_part("workspace"@, 2),
                source: message.text_part("source"@, 3),
                client: message.text_part("client"@, 4),
            },
        )
    } else {
        None
    }
}

/// What an optional text in a message holds; `Err` where it is neither a text nor null.
fn read_optional(message: &Json, key: &str, index: usize) -> (r: Result<Option<String>, ()>)
    ensures
        match r {
            Ok(t) => optional_text(message@, key@, index as int) && owned_text(t)
                == message@.text_part(key@, index as int),
            Err(_) => !optional_text(message@, key@, index as int),
        },
{
    match message.part(key, index) {
        None => Ok(None),
        Some(Json::Null) => Ok(None),
        Some(Json::Text(t)) => Ok(Some(t.clone())),
        Some(_) => Err(()),
    }
}

/// The tool call that a message is.
pub fn read_tool_request(message: &Json) -> (r: Option<ToolRequest>)
    ensures
        match r {
            Some(q) => request_of(message@) == Some(q@),
            None => request_of(message@) is None,
        },
{
    if !message.is_record_of(5, 5) {
        return None;
    }
    let name = match message.part("name", 0) {
        Some(Json::Text(t)) => t.clone(),
        _ => {
            return None;
        },
    };
    let arguments = match message.part("arguments", 1) {
        Some(a) => a.copy(),
        None => {
            return None;
        },
    };
    let workspace = read_optional(message, "workspace", 2);
    let source = read_optional(message, "source", 3);
    let client = read_optional(message, "client", 4);
    match (workspace, source, client) {
        (Ok(workspace), Ok(source), Ok(client)) => Some(
            ToolRequest { name, arguments, workspace, source, client },
        ),
        _ => None,
    }
}

/// Why the body of a request holds no tool call.
#[derive(Debug, Clone, Copy, PartialEq, Eq, Structural)]
pub enum BadRequest {
    /// It is no JSON.
    NotJson,
    /// It is JSON, but no tool call.
    NotACall,
}

/// The tool call in the body of a request, or why there is none.
pub open spec fn received(body: Seq<char>) -> Result<ToolRequestView, BadRequest> {
    match parsed(body) {
        Some(message) => match request_of(message) {
            Some(request) => Ok(request),
            None => Err(BadRequest::NotACall),
        },
        None => Err(BadRequest::NotJson),
    }
}

/// The tool call in the body of a request.
pub fn receive_request(body: &str) -> (r: Result<ToolRequest, BadRequest>)
    ensures
        match r {
            Ok(q) => received(body@) == Ok::<ToolRequestView, BadRequest>(q@),
            Err(e) => received(body@) == Err::<ToolRequestView, BadRequest>(e),
        },
        match r {
            Ok(q) => parsed(body@) is Some && request_of(parsed(body@)->0) == Some(q@),
            Err(BadRequest::NotJson) => parsed(body@) is None,
            Err(BadRequest::NotACall) => parsed(body@) is Some && request_of(
                parsed(body@)->0,
            ) is None,
        },
{
    match parse_json(body) {
        Some(message) => match read_tool_request(&message) {
            Some(request) => Ok(request),
            None => Err(BadRequest::NotACall),
        },
        None => Err(BadRequest::NotJson),
    }
}

/// The backend receives the tool call that the proxy sent.
pub proof fn what_is_sent_is_received(
    name: Seq<char>,
    arguments: JsonView,
    workspace: Option<Seq<char>>,
    source: Option<Seq<char>>,
    client: Seq<char>,
)
    ensures
        request_of(tool_message(name, arguments, workspace, source, client)) == Some(
            ToolRequestView { name, arguments, workspace, source, client: Some(client) },
        ),
{
    reveal_strlit("name");
    reveal_strlit("arguments");
    reveal_strlit("workspace");
    reveal_strlit("source");
    reveal_strlit("client");
    assert("name"@.len() == 4);
    assert("arguments"@.len() == 9 && "arguments"@[0] == 'a');
    assert("workspace"@.len() == 9 && "workspace"@[0] == 'w');
    assert("source"@.len() == 6 && "source"@[0] == 's');
    assert("client"@.len() == 6 && "client"@[0] == 'c');
}

/// The body that carries a response.
pub open spec fn response_message(response: ResponseView) -> JsonView {
    JsonView::Object(
        map![
            "content"@ => JsonView::Text(response.content),
            "is_error"@ => JsonView::Bool(response.is_error),
        ],
    )
}

/// The proxy reads the response that the backend sent.
pub proof fn what_is_answered_is_read(response: ResponseView)
    ensures
        response_in(response_message(response)) == response,
{
    reveal_strlit("content");
    reveal_strlit("is_error");
    assert("content"@.len() == 7);
    assert("is_error"@.len() == 8);
}

/// What the backend answers once a tool call has been carried out or has failed.
pub open spec fn response_to(result: Result<Seq<char>, Seq<char>>) -> ResponseView {
    match result {
        Ok(content) => ResponseView { content, is_error: false },
        Err(e) => ResponseView { content: "Error: "@ + e, is_error: true },
    }
}

/// What the backend answers once a tool call has been carried out or has failed.
pub fn respond(result: Result<String, Failure>) -> (r: ToolResponse)
    ensures
        r@ == response_to(outcome(result)),
{
    match result {
        Ok(content) => ToolResponse { content, is_error: false },
        Err(e) => ToolResponse { content: glue("Error: ", e.message.as_str()), is_error: true },
    }
}

/// The body that carries a response. The proxy reads the response in it.
pub fn response_body(response: &ToolResponse) -> (r: String)
    ensures
        r@ == compact(response_message(response@)),
        parsed(r@) is Some && response_in(parsed(r@)->0) == response@,
{
    let mut o = JsonObject::new();
    o.put_text("content", response.content.as_str());
    o.put("is_error", Json::Bool(response.is_error));
    proof {
        what_is_answered_is_read(response@);
        reveal_with_fuel(JsonView::plain, 2);
    }
    Json::Object(o).to_text()
}

// ---------------------------------------------------------------------------
// Tool calls: what the database is asked
// ---------------------------------------------------------------------------

/// A search of the database. A filter that is missing lets everything through.
#[derive(Debug, PartialEq, Eq)]
pub struct SearchQuery {
    pub query: String,
    pub date: Option<String>,
    pub date_from: Option<String>,
    pub date_to: Option<String>,
    pub entry_type: Option<String>,
    pub session_id: Option<String>,
    pub limit: i64,
    pub workspace: Option<String>,
    pub source: Option<String>,
}

/// What a search says.
pub struct SearchView {
    pub query: Seq<char>,
    pub date: Option<Seq<char>>,
    pub date_from: Option<Seq<char>>,
    pub date_to: Option<Seq<char>>,
    pub entry_type: Option<Seq<char>>,
    pub session_id: Option<Seq<char>>,
    pub limit: i64,
    pub workspace: Option<Seq<char>>,
    pub source: Option<Seq<char>>,
}

impl View for SearchQuery {
    type V = SearchView;

    open spec fn view(&self) -> SearchView {
        SearchView {
            query: self.query@,
            date: owned_text(self.date),
            date_from: owned_text(self.date_from),
            date_to: owned_text(self.date_to),
            entry_type: owned_text(self.entry_type),
            session_id: owned_text(self.session_id),
            limit: self.limit,
            workspace: owned_text(self.workspace),
            source: owned_text(self.source),
        }
    }
}

/// A session that an agent registers: what to note in its workspace and in the database.
#[derive(Debug, PartialEq, Eq)]
pub struct Registration {
    pub conversation_id: String,
    pub workspace: String,
    /// The directory of the note.
    pub dir: String,
    /// The file of the note.
    pub file: String,
    /// What the note says.
    pub note: String,
    /// What the database keeps.
    pub entry: NewEntry,
}

/// What a registration says.
pub struct RegistrationView {
    pub conversation_id: Seq<char>,
    pub workspace: Seq<char>,
    pub dir: Seq<char>,
    pub file: Seq<char>,
    pub note: Seq<char>,
    pub entry: NewEntryView,
}

impl View for Registration {
    type V = RegistrationView;

    open spec fn view(&self) -> RegistrationView {
        RegistrationView {
            conversation_id: self.conversation_id@,
            workspace: self.workspace@,
            dir: self.dir@,
            file: self.file@,
            note: self.note@,
            entry: self.entry@,
        }
    }
}

/// What a tool call asks of the database.
#[derive(Debug, PartialEq, Eq)]
pub enum ToolPlan {
    /// To find entries.
    Search(SearchQuery),
    /// To get one entry.
    GetEntry { id: i64 },
    /// To list sessions.
    ListSessions { date: Option<String>, limit: i64, workspace: Option<String> },
    /// To get the entries of a session.
    SessionEntries { session_id: String, entry_type: Option<String>, limit: i64 },
    /// To get the entries from one date to another.
    DateRange { from: String, to: String, entry_type: Option<String>, limit: i64 },
    /// To register a session.
    Register(Registration),
    /// To keep a summary.
    Record(NewEntry),
    /// Nothing: the call is wrong.
    Reject(Failure),
}

/// What a plan is.
pub enum PlanView {
    Search(SearchView),
    GetEntry { id: i64 },
    ListSessions { date: Option<Seq<char>>, limit: i64, workspace: Option<Seq<char>> },
    SessionEntries { session_id: Seq<char>, entry_type: Option<Seq<char>>, limit: i64 },
    DateRange { from: Seq<char>, to: Seq<char>, entry_type: Option<Seq<char>>, limit: i64 },
    Register(RegistrationView),
    Record(NewEntryView),
    Reject(Seq<char>),
}

impl View for ToolPlan {
    type V = PlanView;

    open spec fn view(&self) -> PlanView {
        match *self {
            ToolPlan::Search(q) => PlanView::Search(q@),
            ToolPlan::GetEntry { id } => PlanView::GetEntry { id },
            ToolPlan::ListSessions { date, limit, workspace } => PlanView::ListSessions {
                date: owned_text(date),
                limit,
                workspace: owned_text(workspace),
            },
            ToolPlan::SessionEntries {
                session_id,
                entry_type,
                limit,
            } => PlanView::SessionEntries {
                session_id: session_id@,
                entry_type: owned_text(entry_type),
                limit,
            },
            ToolPlan::DateRange { from, to, entry_type, limit } => PlanView::DateRange {
                from: from@,
                to: to@,
                entry_type: owned_text(entry_type),
                limit,
            },
            ToolPlan::Register(r) => PlanView::Register(r@),
            ToolPlan::Record(e) => PlanView::Record(e@),
            ToolPlan::Reject(e) => PlanView::Reject(e@),
        }
    }
}

/// A number among the arguments, or the default.
pub open spec fn number_or(args: JsonView, key: Seq<char>, default: i64) -> i64 {
    match args.integer_field(key) {
        Some(n) => n,
        None => default,
    }
}

/// A text among the arguments, or the default.
pub open spec fn text_or_default(args: JsonView, key: Seq<char>, default: Seq<char>) -> Seq<char> {
    match args.text_field(key) {
        Some(t) => t,
        None => default,
    }
}

/// The first of two texts that is there.
pub open spec fn either(a: Option<Seq<char>>, b: Option<Seq<char>>, default: Seq<char>) -> Seq<
    char,
> {
    match (a, b) {
        (Some(t), _) => t,
        (None, Some(t)) => t,
        (None, None) => default,
    }
}

/// The agent that asks.
pub open spec fn asking_client(request: ToolRequestView) -> Seq<char> {
    match request.client {
        Some(c) => c,
        None => "unknown"@,
    }
}

/// The source under which the database keeps what the agent gives it: the one that the proxy
/// settled on, or else the name of the agent.
pub open spec fn kept_source(request: ToolRequestView) -> Seq<char> {
    match request.source {
        Some(s) => s,
        None => asking_client(request),
    }
}

/// The plan of a search.
pub open spec fn search_plan(request: ToolRequestView) -> PlanView {
    let args = request.arguments;
    PlanView::Search(
        SearchView {
            query: text_or_default(args, "query"@, Seq::empty()),
            date: args.text_field("date"@),
            date_from: args.text_field("date_from"@),
            date_to: args.text_field("date_to"@),
            entry_type: args.text_field("type"@),
            session_id: args.text_field("session_id"@),
            limit: number_or(args, "limit"@, 20),
            workspace: request.workspace,
            source: request.source,
        },
    )
}

/// The plan for the entries of a session: those of the session that is named, or else those
/// of the date that is named, or else those of the range, which is open where no end is named.
pub open spec fn session_plan(args: JsonView) -> PlanView {
    let date = args.text_field("date"@);
    let from = args.text_field("date_from"@);
    let to = args.text_field("date_to"@);
    let entry_type = args.text_field("type"@);
    let limit = number_or(args, "limit"@, 50);
    match args.text_field("session_id"@) {
        Some(session_id) => PlanView::SessionEntries { session_id, entry_type, limit },
        None => if date is Some || from is Some || to is Some {
            PlanView::DateRange {
                from: either(date, from, "2000-01-01"@),
                to: either(date, to, "2099-12-31"@),
                entry_type,
                limit,
            }
        } else {
            PlanView::Reject("Provide session_id or date/date_from/date_to"@)
        },
    }
}

/// What the note of a registered session says.
pub open spec fn session_note(
    conversation_id: Seq<char>,
    workspace: Seq<char>,
    started_at: Seq<char>,
) -> JsonView {
    JsonView::Object(
        map![
            "conversation_id"@ => JsonView::Text(conversation_id),
            "workspace"@ => JsonView::Text(workspace),
            "started_at"@ => JsonView::Text(started_at),
        ],
    )
}

/// The plan for an agent that says where it works. What it names itself comes first.
pub open spec fn register_plan(request: ToolRequestView, now: TimestampView) -> PlanView {
    let args = request.arguments;
    let id = text_or_default(args, "conversation_id"@, Seq::empty());
    if id.len() == 0 {
        PlanView::Reject("conversation_id is required"@)
    } else if args.text_field("workspace"@) is None && request.workspace is None {
        PlanView::Reject(
            "workspace is required. Pass it as a tool argument: workspace=\"/your/workspace/path\""@,
        )
    } else {
        let ws = either(args.text_field("workspace"@), request.workspace, Seq::empty());
        let dir = joined(ws, RELAY_DIR@);
        PlanView::Register(
            RegistrationView {
                conversation_id: id,
                workspace: ws,
                dir,
                file: joined(dir, "session.json"@),
                note: pretty(session_note(id, ws, text_or_default(args, "started_at"@, now.iso))),
                entry: NewEntryView {
                    session_id: id,
                    timestamp: now.iso,
                    date: now.date,
                    time: now.time,
                    entry_type: "system"@,
                    tool_name: Some("session_start"@),
                    content: "Session Started in workspace: "@ + ws,
                    cwd: Some(ws),
                    source: kept_source(request),
                },
            },
        )
    }
}

/// The plan for a summary.
pub open spec fn record_plan(request: ToolRequestView, now: TimestampView) -> PlanView {
    let args = request.arguments;
    let summary = text_or_default(args, "summary"@, Seq::empty());
    if summary.len() == 0 {
        PlanView::Reject("summary parameter is required"@)
    } else {
        PlanView::Record(
            NewEntryView {
                session_id: text_or_default(args, "session_id"@, "agent-summary"@),
                timestamp: now.iso,
                date: now.date,
                time: now.time,
                entry_type: "summary"@,
                tool_name: Some("skill_hook"@),
                content: tagged(summary, text_or_default(args, "tags"@, Seq::empty())),
                cwd: request.workspace,
                source: kept_source(request),
            },
        )
    }
}

/// What a tool call asks of the database, at the moment that is written `now`.
pub open spec fn plan(request: ToolRequestView, now: TimestampView) -> PlanView {
    let args = request.arguments;
    if request.name == "memory_search"@ {
        search_plan(request)
    } else if request.name == "memory_get_entry"@ {
        PlanView::GetEntry { id: number_or(args, "id"@, 0) }
    } else if request.name == "memory_list_sessions"@ {
        PlanView::ListSessions {
            date: args.text_field("date"@),
            limit: number_or(args, "limit"@, 10),
            workspace: request.workspace,
        }
    } else if request.name == "memory_get_session"@ {
        session_plan(args)
    } else if request.name == "memory_find_workspace"@ {
        register_plan(request, now)
    } else if request.name == "memory_record_summary"@ {
        record_plan(request, now)
    } else {
        PlanView::Reject("Unknown tool: "@ + request.name)
    }
}

/// Two requests ask the same of the database where their arguments hold the same texts, and
/// the same numbers however those are written: a number with a fraction of nothing counts as the
/// whole number that it is read as.
pub proof fn numbers_count_however_they_are_written(
    a: ToolRequestView,
    b: ToolRequestView,
    now: TimestampView,
)
    requires
        a.name == b.name && a.workspace == b.workspace && a.source == b.source && a.client
            == b.client,
        forall|key: Seq<char>| #[trigger]
            a.arguments.text_field(key) == b.arguments.text_field(key),
        a.arguments.integer_field("id"@) == b.arguments.integer_field("id"@),
        a.arguments.integer_field("limit"@) == b.arguments.integer_field("limit"@),
    ensures
        plan(a, now) == plan(b, now),
{
}

/// An entry is looked up by the number that its `id` is read as, and where there is none, by 0.
/// That the database has no such entry is an answer, and no failure.
pub proof fn an_entry_is_looked_up_by_its_number(
    request: ToolRequestView,
    n: i64,
    now: TimestampView,
)
    requires
        request.name == "memory_get_entry"@,
        request.arguments.integer_field("id"@) == Some(n) || request.arguments.integer_field(
            "id"@,
        ) is None && n == 0,
    ensures
        plan(request, now) == (PlanView::GetEntry { id: n }),
        response_to(Ok(entry_answer(None, n))) == (ResponseView {
            content: "No entry found with id: "@ + signed_decimal(n as int),
            is_error: false,
        }),
{
    reveal_strlit("memory_get_entry");
    reveal_strlit("memory_search");
    assert("memory_get_entry"@.len() == 16);
    assert("memory_search"@.len() == 13);
}

fn number_at(args: &Json, key: &str, default: i64) -> (r: i64)
    ensures
        r == number_or(args@, key@, default),
{
    match args.integer_at(key) {
        Some(n) => n,
        None => default,
    }
}

fn text_with_default(args: &Json, key: &str, default: &str) -> (r: String)
    ensures
        r@ == text_or_default(args@, key@, default@),
{
    match args.text_at(key) {
        Some(t) => t.to_owned(),
        None => default.to_owned(),
    }
}

fn text_or_nothing(args: &Json, key: &str) -> (r: String)
    ensures
        r@ == text_or_default(args@, key@, Seq::empty()),
{
    match args.text_at(key) {
        Some(t) => t.to_owned(),
        None => String::new(),
    }
}

fn first_of(a: Option<&str>, b: Option<&str>, default: &str) -> (r: String)
    ensures
        r@ == either(text_of(a), text_of(b), default@),
{
    match (a, b) {
        (Some(t), _) => t.to_owned(),
        (None, Some(t)) => t.to_owned(),
        (None, None) => default.to_owned(),
    }
}

fn source_to_keep(request: &ToolRequest) -> (r: String)
    ensures
        r@ == kept_source(request@),
{
    first_of(slice(&request.source), slice(&request.client), "unknown")
}

fn plan_search(request: &ToolRequest) -> (r: ToolPlan)
    ensures
        r@ == search_plan(request@),
{
    let args = &request.arguments;
    ToolPlan::Search(
        SearchQuery {
            query: text_or_nothing(args, "query"),
            date: owned(args.text_at("date")),
            date_from: owned(args.text_at("date_from")),
            date_to: owned(args.text_at("date_to")),
            entry_type: owned(args.text_at("type")),
            session_id: owned(args.text_at("session_id")),
            limit: number_at(args, "limit", 20),
            workspace: owned(slice(&request.workspace)),
            source: owned(slice(&request.source)),
        },
    )
}

fn plan_session(args: &Json) -> (r: ToolPlan)
    ensures
        r@ == session_plan(args@),
{
    let date = args.text_at("date");
    let from = args.text_at("date_from");
    let to = args.text_at("date_to");
    let entry_type = owned(args.text_at("type"));
    let limit = number_at(args, "limit", 50);
    match args.text_at("session_id") {
        Some(session_id) => ToolPlan::SessionEntries {
            session_id: session_id.to_owned(),
            entry_type,
            limit,
        },
        None => if date.is_some() || from.is_some() || to.is_some() {
            ToolPlan::DateRange {
                from: first_of(date, from, "2000-01-01"),
                to: first_of(date, to, "2099-12-31"),
                entry_type,
                limit,
            }
        } else {
            ToolPlan::Reject(Failure::new("Provide session_id or date/date_from/date_to"))
        },
    }
}

fn plan_registration(request: &ToolRequest, now: &Timestamp) -> (r: ToolPlan)
    ensures
        r@ == register_plan(request@, now@),
{
    let args = &request.arguments;
    let conversation_id = text_or_nothing(args, "conversation_id");
    if conversation_id.as_str().is_empty() {
        return ToolPlan::Reject(Failure::new("conversation_id is required"));
    }
    let named = args.text_at("workspace");
    if named.is_none() && request.workspace.is_none() {
        return ToolPlan::Reject(
            Failure::new(
                "workspace is required. Pass it as a tool argument: workspace=\"/your/workspace/path\"",
            ),
        );
    }
    let workspace = first_of(named, slice(&request.workspace), "");
    let dir = join_path(workspace.as_str(), RELAY_DIR);
    let file = join_path(dir.as_str(), "session.json");
    let started_at = text_with_default(args, "started_at", now.iso.as_str());
    let mut o = JsonObject::new();
    o.put_text("conversation_id", conversation_id.as_str());
    o.put_text("workspace", workspace.as_str());
    o.put_text("started_at", started_at.as_str());
    let note = Json::Object(o).to_pretty_text();
    let entry = NewEntry {
        session_id: conversation_id.clone(),
        timestamp: now.iso.clone(),
        date: now.date.clone(),
        time: now.time.clone(),
        entry_type: "system".to_owned(),
        tool_name: Some("session_start".to_owned()),
        content: glue("Session Started in workspace: ", workspace.as_str()),
        cwd: Some(workspace.clone()),
        source: source_to_keep(request),
    };
    ToolPlan::Register(Registration { conversation_id, workspace, dir, file, note, entry })
}

fn plan_record(request: &ToolRequest, now: &Timestamp) -> (r: ToolPlan)
    ensures
        r@ == record_plan(request@, now@),
{
    let args = &request.arguments;
    let summary = text_or_nothing(args, "summary");
    if summary.as_str().is_empty() {
        return ToolPlan::Reject(Failure::new("summary parameter is required"));
    }
    let tags = text_or_nothing(args, "tags");
    ToolPlan::Record(
        NewEntry {
            session_id: text_with_default(args, "session_id", "agent-summary"),
            timestamp: now.iso.clone(),
            date: now.date.clone(),
            time: now.time.clone(),
            entry_type: "summary".to_owned(),
            tool_name: Some("skill_hook".to_owned()),
            content: tag_summary(summary.as_str(), tags.as_str()),
            cwd: owned(slice(&request.workspace)),
            source: source_to_keep(request),
        },
    )
}

/// What a tool call asks of the database, at the moment that is written `now`.
pub fn plan_tool(request: &ToolRequest, now: &Timestamp) -> (r: ToolPlan)
    ensures
        r@ == plan(request@, now@),
{
    let name = request.name.as_str();
    let args = &request.arguments;
    if same(name, "memory_search") {
        plan_search(request)
    } else if same(name, "memory_get_entry") {
        ToolPlan::GetEntry { id: number_at(args, "id", 0) }
    } else if same(name, "memory_list_sessions") {
        ToolPlan::ListSessions {
            date: owned(args.text_at("date")),
            limit: number_at(args, "limit", 10),
            workspace: owned(slice(&request.workspace)),
        }
    } else if same(name, "memory_get_session") {
        plan_session(args)
    } else if same(name, "memory_find_workspace") {
        plan_registration(request, now)
    } else if same(name, "memory_record_summary") {
        plan_record(request, now)
    } else {
        ToolPlan::Reject(Failure { message: glue("Unknown tool: ", name) })
    }
}

/// What a tool call asks of the database now.
pub fn handle_tool(request: &ToolRequest) -> (r: ToolPlan)
    ensures
        exists|now: Moment| now.on_calendar() && r@ == plan(request@, #[trigger] now.written()),
{
    let now = Moment::now();
    let stamp = now.write();
    let r = plan_tool(request, &stamp);
    proof {
        assert(r@ == plan(request@, now.written()));
    }
    r
}

// ---------------------------------------------------------------------------
// Tool calls: what is answered
// ---------------------------------------------------------------------------

/// An entry as an agent gets it.
pub open spec fn entry_value(e: EntryView) -> JsonView {
    JsonView::Object(
        map![
            "id"@ => JsonView::Number(number_of_i64(e.id)),
            "session_id"@ => JsonView::Text(e.session_id),
            "timestamp"@ => JsonView::Text(e.timestamp),
            "date"@ => JsonView::Text(e.date),
            "time"@ => JsonView::Text(e.time),
            "type"@ => JsonView::Text(e.entry_type),
            "tool_name"@ => text_or_null(e.tool_name),
            "content"@ => JsonView::Text(e.content),
            "cwd"@ => text_or_null(e.cwd),
            "git_branch"@ => text_or_null(e.git_branch),
            "source"@ => JsonView::Text(e.source),
        ],
    )
}

/// An entry as an agent gets it among the others of a session.
pub open spec fn session_entry_value(e: EntryView) -> JsonView {
    JsonView::Object(
        map![
            "id"@ => JsonView::Number(number_of_i64(e.id)),
            "session_id"@ => JsonView::Text(e.session_id),
            "timestamp"@ => JsonView::Text(e.timestamp),
            "time"@ => JsonView::Text(e.time),
            "type"@ => JsonView::Text(e.entry_type),
            "tool_name"@ => text_or_null(e.tool_name),
            "content"@ => JsonView::Text(e.content),
            "source"@ => JsonView::Text(e.source),
        ],
    )
}

/// A session as an agent gets it.
pub open spec fn summary_value(s: SummaryView) -> JsonView {
    JsonView::Object(
        map![
            "session_id"@ => JsonView::Text(s.session_id),
            "first_timestamp"@ => JsonView::Text(s.first_timestamp),
            "last_timestamp"@ => JsonView::Text(s.last_timestamp),
            "date"@ => JsonView::Text(s.date),
            "entry_count"@ => JsonView::Number(number_of_i64(s.entry_count)),
        ],
    )
}

/// Entries as an agent gets them.
pub open spec fn entry_values(entries: Seq<EntryView>) -> JsonView {
    JsonView::Array(entries.map_values(|e: EntryView| entry_value(e)))
}

/// The entries of a session as an agent gets them.
pub open spec fn session_entry_values(entries: Seq<EntryView>) -> JsonView {
    JsonView::Array(entries.map_values(|e: EntryView| session_entry_value(e)))
}

/// Sessions as an agent gets them.
pub open spec fn summary_values(sessions: Seq<SummaryView>) -> JsonView {
    JsonView::Array(sessions.map_values(|s: SummaryView| summary_value(s)))
}

fn describe_entry(e: &RawEntry) -> (r: Json)
    ensures
        r@ == entry_value(e@),
        r@.plain(1),
{
    let mut o = JsonObject::new();
    o.put("id", Json::integer(e.id));
    o.put_text("session_id", e.session_id.as_str());
    o.put_text("timestamp", e.timestamp.as_str());
    o.put_text("date", e.date.as_str());
    o.put_text("time", e.time.as_str());
    o.put_text("type", e.entry_type.as_str());
    o.put_optional("tool_name", slice(&e.tool_name));
    o.put_text("content", e.content.as_str());
    o.put_optional("cwd", slice(&e.cwd));
    o.put_optional("git_branch", slice(&e.git_branch));
    o.put_text("source", e.source.as_str());
    proof {
        reveal_with_fuel(JsonView::plain, 2);
    }
    Json::Object(o)
}

fn describe_session_entry(e: &RawEntry) -> (r: Json)
    ensures
        r@ == session_entry_value(e@),
        r@.plain(1),
{
    let mut o = JsonObject::new();
    o.put("id", Json::integer(e.id));
    o.put_text("session_id", e.session_id.as_str());
    o.put_text("timestamp", e.timestamp.as_str());
    o.put_text("time", e.time.as_str());
    o.put_text("type", e.entry_type.as_str());
    o.put_optional("tool_name", slice(&e.tool_name));
    o.put_text("content", e.content.as_str());
    o.put_text("source", e.source.as_str());
    proof {
        reveal_with_fuel(JsonView::plain, 2);
    }
    Json::Object(o)
}

fn describe_summary(s: &SessionSummary) -> (r: Json)
    ensures
        r@ == summary_value(s@),
        r@.plain(1),
{
    let mut o = JsonObject::new();
    o.put_text("session_id", s.session_id.as_str());
    o.put_text("first_timestamp", s.first_timestamp.as_str());
    o.put_text("last_timestamp", s.last_timestamp.as_str());
    o.put_text("date", s.date.as_str());
    o.put("entry_count", Json::integer(s.entry_count));
    proof {
        reveal_with_fuel(JsonView::plain, 2);
    }
    Json::Object(o)
}

/// Entries as an agent gets them.
pub fn format_entries(entries: &Vec<RawEntry>) -> (r: Json)
    ensures
        r@ == entry_values(entries_of(entries@)),
        r@.plain(2),
{
    let mut out: Vec<Json> = Vec::new();
    let mut i: usize = 0;
    while i < entries.len()
        invariant
            i <= entries@.len(),
            out@.len() == i,
            forall|j: int| 0 <= j < i ==> (#[trigger] out@[j])@ == entry_value(entries@[j]@),
            forall|j: int| 0 <= j < i ==> (#[trigger] out@[j])@.plain(1),
        decreases entries@.len() - i,
    {
        out.push(describe_entry(&entries[i]));
        i += 1;
    }
    proof {
        contents_are_elementwise(out@);
        assert(entry_values(entries_of(entries@))->Array_0 =~= contents(out@));
    }
    Json::Array(out)
}

fn format_session_entries(entries: &Vec<RawEntry>) -> (r: Json)
    ensures
        r@ == session_entry_values(entries_of(entries@)),
        r@.plain(2),
{
    let mut out: Vec<Json> = Vec::new();
    let mut i: usize = 0;
    while i < entries.len()
        invariant
            i <= entries@.len(),
            out@.len() == i,
            forall|j: int|
                0 <= j < i ==> (#[trigger] out@[j])@ == session_entry_value(entries@[j]@),
            forall|j: int| 0 <= j < i ==> (#[trigger] out@[j])@.plain(1),
        decreases entries@.len() - i,
    {
        out.push(describe_session_entry(&entries[i]));
        i += 1;
    }
    proof {
        contents_are_elementwise(out@);
        assert(session_entry_values(entries_of(entries@))->Array_0 =~= contents(out@));
    }
    Json::Array(out)
}

fn format_summaries(sessions: &Vec<SessionSummary>) -> (r: Json)
    ensures
        r@ == summary_values(summaries_of(sessions@)),
        r@.plain(2),
{
    let mut out: Vec<Json> = Vec::new();
    let mut i: usize = 0;
    while i < sessions.len()
        invariant
            i <= sessions@.len(),
            out@.len() == i,
            forall|j: int| 0 <= j < i ==> (#[trigger] out@[j])@ == summary_value(sessions@[j]@),
            forall|j: int| 0 <= j < i ==> (#[trigger] out@[j])@.plain(1),
        decreases sessions@.len() - i,
    {
        out.push(describe_summary(&sessions[i]));
        i += 1;
    }
    proof {
        contents_are_elementwise(out@);
        assert(summary_values(summaries_of(sessions@))->Array_0 =~= contents(out@));
    }
    Json::Array(out)
}

/// The answer to a search. Whoever reads it finds the entries in it.
pub fn answer_search(entries: &Vec<RawEntry>) -> (r: String)
    ensures
        r@ == pretty(entry_values(entries_of(entries@))),
        parsed(r@) == Some(entry_values(entries_of(entries@))),
{
    let shown = format_entries(entries);
    proof {
        plain_with_room(shown@, 2, MAX_DEPTH as nat);
    }
    shown.to_pretty_text()
}

/// The answer to the question for one entry.
pub open spec fn entry_answer(entry: Option<EntryView>, id: i64) -> Seq<char> {
    match entry {
        Some(e) => pretty(entry_value(e)),
        None => "No entry found with id: "@ + signed_decimal(id as int),
    }
}

/// The answer to the question for the entry `id`, where the database had it.
pub fn answer_entry(entry: Option<&RawEntry>, id: i64) -> (r: String)
    ensures
        r@ == entry_answer(
            match entry {
                Some(e) => Some(e@),
                None => None,
            },
            id,
        ),
        entry is Some ==> parsed(r@) == Some(entry_value(entry->0@)),
{
    match entry {
        Some(e) => {
            let shown = describe_entry(e);
            proof {
                plain_with_room(shown@, 1, MAX_DEPTH as nat);
            }
            shown.to_pretty_text()
        },
        None => glue("No entry found with id: ", signed_decimal_text(id).as_str()),
    }
}

/// The answer to the question for the sessions. Whoever reads it finds them in it.
pub fn answer_sessions(sessions: &Vec<SessionSummary>) -> (r: String)
    ensures
        r@ == pretty(summary_values(summaries_of(sessions@))),
        parsed(r@) == Some(summary_values(summaries_of(sessions@))),
{
    let shown = format_summaries(sessions);
    proof {
        plain_with_room(shown@, 2, MAX_DEPTH as nat);
    }
    shown.to_pretty_text()
}

/// The answer to the question for the entries of a session. Whoever reads it finds them in it.
pub fn answer_session_entries(entries: &Vec<RawEntry>) -> (r: String)
    ensures
        r@ == pretty(session_entry_values(entries_of(entries@))),
        parsed(r@) == Some(session_entry_values(entries_of(entries@))),
{
    let shown = format_session_entries(entries);
    proof {
        plain_with_room(shown@, 2, MAX_DEPTH as nat);
    }
    shown.to_pretty_text()
}

/// What an agent is told whose session has been registered.
pub open spec fn registered_value(conversation_id: Seq<char>, workspace: Seq<char>) -> JsonView {
    JsonView::Object(
        map![
            "status"@ => JsonView::Text("success"@),
            "conversation_id"@ => JsonView::Text(conversation_id),
            "workspace"@ => JsonView::Text(workspace),
            "message"@ => JsonView::Text("Session registered and session.json written."@),
        ],
    )
}

/// The answer to an agent whose session has been registered. The proxy finds the workspace
/// in it.
pub fn answer_registered(registration: &Registration) -> (r: String)
    ensures
        r@ == compact(
            registered_value(registration@.conversation_id, registration@.workspace),
        ),
        found_workspace(r@) == Some(registration@.workspace),
{
    let mut o = JsonObject::new();
    o.put_text("status", "success");
    o.put_text("conversation_id", registration.conversation_id.as_str());
    o.put_text("workspace", registration.workspace.as_str());
    o.put_text("message", "Session registered and session.json written.");
    proof {
        reveal_with_fuel(JsonView::plain, 2);
        reveal_strlit("workspace");
        reveal_strlit("message");
        assert("workspace"@.len() == 9);
        assert("message"@.len() == 7);
    }
    Json::Object(o).to_text()
}

/// What an agent is told whose summary has been kept.
pub open spec fn recorded_value(id: i64) -> JsonView {
    JsonView::Object(
        map![
            "status"@ => JsonView::Text("success"@),
            "id"@ => JsonView::Number(number_of_i64(id)),
            "message"@ => JsonView::Text(
                "Successfully recorded summary with ID "@ + signed_decimal(id as int),
            ),
        ],
    )
}

/// The answer to an agent whose summary has been kept as the entry `id`.
pub fn answer_recorded(id: i64) -> (r: String)
    ensures
        r@ == compact(recorded_value(id)),
{
    let message = glue(
        "Successfully recorded summary with ID ",
        signed_decimal_text(id).as_str(),
    );
    let mut o = JsonObject::new();
    o.put_text("status", "success");
    o.put("id", Json::integer(id));
    o.put_text("message", message.as_str());
    Json::Object(o).to_text()
}

/// What the database gave for a plan.
#[derive(Debug, PartialEq, Eq)]
pub enum Found {
    /// Nothing, as it was not asked.
    Nothing,
    /// Entries.
    Entries(Vec<RawEntry>),
    /// One entry, where it has it.
    Entry(Option<RawEntry>),
    /// Sessions.
    Sessions(Vec<SessionSummary>),
    /// The number of the entry that was put into it.
    Inserted(i64),
}

/// What the database gave.
pub enum FoundView {
    Nothing,
    Entries(Seq<EntryView>),
    Entry(Option<EntryView>),
    Sessions(Seq<SummaryView>),
    Inserted(i64),
}

impl View for Found {
    type V = FoundView;

    open spec fn view(&self) -> FoundView {
        match *self {
            Found::Nothing => FoundView::Nothing,
            Found::Entries(entries) => FoundView::Entries(entries_of(entries@)),
            Found::Entry(Some(e)) => FoundView::Entry(Some(e@)),
            Found::Entry(None) => FoundView::Entry(None),
            Found::Sessions(sessions) => FoundView::Sessions(summaries_of(sessions@)),
            Found::Inserted(id) => FoundView::Inserted(id),
        }
    }
}

/// What a question to the database came to.
pub open spec fn found_view(found: Result<Found, Failure>) -> Result<FoundView, Seq<char>> {
    match found {
        Ok(f) => Ok(f@),
        Err(e) => Err(e@),
    }
}

/// What a tool call comes to when the database gave `found` for its plan. A call that is wrong
/// comes to that, whatever the database gave.
pub open spec fn answer_to(plan: PlanView, found: Result<FoundView, Seq<char>>) -> Result<
    Seq<char>,
    Seq<char>,
> {
    match (plan, found) {
        (PlanView::Reject(e), _) => Err(e),
        (_, Err(e)) => Err(e),
        (PlanView::Search(_), Ok(FoundView::Entries(entries))) => Ok(pretty(entry_values(entries))),
        (PlanView::GetEntry { id }, Ok(FoundView::Entry(entry))) => Ok(entry_answer(entry, id)),
        (PlanView::ListSessions { .. }, Ok(FoundView::Sessions(sessions))) => Ok(
            pretty(summary_values(sessions)),
        ),
        (PlanView::SessionEntries { .. }, Ok(FoundView::Entries(entries))) => Ok(
            pretty(session_entry_values(entries)),
        ),
        (PlanView::DateRange { .. }, Ok(FoundView::Entries(entries))) => Ok(
            pretty(session_entry_values(entries)),
        ),
        (PlanView::Register(r), Ok(FoundView::Inserted(_))) => Ok(
            compact(registered_value(r.conversation_id, r.workspace)),
        ),
        (PlanView::Record(_), Ok(FoundView::Inserted(id))) => Ok(compact(recorded_value(id))),
        _ => Err("The database did not give what it was asked for"@),
    }
}

/// What a tool call comes to when the database gave `found` for its plan.
pub fn answer_plan(plan: &ToolPlan, found: Result<Found, Failure>) -> (r: Result<String, Failure>)
    ensures
        outcome(r) == answer_to(plan@, found_view(found)),
{
    match plan {
        ToolPlan::Reject(e) => {
            return Err(Failure::new(e.message.as_str()));
        },
        _ => {},
    }
    let given = match found {
        Ok(f) => f,
        Err(e) => {
            return Err(e);
        },
    };
    match (plan, given) {
        (ToolPlan::Search(_), Found::Entries(entries)) => Ok(answer_search(&entries)),
        (ToolPlan::GetEntry { id }, Found::Entry(entry)) => match entry {
            Some(e) => Ok(answer_entry(Some(&e), *id)),
            None => Ok(answer_entry(None, *id)),
        },
        (ToolPlan::ListSessions { .. }, Found::Sessions(sessions)) => Ok(
            answer_sessions(&sessions),
        ),
        (ToolPlan::SessionEntries { .. }, Found::Entries(entries)) => Ok(
            answer_session_entries(&entries),
        ),
        (ToolPlan::DateRange { .. }, Found::Entries(entries)) => Ok(
            answer_session_entries(&entries),
        ),
        (ToolPlan::Register(registration), Found::Inserted(_)) => Ok(
            answer_registered(registration),
        ),
        (ToolPlan::Record(_), Found::Inserted(id)) => Ok(answer_recorded(id)),
        _ => Err(Failure::new("The database did not give what it was asked for")),
    }
}

// ---------------------------------------------------------------------------
// Health
// ---------------------------------------------------------------------------

/// What the backend says of itself.
pub open spec fn health_value(binary_mtime: u64, client_count: i32) -> JsonView {
    JsonView::Object(
        map![
            "status"@ => JsonView::Text("ok"@),
            "version"@ => JsonView::Text(VERSION@),
            "binary_mtime"@ => JsonView::Number(number_of_u64(binary_mtime)),
            "client_count"@ => JsonView::Number(number_of_i64(client_count as i64)),
        ],
    )
}

/// What the backend says of itself: its program file was written at `binary_mtime`, and
/// `client_count` proxies have come and not gone. A proxy reads from it whether the backend
/// runs an older program file than its own.
pub fn health(binary_mtime: u64, client_count: i32) -> (r: Json)
    ensures
        r@ == health_value(binary_mtime, client_count),
        binary_mtime <= i64::MAX ==> forall|own_mtime: u64|
            #[trigger] backend_in(r@, own_mtime) == if 0 < binary_mtime < own_mtime {
                Backend::Outdated
            } else {
                Backend::Current
            },
        binary_mtime <= i64::MAX ==> r@.plain(1),
{
    let mut o = JsonObject::new();
    o.put_text("status", "ok");
    o.put_text("version", VERSION);
    let mtime = Json::count(binary_mtime);
    o.put("binary_mtime", mtime);
    o.put("client_count", Json::integer(client_count as i64));
    proof {
        reveal_with_fuel(JsonView::plain, 2);
        reveal_strlit("binary_mtime");
        reveal_strlit("client_count");
        assert("binary_mtime"@[0] == 'b');
        assert("client_count"@[0] == 'c');
    }
    Json::Object(o)
}

// ---------------------------------------------------------------------------
// The proxies that have come and not gone
// ---------------------------------------------------------------------------

/// How many proxies there are once one more has come.
pub open spec fn registered(count: i32) -> i32 {
    (count + 1) as i32
}

/// How many proxies there are once one more has come.
pub fn register(count: i32) -> (r: i32)
    requires
        count < i32::MAX,
    ensures
        r == registered(count),
        r == count + 1,
{
    count + 1
}

/// How many proxies there are once one has gone; never fewer than none.
pub open spec fn deregistered(count: i32) -> i32 {
    if count <= 0 {
        0
    } else {
        (count - 1) as i32
    }
}

/// How many proxies there are once one has gone.
pub fn deregister(count: i32) -> (r: i32)
    ensures
        r == deregistered(count),
{
    if count <= 0 {
        0
    } else {
        count - 1
    }
}

/// What a proxy is told when it comes or goes.
pub fn count_report(count: i32) -> (r: Json)
    ensures
        r@ == JsonView::Object(
            map!["client_count"@ => JsonView::Number(number_of_i64(count as i64))],
        ),
        r@.integer_field("client_count"@) == Some(count as i64),
{
    let mut o = JsonObject::new();
    o.put("client_count", Json::integer(count as i64));
    Json::Object(o)
}

/// How many proxies there are after some have come (`true`) and gone (`false`).
pub open spec fn count_after(count: i32, comings: Seq<bool>) -> i32
    decreases comings.len(),
{
    if comings.len() == 0 {
        count
    } else if comings[0] {
        count_after(registered(count), comings.drop_first())
    } else {
        count_after(deregistered(count), comings.drop_first())
    }
}

/// There are never fewer proxies than none, whatever comes and goes, and a proxy that comes
/// and goes again leaves the count as it was.
pub proof fn the_count_is_never_negative(count: i32, comings: Seq<bool>)
    requires
        0 <= count,
        count + comings.len() <= i32::MAX,
    ensures
        0 <= count_after(count, comings) <= count + comings.len(),
        count < i32::MAX ==> registered(count) - count == 1 && deregistered(registered(count))
            == count,
        count > 0 ==> count - deregistered(count) == 1,
        deregistered(0) == 0,
    decreases comings.len(),
{
    if comings.len() > 0 {
        if comings[0] {
            the_count_is_never_negative(registered(count), comings.drop_first());
        } else {
            the_count_is_never_negative(deregistered(count), comings.drop_first());
        }
    }
}

// ---------------------------------------------------------------------------
// When the backend stops
// ---------------------------------------------------------------------------

/// For how many milliseconds the backend has to be alone before it stops.
pub const IDLE_LIMIT: u64 = 60_000;

/// How many milliseconds pass before the backend looks round for the first time.
pub const FIRST_PAUSE: u64 = 500;

/// How many milliseconds pass between two looks.
pub const PAUSE: u64 = 30_000;

/// How far the backend is in stopping.
#[derive(Debug, Clone, Copy, PartialEq, Eq, Structural)]
pub struct Monitor {
    /// For how many milliseconds the backend is known to have been alone; nothing where it was
    /// not alone at the last look.
    pub alone: Option<u64>,
    /// Whether the backend has not looked round yet.
    pub first: bool,
}

/// What the backend does after it has looked round.
#[derive(Debug, Clone, Copy, PartialEq, Eq, Structural)]
pub struct Tick {
    /// How many proxies there are.
    pub count: i32,
    /// For how many milliseconds the backend is known to have been alone, where it is.
    pub alone: Option<u64>,
    /// Whether the backend stops.
    pub stop: bool,
}

/// How many proxies there are: those that do not run are not counted.
pub open spec fn counted(count: i32, serve_alive: bool) -> i32 {
    if count > 0 && !serve_alive {
        0
    } else {
        count
    }
}

impl Monitor {
    /// Whether the backend has not stopped yet.
    pub open spec fn running(self) -> bool {
        self.alone matches Some(ms) ==> ms < IDLE_LIMIT
    }

    /// How many milliseconds pass before the backend looks round.
    pub open spec fn next_pause(self) -> u64 {
        if self.first {
            FIRST_PAUSE
        } else {
            PAUSE
        }
    }

    /// What the backend does when the count says `count` and proxies run or not. It is known to
    /// have been alone since the first of the looks in a row at which it was, and stops once that
    /// is long enough.
    pub open spec fn ticked(self, count: i32, serve_alive: bool) -> Tick {
        let alone = if counted(count, serve_alive) == 0 && !serve_alive {
            match self.alone {
                Some(ms) => Some((ms + self.next_pause()) as u64),
                None => Some(0u64),
            }
        } else {
            None
        };
        Tick {
            count: counted(count, serve_alive),
            alone,
            stop: alone is Some && alone->0 >= IDLE_LIMIT,
        }
    }

    /// The backend before it has looked round.
    pub fn start() -> (r: Monitor)
        ensures
            r == (Monitor { alone: None, first: true }),
            r.running(),
    {
        Monitor { alone: None, first: true }
    }

    /// How many milliseconds pass before the backend looks round: half a second at first,
    /// then half a minute.
    pub fn pause(&self) -> (r: u64)
        ensures
            r == self.next_pause(),
    {
        if self.first {
            FIRST_PAUSE
        } else {
            PAUSE
        }
    }

    /// What the backend does when the count says `count` and proxies run or not.
    pub fn tick(&mut self, count: i32, serve_alive: bool) -> (r: Tick)
        requires
            old(self).running(),
        ensures
            r == old(self).ticked(count, serve_alive),
            *final(self) == (Monitor { alone: r.alone, first: false }),
            !r.stop ==> final(self).running(),
    {
        let counted: i32 = if count > 0 && !serve_alive {
            0
        } else {
            count
        };
        let alone: Option<u64> = if counted == 0 && !serve_alive {
            match self.alone {
                Some(ms) => Some(ms + self.pause()),
                None => Some(0),
            }
        } else {
            None
        };
        let stop = match alone {
            Some(ms) => ms >= IDLE_LIMIT,
            None => false,
        };
        self.alone = alone;
        self.first = false;
        Tick { count: counted, alone, stop }
    }
}

/// When a backend that looks round again and again stops: the number of looks that it has
/// taken by then. At each look, the count and whether proxies run.
pub open spec fn stops_after(monitor: Monitor, looks: Seq<(i32, bool)>) -> Option<nat>
    decreases looks.len(),
{
    if looks.len() == 0 {
        None
    } else {
        let tick = monitor.ticked(looks[0].0, looks[0].1);
        if tick.stop {
            Some(1)
        } else {
            match stops_after(Monitor { alone: tick.alone, first: false }, looks.drop_first()) {
                Some(n) => Some(n + 1),
                None => None,
            }
        }
    }
}

/// The moment of look `i`, in milliseconds since the start.
pub open spec fn moment_of_look(i: int) -> int {
    FIRST_PAUSE + i * PAUSE
}

/// Whether the backend is alone from look `from` to look `to`.
pub open spec fn alone_between(looks: Seq<(i32, bool)>, from: int, to: int) -> bool {
    0 <= from <= to < looks.len() && forall|j: int| from <= j <= to ==> !(#[trigger] looks[j]).1
}

/// Whether at look `i` the backend has been alone for a minute.
pub open spec fn alone_for_a_minute(looks: Seq<(i32, bool)>, i: int) -> bool {
    exists|from: int|
        #[trigger] alone_between(looks, from, i) && moment_of_look(i) - moment_of_look(from)
            >= IDLE_LIMIT
}

/// A backend stops at the first look at which it has been alone for a minute, whatever the count
/// says, and not before. A proxy that runs at a look in between restarts the wait.
pub proof fn the_backend_stops_after_a_minute_alone(looks: Seq<(i32, bool)>, n: nat)
    requires
        forall|i: int| 0 <= i < looks.len() ==> 0 <= (#[trigger] looks[i]).0,
    ensures
        stops_after(Monitor { alone: None, first: true }, looks) == Some(n)
            <==> alone_for_a_minute(looks, n - 1) && forall|i: int|
            0 <= i < n - 1 ==> !alone_for_a_minute(looks, i),
{
    let monitor = Monitor { alone: None, first: true };
    stopping(monitor, looks, n);
    assert forall|i: int| #![trigger alone_for_a_minute(looks, i)]
        ends_at(monitor, looks, i) == alone_for_a_minute(looks, i) by {
        if ends_at(monitor, looks, i) {
            assert(alone_between(looks, i - 2, i));
        }
        if alone_for_a_minute(looks, i) {
            let from = choose|from: int|
                #[trigger] alone_between(looks, from, i) && moment_of_look(i) - moment_of_look(
                    from,
                ) >= IDLE_LIMIT;
            assert(from <= i - 2);
            assert(!looks[i].1 && !looks[i - 1].1 && !looks[i - 2].1);
        }
    }
    assert forall|i: int| #![trigger ends_at(monitor, looks, i)]
        ends_at(monitor, looks, i) == alone_for_a_minute(looks, i) by {
        assert(alone_for_a_minute(looks, i) == ends_at(monitor, looks, i));
    }
}

/// Whether the backend is alone at look `i`, and was so at the two before it, some of which the
/// monitor remembers.
spec fn ends_at(monitor: Monitor, looks: Seq<(i32, bool)>, i: int) -> bool {
    &&& 0 <= i < looks.len()
    &&& !looks[i].1
    &&& if i >= 1 {
        !looks[i - 1].1
    } else {
        monitor.alone is Some
    }
    &&& if i >= 2 {
        !looks[i - 2].1
    } else if i == 1 {
        monitor.alone is Some
    } else {
        monitor.alone == Some(PAUSE)
    }
}

/// The same of a backend that may already have been alone.
proof fn stopping(monitor: Monitor, looks: Seq<(i32, bool)>, n: nat)
    requires
        monitor.alone is Some ==> !monitor.first,
        monitor.alone is None || monitor.alone == Some(0u64) || monitor.alone == Some(PAUSE),
        forall|i: int| 0 <= i < looks.len() ==> 0 <= (#[trigger] looks[i]).0,
    ensures
        stops_after(monitor, looks) == Some(n) <==> ends_at(monitor, looks, n - 1) && forall|i: int|
            0 <= i < n - 1 ==> !ends_at(monitor, looks, i),
    decreases looks.len(),
{
    if looks.len() > 0 {
        assert(0 <= looks[0].0);
        let tick = monitor.ticked(looks[0].0, looks[0].1);
        assert(tick.stop == ends_at(monitor, looks, 0));
        let rest = looks.drop_first();
        assert forall|i: int| 0 <= i < rest.len() implies 0 <= (#[trigger] rest[i]).0 by {
            assert(0 <= looks[i + 1].0);
        }
        if !tick.stop {
            let next = Monitor { alone: tick.alone, first: false };
            assert forall|i: int| 0 <= i < rest.len() implies ends_at(next, rest, i) == ends_at(
                monitor,
                looks,
                i + 1,
            ) by {
                assert(rest[i] == looks[i + 1]);
                if i >= 1 {
                    assert(rest[i - 1] == looks[i]);
                }
                if i >= 2 {
                    assert(rest[i - 2] == looks[i - 1]);
                }
            }
            if n > 0 {
                stopping(next, rest, (n - 1) as nat);
                if ends_at(monitor, looks, n - 1) && (forall|i: int|
                    0 <= i < n - 1 ==> !ends_at(monitor, looks, i)) {
                    assert forall|i: int| 0 <= i < n - 2 implies !ends_at(next, rest, i) by {
                        assert(!ends_at(monitor, looks, i + 1));
                    }
                }
                if stops_after(next, rest) == Some((n - 1) as nat) {
                    assert forall|i: int| 0 <= i < n - 1 implies !ends_at(monitor, looks, i) by {
                        if i > 0 {
                            assert(!ends_at(next, rest, i - 1));
                        }
                    }
                }
            }
        } else if n > 1 {
            assert(ends_at(monitor, looks, 0));
        }
    }
}

// ---------------------------------------------------------------------------
// Laws of the proxy and the backend together
// ---------------------------------------------------------------------------

/// What the database is asked when the proxy carries out a call for a scope.
pub open spec fn asked(call: BackendCallView, scope: ScopeView, now: TimestampView) -> PlanView {
    match request_of(
        tool_message(call.name, call.arguments, call.workspace, call.source, scope.client),
    ) {
        Some(request) => plan(request, now),
        None => PlanView::Reject(Seq::empty()),
    }
}

/// A search asks the database for what the agent may see and no more. Where it reaches no
/// further, or has been denied to, it is confined to the agent's own workspace and source, or
/// those that the agent names. Across agents it is confined to the workspace, and only a search
/// of everything is not confined at all.
pub proof fn a_search_stays_within_its_reach(params: JsonView, scope: ScopeView, now: TimestampView)
    requires
        scope.enabled,
        called_tool(params) == "memory_search"@,
    ensures
        tool_step(params, scope).0 matches ToolStepView::Call(call) ==> {
            let args = call_arguments(params);
            let confined = !reaches_beyond(args) || scope.cross_allowed() == Some(false);
            &&& asked(call, scope, now) matches PlanView::Search(q)
            &&& q.query == text_or_default(args, "query"@, Seq::empty())
            &&& q.source == if confined {
                argument_or(args, "source"@, scope.default_source)
            } else {
                None
            }
            &&& q.workspace == if confined || requested_reach(args) != "all"@ {
                argument_or(args, "workspace"@, scope.default_workspace)
            } else {
                None
            }
        },
{
    reveal_strlit("memory_search");
    reveal_strlit("memory_set_enabled");
    reveal_strlit("memory_unlock_cross_scope");
    assert("memory_search"@.len() == 13);
    assert("memory_set_enabled"@.len() == 18);
    assert("memory_unlock_cross_scope"@.len() == 25);
    match tool_step(params, scope).0 {
        ToolStepView::Call(call) => {
            what_is_sent_is_received(
                call.name,
                call.arguments,
                call.workspace,
                call.source,
                scope.client,
            );
        },
        _ => {},
    }
}

/// A workspace that the backend has registered is the agent's from then on: searches are
/// confined to it, unless the agent names another.
pub proof fn a_registered_workspace_is_taken_up(
    content: Seq<char>,
    workspace: Seq<char>,
    port: u16,
    scope: ScopeView,
)
    requires
        found_workspace(content) == Some(workspace),
    ensures
        ({
            let reply = Ok::<(ResponseView, u16), Seq<char>>(
                (ResponseView { content, is_error: false }, port),
            );
            let (answer, then) = call_result(CallKind::FindWorkspace, reply, scope);
            &&& answer == Ok::<Seq<char>, Seq<char>>(content)
            &&& then == (ScopeView {
                default_workspace: Some(workspace),
                server_port: port,
                ..scope
            })
        }),
{
}

// ---------------------------------------------------------------------------
// What each tool asks of the database, and what it answers
// ---------------------------------------------------------------------------

proof fn tools_differ()
    ensures
        "memory_search"@ != "memory_get_entry"@,
        "memory_search"@ != "memory_list_sessions"@,
        "memory_search"@ != "memory_get_session"@,
        "memory_search"@ != "memory_find_workspace"@,
        "memory_search"@ != "memory_record_summary"@,
        "memory_get_entry"@ != "memory_list_sessions"@,
        "memory_get_entry"@ != "memory_get_session"@,
        "memory_get_entry"@ != "memory_find_workspace"@,
        "memory_get_entry"@ != "memory_record_summary"@,
        "memory_list_sessions"@ != "memory_get_session"@,
        "memory_list_sessions"@ != "memory_find_workspace"@,
        "memory_list_sessions"@ != "memory_record_summary"@,
        "memory_get_session"@ != "memory_find_workspace"@,
        "memory_get_session"@ != "memory_record_summary"@,
        "memory_find_workspace"@ != "memory_record_summary"@,
{
    reveal_strlit("memory_search");
    reveal_strlit("memory_get_entry");
    reveal_strlit("memory_list_sessions");
    reveal_strlit("memory_get_session");
    reveal_strlit("memory_find_workspace");
    reveal_strlit("memory_record_summary");
    assert("memory_search"@.len() == 13);
    assert("memory_get_entry"@.len() == 16);
    assert("memory_list_sessions"@.len() == 20);
    assert("memory_get_session"@.len() == 18);
    assert("memory_find_workspace"@.len() == 21 && "memory_find_workspace"@[7] == 'f');
    assert("memory_record_summary"@.len() == 21 && "memory_record_summary"@[7] == 'r');
}

/// A search asks for what its arguments say, each filter as it is given, for at most twenty
/// entries where no limit is given, in the workspace and the source that the proxy settled on.
pub proof fn a_search_asks_for_what_it_says(request: ToolRequestView, now: TimestampView)
    requires
        request.name == "memory_search"@,
    ensures
        plan(request, now) matches PlanView::Search(q) && {
            let args = request.arguments;
            &&& args.text_field("query"@) matches Some(t) ==> q.query == t
            &&& args.text_field("query"@) is None ==> q.query.len() == 0
            &&& q.date == args.text_field("date"@)
            &&& q.date_from == args.text_field("date_from"@)
            &&& q.date_to == args.text_field("date_to"@)
            &&& q.entry_type == args.text_field("type"@)
            &&& q.session_id == args.text_field("session_id"@)
            &&& args.integer_field("limit"@) matches Some(n) ==> q.limit == n
            &&& args.integer_field("limit"@) is None ==> q.limit == 20
            &&& q.workspace == request.workspace
            &&& q.source == request.source
        },
{
}

/// The list of sessions is asked for with the date and the limit that are given, in the workspace
/// that the proxy settled on, and for at most ten sessions where no limit is given.
pub proof fn sessions_are_listed_as_asked(request: ToolRequestView, now: TimestampView)
    requires
        request.name == "memory_list_sessions"@,
    ensures
        plan(request, now) matches PlanView::ListSessions { date, limit, workspace } && {
            &&& date == request.arguments.text_field("date"@)
            &&& workspace == request.workspace
            &&& request.arguments.integer_field("limit"@) matches Some(n) ==> limit == n
            &&& request.arguments.integer_field("limit"@) is None ==> limit == 10
        },
{
    tools_differ();
}

/// The history of a session is that of the session that is named, whatever else is; without one,
/// that of the date, or of the dates from the first to the last, where one that is missing leaves
/// the range open. It is confined to the type that is given, if one is, and to the limit, or
/// fifty. Without any of these the call is wrong.
pub proof fn a_history_is_asked_for_as_it_is_named(request: ToolRequestView, now: TimestampView)
    requires
        request.name == "memory_get_session"@,
    ensures
        ({
            let args = request.arguments;
            let entry_type = args.text_field("type"@);
            let limit: i64 = if args.integer_field("limit"@) is Some {
                args.integer_field("limit"@)->0
            } else {
                50
            };
            let session = args.text_field("session_id"@);
            let date = args.text_field("date"@);
            let first = args.text_field("date_from"@);
            let last = args.text_field("date_to"@);
            let asked = plan(request, now);
            &&& session is Some ==> asked == (PlanView::SessionEntries {
                session_id: session->0,
                entry_type,
                limit,
            })
            &&& session is None && date is Some ==> asked == (PlanView::DateRange {
                from: date->0,
                to: date->0,
                entry_type,
                limit,
            })
            &&& session is None && date is None && first is Some && last is Some ==> asked == (
            PlanView::DateRange { from: first->0, to: last->0, entry_type, limit })
            &&& session is None && date is None && first is Some && last is None ==> asked == (
            PlanView::DateRange { from: first->0, to: "2099-12-31"@, entry_type, limit })
            &&& session is None && date is None && first is None && last is Some ==> asked == (
            PlanView::DateRange { from: "2000-01-01"@, to: last->0, entry_type, limit })
            &&& session is None && date is None && first is None && last is None ==> asked
                == PlanView::Reject("Provide session_id or date/date_from/date_to"@)
        }),
{
    tools_differ();
}

/// A session is registered where it has a name and a place, the one that the call names or else
/// the agent's. A note is left in that place, and an entry in the database, both dated now; the
/// note may be given another beginning. Without a name or a place the call is wrong.
pub proof fn a_session_is_registered_where_it_takes_place(
    request: ToolRequestView,
    now: TimestampView,
    id: Seq<char>,
    place: Seq<char>,
)
    requires
        request.name == "memory_find_workspace"@,
    ensures
        ({
            let args = request.arguments;
            let named = args.text_field("conversation_id"@);
            let there = args.text_field("workspace"@);
            &&& named is None || named->0.len() == 0 ==> plan(request, now) == PlanView::Reject(
                "conversation_id is required"@,
            )
            &&& named == Some(id) && id.len() > 0 && there is None && request.workspace is None
                ==> plan(request, now) == PlanView::Reject(
                "workspace is required. Pass it as a tool argument: workspace=\"/your/workspace/path\""@,
            )
            &&& named == Some(id) && id.len() > 0 && (there == Some(place) || there is None
                && request.workspace == Some(place)) ==> (plan(request, now) matches PlanView::Register(
                r,
            ) && {
                &&& r.conversation_id == id
                &&& r.workspace == place
                &&& r.dir == joined(place, ".agents-relay"@)
                &&& r.file == joined(joined(place, ".agents-relay"@), "session.json"@)
                &&& r.note == pretty(
                    JsonView::Object(
                        map![
                            "conversation_id"@ => JsonView::Text(id),
                            "workspace"@ => JsonView::Text(place),
                            "started_at"@ => JsonView::Text(match args.text_field("started_at"@) {
                                Some(t) => t,
                                None => now.iso,
                            }),
                        ],
                    ),
                )
                &&& r.entry == (NewEntryView {
                    session_id: id,
                    timestamp: now.iso,
                    date: now.date,
                    time: now.time,
                    entry_type: "system"@,
                    tool_name: Some("session_start"@),
                    content: "Session Started in workspace: "@ + place,
                    cwd: Some(place),
                    source: if request.source is Some {
                        request.source->0
                    } else if request.client is Some {
                        request.client->0
                    } else {
                        "unknown"@
                    },
                })
            })
        }),
{
    tools_differ();
    if request.arguments.text_field("conversation_id"@) is Some && id.len() == 0 {
        assert(id =~= Seq::empty());
    }
}

/// A summary is kept as it is given, after its tags where it has any, for the session that is
/// named or for all agents' summaries, in the workspace that the proxy settled on. An empty one
/// is not kept.
pub proof fn a_summary_is_kept_as_it_is_given(
    request: ToolRequestView,
    now: TimestampView,
    summary: Seq<char>,
)
    requires
        request.name == "memory_record_summary"@,
    ensures
        ({
            let args = request.arguments;
            let given = args.text_field("summary"@);
            let tags = args.text_field("tags"@);
            &&& given is None || given->0.len() == 0 ==> plan(request, now) == PlanView::Reject(
                "summary parameter is required"@,
            )
            &&& given == Some(summary) && summary.len() > 0 ==> plan(request, now)
                == PlanView::Record(
                NewEntryView {
                    session_id: match args.text_field("session_id"@) {
                        Some(id) => id,
                        None => "agent-summary"@,
                    },
                    timestamp: now.iso,
                    date: now.date,
                    time: now.time,
                    entry_type: "summary"@,
                    tool_name: Some("skill_hook"@),
                    content: if tags is Some && tags->0.len() > 0 {
                        "[Tags: "@ + tags->0 + "]\n"@ + summary
                    } else {
                        summary
                    },
                    cwd: request.workspace,
                    source: if request.source is Some {
                        request.source->0
                    } else if request.client is Some {
                        request.client->0
                    } else {
                        "unknown"@
                    },
                },
            )
        }),
{
    tools_differ();
}

/// A tool that does not exist cannot be called.
pub proof fn there_are_no_other_tools(request: ToolRequestView, now: TimestampView)
    requires
        request.name != "memory_search"@,
        request.name != "memory_get_entry"@,
        request.name != "memory_list_sessions"@,
        request.name != "memory_get_session"@,
        request.name != "memory_find_workspace"@,
        request.name != "memory_record_summary"@,
    ensures
        plan(request, now) == PlanView::Reject("Unknown tool: "@ + request.name),
{
}

/// The body of a request is a tool call where it names a tool and has arguments, and what it says
/// of the workspace, the source and the agent is a text or null. It can be an object, or an array
/// of all five in that order.
pub proof fn a_tool_call_is_received_as_it_is_written(
    m: Map<Seq<char>, JsonView>,
    items: Seq<JsonView>,
    name: Seq<char>,
    arguments: JsonView,
    workspace: Option<Seq<char>>,
    source: Option<Seq<char>>,
    client: Option<Seq<char>>,
)
    ensures
        ({
            let call = ToolRequestView { name, arguments, workspace, source, client };
            let object = JsonView::Object(m);
            let array = JsonView::Array(items);
            &&& object.field("name"@) == Some(JsonView::Text(name)) && object.field("arguments"@)
                == Some(arguments) && says_text(object.field("workspace"@), workspace)
                && says_text(object.field("source"@), source) && says_text(
                object.field("client"@),
                client,
            ) ==> request_of(object) == Some(call)
            &&& items == seq![
                JsonView::Text(name),
                arguments,
                text_or_null(workspace),
                text_or_null(source),
                text_or_null(client),
            ] ==> request_of(array) == Some(call)
            &&& object.text_field("name"@) is None || object.field("arguments"@) is None
                ==> request_of(object) is None
            &&& !says_text_or_nothing(object.field("workspace"@)) || !says_text_or_nothing(
                object.field("source"@),
            ) || !says_text_or_nothing(object.field("client"@)) ==> request_of(object) is None
            &&& items.len() != 5 ==> request_of(array) is None
            &&& !(arguments is Object) && !(arguments is Array) ==> request_of(arguments) is None
        }),
{
}

/// Whether a member says an optional text: it is the text, or null or not there where there is none.
pub open spec fn says_text(member: Option<JsonView>, text: Option<Seq<char>>) -> bool {
    match text {
        Some(t) => member == Some(JsonView::Text(t)),
        None => member is None || member == Some(JsonView::Null),
    }
}

/// Whether a member says an optional text at all.
pub open spec fn says_text_or_nothing(member: Option<JsonView>) -> bool {
    member is None || member->0 is Null || member->0 is Text
}

/// What is carried out is answered with its text, and what fails with an error.
pub proof fn failures_are_answered_as_errors(text: Seq<char>)
    ensures
        response_to(Ok::<Seq<char>, Seq<char>>(text)) == (ResponseView {
            content: text,
            is_error: false,
        }),
        response_to(Err::<Seq<char>, Seq<char>>(text)) == (ResponseView {
            content: "Error: "@ + text,
            is_error: true,
        }),
        response_message(ResponseView { content: text, is_error: true }) == JsonView::Object(
            map!["content"@ => JsonView::Text(text), "is_error"@ => JsonView::Bool(true)],
        ),
        response_message(ResponseView { content: text, is_error: false }) == JsonView::Object(
            map!["content"@ => JsonView::Text(text), "is_error"@ => JsonView::Bool(false)],
        ),
{
}

/// An agent gets of an entry all that the database has of it, under these names. Among the others
/// of its session it gets less, as the date, the place and the branch are left out.
pub proof fn entries_are_shown_with_all_they_have(e: EntryView, i: int, entries: Seq<EntryView>)
    ensures
        entry_value(e) == JsonView::Object(
            map![
                "id"@ => JsonView::Number(number_of_i64(e.id)),
                "session_id"@ => JsonView::Text(e.session_id),
                "timestamp"@ => JsonView::Text(e.timestamp),
                "date"@ => JsonView::Text(e.date),
                "time"@ => JsonView::Text(e.time),
                "type"@ => JsonView::Text(e.entry_type),
                "tool_name"@ => text_or_null(e.tool_name),
                "content"@ => JsonView::Text(e.content),
                "cwd"@ => text_or_null(e.cwd),
                "git_branch"@ => text_or_null(e.git_branch),
                "source"@ => JsonView::Text(e.source),
            ],
        ),
        session_entry_value(e) == JsonView::Object(
            map![
                "id"@ => JsonView::Number(number_of_i64(e.id)),
                "session_id"@ => JsonView::Text(e.session_id),
                "timestamp"@ => JsonView::Text(e.timestamp),
                "time"@ => JsonView::Text(e.time),
                "type"@ => JsonView::Text(e.entry_type),
                "tool_name"@ => text_or_null(e.tool_name),
                "content"@ => JsonView::Text(e.content),
                "source"@ => JsonView::Text(e.source),
            ],
        ),
        text_or_null(None) == JsonView::Null,
        text_or_null(Some(e.content)) == JsonView::Text(e.content),
        entry_values(entries) matches JsonView::Array(shown) && shown.len() == entries.len() && (0
            <= i < entries.len() ==> shown[i] == entry_value(entries[i])),
        session_entry_values(entries) matches JsonView::Array(shown) && shown.len()
            == entries.len() && (0 <= i < entries.len() ==> shown[i] == session_entry_value(
            entries[i],
        )),
{
}

/// An agent gets of a session when it began and ended, its date, and how many entries it has.
pub proof fn sessions_are_shown_with_all_they_have(
    s: SummaryView,
    i: int,
    sessions: Seq<SummaryView>,
)
    ensures
        summary_value(s) == JsonView::Object(
            map![
                "session_id"@ => JsonView::Text(s.session_id),
                "first_timestamp"@ => JsonView::Text(s.first_timestamp),
                "last_timestamp"@ => JsonView::Text(s.last_timestamp),
                "date"@ => JsonView::Text(s.date),
                "entry_count"@ => JsonView::Number(number_of_i64(s.entry_count)),
            ],
        ),
        summary_values(sessions) matches JsonView::Array(shown) && shown.len() == sessions.len()
            && (0 <= i < sessions.len() ==> shown[i] == summary_value(sessions[i])),
{
}

/// What the database gave is the answer: the entries of a search with all they have, those of a
/// history in short, the sessions, the one entry or that there is none, and of what was put into
/// the database that it is there. A call that is wrong, and a database that fails, are answered
/// with the reason.
pub proof fn what_was_found_is_answered(
    asked: PlanView,
    entries: Seq<EntryView>,
    e: EntryView,
    sessions: Seq<SummaryView>,
    id: i64,
    reason: Seq<char>,
    found: Result<FoundView, Seq<char>>,
)
    ensures
        answer_to(PlanView::Reject(reason), found) == Err::<Seq<char>, Seq<char>>(reason),
        !(asked is Reject) ==> answer_to(asked, Err(reason)) == Err::<Seq<char>, Seq<char>>(reason),
        asked is Search ==> answer_to(asked, Ok(FoundView::Entries(entries))) == Ok::<
            Seq<char>,
            Seq<char>,
        >(pretty(entry_values(entries))),
        asked is SessionEntries || asked is DateRange ==> answer_to(
            asked,
            Ok(FoundView::Entries(entries)),
        ) == Ok::<Seq<char>, Seq<char>>(pretty(session_entry_values(entries))),
        asked is ListSessions ==> answer_to(asked, Ok(FoundView::Sessions(sessions))) == Ok::<
            Seq<char>,
            Seq<char>,
        >(pretty(summary_values(sessions))),
        asked is GetEntry ==> answer_to(asked, Ok(FoundView::Entry(Some(e)))) == Ok::<
            Seq<char>,
            Seq<char>,
        >(pretty(entry_value(e))),
        asked == (PlanView::GetEntry { id }) ==> answer_to(asked, Ok(FoundView::Entry(None)))
            == Ok::<Seq<char>, Seq<char>>(
            "No entry found with id: "@ + signed_decimal(id as int),
        ),
        asked matches PlanView::Register(r) ==> answer_to(asked, Ok(FoundView::Inserted(id)))
            == Ok::<Seq<char>, Seq<char>>(
            compact(
                JsonView::Object(
                    map![
                        "status"@ => JsonView::Text("success"@),
                        "conversation_id"@ => JsonView::Text(r.conversation_id),
                        "workspace"@ => JsonView::Text(r.workspace),
                        "message"@ => JsonView::Text(
                            "Session registered and session.json written."@,
                        ),
                    ],
                ),
            ),
        ),
        asked is Record ==> answer_to(asked, Ok(FoundView::Inserted(id))) == Ok::<
            Seq<char>,
            Seq<char>,
        >(
            compact(
                JsonView::Object(
                    map![
                        "status"@ => JsonView::Text("success"@),
                        "id"@ => JsonView::Number(number_of_i64(id)),
                        "message"@ => JsonView::Text(
                            "Successfully recorded summary with ID "@ + signed_decimal(id as int),
                        ),
                    ],
                ),
            ),
        ),
{
}

/// The backend says of itself that it is well, its version, when its program file was written, and
/// how many proxies there are.
pub proof fn a_backend_says_how_it_is(binary_mtime: u64, client_count: i32)
    ensures
        health_value(binary_mtime, client_count) == JsonView::Object(
            map![
                "status"@ => JsonView::Text("ok"@),
                "version"@ => JsonView::Text("0.2.0"@),
                "binary_mtime"@ => JsonView::Number(number_of_u64(binary_mtime)),
                "client_count"@ => JsonView::Number(number_of_i64(client_count as i64)),
            ],
        ),
{
}

/// At each look the backend keeps its count of proxies while any runs, and counts none where none
/// does. It looks for the first time after half a second, and then every half minute.
pub proof fn proxies_that_do_not_run_are_not_counted(monitor: Monitor, count: i32)
    requires
        monitor.running(),
        0 <= count,
    ensures
        monitor.ticked(count, true) == (Tick { count, alone: None, stop: false }),
        monitor.ticked(count, false).count == 0,
        monitor.ticked(count, false).alone is Some,
        IDLE_LIMIT == 60_000,
        monitor.next_pause() == if monitor.first {
            500u64
        } else {
            30_000u64
        },
{
}

/// The body of a request is refused where it is no JSON, and where it is JSON but no tool call.
pub proof fn a_body_is_refused_for_its_reason(body: Seq<char>)
    ensures
        parsed(body) is None <==> received(body) == Err::<ToolRequestView, BadRequest>(
            BadRequest::NotJson,
        ),
        parsed(body) is Some && request_of(parsed(body)->0) is None <==> received(body) == Err::<
            ToolRequestView,
            BadRequest,
        >(BadRequest::NotACall),
        parsed(body) matches Some(message) ==> (request_of(message) matches Some(request)
            ==> received(body) == Ok::<ToolRequestView, BadRequest>(request)),
{
}

/// What a tool call and a plan say is what their fields hold, one by one.
pub proof fn requests_and_plans_say_what_they_hold(
    request: ToolRequest,
    q: SearchQuery,
    r: Registration,
    e: NewEntry,
    a: Option<String>,
    b: Option<String>,
    s: String,
    t: String,
    n: i64,
    failure: Failure,
    entries: Vec<RawEntry>,
    sessions: Vec<SessionSummary>,
    found: Found,
)
    ensures
        found_view(Ok(found)) == Ok::<FoundView, Seq<char>>(found@),
        found_view(Err(failure)) == Err::<FoundView, Seq<char>>(failure@),
        Found::Entries(entries)@ == FoundView::Entries(entries_of(entries@)),
        Found::Sessions(sessions)@ == FoundView::Sessions(summaries_of(sessions@)),
        Found::Entry(None)@ == FoundView::Entry(None),
        entries@.len() > 0 ==> Found::Entry(Some(entries@[0]))@ == FoundView::Entry(
            Some(entries@[0]@),
        ),
        Found::Inserted(n)@ == FoundView::Inserted(n),
        request@.name == request.name@ && request@.arguments == request.arguments@
            && request@.workspace == owned_text(request.workspace) && request@.source == owned_text(
            request.source,
        ) && request@.client == owned_text(request.client),
        q@.query == q.query@ && q@.date == owned_text(q.date) && q@.date_from == owned_text(
            q.date_from,
        ) && q@.date_to == owned_text(q.date_to) && q@.entry_type == owned_text(q.entry_type)
            && q@.session_id == owned_text(q.session_id) && q@.limit == q.limit && q@.workspace
            == owned_text(q.workspace) && q@.source == owned_text(q.source),
        r@.conversation_id == r.conversation_id@ && r@.workspace == r.workspace@ && r@.dir
            == r.dir@ && r@.file == r.file@ && r@.note == r.note@ && r@.entry == r.entry@,
        ToolPlan::Search(q)@ == PlanView::Search(q@),
        (ToolPlan::GetEntry { id: n })@ == (PlanView::GetEntry { id: n }),
        (ToolPlan::ListSessions { date: a, limit: n, workspace: b })@ == (PlanView::ListSessions {
            date: owned_text(a),
            limit: n,
            workspace: owned_text(b),
        }),
        (ToolPlan::SessionEntries { session_id: s, entry_type: a, limit: n })@ == (
        PlanView::SessionEntries { session_id: s@, entry_type: owned_text(a), limit: n }),
        (ToolPlan::DateRange { from: s, to: t, entry_type: a, limit: n })@ == (PlanView::DateRange {
            from: s@,
            to: t@,
            entry_type: owned_text(a),
            limit: n,
        }),
        ToolPlan::Register(r)@ == PlanView::Register(r@),
        ToolPlan::Record(e)@ == PlanView::Record(e@),
        ToolPlan::Reject(failure)@ == PlanView::Reject(failure@),
{
}

} // verus!
