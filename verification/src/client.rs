//! What the proxy and the backend say to each other, and how the proxy gets a
//! backend to talk to.

use vstd::prelude::*;

use crate::decimal::{
    a_written_number_is_read_back, decimal, decimal_is_digits, decimal_text, digit_value,
    parse_unsigned, unsigned_value,
};
use crate::failure::Failure;
use crate::json::{parse_json, parsed, text_or_null, Json, JsonObject, JsonView};
use crate::paths::{relay_file, relay_path_at_home};
use crate::text::{glue3, text_of, trim, trim_back, trimmed};

verus! {

/// The port of the backend, unless the port file names another.
pub const DEFAULT_PORT: u16 = 54322;

/// How often the proxy looks for the backend that it has started.
pub const STARTUP_LOOKS: u32 = 50;

// ---------------------------------------------------------------------------
// Addresses
// ---------------------------------------------------------------------------

/// The address of `path` on the backend.
pub open spec fn address(port: u16, path: Seq<char>) -> Seq<char> {
    "http://127.0.0.1:"@ + decimal(port as nat) + path
}

/// The port that the port file names, where it was read and names one.
pub open spec fn port_in(contents: Option<Seq<char>>) -> u16 {
    match contents {
        Some(t) => match unsigned_value(trim(t), u16::MAX as int) {
            Ok(p) => p as u16,
            Err(_) => DEFAULT_PORT,
        },
        None => DEFAULT_PORT,
    }
}

fn url(port: u16, path: &str) -> (r: String)
    ensures
        r@ == address(port, path@),
{
    glue3("http://127.0.0.1:", decimal_text(port as u64).as_str(), path)
}

/// Where the backend says how it is.
pub fn health_url(port: u16) -> (r: String)
    ensures
        r@ == address(port, "/health"@),
{
    url(port, "/health")
}

/// Where the backend takes tool calls.
pub fn tool_url(port: u16) -> (r: String)
    ensures
        r@ == address(port, "/tool"@),
{
    url(port, "/tool")
}

/// Where a proxy tells the backend that it has come.
pub fn register_url(port: u16) -> (r: String)
    ensures
        r@ == address(port, "/register"@),
{
    url(port, "/register")
}

/// Where a proxy tells the backend that it goes.
pub fn deregister_url(port: u16) -> (r: String)
    ensures
        r@ == address(port, "/deregister"@),
{
    url(port, "/deregister")
}

/// The file in which the backend notes its port.
pub fn port_file_path() -> (r: String)
    ensures
        exists|home: Option<Seq<char>>| r@ == #[trigger] relay_file(home, "server.port"@),
{
    relay_path_at_home("server.port")
}

/// The port that the port file names.
pub fn read_server_port(contents: Option<&str>) -> (r: u16)
    ensures
        r == port_in(text_of(contents)),
{
    match contents {
        Some(t) => match parse_unsigned(trimmed(t).as_str(), u16::MAX as u64) {
            Ok(p) => p as u16,
            Err(_) => DEFAULT_PORT,
        },
        None => DEFAULT_PORT,
    }
}

/// What the backend writes into the port file.
pub fn port_note(port: u16) -> (r: String)
    ensures
        r@ == decimal(port as nat),
{
    decimal_text(port as u64)
}

/// The proxy reads in the port file the port that the backend wrote there, also where the
/// file has been edited and a line break has come behind it.
pub proof fn the_port_file_is_read_back(port: u16)
    ensures
        port_in(Some(decimal(port as nat))) == port,
        port_in(Some(decimal(port as nat).push('\n'))) == port,
{
    let note = decimal(port as nat);
    decimal_is_digits(port as nat);
    a_written_number_is_read_back(port as nat, u16::MAX as int);
    assert(digit_value(note[0]) is Some);
    assert(digit_value(note[note.len() - 1]) is Some);
    assert(trim(note) == note);
    let edited = note.push('\n');
    assert(edited.drop_last() =~= note);
    reveal_with_fuel(trim_back, 2);
    assert(trim(edited) == note);
}

/// Whether the backend lives: it does when it answered a health request with JSON.
pub open spec fn lives(answer: Option<Seq<char>>) -> bool {
    match answer {
        Some(t) => parsed(t) is Some,
        None => false,
    }
}

/// Whether the backend lives.
pub fn is_server_alive(answer: Option<&str>) -> (r: bool)
    ensures
        r == lives(text_of(answer)),
{
    match answer {
        Some(t) => parse_json(t).is_some(),
        None => false,
    }
}

/// What a look for the backend finds.
#[derive(Debug, Clone, Copy, PartialEq, Eq, Structural)]
pub enum Backend {
    /// No backend answers.
    Absent,
    /// A backend answers.
    Current,
    /// A backend answers that runs an older program file than the proxy.
    Outdated,
}

/// What an answer to a health request shows, seen from a proxy whose program file was
/// written at `own_mtime`. A backend that does not know when its own was written says 0.
pub open spec fn backend_shown(answer: Option<Seq<char>>, own_mtime: u64) -> Backend {
    match answer {
        Some(t) => match parsed(t) {
            Some(health) => backend_in(health, own_mtime),
            None => Backend::Absent,
        },
        None => Backend::Absent,
    }
}

/// What a health report shows.
pub open spec fn backend_in(health: JsonView, own_mtime: u64) -> Backend {
    match health.integer_field("binary_mtime"@) {
        Some(m) => if 0 < m < own_mtime {
            Backend::Outdated
        } else {
            Backend::Current
        },
        None => Backend::Current,
    }
}

/// What a health report shows.
pub fn judge_health(health: &Json, own_mtime: u64) -> (r: Backend)
    ensures
        r == backend_in(health@, own_mtime),
{
    match health.integer_at("binary_mtime") {
        Some(m) => if 0 < m && (m as u64) < own_mtime {
            Backend::Outdated
        } else {
            Backend::Current
        },
        None => Backend::Current,
    }
}

/// What an answer to a health request shows.
pub fn judge_backend(answer: Option<&str>, own_mtime: u64) -> (r: Backend)
    ensures
        r == backend_shown(text_of(answer), own_mtime),
{
    match answer {
        Some(t) => match parse_json(t) {
            Some(health) => judge_health(&health, own_mtime),
            None => Backend::Absent,
        },
        None => Backend::Absent,
    }
}

// ---------------------------------------------------------------------------
// Tool calls
// ---------------------------------------------------------------------------

/// What the backend answers to a tool call.
#[derive(Debug, PartialEq, Eq)]
pub struct ToolResponse {
    pub content: String,
    pub is_error: bool,
}

/// What a response says.
pub struct ResponseView {
    pub content: Seq<char>,
    pub is_error: bool,
}

impl View for ToolResponse {
    type V = ResponseView;

    open spec fn view(&self) -> ResponseView {
        ResponseView { content: self.content@, is_error: self.is_error }
    }
}

/// The message of a tool call.
pub open spec fn tool_message(
    name: Seq<char>,
    arguments: JsonView,
    workspace: Option<Seq<char>>,
    source: Option<Seq<char>>,
    client: Seq<char>,
) -> JsonView {
    JsonView::Object(
        map![
            "name"@ => JsonView::Text(name),
            "arguments"@ => arguments,
            "workspace"@ => text_or_null(workspace),
            "source"@ => text_or_null(source),
            "client"@ => JsonView::Text(client),
        ],
    )
}

/// What an answer to a tool call says. What it leaves out is empty, and no error.
pub open spec fn response_in(answer: JsonView) -> ResponseView {
    ResponseView {
        content: match answer.text_field("content"@) {
            Some(t) => t,
            None => Seq::empty(),
        },
        is_error: answer.field("is_error"@) == Some(JsonView::Bool(true)),
    }
}

/// The message of a tool call.
pub fn tool_request(
    name: &str,
    arguments: &Json,
    workspace: Option<&str>,
    source: Option<&str>,
    client: &str,
) -> (r: Json)
    ensures
        r@ == tool_message(name@, arguments@, text_of(workspace), text_of(source), client@),
{
    let mut body = JsonObject::new();
    body.put_text("name", name);
    body.put("arguments", arguments.copy());
    body.put_optional("workspace", workspace);
    body.put_optional("source", source);
    body.put_text("client", client);
    Json::Object(body)
}

/// What an answer to a tool call says.
pub fn read_response(answer: &Json) -> (r: ToolResponse)
    ensures
        r@ == response_in(answer@),
{
    let content = match answer.text_at("content") {
        Some(t) => t.to_owned(),
        None => String::new(),
    };
    let is_error = match answer.get("is_error") {
        Some(Json::Bool(b)) => *b,
        _ => false,
    };
    ToolResponse { content, is_error }
}

/// Reads the answer to a tool call. An answer that is no JSON is none.
pub fn receive_response(text: &str) -> (r: Option<ToolResponse>)
    ensures
        match r {
            Some(resp) => parsed(text@) is Some && resp@ == response_in(parsed(text@)->0),
            None => parsed(text@) is None,
        },
{
    match parse_json(text) {
        Some(answer) => Some(read_response(&answer)),
        None => None,
    }
}

// ---------------------------------------------------------------------------
// Starting the backend
// ---------------------------------------------------------------------------

/// How far the proxy is in getting a backend.
#[derive(Debug, Clone, Copy, PartialEq, Eq, Structural)]
pub enum Startup {
    /// Nothing has been tried yet.
    Fresh,
    /// The backend has been launched; the proxy will look for it so many times more.
    Launched { looks_left: u32 },
}

/// What the proxy does next to get a backend.
#[derive(Debug, PartialEq, Eq)]
pub enum StartupStep {
    /// The backend answers on this port.
    Ready(u16),
    /// Launch the backend, pause, and look again.
    Launch(Startup),
    /// Stop the backend that runs, launch the new one, pause, and look again.
    Replace(Startup),
    /// Pause, and look again.
    Wait(Startup),
    /// The backend did not come.
    GiveUp(Failure),
}

/// What a step towards a backend is.
pub enum StartupView {
    Ready(u16),
    Launch(Startup),
    Replace(Startup),
    Wait(Startup),
    GiveUp(Seq<char>),
}

impl View for StartupStep {
    type V = StartupView;

    open spec fn view(&self) -> StartupView {
        match *self {
            StartupStep::Ready(p) => StartupView::Ready(p),
            StartupStep::Launch(s) => StartupView::Launch(s),
            StartupStep::Replace(s) => StartupView::Replace(s),
            StartupStep::Wait(s) => StartupView::Wait(s),
            StartupStep::GiveUp(e) => StartupView::GiveUp(e@),
        }
    }
}

/// The words for a backend that did not come.
pub open spec fn no_backend() -> Seq<char> {
    "agents-relay server did not start within 5 seconds"@
}

/// What a look for the backend leads to: the port that the port file named, and
/// what was found there.
pub open spec fn after_look(state: Startup, port: u16, found: Backend) -> StartupView {
    match (state, found) {
        (_, Backend::Current) => StartupView::Ready(port),
        (Startup::Fresh, Backend::Absent) => StartupView::Launch(
            Startup::Launched { looks_left: STARTUP_LOOKS },
        ),
        (Startup::Fresh, Backend::Outdated) => StartupView::Replace(
            Startup::Launched { looks_left: STARTUP_LOOKS },
        ),
        (Startup::Launched { looks_left }, _) => if looks_left <= 1 {
            StartupView::GiveUp(no_backend())
        } else {
            StartupView::Wait(Startup::Launched { looks_left: (looks_left - 1) as u32 })
        },
    }
}

/// What to do after a look for the backend.
pub fn ensure_server_running(state: Startup, port: u16, found: Backend) -> (r: StartupStep)
    ensures
        r@ == after_look(state, port, found),
{
    match (state, found) {
        (_, Backend::Current) => StartupStep::Ready(port),
        (Startup::Fresh, Backend::Absent) => StartupStep::Launch(
            Startup::Launched { looks_left: STARTUP_LOOKS },
        ),
        (Startup::Fresh, Backend::Outdated) => StartupStep::Replace(
            Startup::Launched { looks_left: STARTUP_LOOKS },
        ),
        (Startup::Launched { looks_left }, _) => if looks_left <= 1 {
            StartupStep::GiveUp(Failure::new("agents-relay server did not start within 5 seconds"))
        } else {
            StartupStep::Wait(Startup::Launched { looks_left: looks_left - 1 })
        },
    }
}

/// What a series of looks comes to: a port, a message, or nothing yet.
pub open spec fn startup_outcome(state: Startup, looks: Seq<(u16, Backend)>) -> Option<
    Result<u16, Seq<char>>,
>
    decreases looks.len(),
{
    if looks.len() == 0 {
        None
    } else {
        match after_look(state, looks[0].0, looks[0].1) {
            StartupView::Ready(p) => Some(Ok(p)),
            StartupView::GiveUp(e) => Some(Err(e)),
            StartupView::Launch(s) => startup_outcome(s, looks.drop_first()),
            StartupView::Replace(s) => startup_outcome(s, looks.drop_first()),
            StartupView::Wait(s) => startup_outcome(s, looks.drop_first()),
        }
    }
}

/// How many looks a state still has.
pub open spec fn looks_to_come(state: Startup) -> nat {
    match state {
        Startup::Fresh => 1 + STARTUP_LOOKS as nat,
        Startup::Launched { looks_left } => if looks_left == 0 {
            1
        } else {
            looks_left as nat
        },
    }
}

/// The proxy takes the port of the first look that found a backend as new as itself,
/// and gives up when none of the looks that it has did.
pub proof fn the_first_current_backend_is_taken(state: Startup, looks: Seq<(u16, Backend)>, n: int)
    requires
        0 <= n < looks_to_come(state),
        n < looks.len(),
        forall|i: int| 0 <= i < n ==> (#[trigger] looks[i]).1 != Backend::Current,
    ensures
        looks[n].1 == Backend::Current ==> startup_outcome(state, looks) == Some(
            Ok::<u16, Seq<char>>(looks[n].0),
        ),
        looks[n].1 != Backend::Current && n + 1 == looks_to_come(state) ==> startup_outcome(
            state,
            looks,
        ) == Some(Err::<u16, Seq<char>>(no_backend())),
        looks[n].1 != Backend::Current && n + 1 < looks_to_come(state) && looks.len() == n + 1
            ==> startup_outcome(state, looks) is None,
    decreases n,
{
    if n > 0 {
        assert(looks[0].1 != Backend::Current);
        let rest = looks.drop_first();
        assert forall|i: int| 0 <= i < n - 1 implies (#[trigger] rest[i]).1 != Backend::Current by {
            assert(looks[i + 1].1 != Backend::Current);
        }
        match after_look(state, looks[0].0, looks[0].1) {
            StartupView::Launch(s) => the_first_current_backend_is_taken(s, rest, n - 1),
            StartupView::Replace(s) => the_first_current_backend_is_taken(s, rest, n - 1),
            StartupView::Wait(s) => the_first_current_backend_is_taken(s, rest, n - 1),
            _ => {},
        }
    } else {
        reveal_with_fuel(startup_outcome, 2);
    }
}

// ---------------------------------------------------------------------------
// Calling the backend
// ---------------------------------------------------------------------------

/// What has come of a tool call so far.
#[derive(Debug, PartialEq, Eq)]
pub enum CallEvent {
    /// The call was sent to the port that the proxy knew.
    Sent { port: u16, reply: Result<ToolResponse, Failure> },
    /// A backend was looked for, and started where there was none.
    Restarted(Result<u16, Failure>),
    /// The call was sent a second time.
    SentAgain { port: u16, reply: Result<ToolResponse, Failure> },
}

/// What to do next about a tool call.
#[derive(Debug, PartialEq, Eq)]
pub enum CallStep {
    /// Get a backend.
    Restart,
    /// Register with the backend on this port, and send the call a second time.
    SendAgain(u16),
    /// The answer, and the port that gave it.
    Answered(ToolResponse, u16),
    /// The call has failed.
    Failed(Failure),
}

/// What a step of a tool call is.
pub enum CallStepView {
    Restart,
    SendAgain(u16),
    Answered(ResponseView, u16),
    Failed(Seq<char>),
}

impl View for CallStep {
    type V = CallStepView;

    open spec fn view(&self) -> CallStepView {
        match *self {
            CallStep::Restart => CallStepView::Restart,
            CallStep::SendAgain(p) => CallStepView::SendAgain(p),
            CallStep::Answered(r, p) => CallStepView::Answered(r@, p),
            CallStep::Failed(e) => CallStepView::Failed(e@),
        }
    }
}

/// What follows an event of a tool call. A call that fails is sent once more, to a
/// backend that is started if need be.
pub open spec fn after_call_event(event: CallEvent) -> CallStepView {
    match event {
        CallEvent::Sent { port, reply: Ok(resp) } => CallStepView::Answered(resp@, port),
        CallEvent::Sent { port: _, reply: Err(_) } => CallStepView::Restart,
        CallEvent::Restarted(Ok(port)) => CallStepView::SendAgain(port),
        CallEvent::Restarted(Err(e)) => CallStepView::Failed(e@),
        CallEvent::SentAgain { port, reply: Ok(resp) } => CallStepView::Answered(resp@, port),
        CallEvent::SentAgain { port: _, reply: Err(e) } => CallStepView::Failed(e@),
    }
}

/// What to do after an event of a tool call.
pub fn call_tool(event: CallEvent) -> (r: CallStep)
    ensures
        r@ == after_call_event(event),
{
    match event {
        CallEvent::Sent { port, reply: Ok(resp) } => CallStep::Answered(resp, port),
        CallEvent::Sent { port: _, reply: Err(_) } => CallStep::Restart,
        CallEvent::Restarted(Ok(port)) => CallStep::SendAgain(port),
        CallEvent::Restarted(Err(e)) => CallStep::Failed(e),
        CallEvent::SentAgain { port, reply: Ok(resp) } => CallStep::Answered(resp, port),
        CallEvent::SentAgain { port: _, reply: Err(e) } => CallStep::Failed(e),
    }
}

/// What a tool call comes to, when the call to `port` gets `first`, the search for a
/// backend comes to `restart`, and the second call gets `second`.
pub open spec fn call_outcome(
    port: u16,
    first: Result<ToolResponse, Failure>,
    restart: Result<u16, Failure>,
    second: Result<ToolResponse, Failure>,
) -> CallStepView {
    match after_call_event(CallEvent::Sent { port, reply: first }) {
        CallStepView::Restart => match after_call_event(CallEvent::Restarted(restart)) {
            CallStepView::SendAgain(p) => after_call_event(
                CallEvent::SentAgain { port: p, reply: second },
            ),
            other => other,
        },
        other => other,
    }
}

/// A tool call is sent at most twice: it always ends in an answer or a failure, the
/// answer comes from the port that gave it, and the second call counts only where the
/// first one failed.
pub proof fn a_call_is_retried_once(
    port: u16,
    first: Result<ToolResponse, Failure>,
    restart: Result<u16, Failure>,
    second: Result<ToolResponse, Failure>,
)
    ensures
        call_outcome(port, first, restart, second) == match (first, restart, second) {
            (Ok(resp), _, _) => CallStepView::Answered(resp@, port),
            (Err(_), Err(e), _) => CallStepView::Failed(e@),
            (Err(_), Ok(p), Ok(resp)) => CallStepView::Answered(resp@, p),
            (Err(_), Ok(_), Err(e)) => CallStepView::Failed(e@),
        },
{
}

/// The backend is reached on this machine, on its port.
pub proof fn the_backend_is_reached_on_this_machine(port: u16, path: Seq<char>)
    ensures
        address(port, path) == "http://127.0.0.1:"@ + decimal(port as nat) + path,
{
}

/// The port is the number that the port file holds, with white space around it or not. Where the
/// file could not be read, or holds no number of a port, it is the usual one.
pub proof fn the_port_is_what_the_file_holds(text: Seq<char>)
    ensures
        port_in(None) == 54322,
        unsigned_value(trim(text), 65535) matches Ok(n) ==> port_in(Some(text)) == n as u16,
        unsigned_value(trim(text), 65535) is Err ==> port_in(Some(text)) == 54322,
{
}

/// A backend that answers with JSON is there. It is outdated where it says when its program file
/// was written and that was before the proxy's, and current in every other case.
pub proof fn an_older_backend_is_outdated(health: JsonView, answer: Seq<char>, own_mtime: u64)
    ensures
        !lives(None),
        lives(Some(answer)) <==> parsed(answer) is Some,
        lives(Some(answer)) <==> backend_shown(Some(answer), own_mtime) != Backend::Absent,
        backend_shown(None, own_mtime) == Backend::Absent,
        parsed(answer) is None ==> backend_shown(Some(answer), own_mtime) == Backend::Absent,
        parsed(answer) == Some(health) ==> backend_shown(Some(answer), own_mtime) == backend_in(
            health,
            own_mtime,
        ),
        health.integer_field("binary_mtime"@) is None ==> backend_in(health, own_mtime)
            == Backend::Current,
        health.integer_field("binary_mtime"@) matches Some(m) ==> (backend_in(health, own_mtime)
            == Backend::Outdated <==> m > 0 && m < own_mtime) && (backend_in(health, own_mtime)
            == Backend::Current <==> m <= 0 || m >= own_mtime),
{
}

/// A tool call is sent with its name, its arguments, the workspace and the source that it is
/// confined to, and the agent that asks.
pub proof fn a_tool_call_is_sent_with_all_it_has(
    name: Seq<char>,
    arguments: JsonView,
    workspace: Seq<char>,
    source: Seq<char>,
    client: Seq<char>,
)
    ensures
        tool_message(name, arguments, Some(workspace), Some(source), client) == JsonView::Object(
            map![
                "name"@ => JsonView::Text(name),
                "arguments"@ => arguments,
                "workspace"@ => JsonView::Text(workspace),
                "source"@ => JsonView::Text(source),
                "client"@ => JsonView::Text(client),
            ],
        ),
        tool_message(name, arguments, None, None, client) == JsonView::Object(
            map![
                "name"@ => JsonView::Text(name),
                "arguments"@ => arguments,
                "workspace"@ => JsonView::Null,
                "source"@ => JsonView::Null,
                "client"@ => JsonView::Text(client),
            ],
        ),
{
}

/// Of an answer to a tool call, the content is the text that it has, and it is an error only where
/// it says so.
pub proof fn an_answer_is_an_error_only_where_it_says_so(answer: JsonView)
    ensures
        answer.text_field("content"@) matches Some(t) ==> response_in(answer).content == t,
        answer.text_field("content"@) is None ==> response_in(answer).content.len() == 0,
        response_in(answer).is_error <==> answer.field("is_error"@) == Some(JsonView::Bool(true)),
{
}

/// The first look decides whether a backend is launched, replaced or taken. After that the proxy
/// waits for it, for fifty looks, and takes the first current one.
pub proof fn a_backend_is_launched_replaced_or_awaited(port: u16, looks_left: u32)
    ensures
        after_look(Startup::Fresh, port, Backend::Absent) == StartupView::Launch(
            Startup::Launched { looks_left: 50 },
        ),
        after_look(Startup::Fresh, port, Backend::Outdated) == StartupView::Replace(
            Startup::Launched { looks_left: 50 },
        ),
        after_look(Startup::Fresh, port, Backend::Current) == StartupView::Ready(port),
        after_look(Startup::Launched { looks_left }, port, Backend::Current) == StartupView::Ready(
            port,
        ),
        looks_left > 1 ==> after_look(Startup::Launched { looks_left }, port, Backend::Absent)
            == StartupView::Wait(Startup::Launched { looks_left: (looks_left - 1) as u32 })
            && after_look(Startup::Launched { looks_left }, port, Backend::Outdated)
            == StartupView::Wait(Startup::Launched { looks_left: (looks_left - 1) as u32 }),
        looks_left <= 1 ==> after_look(Startup::Launched { looks_left }, port, Backend::Absent)
            == StartupView::GiveUp("agents-relay server did not start within 5 seconds"@)
            && after_look(Startup::Launched { looks_left }, port, Backend::Outdated)
            == StartupView::GiveUp("agents-relay server did not start within 5 seconds"@),
{
}

/// What a step towards a backend or of a tool call is, is what it holds.
pub proof fn steps_are_what_they_hold(
    port: u16,
    state: Startup,
    failure: Failure,
    response: ToolResponse,
)
    ensures
        StartupStep::Ready(port)@ == StartupView::Ready(port),
        StartupStep::Launch(state)@ == StartupView::Launch(state),
        StartupStep::Replace(state)@ == StartupView::Replace(state),
        StartupStep::Wait(state)@ == StartupView::Wait(state),
        StartupStep::GiveUp(failure)@ == StartupView::GiveUp(failure@),
        CallStep::Restart@ == CallStepView::Restart,
        CallStep::SendAgain(port)@ == CallStepView::SendAgain(port),
        CallStep::Answered(response, port)@ == CallStepView::Answered(response@, port),
        CallStep::Failed(failure)@ == CallStepView::Failed(failure@),
        response@.content == response.content@ && response@.is_error == response.is_error,
{
}

} // verus!
