//! The tools that a proxy offers to its agent.

use vstd::prelude::*;

use crate::json::{contents, contents_are_elementwise, Json, JsonObject, JsonView};
use crate::scope::{ScopeView, ServerScope};
use crate::text::{glue3, is_some_text, same, slice};

verus! {

/// A parameter of a tool: its name, its type, and what it is for, where that needs saying.
pub type Parameter = (&'static str, &'static str, &'static str);

/// A tool: its name, what it is for, and whether agents should always have it at hand.
pub type Tool = (&'static str, &'static str, bool);

pub const SEARCH: Tool = (
    "memory_search",
    "Search past session memory. ONLY use when the user explicitly references prior sessions (e.g., 'what did we do last time', 'remember when...', 'in a previous conversation'). Do NOT call proactively or speculatively — the token cost is high and most tasks do not require cross-session context. When in doubt, do NOT search. By default, results are scoped to the current agent's source and workspace. Use scope='cross' for all agents in same workspace, or scope='all' for everything (both require user confirmation). If results are empty, do NOT fall back to sqlite3 or other tools.",
    true,
);

pub const GET_SESSION: Tool = (
    "memory_get_session",
    "Retrieve full conversation history of a specific session. High token cost — only use when the user needs to review or continue specific prior work and has identified the session.",
    true,
);

pub const SET_ENABLED: Tool = (
    "memory_set_enabled",
    "Enable or disable agents-relay for the current workspace or globally. Changes are saved to .agents-relay.json (workspace) or ~/.agents-relay/config.json (global).",
    false,
);

pub const FIND_WORKSPACE: Tool = (
    "memory_find_workspace",
    "Identify and record which workspace this session belongs to. IMPORTANT: Call this at the very start of every session. Pass the workspace root as an absolute path (e.g. /Volumes/DISK/dev/my-project).",
    false,
);

pub const UNLOCK: Tool = (
    "memory_unlock_cross_scope",
    "Request permission to search memory across ALL workspaces. Ask user first: 'May I also search memory from other workspaces?'",
    false,
);

pub const GET_SESSION_PARAMETERS: [Parameter; 6] = [
    ("session_id", "string", ""),
    ("date", "string", ""),
    ("date_from", "string", ""),
    ("date_to", "string", ""),
    ("type", "string", "Filter type (default: user,assistant)"),
    ("limit", "number", "Max results (default 50)"),
];

pub const SET_ENABLED_PARAMETERS: [Parameter; 2] = [
    ("enabled", "boolean", "true to enable, false to disable"),
    ("scope", "string", "\"workspace\" (default) or \"global\""),
];

pub const FIND_WORKSPACE_PARAMETERS: [Parameter; 3] = [
    ("conversation_id", "string", ""),
    ("workspace", "string", "Absolute path to workspace root"),
    ("started_at", "string", "Session start time ISO8601 (optional)"),
];

pub const UNLOCK_PARAMETERS: [Parameter; 1] = [("confirmed", "boolean", "")];

pub const SEARCH_REQUIRED: [&'static str; 1] = ["query"];

pub const SET_ENABLED_REQUIRED: [&'static str; 1] = ["enabled"];

pub const FIND_WORKSPACE_REQUIRED: [&'static str; 2] = ["conversation_id", "workspace"];

pub const NONE_REQUIRED: [&'static str; 0] = [];

pub const SEARCH_PARAMETERS: [Parameter; 11] = [
    ("query", "string", "FTS search query"),
    ("date", "string", "Filter by date (YYYY-MM-DD)"),
    ("date_from", "string", "Date range start"),
    ("date_to", "string", "Date range end"),
    ("type", "string", "Filter by type (user/assistant/system)"),
    ("session_id", "string", "Filter by session"),
    ("limit", "number", "Max results (default 20)"),
    (
        "scope",
        "string",
        "'self' (default), 'cross' (all agents, same workspace), 'all' (everything). cross/all require user confirmation.",
    ),
    (
        "confirmed",
        "boolean",
        "Set true ONLY after user explicitly approved cross/all scope.",
    ),
    (
        "opt_out",
        "boolean",
        "Set true if user declined. Saves 'deny' to .agents-relay.json.",
    ),
    ("workspace", "string", "Override workspace filter (advanced)."),
];

/// One parameter, as the agent is told of it.
pub open spec fn parameter_schema(p: Parameter) -> JsonView {
    if p.2@.len() == 0 {
        JsonView::Object(map!["type"@ => JsonView::Text(p.1@)])
    } else {
        JsonView::Object(
            map!["type"@ => JsonView::Text(p.1@), "description"@ => JsonView::Text(p.2@)],
        )
    }
}

/// The parameters, as the agent is told of them.
pub open spec fn parameters_schema(ps: Seq<Parameter>) -> Map<Seq<char>, JsonView>
    decreases ps.len(),
{
    if ps.len() == 0 {
        Map::empty()
    } else {
        parameters_schema(ps.drop_last()).insert(ps.last().0@, parameter_schema(ps.last()))
    }
}

fn describe_parameters(ps: &[Parameter]) -> (r: JsonObject)
    ensures
        r@ == parameters_schema(ps@),
{
    let mut out = JsonObject::new();
    let mut i: usize = 0;
    while i < ps.len()
        invariant
            i <= ps@.len(),
            out@ == parameters_schema(ps@.take(i as int)),
        decreases ps@.len() - i,
    {
        let p = ps[i];
        let mut one = JsonObject::new();
        one.put_text("type", p.1);
        if !p.2.is_empty() {
            one.put_text("description", p.2);
        }
        proof {
            assert(ps@.take(i + 1).drop_last() == ps@.take(i as int));
        }
        out.put(p.0, Json::Object(one));
        i += 1;
    }
    proof {
        assert(ps@.take(i as int) == ps@);
    }
    out
}

/// The parameters of a search, as the agent is told of them. The last one names the sources.
pub open spec fn search_parameters(agent: Seq<char>) -> Map<Seq<char>, JsonView> {
    parameters_schema(SEARCH_PARAMETERS@).insert(
        "source"@,
        JsonView::Object(
            map![
                "type"@ => JsonView::Text("string"@),
                "description"@ => JsonView::Text(
                    "Override source filter: "@ + agent + ", antigravity (advanced)."@,
                ),
            ],
        ),
    )
}

/// A tool, as the agent is told of it.
pub open spec fn tool_schema(
    tool: Tool,
    properties: Map<Seq<char>, JsonView>,
    required: Seq<&'static str>,
) -> JsonView {
    let plain = map![
        "type"@ => JsonView::Text("object"@),
        "properties"@ => JsonView::Object(properties),
    ];
    let input = JsonView::Object(
        if required.len() == 0 {
            plain
        } else {
            plain.insert(
                "required"@,
                JsonView::Array(required.map_values(|name: &'static str| JsonView::Text(name@))),
            )
        },
    );
    let told = map![
        "name"@ => JsonView::Text(tool.0@),
        "description"@ => JsonView::Text(tool.1@),
        "inputSchema"@ => input,
    ];
    JsonView::Object(
        if tool.2 {
            told.insert(
                "_meta"@,
                JsonView::Object(map!["anthropic/alwaysLoad"@ => JsonView::Bool(true)]),
            )
        } else {
            told
        },
    )
}

/// The tools of every agent.
pub open spec fn common_tools(agent: Seq<char>) -> Seq<JsonView> {
    seq![
        tool_schema(SEARCH, search_parameters(agent), SEARCH_REQUIRED@),
        tool_schema(GET_SESSION, parameters_schema(GET_SESSION_PARAMETERS@), NONE_REQUIRED@),
        tool_schema(
            SET_ENABLED,
            parameters_schema(SET_ENABLED_PARAMETERS@),
            SET_ENABLED_REQUIRED@,
        ),
    ]
}

/// The tools of Antigravity alone.
pub open spec fn antigravity_tools() -> Seq<JsonView> {
    seq![
        tool_schema(
            FIND_WORKSPACE,
            parameters_schema(FIND_WORKSPACE_PARAMETERS@),
            FIND_WORKSPACE_REQUIRED@,
        ),
        tool_schema(UNLOCK, parameters_schema(UNLOCK_PARAMETERS@), NONE_REQUIRED@),
    ]
}

/// Whether the agent is Antigravity.
pub open spec fn serves_antigravity(scope: ScopeView) -> bool {
    scope.client == "antigravity"@ || scope.default_source == Some("antigravity"@)
}

/// The tools that an agent is offered.
pub open spec fn offered_tools(scope: ScopeView) -> JsonView {
    JsonView::Array(
        if serves_antigravity(scope) {
            common_tools(scope.agent) + antigravity_tools()
        } else {
            common_tools(scope.agent)
        },
    )
}

fn describe_search_parameters(agent: &str) -> (r: JsonObject)
    ensures
        r@ == search_parameters(agent@),
{
    let description = glue3("Override source filter: ", agent, ", antigravity (advanced).");
    let mut source = JsonObject::new();
    source.put_text("type", "string");
    source.put_text("description", description.as_str());
    let mut out = describe_parameters(&SEARCH_PARAMETERS);
    out.put("source", Json::Object(source));
    out
}

fn describe_tool(tool: Tool, properties: JsonObject, required: &[&'static str]) -> (r: Json)
    ensures
        r@ == tool_schema(tool, properties@, required@),
{
    let mut input = JsonObject::new();
    input.put_text("type", "object");
    input.put("properties", Json::Object(properties));
    if required.len() > 0 {
        let mut names: Vec<Json> = Vec::new();
        let ghost told = required@.map_values(|name: &'static str| JsonView::Text(name@));
        let mut i: usize = 0;
        while i < required.len()
            invariant
                i <= required@.len(),
                told == required@.map_values(|name: &'static str| JsonView::Text(name@)),
                names@.len() == i,
                forall|j: int| 0 <= j < i ==> (#[trigger] names@[j])@ == told[j],
            decreases required@.len() - i,
        {
            names.push(Json::string(required[i]));
            i += 1;
        }
        proof {
            contents_are_elementwise(names@);
            assert(contents(names@) =~= told);
        }
        input.put("required", Json::Array(names));
    }
    let mut out = JsonObject::new();
    out.put_text("name", tool.0);
    out.put_text("description", tool.1);
    out.put("inputSchema", Json::Object(input));
    if tool.2 {
        let mut meta = JsonObject::new();
        meta.put("anthropic/alwaysLoad", Json::Bool(true));
        out.put("_meta", Json::Object(meta));
    }
    Json::Object(out)
}

/// The tools that an agent is offered.
pub fn tool_definitions(scope: &ServerScope) -> (r: Json)
    ensures
        r@ == offered_tools(scope@),
{
    let mut tools: Vec<Json> = Vec::new();
    let searched = describe_search_parameters(scope.agent.as_str());
    tools.push(describe_tool(SEARCH, searched, &SEARCH_REQUIRED));
    let session = describe_parameters(&GET_SESSION_PARAMETERS);
    tools.push(describe_tool(GET_SESSION, session, &NONE_REQUIRED));
    let enabled = describe_parameters(&SET_ENABLED_PARAMETERS);
    tools.push(describe_tool(SET_ENABLED, enabled, &SET_ENABLED_REQUIRED));
    if same(scope.client.as_str(), "antigravity") || is_some_text(
        slice(&scope.default_source),
        "antigravity",
    ) {
        let place = describe_parameters(&FIND_WORKSPACE_PARAMETERS);
        tools.push(describe_tool(FIND_WORKSPACE, place, &FIND_WORKSPACE_REQUIRED));
        let unlock = describe_parameters(&UNLOCK_PARAMETERS);
        tools.push(describe_tool(UNLOCK, unlock, &NONE_REQUIRED));
    }
    proof {
        contents_are_elementwise(tools@);
        assert(JsonView::Array(contents(tools@)) == offered_tools(scope@)) by {
            if serves_antigravity(scope@) {
                assert(contents(tools@) =~= common_tools(scope@.agent) + antigravity_tools());
            } else {
                assert(contents(tools@) =~= common_tools(scope@.agent));
            }
        }
    }
    Json::Array(tools)
}

/// Whether an agent is offered the tool of that name.
pub open spec fn offers(scope: ScopeView, name: Seq<char>) -> bool {
    exists|i: int|
        0 <= i < offered_tools(scope)->Array_0.len() && (
        #[trigger] offered_tools(scope)->Array_0[i]).text_field("name"@) == Some(name)
}

/// Every agent is offered the tools to search, to get a session and to turn the relay off.
/// Antigravity alone is offered those to say where it works and to search everywhere.
pub proof fn antigravity_is_offered_more(scope: ScopeView)
    ensures
        offers(scope, SEARCH.0@),
        offers(scope, GET_SESSION.0@),
        offers(scope, SET_ENABLED.0@),
        offers(scope, FIND_WORKSPACE.0@) <==> serves_antigravity(scope),
        offers(scope, UNLOCK.0@) <==> serves_antigravity(scope),
{
    let tools = offered_tools(scope)->Array_0;
    schema_tells_name(SEARCH, search_parameters(scope.agent), SEARCH_REQUIRED@);
    schema_tells_name(
        GET_SESSION,
        parameters_schema(GET_SESSION_PARAMETERS@),
        NONE_REQUIRED@,
    );
    schema_tells_name(
        SET_ENABLED,
        parameters_schema(SET_ENABLED_PARAMETERS@),
        SET_ENABLED_REQUIRED@,
    );
    schema_tells_name(
        FIND_WORKSPACE,
        parameters_schema(FIND_WORKSPACE_PARAMETERS@),
        FIND_WORKSPACE_REQUIRED@,
    );
    schema_tells_name(UNLOCK, parameters_schema(UNLOCK_PARAMETERS@), NONE_REQUIRED@);
    assert(tools[0].text_field("name"@) == Some(SEARCH.0@));
    assert(tools[1].text_field("name"@) == Some(GET_SESSION.0@));
    assert(tools[2].text_field("name"@) == Some(SET_ENABLED.0@));
    if serves_antigravity(scope) {
        assert(tools[3].text_field("name"@) == Some(FIND_WORKSPACE.0@));
        assert(tools[4].text_field("name"@) == Some(UNLOCK.0@));
    }
    reveal_strlit("memory_search");
    reveal_strlit("memory_get_session");
    reveal_strlit("memory_set_enabled");
    reveal_strlit("memory_find_workspace");
    reveal_strlit("memory_unlock_cross_scope");
    assert("memory_search"@.len() == 13);
    assert("memory_get_session"@.len() == 18);
    assert("memory_set_enabled"@.len() == 18);
    assert("memory_find_workspace"@.len() == 21);
    assert("memory_unlock_cross_scope"@.len() == 25);
}

proof fn schema_tells_name(
    tool: Tool,
    properties: Map<Seq<char>, JsonView>,
    required: Seq<&'static str>,
)
    ensures
        tool_schema(tool, properties, required).text_field("name"@) == Some(tool.0@),
{
    reveal_strlit("name");
    reveal_strlit("description");
    reveal_strlit("inputSchema");
    reveal_strlit("_meta");
    assert("name"@.len() == 4);
    assert("description"@.len() == 11);
    assert("inputSchema"@.len() == 11);
    assert("_meta"@.len() == 5);
}

/// The parameters of a tool are told by name, each with its type and, where it has one, what it is
/// for: with one more parameter, one more is told.
pub proof fn parameters_are_told_by_name(ps: Seq<Parameter>, p: Parameter)
    ensures
        parameters_schema(Seq::empty()) == Map::<Seq<char>, JsonView>::empty(),
        p.2@.len() > 0 ==> parameters_schema(ps.push(p)) == parameters_schema(ps).insert(
            p.0@,
            JsonView::Object(
                map!["type"@ => JsonView::Text(p.1@), "description"@ => JsonView::Text(p.2@)],
            ),
        ),
        p.2@.len() == 0 ==> parameters_schema(ps.push(p)) == parameters_schema(ps).insert(
            p.0@,
            JsonView::Object(map!["type"@ => JsonView::Text(p.1@)]),
        ),
{
    assert(ps.push(p).drop_last() =~= ps);
}

/// A tool is told with its name, what it is for, its parameters and those of them that it cannot do
/// without, and a mark where it should always be at hand.
pub proof fn a_tool_is_told_with_all_it_has(
    name: &'static str,
    description: &'static str,
    properties: Map<Seq<char>, JsonView>,
    required: Seq<&'static str>,
    always: bool,
)
    ensures
        ({
            let told = tool_schema((name, description, always), properties, required);
            &&& told.text_field("name"@) == Some(name@)
            &&& told.text_field("description"@) == Some(description@)
            &&& told.field("inputSchema"@) matches Some(input)
            &&& input.text_field("type"@) == Some("object"@)
            &&& input.field("properties"@) == Some(JsonView::Object(properties))
            &&& required.len() == 0 ==> input.field("required"@) is None
            &&& required.len() > 0 ==> (input.field("required"@) matches Some(
                JsonView::Array(names),
            ) && names.len() == required.len() && forall|i: int|
                0 <= i < names.len() ==> #[trigger] names[i] == JsonView::Text(required[i]@))
            &&& always ==> told.field("_meta"@) is Some && told.field("_meta"@)->0.field(
                "anthropic/alwaysLoad"@,
            ) == Some(JsonView::Bool(true))
            &&& !always ==> told.field("_meta"@) is None
        }),
{
    reveal_strlit("name");
    reveal_strlit("description");
    reveal_strlit("inputSchema");
    reveal_strlit("_meta");
    reveal_strlit("type");
    reveal_strlit("properties");
    reveal_strlit("required");
    assert("name"@.len() == 4 && "_meta"@.len() == 5);
    assert("description"@.len() == 11 && "description"@[0] == 'd');
    assert("inputSchema"@.len() == 11 && "inputSchema"@[0] == 'i');
    assert("type"@.len() == 4 && "properties"@.len() == 10 && "required"@.len() == 8);
}

/// These are the tools, in this order, and what each of them cannot do without. Which of its
/// parameters are told is up to the list of them, and a search has one more, the source.
pub proof fn these_are_the_tools(scope: ScopeView)
    ensures
        offered_tools(scope) matches JsonView::Array(tools) && {
            &&& tools.len() == if scope.client == "antigravity"@ || scope.default_source == Some(
                "antigravity"@,
            ) {
                5nat
            } else {
                3nat
            }
            &&& tools[0].text_field("name"@) == Some("memory_search"@)
            &&& tools[1].text_field("name"@) == Some("memory_get_session"@)
            &&& tools[2].text_field("name"@) == Some("memory_set_enabled"@)
            &&& tools.len() == 5 ==> tools[3].text_field("name"@) == Some("memory_find_workspace"@)
            &&& tools.len() == 5 ==> tools[4].text_field("name"@) == Some(
                "memory_unlock_cross_scope"@,
            )
            &&& tools[0].field("_meta"@) is Some && tools[1].field("_meta"@) is Some
                && tools[2].field("_meta"@) is None
            &&& tools[0] == tool_schema(
                SEARCH,
                parameters_schema(SEARCH_PARAMETERS@).insert(
                    "source"@,
                    JsonView::Object(
                        map![
                            "type"@ => JsonView::Text("string"@),
                            "description"@ => JsonView::Text(
                                "Override source filter: "@ + scope.agent
                                    + ", antigravity (advanced)."@,
                            ),
                        ],
                    ),
                ),
                SEARCH_REQUIRED@,
            )
            &&& tools[1] == tool_schema(
                GET_SESSION,
                parameters_schema(GET_SESSION_PARAMETERS@),
                Seq::empty(),
            )
            &&& tools[2] == tool_schema(
                SET_ENABLED,
                parameters_schema(SET_ENABLED_PARAMETERS@),
                SET_ENABLED_REQUIRED@,
            )
            &&& tools.len() == 5 ==> tools[3] == tool_schema(
                FIND_WORKSPACE,
                parameters_schema(FIND_WORKSPACE_PARAMETERS@),
                FIND_WORKSPACE_REQUIRED@,
            )
            &&& tools.len() == 5 ==> tools[4] == tool_schema(
                UNLOCK,
                parameters_schema(UNLOCK_PARAMETERS@),
                Seq::empty(),
            )
        },
{
    let searched = search_parameters(scope.agent);
    a_tool_is_told_with_all_it_has(SEARCH.0, SEARCH.1, searched, SEARCH_REQUIRED@, SEARCH.2);
    a_tool_is_told_with_all_it_has(
        GET_SESSION.0,
        GET_SESSION.1,
        parameters_schema(GET_SESSION_PARAMETERS@),
        NONE_REQUIRED@,
        GET_SESSION.2,
    );
    a_tool_is_told_with_all_it_has(
        SET_ENABLED.0,
        SET_ENABLED.1,
        parameters_schema(SET_ENABLED_PARAMETERS@),
        SET_ENABLED_REQUIRED@,
        SET_ENABLED.2,
    );
    a_tool_is_told_with_all_it_has(
        FIND_WORKSPACE.0,
        FIND_WORKSPACE.1,
        parameters_schema(FIND_WORKSPACE_PARAMETERS@),
        FIND_WORKSPACE_REQUIRED@,
        FIND_WORKSPACE.2,
    );
    a_tool_is_told_with_all_it_has(
        UNLOCK.0,
        UNLOCK.1,
        parameters_schema(UNLOCK_PARAMETERS@),
        NONE_REQUIRED@,
        UNLOCK.2,
    );
    assert(NONE_REQUIRED@ =~= Seq::empty());
}

/// These are the parameters of the tools, and their types.
pub proof fn these_are_the_parameters()
    ensures
        SEARCH_PARAMETERS@.len() == 11,
        SEARCH_PARAMETERS@[0].0@ == "query"@ && SEARCH_PARAMETERS@[0].1@ == "string"@,
        SEARCH_PARAMETERS@[1].0@ == "date"@ && SEARCH_PARAMETERS@[1].1@ == "string"@,
        SEARCH_PARAMETERS@[2].0@ == "date_from"@ && SEARCH_PARAMETERS@[2].1@ == "string"@,
        SEARCH_PARAMETERS@[3].0@ == "date_to"@ && SEARCH_PARAMETERS@[3].1@ == "string"@,
        SEARCH_PARAMETERS@[4].0@ == "type"@ && SEARCH_PARAMETERS@[4].1@ == "string"@,
        SEARCH_PARAMETERS@[5].0@ == "session_id"@ && SEARCH_PARAMETERS@[5].1@ == "string"@,
        SEARCH_PARAMETERS@[6].0@ == "limit"@ && SEARCH_PARAMETERS@[6].1@ == "number"@,
        SEARCH_PARAMETERS@[7].0@ == "scope"@ && SEARCH_PARAMETERS@[7].1@ == "string"@,
        SEARCH_PARAMETERS@[8].0@ == "confirmed"@ && SEARCH_PARAMETERS@[8].1@ == "boolean"@,
        SEARCH_PARAMETERS@[9].0@ == "opt_out"@ && SEARCH_PARAMETERS@[9].1@ == "boolean"@,
        SEARCH_PARAMETERS@[10].0@ == "workspace"@ && SEARCH_PARAMETERS@[10].1@ == "string"@,
        GET_SESSION_PARAMETERS@.len() == 6,
        GET_SESSION_PARAMETERS@[0].0@ == "session_id"@ && GET_SESSION_PARAMETERS@[0].1@
            == "string"@,
        GET_SESSION_PARAMETERS@[1].0@ == "date"@ && GET_SESSION_PARAMETERS@[1].1@ == "string"@,
        GET_SESSION_PARAMETERS@[2].0@ == "date_from"@ && GET_SESSION_PARAMETERS@[2].1@ == "string"@,
        GET_SESSION_PARAMETERS@[3].0@ == "date_to"@ && GET_SESSION_PARAMETERS@[3].1@ == "string"@,
        GET_SESSION_PARAMETERS@[4].0@ == "type"@ && GET_SESSION_PARAMETERS@[4].1@ == "string"@,
        GET_SESSION_PARAMETERS@[5].0@ == "limit"@ && GET_SESSION_PARAMETERS@[5].1@ == "number"@,
        SET_ENABLED_PARAMETERS@.len() == 2,
        SET_ENABLED_PARAMETERS@[0].0@ == "enabled"@ && SET_ENABLED_PARAMETERS@[0].1@ == "boolean"@,
        SET_ENABLED_PARAMETERS@[1].0@ == "scope"@ && SET_ENABLED_PARAMETERS@[1].1@ == "string"@,
        FIND_WORKSPACE_PARAMETERS@.len() == 3,
        FIND_WORKSPACE_PARAMETERS@[0].0@ == "conversation_id"@ && FIND_WORKSPACE_PARAMETERS@[0].1@
            == "string"@,
        FIND_WORKSPACE_PARAMETERS@[1].0@ == "workspace"@ && FIND_WORKSPACE_PARAMETERS@[1].1@
            == "string"@,
        FIND_WORKSPACE_PARAMETERS@[2].0@ == "started_at"@ && FIND_WORKSPACE_PARAMETERS@[2].1@
            == "string"@,
        UNLOCK_PARAMETERS@.len() == 1,
        UNLOCK_PARAMETERS@[0].0@ == "confirmed"@ && UNLOCK_PARAMETERS@[0].1@ == "boolean"@,
        SEARCH_REQUIRED@.len() == 1 && SEARCH_REQUIRED@[0]@ == "query"@,
        SET_ENABLED_REQUIRED@.len() == 1 && SET_ENABLED_REQUIRED@[0]@ == "enabled"@,
        FIND_WORKSPACE_REQUIRED@.len() == 2 && FIND_WORKSPACE_REQUIRED@[0]@ == "conversation_id"@
            && FIND_WORKSPACE_REQUIRED@[1]@ == "workspace"@,
{
}

/// This is what the agent is told that the tools and their parameters are for.
pub proof fn this_is_what_the_tools_are_for()
    ensures
        SEARCH_PARAMETERS@[0].2@ == "FTS search query"@,
        SEARCH_PARAMETERS@[1].2@ == "Filter by date (YYYY-MM-DD)"@,
        SEARCH_PARAMETERS@[2].2@ == "Date range start"@,
        SEARCH_PARAMETERS@[3].2@ == "Date range end"@,
        SEARCH_PARAMETERS@[4].2@ == "Filter by type (user/assistant/system)"@,
        SEARCH_PARAMETERS@[5].2@ == "Filter by session"@,
        SEARCH_PARAMETERS@[6].2@ == "Max results (default 20)"@,
        SEARCH_PARAMETERS@[7].2@ == "'self' (default), 'cross' (all agents, same workspace), 'all' (everything). cross/all require user confirmation."@,
        SEARCH_PARAMETERS@[8].2@ == "Set true ONLY after user explicitly approved cross/all scope."@,
        SEARCH_PARAMETERS@[9].2@ == "Set true if user declined. Saves 'deny' to .agents-relay.json."@,
        SEARCH_PARAMETERS@[10].2@ == "Override workspace filter (advanced)."@,
        GET_SESSION_PARAMETERS@[0].2@ == ""@,
        GET_SESSION_PARAMETERS@[1].2@ == ""@,
        GET_SESSION_PARAMETERS@[2].2@ == ""@,
        GET_SESSION_PARAMETERS@[3].2@ == ""@,
        GET_SESSION_PARAMETERS@[4].2@ == "Filter type (default: user,assistant)"@,
        GET_SESSION_PARAMETERS@[5].2@ == "Max results (default 50)"@,
        SET_ENABLED_PARAMETERS@[0].2@ == "true to enable, false to disable"@,
        SET_ENABLED_PARAMETERS@[1].2@ == "\"workspace\" (default) or \"global\""@,
        FIND_WORKSPACE_PARAMETERS@[0].2@ == ""@,
        FIND_WORKSPACE_PARAMETERS@[1].2@ == "Absolute path to workspace root"@,
        FIND_WORKSPACE_PARAMETERS@[2].2@ == "Session start time ISO8601 (optional)"@,
        UNLOCK_PARAMETERS@[0].2@ == ""@,
        SEARCH.1@ == "Search past session memory. ONLY use when the user explicitly references prior sessions (e.g., 'what did we do last time', 'remember when...', 'in a previous conversation'). Do NOT call proactively or speculatively — the token cost is high and most tasks do not require cross-session context. When in doubt, do NOT search. By default, results are scoped to the current agent's source and workspace. Use scope='cross' for all agents in same workspace, or scope='all' for everything (both require user confirmation). If results are empty, do NOT fall back to sqlite3 or other tools."@,
        GET_SESSION.1@ == "Retrieve full conversation history of a specific session. High token cost — only use when the user needs to review or continue specific prior work and has identified the session."@,
        SET_ENABLED.1@ == "Enable or disable agents-relay for the current workspace or globally. Changes are saved to .agents-relay.json (workspace) or ~/.agents-relay/config.json (global)."@,
        FIND_WORKSPACE.1@ == "Identify and record which workspace this session belongs to. IMPORTANT: Call this at the very start of every session. Pass the workspace root as an absolute path (e.g. /Volumes/DISK/dev/my-project)."@,
        UNLOCK.1@ == "Request permission to search memory across ALL workspaces. Ask user first: 'May I also search memory from other workspaces?'"@,
{
}

} // verus!
