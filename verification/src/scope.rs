//! Whom a proxy serves, and how far its searches may reach.

use vstd::prelude::*;

use crate::json::{contents_are_elementwise, Json, JsonView};
use crate::text::{after_prefix, glue, is_some_text, owned_text, same, text_of};
use crate::workspace::{WorkspaceConfig, WorkspaceView};

verus! {

/// Whom a proxy serves, and what has been permitted during its session.
#[derive(Debug, PartialEq, Eq)]
pub struct ServerScope {
    /// The source of the coding agent that the relay knows besides Antigravity.
    pub agent: String,
    /// The agent that is served.
    pub client: String,
    /// The name under which the database keeps what that agent remembers.
    pub default_source: Option<String>,
    /// The workspace that the agent works in.
    pub default_workspace: Option<String>,
    /// The settings of that workspace.
    pub ws_config: WorkspaceConfig,
    /// What the user said during this session about searches beyond the agent's own
    /// memories, if anything.
    pub session_cross_override: Option<bool>,
    /// The port of the backend.
    pub server_port: u16,
    /// Whether the relay answers at all.
    pub enabled: bool,
}

/// What a scope says.
pub struct ScopeView {
    pub agent: Seq<char>,
    pub client: Seq<char>,
    pub default_source: Option<Seq<char>>,
    pub default_workspace: Option<Seq<char>>,
    pub ws_config: WorkspaceView,
    pub session_cross_override: Option<bool>,
    pub server_port: u16,
    pub enabled: bool,
}

impl View for ServerScope {
    type V = ScopeView;

    open spec fn view(&self) -> ScopeView {
        ScopeView {
            agent: self.agent@,
            client: self.client@,
            default_source: owned_text(self.default_source),
            default_workspace: owned_text(self.default_workspace),
            ws_config: self.ws_config@,
            session_cross_override: self.session_cross_override,
            server_port: self.server_port,
            enabled: self.enabled,
        }
    }
}

/// The name of the client through which the agent of the given source works.
pub open spec fn client_of_source(agent: Seq<char>) -> Seq<char> {
    agent + "-code"@
}

/// The name under which the database keeps what a client remembers. Two clients are known, that
/// of the coding agent `agent` and Antigravity; every other one has no source.
pub open spec fn source_of_client(client: Seq<char>, agent: Seq<char>) -> Option<Seq<char>> {
    if client == client_of_source(agent) {
        Some(agent)
    } else if client == "antigravity"@ {
        Some("antigravity"@)
    } else {
        None
    }
}

impl ScopeView {
    /// Whether searches may reach beyond the agent's own memories; nothing where the
    /// user has yet to be asked. What the user said during the session comes first.
    pub open spec fn cross_allowed(self) -> Option<bool> {
        match self.session_cross_override {
            Some(v) => Some(v),
            None => if self.ws_config.cross_scope == "allow"@ {
                Some(true)
            } else if self.ws_config.cross_scope == "deny"@ {
                Some(false)
            } else {
                None
            },
        }
    }

    /// The scope at the start of a session.
    pub open spec fn at_start(
        agent: Seq<char>,
        client: Seq<char>,
        workspace: Option<Seq<char>>,
        ws_config: WorkspaceView,
        global_enabled: bool,
        port: u16,
    ) -> ScopeView {
        ScopeView {
            agent,
            client,
            default_source: source_of_client(client, agent),
            default_workspace: workspace,
            ws_config,
            session_cross_override: None,
            server_port: port,
            enabled: match ws_config.enabled {
                Some(b) => b,
                None => global_enabled,
            },
        }
    }

    /// The scope after an agent has introduced itself as `client`.
    pub open spec fn serving(self, client: Option<Seq<char>>) -> ScopeView {
        match client {
            Some(c) => ScopeView {
                client: c,
                default_source: source_of_client(c, self.agent),
                ..self
            },
            None => self,
        }
    }

    /// The scope after an agent has named its root; a workspace that is known stays.
    pub open spec fn rooted(self, root: Option<Seq<char>>) -> ScopeView {
        match (self.default_workspace, root) {
            (None, Some(path)) => ScopeView { default_workspace: Some(path), ..self },
            _ => self,
        }
    }

    /// The scope after a request in which an agent introduced itself as `client`. Only
    /// an `initialize` request does that.
    pub open spec fn introduced(self, request: JsonView, client: Option<Seq<char>>) -> ScopeView {
        if is_initialize(request) {
            self.serving(client).rooted(announced_root(request))
        } else {
            self
        }
    }
}

/// Whether a request opens a session.
pub open spec fn is_initialize(request: JsonView) -> bool {
    request.text_field("method"@) == Some("initialize"@)
}

/// The parameters of a request.
pub open spec fn params_of(request: JsonView) -> Option<JsonView> {
    request.field("params"@)
}

/// The name by which an agent introduces itself.
pub open spec fn announced_name(request: JsonView) -> Option<Seq<char>> {
    if is_initialize(request) {
        match params_of(request) {
            Some(p) => match p.field("clientInfo"@) {
                Some(info) => info.text_field("name"@),
                None => None,
            },
            None => None,
        }
    } else {
        None
    }
}

/// The first root that an agent names, without the scheme of a file address.
pub open spec fn announced_root(request: JsonView) -> Option<Seq<char>> {
    match params_of(request) {
        Some(p) => match p.field("roots"@) {
            Some(JsonView::Array(roots)) => if roots.len() > 0 {
                match roots[0].text_field("uri"@) {
                    Some(uri) => Some(path_of_uri(uri)),
                    None => None,
                }
            } else {
                None
            },
            _ => None,
        },
        None => None,
    }
}

/// The path of a file address.
pub open spec fn path_of_uri(uri: Seq<char>) -> Seq<char> {
    if "file://"@.is_prefix_of(uri) {
        uri.skip("file://"@.len() as int)
    } else {
        uri
    }
}

/// The name under which the database keeps what a client remembers, where `agent` is the source
/// of the coding agent that is known besides Antigravity.
pub fn client_to_source(client: &str, agent: &str) -> (r: Option<String>)
    ensures
        owned_text(r) == source_of_client(client@, agent@),
{
    let known = glue(agent, "-code");
    if same(client, known.as_str()) {
        Some(agent.to_owned())
    } else if same(client, "antigravity") {
        Some("antigravity".to_owned())
    } else {
        None
    }
}

/// The name by which an agent introduces itself.
pub fn announced_client(request: &Json) -> (r: Option<&str>)
    ensures
        text_of(r) == announced_name(request@),
{
    if !is_some_text(request.text_at("method"), "initialize") {
        return None;
    }
    match request.get("params") {
        Some(p) => match p.get("clientInfo") {
            Some(info) => info.text_at("name"),
            None => None,
        },
        None => None,
    }
}

fn root_in(request: &Json) -> (r: Option<String>)
    ensures
        owned_text(r) == announced_root(request@),
{
    match request.get("params") {
        Some(p) => match p.get("roots") {
            Some(Json::Array(roots)) => {
                proof {
                    contents_are_elementwise(roots@);
                }
                if roots.len() > 0 {
                    match roots[0].text_at("uri") {
                        Some(uri) => match after_prefix(uri, "file://") {
                            Some(path) => Some(path),
                            None => Some(uri.to_owned()),
                        },
                        None => None,
                    }
                } else {
                    None
                }
            },
            _ => None,
        },
        None => None,
    }
}

impl ServerScope {
    /// The scope at the start of a session. The settings of the workspace say whether
    /// the relay answers, and where they do not, the user's settings.
    pub fn start(
        agent: String,
        client: String,
        workspace: Option<String>,
        ws_config: WorkspaceConfig,
        global_enabled: bool,
        port: u16,
    ) -> (r: ServerScope)
        ensures
            r@ == ScopeView::at_start(
                agent@,
                client@,
                owned_text(workspace),
                ws_config@,
                global_enabled,
                port,
            ),
    {
        let enabled = match ws_config.enabled {
            Some(b) => b,
            None => global_enabled,
        };
        let default_source = client_to_source(client.as_str(), agent.as_str());
        ServerScope {
            agent,
            client,
            default_source,
            default_workspace: workspace,
            ws_config,
            session_cross_override: None,
            server_port: port,
            enabled,
        }
    }

    /// Whether searches may reach beyond the agent's own memories; nothing where the
    /// user has yet to be asked.
    pub fn is_cross_allowed(&self) -> (r: Option<bool>)
        ensures
            r == self@.cross_allowed(),
    {
        match self.session_cross_override {
            Some(v) => Some(v),
            None => if same(self.ws_config.cross_scope.as_str(), "allow") {
                Some(true)
            } else if same(self.ws_config.cross_scope.as_str(), "deny") {
                Some(false)
            } else {
                None
            },
        }
    }

    /// Takes from a request how the agent introduced itself. `client` is what the name
    /// that the request announces stands for.
    pub fn introduce(&mut self, request: &Json, client: Option<&str>)
        ensures
            final(self)@ == old(self)@.introduced(request@, text_of(client)),
    {
        if !is_some_text(request.text_at("method"), "initialize") {
            return ;
        }
        match client {
            Some(c) => {
                self.client = c.to_owned();
                self.default_source = client_to_source(c, self.agent.as_str());
            },
            None => {},
        }
        if self.default_workspace.is_none() {
            match root_in(request) {
                Some(path) => {
                    self.default_workspace = Some(path);
                },
                None => {},
            }
        }
    }
}

/// What the user said during a session outweighs the settings of the workspace, and
/// only where neither says anything has the user to be asked.
pub proof fn the_session_outweighs_the_workspace(scope: ScopeView)
    ensures
        scope.session_cross_override is Some ==> scope.cross_allowed()
            == scope.session_cross_override,
        scope.cross_allowed() is None <==> scope.session_cross_override is None
            && scope.ws_config.cross_scope != "allow"@ && scope.ws_config.cross_scope != "deny"@,
{
}

/// A request never takes a known workspace away, nor what has been permitted.
pub proof fn an_introduction_keeps_the_workspace(
    scope: ScopeView,
    request: JsonView,
    client: Option<Seq<char>>,
)
    ensures
        scope.default_workspace is Some ==> scope.introduced(request, client).default_workspace
            == scope.default_workspace,
        scope.introduced(request, client).cross_allowed() == scope.cross_allowed(),
        scope.introduced(request, client).enabled == scope.enabled,
        scope.introduced(request, client).server_port == scope.server_port,
{
}

/// Whether the relay answers is up to the workspace, and where the workspace does not say, to
/// the user's settings.
pub proof fn the_workspace_decides_first(
    agent: Seq<char>,
    client: Seq<char>,
    workspace: Option<Seq<char>>,
    ws_config: WorkspaceView,
    global_enabled: bool,
    port: u16,
)
    ensures
        ({
            let scope = ScopeView::at_start(
                agent,
                client,
                workspace,
                ws_config,
                global_enabled,
                port,
            );
            &&& ws_config.enabled is Some ==> scope.enabled == ws_config.enabled->0
            &&& ws_config.enabled is None ==> scope.enabled == global_enabled
            &&& scope.session_cross_override is None
        }),
{
}

/// No two clients share a source, and each of the two sources belongs to its client alone.
pub proof fn clients_do_not_share_a_source(a: Seq<char>, b: Seq<char>, agent: Seq<char>)
    requires
        agent != "antigravity"@,
    ensures
        source_of_client(a, agent) is Some && source_of_client(a, agent) == source_of_client(
            b,
            agent,
        ) ==> a == b,
        source_of_client(a, agent) == Some(agent) <==> a == client_of_source(agent),
        source_of_client(a, agent) == Some("antigravity"@) <==> a == "antigravity"@,
        source_of_client(agent, agent) is None,
{
    reveal_strlit("-code");
    reveal_strlit("antigravity");
    let known = client_of_source(agent);
    assert("-code"@.len() == 5 && "antigravity"@.len() == 11);
    assert(known.len() == agent.len() + 5);
    assert(known[known.len() - 1] == 'e');
    assert("antigravity"@[10] == 'y');
}

proof fn known_names_differ(agent: Seq<char>)
    ensures
        agent + "-code"@ != "antigravity"@,
{
    reveal_strlit("-code");
    reveal_strlit("antigravity");
    assert("-code"@.len() == 5 && "-code"@[4] == 'e');
    assert("antigravity"@.len() == 11 && "antigravity"@[10] == 'y');
    let known = agent + "-code"@;
    assert(known[known.len() - 1] == 'e');
}

/// The client of the coding agent has the agent's source, Antigravity its own, and every other
/// client none.
pub proof fn each_client_has_its_source(client: Seq<char>, agent: Seq<char>)
    ensures
        source_of_client(agent + "-code"@, agent) == Some(agent),
        source_of_client("antigravity"@, agent) == Some("antigravity"@),
        client != agent + "-code"@ && client != "antigravity"@ ==> source_of_client(client, agent)
            is None,
{
    known_names_differ(agent);
}

/// What has been said during the session is whether searches may reach further. Where nothing has,
/// `allow` and `deny` in the settings of the workspace say so, and with anything else there the
/// user has to be asked.
pub proof fn permission_comes_from_the_session_or_the_workspace(scope: ScopeView, said: bool)
    ensures
        scope.session_cross_override == Some(said) ==> scope.cross_allowed() == Some(said),
        scope.session_cross_override is None && scope.ws_config.cross_scope == "allow"@
            ==> scope.cross_allowed() == Some(true),
        scope.session_cross_override is None && scope.ws_config.cross_scope == "deny"@
            ==> scope.cross_allowed() == Some(false),
        scope.session_cross_override is None && scope.ws_config.cross_scope != "allow"@
            && scope.ws_config.cross_scope != "deny"@ ==> scope.cross_allowed() is None,
{
    reveal_strlit("allow");
    reveal_strlit("deny");
    assert("allow"@.len() == 5 && "deny"@.len() == 4);
}

/// A session starts with what is known of the agent and its workspace, and with nothing permitted.
pub proof fn a_session_starts_with_what_is_known(
    agent: Seq<char>,
    client: Seq<char>,
    workspace: Option<Seq<char>>,
    ws_config: WorkspaceView,
    global_enabled: bool,
    port: u16,
)
    ensures
        ({
            let scope = ScopeView::at_start(
                agent,
                client,
                workspace,
                ws_config,
                global_enabled,
                port,
            );
            &&& scope.agent == agent && scope.client == client && scope.server_port == port
            &&& scope.default_workspace == workspace && scope.ws_config == ws_config
            &&& client == agent + "-code"@ ==> scope.default_source == Some(agent)
            &&& client == "antigravity"@ ==> scope.default_source == Some("antigravity"@)
            &&& client != agent + "-code"@ && client != "antigravity"@ ==> scope.default_source
                is None
            &&& scope.session_cross_override is None
        }),
{
    known_names_differ(agent);
}

/// A request that opens a session names the agent and, where no workspace is known, its first root
/// is the workspace, as a path without the scheme. What it does not say stays as it was, and no
/// other request changes anything.
pub proof fn an_introduction_is_taken_as_it_is(
    request: JsonView,
    client: Option<Seq<char>>,
    scope: ScopeView,
    uri: Seq<char>,
    path: Seq<char>,
)
    ensures
        request.text_field("method"@) != Some("initialize"@) ==> scope.introduced(request, client)
            == scope && announced_name(request) is None,
        request.text_field("method"@) == Some("initialize"@) ==> {
            let then = scope.introduced(request, client);
            let params = request.field("params"@);
            let info = if params is Some {
                params->0.field("clientInfo"@)
            } else {
                None
            };
            let roots = if params is Some {
                params->0.field("roots"@)
            } else {
                None
            };
            &&& client is None ==> then.client == scope.client && then.default_source
                == scope.default_source
            &&& client matches Some(c) ==> then.client == c && then.default_source
                == source_of_client(c, scope.agent)
            &&& scope.default_workspace is Some ==> then.default_workspace
                == scope.default_workspace
            &&& scope.default_workspace is None && (roots matches Some(JsonView::Array(all))
                && all.len() > 0 && all[0].text_field("uri"@) == Some(uri))
                ==> then.default_workspace is Some && (uri == "file://"@ + path
                ==> then.default_workspace == Some(path)) && (!"file://"@.is_prefix_of(uri)
                ==> then.default_workspace == Some(uri))
            &&& scope.default_workspace is None && !(roots matches Some(JsonView::Array(all))
                && all.len() > 0 && all[0].text_field("uri"@) is Some)
                ==> then.default_workspace is None
            &&& then.ws_config == scope.ws_config && then.enabled == scope.enabled
                && then.server_port == scope.server_port && then.session_cross_override
                == scope.session_cross_override && then.agent == scope.agent
            &&& info is None ==> announced_name(request) is None
            &&& info is Some ==> announced_name(request) == info->0.text_field("name"@)
        },
{
    let whole = "file://"@ + path;
    assert("file://"@ =~= whole.subrange(0, "file://"@.len() as int));
    assert(whole.skip("file://"@.len() as int) =~= path);
}

/// What a scope says is what its fields hold, one by one.
pub proof fn a_scope_says_what_it_holds(scope: ServerScope)
    ensures
        scope@.agent == scope.agent@ && scope@.client == scope.client@,
        scope@.default_source == owned_text(scope.default_source),
        scope@.default_workspace == owned_text(scope.default_workspace),
        scope@.ws_config.cross_scope == scope.ws_config.cross_scope@ && scope@.ws_config.enabled
            == scope.ws_config.enabled,
        scope@.session_cross_override == scope.session_cross_override && scope@.server_port
            == scope.server_port && scope@.enabled == scope.enabled,
{
}

} // verus!
