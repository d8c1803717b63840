//! The settings of one workspace.

use vstd::prelude::*;
use vstd::string::StringExecFns;

use crate::config::{
    enabled_complaint, flag_text, flag_word, flag_words, read_flag_word, words_for_flags_differ,
};
use crate::failure::Failure;
use crate::json::{
    parse_json, parsed, plain_with_room, pretty, Json, JsonObject, JsonView, MAX_DEPTH,
};
use crate::paths::{join_path, joined, FileToWrite};
use crate::text::{same, text_of};

verus! {

/// The settings of one workspace.
#[derive(Debug, Clone, PartialEq, Eq)]
pub struct WorkspaceConfig {
    /// Whether searches may reach beyond the asking agent: "ask", "allow" or "deny".
    pub cross_scope: String,
    /// Whether the relay answers in this workspace; without it the user's settings say so.
    pub enabled: Option<bool>,
}

/// What the settings of a workspace say.
pub struct WorkspaceView {
    pub cross_scope: Seq<char>,
    pub enabled: Option<bool>,
}

impl View for WorkspaceConfig {
    type V = WorkspaceView;

    open spec fn view(&self) -> WorkspaceView {
        WorkspaceView { cross_scope: self.cross_scope@, enabled: self.enabled }
    }
}

/// The words for a value of `cross_scope` that does not exist.
pub open spec fn cross_scope_complaint(value: Seq<char>) -> Seq<char> {
    "Invalid value for cross_scope: "@ + value + " (use ask/allow/deny)"@
}

/// Whether `value` is one of the three that `cross_scope` can have.
pub open spec fn is_cross_scope(value: Seq<char>) -> bool {
    value == "ask"@ || value == "allow"@ || value == "deny"@
}

impl WorkspaceView {
    /// The settings of a workspace that says nothing.
    pub open spec fn initial() -> WorkspaceView {
        WorkspaceView { cross_scope: "ask"@, enabled: None }
    }

    /// The settings with `key` set to `value`, or why they cannot be.
    pub open spec fn with(self, key: Seq<char>, value: Seq<char>) -> Result<
        WorkspaceView,
        Seq<char>,
    > {
        if key == "cross_scope"@ {
            if is_cross_scope(value) {
                Ok(WorkspaceView { cross_scope: value, ..self })
            } else {
                Err(cross_scope_complaint(value))
            }
        } else if key == "enabled"@ {
            match flag_word(value) {
                Some(b) => Ok(WorkspaceView { enabled: Some(b), ..self }),
                None => Err(enabled_complaint(value)),
            }
        } else {
            Err("Unknown workspace config key: "@ + key)
        }
    }

    /// The settings in words.
    pub open spec fn shown(self, workspace: Seq<char>) -> Seq<char> {
        "Workspace config: "@ + workspace_file(workspace) + "\nenabled:     "@ + (match self.enabled {
            Some(b) => flag_text(b),
            None => "(inherit global)"@,
        }) + "\ncross_scope: "@ + self.cross_scope
    }
}

/// The file that holds the settings of a workspace.
pub open spec fn workspace_file(workspace: Seq<char>) -> Seq<char> {
    joined(workspace, ".agents-relay.json"@)
}

/// What the file of a workspace says: all its settings, but for one that it leaves to the user's.
pub open spec fn workspace_value(config: WorkspaceView) -> JsonView {
    let said = map!["cross_scope"@ => JsonView::Text(config.cross_scope)];
    JsonView::Object(
        match config.enabled {
            Some(b) => said.insert("enabled"@, JsonView::Bool(b)),
            None => said,
        },
    )
}

/// The settings that the file of a workspace says, in an object or in an array of both. A setting
/// that an object leaves out is as it was at first; a file with one of the wrong kind says none.
pub open spec fn workspace_in(value: JsonView) -> Option<WorkspaceView> {
    let cross_scope = match value.part("cross_scope"@, 0) {
        Some(v) => v.text(),
        None => Some("ask"@),
    };
    let enabled = match value.part("enabled"@, 1) {
        Some(JsonView::Bool(b)) => Some(Some(b)),
        Some(JsonView::Null) => Some(None),
        Some(_) => None,
        None => Some(None),
    };
    match (cross_scope, enabled) {
        (Some(cross_scope), Some(enabled)) => if value.is_record(2, 2) {
            Some(WorkspaceView { cross_scope, enabled })
        } else {
            None
        },
        _ => None,
    }
}

/// The settings that hold in a workspace whose file has the given text: the initial ones where
/// no workspace is known, or its file is missing, could not be read, or says no settings.
pub open spec fn workspace_loaded(
    workspace: Option<Seq<char>>,
    contents: Option<Seq<char>>,
) -> WorkspaceView {
    match (workspace, contents) {
        (Some(_), Some(text)) => match parsed(text) {
            Some(value) => match workspace_in(value) {
                Some(config) => config,
                None => WorkspaceView::initial(),
            },
            None => WorkspaceView::initial(),
        },
        _ => WorkspaceView::initial(),
    }
}

/// The value of `cross_scope` in a workspace that says nothing.
pub fn default_cross_scope() -> (r: String)
    ensures
        r@ == "ask"@,
{
    "ask".to_owned()
}

impl Default for WorkspaceConfig {
    fn default() -> (r: WorkspaceConfig)
        ensures
            r@ == WorkspaceView::initial(),
    {
        WorkspaceConfig { cross_scope: default_cross_scope(), enabled: None }
    }
}

impl WorkspaceConfig {
    /// The file that holds the settings of `workspace`.
    pub fn config_path(workspace: &str) -> (r: String)
        ensures
            r@ == workspace_file(workspace@),
    {
        join_path(workspace, ".agents-relay.json")
    }

    /// What the file of a workspace says. Whoever reads it finds these settings.
    pub fn to_json(&self) -> (r: Json)
        ensures
            r@ == workspace_value(self@),
            r@.plain(1),
            workspace_in(r@) == Some(self@),
    {
        let mut o = JsonObject::new();
        o.put_text("cross_scope", self.cross_scope.as_str());
        match self.enabled {
            Some(b) => o.put("enabled", Json::Bool(b)),
            None => {},
        }
        proof {
            reveal_with_fuel(JsonView::plain, 2);
            reveal_strlit("cross_scope");
            reveal_strlit("enabled");
            assert("cross_scope"@.len() == 11);
            assert("enabled"@.len() == 7);
        }
        Json::Object(o)
    }

    /// The settings that the file of a workspace says.
    pub fn from_json(value: &Json) -> (r: Option<WorkspaceConfig>)
        ensures
            match r {
                Some(c) => workspace_in(value@) == Some(c@),
                None => workspace_in(value@) is None,
            },
    {
        if !value.is_record_of(2, 2) {
            return None;
        }
        let cross_scope = match value.part("cross_scope", 0) {
            Some(Json::Text(t)) => t.clone(),
            Some(_) => {
                return None;
            },
            None => default_cross_scope(),
        };
        let enabled = match value.part("enabled", 1) {
            Some(Json::Bool(b)) => Some(*b),
            Some(Json::Null) => None,
            Some(_) => {
                return None;
            },
            None => None,
        };
        Some(WorkspaceConfig { cross_scope, enabled })
    }

    /// The settings that hold in `workspace`, when its file has the text `contents`.
    pub fn load(workspace: Option<&str>, contents: Option<&str>) -> (r: WorkspaceConfig)
        ensures
            r@ == workspace_loaded(text_of(workspace), text_of(contents)),
    {
        match (workspace, contents) {
            (Some(_), Some(text)) => match parse_json(text) {
                Some(value) => match WorkspaceConfig::from_json(&value) {
                    Some(config) => config,
                    None => WorkspaceConfig::default(),
                },
                None => WorkspaceConfig::default(),
            },
            _ => WorkspaceConfig::default(),
        }
    }

    /// The file to write in order to save the settings. Whoever loads it has these settings.
    /// Without a workspace there is no such file.
    pub fn save(&self, workspace: Option<&str>) -> (r: Result<FileToWrite, Failure>)
        ensures
            match text_of(workspace) {
                Some(ws) => r matches Ok(file) && file.path@ == workspace_file(ws) && file.text@
                    == pretty(workspace_value(self@)) && workspace_loaded(
                    Some(ws),
                    Some(file.text@),
                ) == self@,
                None => r matches Err(e) && e@ == "No workspace path to save config to"@,
            },
    {
        match workspace {
            Some(ws) => {
                let value = self.to_json();
                proof {
                    plain_with_room(value@, 1, MAX_DEPTH as nat);
                }
                Ok(
                    FileToWrite {
                        path: WorkspaceConfig::config_path(ws),
                        text: value.to_pretty_text(),
                    },
                )
            },
            None => Err(Failure::new("No workspace path to save config to")),
        }
    }

    /// Sets `key` to `value`. Where that cannot be done, nothing changes.
    pub fn set(&mut self, key: &str, value: &str) -> (r: Result<(), Failure>)
        ensures
            match old(self)@.with(key@, value@) {
                Ok(v) => r is Ok && final(self)@ == v,
                Err(e) => r matches Err(f) && f@ == e && *final(self) == *old(self),
            },
    {
        if same(key, "cross_scope") {
            if same(value, "ask") || same(value, "allow") || same(value, "deny") {
                self.cross_scope = value.to_owned();
                Ok(())
            } else {
                Err(
                    Failure::about(
                        "Invalid value for cross_scope: ",
                        value,
                        " (use ask/allow/deny)",
                    ),
                )
            }
        } else if same(key, "enabled") {
            match read_flag_word(value) {
                Some(b) => {
                    self.enabled = Some(b);
                    Ok(())
                },
                None => Err(
                    Failure::about("Invalid value for enabled: ", value, " (use true/false)"),
                ),
            }
        } else {
            Err(Failure { message: crate::text::glue("Unknown workspace config key: ", key) })
        }
    }

    /// The settings in words.
    pub fn show(&self, workspace: &str) -> (r: String)
        ensures
            r@ == self@.shown(workspace@),
    {
        let path = WorkspaceConfig::config_path(workspace);
        let mut out = crate::text::glue("Workspace config: ", path.as_str());
        out.append("\nenabled:     ");
        match self.enabled {
            Some(b) => out.append(flag_words(b)),
            None => out.append("(inherit global)"),
        }
        out.append("\ncross_scope: ");
        out.append(self.cross_scope.as_str());
        out
    }
}

/// Whatever is set, searches that reach further stay subject to one of the three answers, and
/// setting the same again changes nothing more.
pub proof fn settings_stay_valid(config: WorkspaceView, key: Seq<char>, value: Seq<char>)
    requires
        is_cross_scope(config.cross_scope),
    ensures
        config.with(key, value) matches Ok(changed) ==> is_cross_scope(changed.cross_scope)
            && changed.with(key, value) == Ok::<WorkspaceView, Seq<char>>(changed),
        is_cross_scope(WorkspaceView::initial().cross_scope),
{
}

/// Setting one of the two settings changes that one alone, to one of three words or to what one of
/// six says. Anything else is refused, with the words for it.
pub proof fn each_setting_of_a_workspace_is_set_to_what_is_given(
    config: WorkspaceView,
    key: Seq<char>,
    value: Seq<char>,
)
    ensures
        value == "ask"@ || value == "allow"@ || value == "deny"@ ==> config.with(
            "cross_scope"@,
            value,
        ) == Ok::<WorkspaceView, Seq<char>>(
            WorkspaceView { cross_scope: value, enabled: config.enabled },
        ),
        value != "ask"@ && value != "allow"@ && value != "deny"@ ==> config.with(
            "cross_scope"@,
            value,
        ) == Err::<WorkspaceView, Seq<char>>(
            "Invalid value for cross_scope: "@ + value + " (use ask/allow/deny)"@,
        ),
        value == "true"@ || value == "1"@ || value == "yes"@ ==> config.with("enabled"@, value)
            == Ok::<WorkspaceView, Seq<char>>(
            WorkspaceView { cross_scope: config.cross_scope, enabled: Some(true) },
        ),
        value == "false"@ || value == "0"@ || value == "no"@ ==> config.with("enabled"@, value)
            == Ok::<WorkspaceView, Seq<char>>(
            WorkspaceView { cross_scope: config.cross_scope, enabled: Some(false) },
        ),
        value != "true"@ && value != "1"@ && value != "yes"@ && value != "false"@ && value != "0"@
            && value != "no"@ ==> config.with("enabled"@, value) == Err::<
            WorkspaceView,
            Seq<char>,
        >("Invalid value for enabled: "@ + value + " (use true/false)"@),
        key != "cross_scope"@ && key != "enabled"@ ==> config.with(key, value) == Err::<
            WorkspaceView,
            Seq<char>,
        >("Unknown workspace config key: "@ + key),
{
    words_for_flags_differ();
    reveal_strlit("cross_scope");
    reveal_strlit("enabled");
    assert("cross_scope"@.len() == 11 && "enabled"@.len() == 7);
}

/// The file of a workspace says what stands in it: without an answer to searches that reach further
/// the user is to be asked, and without a word on whether the relay answers it is up to the
/// user's settings. Where one of them is of another kind, or there is no such file or no
/// workspace, it is as if both were left out.
pub proof fn the_file_of_a_workspace_says_what_stands_in_it(
    workspace: Seq<char>,
    text: Seq<char>,
    contents: Option<Seq<char>>,
)
    ensures
        workspace_file(workspace) == joined(workspace, ".agents-relay.json"@),
        workspace_loaded(None, contents) == (WorkspaceView { cross_scope: "ask"@, enabled: None }),
        workspace_loaded(Some(workspace), None) == (WorkspaceView {
            cross_scope: "ask"@,
            enabled: None,
        }),
        parsed(text) is None ==> workspace_loaded(Some(workspace), Some(text)) == (WorkspaceView {
            cross_scope: "ask"@,
            enabled: None,
        }),
        parsed(text) is Some && parsed(text)->0 is Object ==> {
            let cross_scope = parsed(text)->0.field("cross_scope"@);
            let enabled = parsed(text)->0.field("enabled"@);
            let config = workspace_loaded(Some(workspace), Some(text));
            if (cross_scope is Some && !(cross_scope->0 is Text)) || (enabled is Some && !(
            enabled->0 is Bool) && !(enabled->0 is Null)) {
                config == (WorkspaceView { cross_scope: "ask"@, enabled: None })
            } else {
                &&& cross_scope is None ==> config.cross_scope == "ask"@
                &&& cross_scope is Some ==> cross_scope == Some(JsonView::Text(config.cross_scope))
                &&& enabled is None || enabled->0 is Null ==> config.enabled is None
                &&& enabled is Some && enabled->0 is Bool ==> config.enabled == Some(
                    enabled->0->Bool_0,
                )
            }
        },
{
}

/// The settings of a workspace are written with these names, and one that is left to the user's
/// settings is left out.
pub proof fn settings_of_a_workspace_are_written_by_name(cross_scope: Seq<char>, enabled: bool)
    ensures
        workspace_value(WorkspaceView { cross_scope, enabled: None }) == JsonView::Object(
            map!["cross_scope"@ => JsonView::Text(cross_scope)],
        ),
        workspace_value(WorkspaceView { cross_scope, enabled: Some(enabled) })
            == JsonView::Object(
            map![
                "cross_scope"@ => JsonView::Text(cross_scope),
                "enabled"@ => JsonView::Bool(enabled),
            ],
        ),
{
}

/// The settings of a workspace are shown one on a line, after the file that they come from.
pub proof fn settings_of_a_workspace_are_shown_one_on_a_line(
    config: WorkspaceView,
    workspace: Seq<char>,
)
    ensures
        config.shown(workspace) == "Workspace config: "@ + joined(
            workspace,
            ".agents-relay.json"@,
        ) + "\nenabled:     "@ + (if config.enabled == Some(true) {
            "true"@
        } else if config.enabled == Some(false) {
            "false"@
        } else {
            "(inherit global)"@
        }) + "\ncross_scope: "@ + config.cross_scope,
{
}

/// A file of a workspace that is an array has both settings, in this order, and the second one may
/// be null. With fewer or more, and where the file is neither an object nor an array, it says
/// nothing.
pub proof fn settings_of_a_workspace_in_an_array_stand_in_their_order(
    value: JsonView,
    items: Seq<JsonView>,
    cross_scope: Seq<char>,
    enabled: bool,
)
    ensures
        workspace_in(JsonView::Array(seq![JsonView::Text(cross_scope), JsonView::Bool(enabled)]))
            == Some(WorkspaceView { cross_scope, enabled: Some(enabled) }),
        workspace_in(JsonView::Array(seq![JsonView::Text(cross_scope), JsonView::Null])) == Some(
            WorkspaceView { cross_scope, enabled: None },
        ),
        items.len() != 2 ==> workspace_in(JsonView::Array(items)) is None,
        items.len() == 2 && (!(items[0] is Text) || !(items[1] is Bool) && !(items[1] is Null))
            ==> workspace_in(JsonView::Array(items)) is None,
        !(value is Object) && !(value is Array) ==> workspace_in(value) is None,
{
}

/// The settings that hold in a workspace are those that its file says, and otherwise the first
/// ones: the user is to be asked, and whether the relay answers is up to the user's settings.
pub proof fn settings_that_are_not_said_are_the_first_ones(workspace: Seq<char>, text: Seq<char>)
    ensures
        parsed(text) matches Some(value) ==> workspace_loaded(Some(workspace), Some(text))
            == match workspace_in(value) {
            Some(config) => config,
            None => WorkspaceView { cross_scope: "ask"@, enabled: None },
        },
{
}

} // verus!
