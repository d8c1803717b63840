//! The settings of the user.

use vstd::prelude::*;
use vstd::string::StringExecFns;

use crate::decimal::{
    a_written_number_is_read_back, decimal, decimal_text, parse_unsigned, unsigned_value, NumberError,
};
use crate::failure::{outcome, Failure};
use crate::json::{
    number_of_i64, parse_json, parsed, plain_with_room, pretty, whole_number, Json, JsonObject,
    JsonView, MAX_DEPTH,
};
use crate::paths::{home_dir, relay_file, relay_path, relay_path_at_home, FileToWrite};
use crate::text::{owned_text, same, slice, text_of};

verus! {

/// The settings of the user.
#[derive(Debug, Clone, PartialEq, Eq)]
pub struct Config {
    /// How many days entries stay in the database before they are archived.
    pub retention_days: u32,
    /// Where archived entries go.
    pub archive_dir: String,
    /// Whether the relay answers at all.
    pub enabled: bool,
}

/// What settings say.
pub struct ConfigView {
    pub retention_days: u32,
    pub archive_dir: Seq<char>,
    pub enabled: bool,
}

impl View for Config {
    type V = ConfigView;

    open spec fn view(&self) -> ConfigView {
        ConfigView {
            retention_days: self.retention_days,
            archive_dir: self.archive_dir@,
            enabled: self.enabled,
        }
    }
}

/// The yes or no that a word stands for.
pub open spec fn flag_word(value: Seq<char>) -> Option<bool> {
    if value == "true"@ || value == "1"@ || value == "yes"@ {
        Some(true)
    } else if value == "false"@ || value == "0"@ || value == "no"@ {
        Some(false)
    } else {
        None
    }
}

/// The words for a number that could not be read.
pub open spec fn number_complaint(e: NumberError) -> Seq<char> {
    match e {
        NumberError::Empty => "cannot parse integer from empty string"@,
        NumberError::InvalidDigit => "invalid digit found in string"@,
        NumberError::TooLarge => "number too large to fit in target type"@,
    }
}

/// The words for a value of `enabled` that is neither yes nor no.
pub open spec fn enabled_complaint(value: Seq<char>) -> Seq<char> {
    "Invalid value for enabled: "@ + value + " (use true/false)"@
}

impl ConfigView {
    /// The settings with `key` set to `value`, or why they cannot be.
    pub open spec fn with(self, key: Seq<char>, value: Seq<char>) -> Result<
        ConfigView,
        Seq<char>,
    > {
        if key == "retention_days"@ {
            match unsigned_value(value, u32::MAX as int) {
                Ok(n) => Ok(ConfigView { retention_days: n as u32, ..self }),
                Err(e) => Err(number_complaint(e)),
            }
        } else if key == "archive_dir"@ {
            Ok(ConfigView { archive_dir: value, ..self })
        } else if key == "enabled"@ {
            match flag_word(value) {
                Some(b) => Ok(ConfigView { enabled: b, ..self }),
                None => Err(enabled_complaint(value)),
            }
        } else {
            Err("Unknown config key: "@ + key)
        }
    }

    /// The settings in words, read from the file `path`.
    pub open spec fn shown(self, path: Seq<char>) -> Seq<char> {
        "Config file: "@ + path + "\nenabled:        "@ + flag_text(self.enabled)
            + "\nretention_days: "@ + decimal(self.retention_days as nat) + "\narchive_dir:    "@
            + self.archive_dir
    }

    /// The settings before the user has changed any, below `home`.
    pub open spec fn initial(home: Option<Seq<char>>) -> ConfigView {
        ConfigView {
            retention_days: default_retention_days_view(),
            archive_dir: relay_file(home, "archive"@),
            enabled: true,
        }
    }
}

/// What the settings file says: all settings.
pub open spec fn settings_value(config: ConfigView) -> JsonView {
    JsonView::Object(
        map![
            "retention_days"@ => JsonView::Number(number_of_i64(config.retention_days as i64)),
            "archive_dir"@ => JsonView::Text(config.archive_dir),
            "enabled"@ => JsonView::Bool(config.enabled),
        ],
    )
}

/// A number of days: a whole number of 32 bits without a sign.
pub open spec fn days_in(value: JsonView) -> Option<u32> {
    match value.whole() {
        Some(n) => if 0 <= n <= u32::MAX {
            Some(n as u32)
        } else {
            None
        },
        None => None,
    }
}

/// The settings that the settings file says, below `home`, in an object or in an array. A setting
/// that it leaves out is as it was at first; a file with one of the wrong kind says none.
pub open spec fn settings_in(value: JsonView, home: Option<Seq<char>>) -> Option<ConfigView> {
    let first = ConfigView::initial(home);
    let days = match value.part("retention_days"@, 0) {
        Some(v) => days_in(v),
        None => Some(first.retention_days),
    };
    let dir = match value.part("archive_dir"@, 1) {
        Some(v) => v.text(),
        None => Some(first.archive_dir),
    };
    let enabled = match value.part("enabled"@, 2) {
        Some(JsonView::Bool(b)) => Some(b),
        Some(_) => None,
        None => Some(first.enabled),
    };
    match (days, dir, enabled) {
        (Some(retention_days), Some(archive_dir), Some(enabled)) => if value.is_record(0, 3) {
            Some(ConfigView { retention_days, archive_dir, enabled })
        } else {
            None
        },
        _ => None,
    }
}

/// What a look at a file came to: nothing where there is none, its text, or why it could not be
/// read.
pub open spec fn look_view(contents: Option<Result<String, Failure>>) -> Option<
    Result<Seq<char>, Seq<char>>,
> {
    match contents {
        Some(r) => Some(outcome(r)),
        None => None,
    }
}

/// The settings that hold once the settings file has been looked at, below `home`, or why none
/// do: the initial ones where there is no such file, and otherwise those that it says.
pub open spec fn loaded(
    contents: Option<Result<Seq<char>, Seq<char>>>,
    home: Option<Seq<char>>,
) -> Result<ConfigView, Seq<char>> {
    match contents {
        None => Ok(ConfigView::initial(home)),
        Some(Err(e)) => Err(e),
        Some(Ok(text)) => match parsed(text) {
            None => Err("The settings file is not valid JSON"@),
            Some(value) => match settings_in(value, home) {
                Some(config) => Ok(config),
                None => Err("The settings file does not hold settings"@),
            },
        },
    }
}

/// The settings once the relay has been turned on or off for the user, below `home`: those that
/// hold, or the initial ones where none do, with the one changed.
pub open spec fn switched(
    contents: Option<Result<Seq<char>, Seq<char>>>,
    enabled: bool,
    home: Option<Seq<char>>,
) -> ConfigView {
    let before = match loaded(contents, home) {
        Ok(config) => config,
        Err(_) => ConfigView::initial(home),
    };
    ConfigView { enabled, ..before }
}

/// Whether a text, saved as the settings file, is loaded as the given settings, whatever the home
/// directory is then.
pub open spec fn loads_as(text: Seq<char>, config: ConfigView) -> bool {
    forall|home: Option<Seq<char>>|
        #[trigger] loaded(Some(Ok::<Seq<char>, Seq<char>>(text)), home) == Ok::<
            ConfigView,
            Seq<char>,
        >(config)
}

/// A flag in words.
pub open spec fn flag_text(b: bool) -> Seq<char> {
    if b {
        "true"@
    } else {
        "false"@
    }
}

/// The number of days after which entries are archived, unless the user says otherwise.
pub open spec fn default_retention_days_view() -> u32 {
    30
}

/// The number of days after which entries are archived, unless the user says otherwise.
pub fn default_retention_days() -> (r: u32)
    ensures
        r == default_retention_days_view(),
{
    30
}

/// Where archived entries go, unless the user says otherwise.
pub fn default_archive_dir() -> (r: String)
    ensures
        exists|home: Option<Seq<char>>| r@ == #[trigger] relay_file(home, "archive"@),
{
    relay_path_at_home("archive")
}

/// Whether the relay answers, unless the user says otherwise.
pub fn default_enabled() -> (r: bool)
    ensures
        r,
{
    true
}

/// The yes or no that a word stands for.
pub fn read_flag_word(value: &str) -> (r: Option<bool>)
    ensures
        r == flag_word(value@),
{
    if same(value, "true") || same(value, "1") || same(value, "yes") {
        Some(true)
    } else if same(value, "false") || same(value, "0") || same(value, "no") {
        Some(false)
    } else {
        None
    }
}

/// A flag in words.
pub fn flag_words(b: bool) -> (r: &'static str)
    ensures
        r@ == flag_text(b),
{
    if b {
        "true"
    } else {
        "false"
    }
}

fn complain_of_number(e: NumberError) -> (r: Failure)
    ensures
        r@ == number_complaint(e),
{
    match e {
        NumberError::Empty => Failure::new("cannot parse integer from empty string"),
        NumberError::InvalidDigit => Failure::new("invalid digit found in string"),
        NumberError::TooLarge => Failure::new("number too large to fit in target type"),
    }
}

impl Default for Config {
    fn default() -> (r: Config)
        ensures
            exists|home: Option<Seq<char>>| r@ == #[trigger] ConfigView::initial(home),
    {
        let home = home_dir();
        let r = Config::initial(slice(&home));
        proof {
            assert(r@ == ConfigView::initial(owned_text(home)));
        }
        r
    }
}

impl Config {
    /// The settings before the user has changed any, below `home`.
    pub fn initial(home: Option<&str>) -> (r: Config)
        ensures
            r@ == ConfigView::initial(text_of(home)),
    {
        Config {
            retention_days: default_retention_days(),
            archive_dir: relay_path(home, "archive"),
            enabled: default_enabled(),
        }
    }

    /// What the settings file says. Whoever reads it finds these settings.
    pub fn to_json(&self) -> (r: Json)
        ensures
            r@ == settings_value(self@),
            r@.plain(1),
            forall|home: Option<Seq<char>>| #[trigger] settings_in(r@, home) == Some(self@),
    {
        let mut o = JsonObject::new();
        o.put("retention_days", Json::integer(self.retention_days as i64));
        o.put_text("archive_dir", self.archive_dir.as_str());
        o.put("enabled", Json::Bool(self.enabled));
        proof {
            reveal_with_fuel(JsonView::plain, 2);
            reveal_strlit("retention_days");
            reveal_strlit("archive_dir");
            reveal_strlit("enabled");
            assert("retention_days"@.len() == 14);
            assert("archive_dir"@.len() == 11);
            assert("enabled"@.len() == 7);
        }
        Json::Object(o)
    }

    /// The settings that the settings file says, below `home`.
    pub fn from_json(value: &Json, home: Option<&str>) -> (r: Option<Config>)
        ensures
            match r {
                Some(c) => settings_in(value@, text_of(home)) == Some(c@),
                None => settings_in(value@, text_of(home)) is None,
            },
    {
        if !value.is_record_of(0, 3) {
            return None;
        }
        let mut config = Config::initial(home);
        match value.part("retention_days", 0) {
            Some(v) => match v.as_whole() {
                Some(n) => {
                    if n < 0 || n > u32::MAX as i64 {
                        return None;
                    }
                    config.retention_days = n as u32;
                },
                None => {
                    return None;
                },
            },
            None => {},
        }
        match value.part("archive_dir", 1) {
            Some(v) => match v.as_text() {
                Some(t) => {
                    config.archive_dir = t.to_owned();
                },
                None => {
                    return None;
                },
            },
            None => {},
        }
        match value.part("enabled", 2) {
            Some(Json::Bool(b)) => {
                config.enabled = *b;
            },
            Some(_) => {
                return None;
            },
            None => {},
        }
        Some(config)
    }

    /// The settings that hold once the settings file has been looked at, below `home`.
    pub fn load_below(contents: Option<Result<String, Failure>>, home: Option<&str>) -> (r: Result<
        Config,
        Failure,
    >)
        ensures
            match r {
                Ok(c) => loaded(look_view(contents), text_of(home)) == Ok::<ConfigView, Seq<char>>(
                    c@,
                ),
                Err(e) => loaded(look_view(contents), text_of(home)) == Err::<
                    ConfigView,
                    Seq<char>,
                >(e@),
            },
    {
        match contents {
            None => Ok(Config::initial(home)),
            Some(Err(e)) => Err(e),
            Some(Ok(text)) => match parse_json(text.as_str()) {
                None => Err(Failure::new("The settings file is not valid JSON")),
                Some(value) => match Config::from_json(&value, home) {
                    Some(config) => Ok(config),
                    None => Err(Failure::new("The settings file does not hold settings")),
                },
            },
        }
    }

    /// The settings that hold once the settings file has been looked at.
    pub fn load(contents: Option<Result<String, Failure>>) -> (r: Result<Config, Failure>)
        ensures
            exists|home: Option<Seq<char>>|
                match r {
                    Ok(c) => #[trigger] loaded(look_view(contents), home) == Ok::<
                        ConfigView,
                        Seq<char>,
                    >(c@),
                    Err(e) => loaded(look_view(contents), home) == Err::<ConfigView, Seq<char>>(
                        e@,
                    ),
                },
    {
        let home = home_dir();
        let r = Config::load_below(contents, slice(&home));
        proof {
            let found = loaded(look_view(contents), owned_text(home));
            assert(r matches Ok(c) ==> found == Ok::<ConfigView, Seq<char>>(c@));
        }
        r
    }

    /// The file to write in order to save the settings, below `home`. Whoever loads it has these
    /// settings.
    pub fn save_below(&self, home: Option<&str>) -> (r: FileToWrite)
        ensures
            r.path@ == relay_file(text_of(home), "config.json"@),
            r.text@ == pretty(settings_value(self@)),
            loads_as(r.text@, self@),
    {
        let value = self.to_json();
        proof {
            plain_with_room(value@, 1, MAX_DEPTH as nat);
        }
        FileToWrite { path: relay_path(home, "config.json"), text: value.to_pretty_text() }
    }

    /// The file to write in order to save the settings. Whoever loads it has these settings.
    pub fn save(&self) -> (r: FileToWrite)
        ensures
            exists|home: Option<Seq<char>>| r.path@ == #[trigger] relay_file(home, "config.json"@),
            r.text@ == pretty(settings_value(self@)),
            loads_as(r.text@, self@),
    {
        let home = home_dir();
        let r = self.save_below(slice(&home));
        proof {
            assert(r.path@ == relay_file(owned_text(home), "config.json"@));
        }
        r
    }

    /// Sets `key` to `value`, and gives the file to write in order to save that. Whoever loads it
    /// has the settings as they are then. Where `value` cannot be set, nothing changes, and
    /// there is nothing to save.
    pub fn set_and_save(&mut self, key: &str, value: &str) -> (r: Result<FileToWrite, Failure>)
        ensures
            match old(self)@.with(key@, value@) {
                Ok(v) => final(self)@ == v && (r matches Ok(file) && file.text@ == pretty(
                    settings_value(v),
                ) && loads_as(file.text@, v) && exists|home: Option<Seq<char>>|
                    file.path@ == #[trigger] relay_file(home, "config.json"@)),
                Err(e) => (r matches Err(f) && f@ == e) && *final(self) == *old(self),
            },
    {
        match self.set(key, value) {
            Ok(_) => Ok(self.save()),
            Err(e) => Err(e),
        }
    }

    /// The file to write in order to turn the relay on or off for the user, below `home`, once
    /// the settings file has been looked at.
    pub fn switch_below(
        contents: Option<Result<String, Failure>>,
        enabled: bool,
        home: Option<&str>,
    ) -> (r: FileToWrite)
        ensures
            r.path@ == relay_file(text_of(home), "config.json"@),
            r.text@ == pretty(
                settings_value(switched(look_view(contents), enabled, text_of(home))),
            ),
            loads_as(r.text@, switched(look_view(contents), enabled, text_of(home))),
    {
        let mut config = match Config::load_below(contents, home) {
            Ok(config) => config,
            Err(_) => Config::initial(home),
        };
        config.enabled = enabled;
        config.save_below(home)
    }

    /// The file to write in order to turn the relay on or off for the user, once the settings
    /// file has been looked at.
    pub fn switch(contents: Option<Result<String, Failure>>, enabled: bool) -> (r: FileToWrite)
        ensures
            exists|home: Option<Seq<char>>|
                r.path@ == #[trigger] relay_file(home, "config.json"@) && r.text@ == pretty(
                    settings_value(switched(look_view(contents), enabled, home)),
                ) && loads_as(r.text@, switched(look_view(contents), enabled, home)),
    {
        let home = home_dir();
        let r = Config::switch_below(contents, enabled, slice(&home));
        proof {
            assert(r.path@ == relay_file(owned_text(home), "config.json"@));
        }
        r
    }

    /// The settings file.
    pub fn config_path() -> (r: String)
        ensures
            exists|home: Option<Seq<char>>| r@ == #[trigger] relay_file(home, "config.json"@),
    {
        relay_path_at_home("config.json")
    }

    /// The database file.
    pub fn db_path() -> (r: String)
        ensures
            exists|home: Option<Seq<char>>| r@ == #[trigger] relay_file(home, "memory.db"@),
    {
        relay_path_at_home("memory.db")
    }

    /// Sets `key` to `value`. Where that cannot be done, nothing changes.
    pub fn set(&mut self, key: &str, value: &str) -> (r: Result<(), Failure>)
        ensures
            match old(self)@.with(key@, value@) {
                Ok(v) => r is Ok && final(self)@ == v,
                Err(e) => r matches Err(f) && f@ == e && *final(self) == *old(self),
            },
    {
        if same(key, "retention_days") {
            match parse_unsigned(value, u32::MAX as u64) {
                Ok(n) => {
                    self.retention_days = n as u32;
                    Ok(())
                },
                Err(e) => Err(complain_of_number(e)),
            }
        } else if same(key, "archive_dir") {
            self.archive_dir = value.to_owned();
            Ok(())
        } else if same(key, "enabled") {
            match read_flag_word(value) {
                Some(b) => {
                    self.enabled = b;
                    Ok(())
                },
                None => Err(
                    Failure::about("Invalid value for enabled: ", value, " (use true/false)"),
                ),
            }
        } else {
            Err(Failure { message: crate::text::glue("Unknown config key: ", key) })
        }
    }

    /// The settings in words, read from the file `path`.
    pub fn show_at(&self, path: &str) -> (r: String)
        ensures
            r@ == self@.shown(path@),
    {
        let mut out = crate::text::glue("Config file: ", path);
        out.append("\nenabled:        ");
        out.append(flag_words(self.enabled));
        out.append("\nretention_days: ");
        out.append(decimal_text(self.retention_days as u64).as_str());
        out.append("\narchive_dir:    ");
        out.append(self.archive_dir.as_str());
        out
    }

    /// The settings in words.
    pub fn show(&self) -> (r: String)
        ensures
            exists|home: Option<Seq<char>>|
                r@ == self@.shown(#[trigger] relay_file(home, "config.json"@)),
    {
        let path = Config::config_path();
        self.show_at(path.as_str())
    }
}

/// What has been set is what the settings then say, and setting it again changes nothing more.
/// A number of days can be given as it is shown.
pub proof fn what_is_set_holds(config: ConfigView, key: Seq<char>, value: Seq<char>, days: u32)
    ensures
        config.with("retention_days"@, decimal(days as nat)) == Ok::<ConfigView, Seq<char>>(
            ConfigView { retention_days: days, ..config },
        ),
        config.with(key, value) matches Ok(changed) ==> changed.with(key, value) == Ok::<
            ConfigView,
            Seq<char>,
        >(changed),
{
    a_written_number_is_read_back(days as nat, u32::MAX as int);
}

/// What tilde expansion makes of `path` when the home directory is `home`.
pub open spec fn tilde_expanded(path: Seq<char>, home: Option<Seq<char>>) -> Seq<char> {
    if home is Some && path.len() > 0 && path[0] == '~' && (path.len() == 1 || path[1] == '/'
        || path[1] == '\\') {
        home->0 + path.skip(1)
    } else {
        path
    }
}

/// `shellexpand::tilde_with_context`: a tilde that begins the path, and is all of it or followed
/// by a separator, is replaced by the home directory, where there is one; every other path
/// stays as it is. Whether `\` separates is up to the system, so of a path in which it follows the
/// tilde only the two possible results are stated.
#[verifier::external_body]
fn expand_tilde(path: &str, home: Option<&str>) -> (r: String)
    ensures
        path@.len() < 2 || path@[1] != '\\' ==> r@ == tilde_expanded(path@, text_of(home)),
        r@ == path@ || r@ == tilde_expanded(path@, text_of(home)),
{
    shellexpand::tilde_with_context(path, || home).into_owned()
}

/// The directory that archived entries go to, when the home directory is `home`.
pub fn archive_dir_below(config: &Config, home: Option<&str>) -> (r: String)
    ensures
        config.archive_dir@.len() < 2 || config.archive_dir@[1] != '\\' ==> r@ == tilde_expanded(
            config.archive_dir@,
            text_of(home),
        ),
        r@ == config.archive_dir@ || r@ == tilde_expanded(config.archive_dir@, text_of(home)),
{
    expand_tilde(config.archive_dir.as_str(), home)
}

/// The directory that archived entries go to.
pub fn resolve_archive_dir(config: &Config) -> (r: String)
    ensures
        exists|home: Option<Seq<char>>|
            {
                let expanded = #[trigger] tilde_expanded(config.archive_dir@, home);
                &&& config.archive_dir@.len() < 2 || config.archive_dir@[1] != '\\' ==> r@
                    == expanded
                &&& r@ == config.archive_dir@ || r@ == expanded
            },
        !"~"@.is_prefix_of(config.archive_dir@) ==> r@ == config.archive_dir@,
{
    let home = home_dir();
    let r = archive_dir_below(config, slice(&home));
    proof {
        let p = config.archive_dir@;
        let expanded = tilde_expanded(p, owned_text(home));
        assert(r@ == p || r@ == expanded);
        if p.len() > 0 && p[0] == '~' {
            reveal_strlit("~");
            assert("~"@ =~= p.subrange(0, 1));
        }
    }
    r
}

/// To turn the relay on or off for the user changes that setting and no other, and to do so twice
/// is to do so the second time.
pub proof fn a_switch_keeps_the_other_settings(
    contents: Option<Result<Seq<char>, Seq<char>>>,
    enabled: bool,
    again: bool,
    home: Option<Seq<char>>,
    saved: Seq<char>,
)
    requires
        loads_as(saved, switched(contents, enabled, home)),
    ensures
        switched(contents, enabled, home).enabled == enabled,
        loaded(contents, home) matches Ok(c) ==> switched(contents, enabled, home)
            == (ConfigView { enabled, ..c }),
        loaded(contents, home) is Err ==> switched(contents, enabled, home) == (ConfigView {
            enabled,
            ..ConfigView::initial(home)
        }),
        switched(Some(Ok(saved)), again, home) == switched(contents, again, home),
{
    let after = loaded(Some(Ok::<Seq<char>, Seq<char>>(saved)), home);
    assert(after == Ok::<ConfigView, Seq<char>>(switched(contents, enabled, home)));
}

/// The settings that the user starts with: entries stay for thirty days, archived ones go below
/// this program's directory, and the relay answers.
pub proof fn the_user_starts_with_these_settings(home: Option<Seq<char>>)
    ensures
        ConfigView::initial(home).retention_days == 30,
        ConfigView::initial(home).archive_dir == relay_file(home, "archive"@),
        ConfigView::initial(home).enabled,
{
}

/// Setting one of the three settings changes that one alone: the days to the number that is given,
/// the directory to any text, and whether the relay answers to what one of six words says.
/// Anything else is refused, with the words for it.
pub proof fn each_setting_is_set_to_what_is_given(
    config: ConfigView,
    key: Seq<char>,
    value: Seq<char>,
)
    ensures
        unsigned_value(value, u32::MAX as int) matches Ok(n) ==> config.with(
            "retention_days"@,
            value,
        ) == Ok::<ConfigView, Seq<char>>(
            ConfigView {
                retention_days: n as u32,
                archive_dir: config.archive_dir,
                enabled: config.enabled,
            },
        ),
        unsigned_value(value, u32::MAX as int) matches Err(e) ==> config.with(
            "retention_days"@,
            value,
        ) == Err::<ConfigView, Seq<char>>(
            match e {
                NumberError::Empty => "cannot parse integer from empty string"@,
                NumberError::InvalidDigit => "invalid digit found in string"@,
                NumberError::TooLarge => "number too large to fit in target type"@,
            },
        ),
        config.with("archive_dir"@, value) == Ok::<ConfigView, Seq<char>>(
            ConfigView {
                retention_days: config.retention_days,
                archive_dir: value,
                enabled: config.enabled,
            },
        ),
        value == "true"@ || value == "1"@ || value == "yes"@ ==> config.with("enabled"@, value)
            == Ok::<ConfigView, Seq<char>>(
            ConfigView {
                retention_days: config.retention_days,
                archive_dir: config.archive_dir,
                enabled: true,
            },
        ),
        value == "false"@ || value == "0"@ || value == "no"@ ==> config.with("enabled"@, value)
            == Ok::<ConfigView, Seq<char>>(
            ConfigView {
                retention_days: config.retention_days,
                archive_dir: config.archive_dir,
                enabled: false,
            },
        ),
        value != "true"@ && value != "1"@ && value != "yes"@ && value != "false"@ && value != "0"@
            && value != "no"@ ==> config.with("enabled"@, value) == Err::<ConfigView, Seq<char>>(
            "Invalid value for enabled: "@ + value + " (use true/false)"@,
        ),
        key != "retention_days"@ && key != "archive_dir"@ && key != "enabled"@ ==> config.with(
            key,
            value,
        ) == Err::<ConfigView, Seq<char>>("Unknown config key: "@ + key),
{
    settings_are_named_apart();
    words_for_flags_differ();
}

proof fn settings_are_named_apart()
    ensures
        "retention_days"@ != "archive_dir"@,
        "retention_days"@ != "enabled"@,
        "archive_dir"@ != "enabled"@,
{
    reveal_strlit("retention_days");
    reveal_strlit("archive_dir");
    reveal_strlit("enabled");
    assert("retention_days"@.len() == 14);
    assert("archive_dir"@.len() == 11);
    assert("enabled"@.len() == 7);
}

/// No word for yes is a word for no.
pub proof fn words_for_flags_differ()
    ensures
        flag_word("true"@) == Some(true),
        flag_word("1"@) == Some(true),
        flag_word("yes"@) == Some(true),
        flag_word("false"@) == Some(false),
        flag_word("0"@) == Some(false),
        flag_word("no"@) == Some(false),
{
    reveal_strlit("true");
    reveal_strlit("1");
    reveal_strlit("yes");
    reveal_strlit("false");
    reveal_strlit("0");
    reveal_strlit("no");
    assert("true"@.len() == 4 && "yes"@.len() == 3 && "false"@.len() == 5 && "no"@.len() == 2);
    assert("1"@.len() == 1 && "1"@[0] == '1' && "0"@.len() == 1 && "0"@[0] == '0');
}

/// Settings are written with these names, and the settings file says what stands in it: what it
/// leaves out is as at first, and where one of the three is of another kind it says nothing.
pub proof fn a_settings_file_says_what_stands_in_it(
    value: JsonView,
    home: Option<Seq<char>>,
    config: ConfigView,
)
    ensures
        settings_value(config) == JsonView::Object(
            map![
                "retention_days"@ => JsonView::Number(number_of_i64(config.retention_days as i64)),
                "archive_dir"@ => JsonView::Text(config.archive_dir),
                "enabled"@ => JsonView::Bool(config.enabled),
            ],
        ),
        value is Object ==> {
            let days = value.field("retention_days"@);
            let dir = value.field("archive_dir"@);
            let enabled = value.field("enabled"@);
            let whole = if days is Some {
                days->0.whole()
            } else {
                None
            };
            &&& (days is Some && (whole is None || whole->0 < 0 || whole->0 > u32::MAX)) || (
            dir is Some && !(dir->0 is Text)) || (enabled is Some && !(enabled->0 is Bool))
                <==> settings_in(value, home) is None
            &&& settings_in(value, home) matches Some(c) ==> {
                &&& days is None ==> c.retention_days == 30
                &&& days is Some ==> whole == Some(c.retention_days as i64)
                &&& dir is None ==> c.archive_dir == relay_file(home, "archive"@)
                &&& dir is Some ==> dir == Some(JsonView::Text(c.archive_dir))
                &&& enabled is None ==> c.enabled
                &&& enabled is Some ==> enabled == Some(JsonView::Bool(c.enabled))
            }
        },
        !(value is Object) && !(value is Array) ==> settings_in(value, home) is None,
{
}

/// The settings are those of the file. Where there is no file they are the initial ones, and where
/// it cannot be read or says none there are none.
pub proof fn settings_come_from_the_file(
    text: Seq<char>,
    reason: Seq<char>,
    home: Option<Seq<char>>,
)
    ensures
        loaded(None, home) == Ok::<ConfigView, Seq<char>>(ConfigView::initial(home)),
        loaded(Some(Err(reason)), home) == Err::<ConfigView, Seq<char>>(reason),
        parsed(text) is None ==> loaded(Some(Ok(text)), home) is Err,
        parsed(text) matches Some(value) ==> (settings_in(value, home) matches Some(config)
            ==> loaded(Some(Ok(text)), home) == Ok::<ConfigView, Seq<char>>(config)),
        parsed(text) matches Some(value) ==> settings_in(value, home) is None ==> loaded(
            Some(Ok(text)),
            home,
        ) is Err,
{
}

/// The settings are shown one on a line, after the file that they come from.
pub proof fn settings_are_shown_one_on_a_line(config: ConfigView, path: Seq<char>)
    ensures
        config.shown(path) == "Config file: "@ + path + "\nenabled:        "@ + (
        if config.enabled {
            "true"@
        } else {
            "false"@
        }) + "\nretention_days: "@ + decimal(config.retention_days as nat)
            + "\narchive_dir:    "@ + config.archive_dir,
{
}

/// A tilde alone, or before a separator, stands for the home directory where there is one. Every
/// other path stays as it is.
pub proof fn a_tilde_stands_for_the_home_directory(path: Seq<char>, home: Seq<char>)
    ensures
        tilde_expanded(seq!['~'], Some(home)) == home,
        tilde_expanded(seq!['~', '/'] + path, Some(home)) == home + seq!['/'] + path,
        tilde_expanded(path, None) == path,
        path.len() == 0 || path[0] != '~' ==> tilde_expanded(path, Some(home)) == path,
        path.len() >= 2 && path[1] != '/' && path[1] != '\\' ==> tilde_expanded(path, Some(home))
            == path,
{
    assert(home + seq!['~'].skip(1) =~= home);
    assert(home + (seq!['~', '/'] + path).skip(1) =~= home + seq!['/'] + path);
}

/// What settings say is what their fields hold, and what a look at a file came to is its text or
/// the message, where there was a file.
pub proof fn settings_say_what_they_hold(config: Config, s: String, failure: Failure)
    ensures
        config@.retention_days == config.retention_days && config@.archive_dir
            == config.archive_dir@ && config@.enabled == config.enabled,
        look_view(None) is None,
        look_view(Some(Ok(s))) == Some(Ok::<Seq<char>, Seq<char>>(s@)),
        look_view(Some(Err(failure))) == Some(Err::<Seq<char>, Seq<char>>(failure@)),
{
}

/// A settings file that is an array has the days, the directory and whether the relay answers, in
/// this order. The last ones may be missing, and are then as at first; more than three say nothing.
pub proof fn settings_in_an_array_stand_in_their_order(
    items: Seq<JsonView>,
    home: Option<Seq<char>>,
    days: serde_json::Number,
    n: u32,
    dir: Seq<char>,
    enabled: bool,
)
    requires
        whole_number(days) == Some(n as i64),
    ensures
        settings_in(
            JsonView::Array(
                seq![JsonView::Number(days), JsonView::Text(dir), JsonView::Bool(enabled)],
            ),
            home,
        ) == Some(ConfigView { retention_days: n, archive_dir: dir, enabled }),
        settings_in(JsonView::Array(seq![JsonView::Number(days), JsonView::Text(dir)]), home)
            == Some(ConfigView { retention_days: n, archive_dir: dir, enabled: true }),
        settings_in(JsonView::Array(seq![JsonView::Number(days)]), home) == Some(
            ConfigView {
                retention_days: n,
                archive_dir: relay_file(home, "archive"@),
                enabled: true,
            },
        ),
        settings_in(JsonView::Array(Seq::empty()), home) == Some(ConfigView::initial(home)),
        items.len() > 3 ==> settings_in(JsonView::Array(items), home) is None,
        items.len() > 0 && !(items[0] is Number) ==> settings_in(JsonView::Array(items), home)
            is None,
        items.len() > 1 && !(items[1] is Text) ==> settings_in(JsonView::Array(items), home)
            is None,
        items.len() > 2 && !(items[2] is Bool) ==> settings_in(JsonView::Array(items), home)
            is None,
{
}

} // verus!
