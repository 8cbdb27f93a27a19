//! Settings: what is stored, what the environment overrides, and what the
//! run works with in the end.

use vstd::prelude::*;
use crate::error::{AppError, AppResult, ErrorKind};
use crate::text::{
    append_str, chars_of, eq_str, join, join_vecs, string_of, texts, to_lowercase, trim, trim_vec,
    unicode_lowercase,
};

verus! {

/// The settings as they are persisted, or as the environment gives them:
/// each one may be absent.
#[derive(Debug, Clone)]
pub struct StoredConfig {
    pub jira_base_url: Option<String>,
    pub jira_token: Option<String>,
    pub jira_email: Option<String>,
    pub default_board: Option<String>,
    pub llm_provider: Option<String>,
    pub gemini_api_key: Option<String>,
    pub gemini_model: Option<String>,
    pub jira_issue_type: Option<String>,
}

impl Default for StoredConfig {
    fn default() -> (out: Self)
        ensures
            out.jira_base_url is None,
            out.jira_token is None,
            out.jira_email is None,
            out.default_board is None,
            out.llm_provider is None,
            out.gemini_api_key is None,
            out.gemini_model is None,
            out.jira_issue_type is None,
    {
        Self {
            jira_base_url: None,
            jira_token: None,
            jira_email: None,
            default_board: None,
            llm_provider: None,
            gemini_api_key: None,
            gemini_model: None,
            jira_issue_type: None,
        }
    }
}

/// How an attempt to read the file of stored settings ended.
pub enum ConfigRead {
    /// There is no such file.
    Missing,
    /// The file could not be read.
    Failed(std::io::Error),
    /// The file does not hold settings; the text says why.
    Corrupt(String),
    /// What the file holds.
    Contents(StoredConfig),
}

impl StoredConfig {
    /// The error for settings that could not be written out; `reason` says
    /// why.
    pub fn write_failure(reason: &str) -> (error: AppError)
        ensures
            error.reads(ErrorKind::Configuration, "failed to serialize config: "@ + reason@),
    {
        let mut text = chars_of("failed to serialize config: ");
        append_str(&mut text, reason);
        AppError::Configuration(string_of(&text))
    }

    /// Makes the stored settings from the outcome of reading their file: a
    /// missing file holds none, a corrupt one is a configuration error, and
    /// a failed read the I/O error itself.
    pub fn from_read(read: ConfigRead) -> (out: AppResult<Self>)
        ensures
            match read {
                ConfigRead::Missing => out is Ok && out->Ok_0 == (StoredConfig {
                    jira_base_url: None,
                    jira_token: None,
                    jira_email: None,
                    default_board: None,
                    llm_provider: None,
                    gemini_api_key: None,
                    gemini_model: None,
                    jira_issue_type: None,
                }),
                ConfigRead::Contents(stored) => out == Ok::<StoredConfig, AppError>(stored),
                ConfigRead::Corrupt(reason) => out is Err && out->Err_0.reads(
                    ErrorKind::Configuration,
                    "invalid config file: "@ + reason@,
                ),
                ConfigRead::Failed(error) => out is Err && out->Err_0 == AppError::Io(error),
            },
    {
        match read {
            ConfigRead::Missing => Ok(StoredConfig::default()),
            ConfigRead::Contents(stored) => Ok(stored),
            ConfigRead::Corrupt(reason) => {
                let mut text = chars_of("invalid config file: ");
                append_str(&mut text, reason.as_str());
                Err(AppError::Configuration(string_of(&text)))
            },
            ConfigRead::Failed(error) => Err(AppError::Io(error)),
        }
    }
}

/// Who drafts tickets.
#[derive(Debug, Clone)]
pub enum LlmProvider {
    Gemini,
    Custom(String),
}

/// Whether `provider` is the provider that a trimmed, lowercase name
/// stands for: Gemini for `gemini`, none for the empty name, a custom one
/// for any other.
pub open spec fn is_provider(provider: Option<LlmProvider>, name: Seq<char>) -> bool {
    if name == "gemini"@ {
        provider == Some(LlmProvider::Gemini)
    } else if name.len() == 0 {
        provider is None
    } else {
        provider matches Some(LlmProvider::Custom(custom)) && custom@ == name
    }
}

impl LlmProvider {
    /// Reads a provider from a name that is already trimmed and lowercase.
    pub fn from_canonical(name: &str) -> (provider: Option<Self>)
        ensures
            is_provider(provider, name@),
    {
        let chars = chars_of(name);
        if eq_str(&chars, "gemini") {
            Some(LlmProvider::Gemini)
        } else if chars.len() > 0 {
            Some(LlmProvider::Custom(name.to_owned()))
        } else {
            None
        }
    }

    /// Reads a provider from its name, ignoring surrounding whitespace and
    /// letter case. A blank name gives `None`.
    pub fn from_str(value: &str) -> (provider: Option<Self>)
        ensures
            is_provider(provider, unicode_lowercase(trim(value@))),
    {
        let trimmed = string_of(&trim_vec(&chars_of(value)));
        let lowered = to_lowercase(trimmed.as_str());
        Self::from_canonical(lowered.as_str())
    }
}

/// The settings a run works with.
#[derive(Debug, Clone)]
pub struct AppConfig {
    pub jira_base_url: Option<String>,
    pub jira_token: Option<String>,
    pub jira_email: Option<String>,
    pub default_board: Option<String>,
    pub llm_provider: LlmProvider,
    pub workspace_root: std::path::PathBuf,
    pub gemini_api_key: Option<String>,
    pub gemini_model: String,
    pub jira_issue_type: String,
}

/// The text of a setting that may be absent.
pub open spec fn text_of(value: Option<String>) -> Option<Seq<char>> {
    match value {
        Some(text) => Some(text@),
        None => None,
    }
}

/// A setting as resolved: the override where there is one, else what is
/// stored.
pub open spec fn layered(overridden: Option<String>, stored: Option<String>) -> Option<Seq<char>> {
    match overridden {
        Some(text) => Some(text@),
        None => text_of(stored),
    }
}

/// A setting with a default as resolved.
pub open spec fn layered_or(
    overridden: Option<String>,
    stored: Option<String>,
    default: Seq<char>,
) -> Seq<char> {
    match layered(overridden, stored) {
        Some(text) => text,
        None => default,
    }
}

/// Resolves one setting: the override wins over what is stored.
pub fn resolve_setting(overridden: &Option<String>, stored: &Option<String>) -> (out: Option<
    String,
>)
    ensures
        text_of(out) == layered(*overridden, *stored),
{
    match overridden {
        Some(text) => Some(text.clone()),
        None => match stored {
            Some(text) => Some(text.clone()),
            None => None,
        },
    }
}

/// Whether `config` is what `overrides` and `stored` resolve to, field by
/// field: the override, else the stored value, else the default.
pub open spec fn resolves_to(config: AppConfig, overrides: StoredConfig, stored: StoredConfig) -> bool {
    &&& text_of(config.jira_base_url) == layered(overrides.jira_base_url, stored.jira_base_url)
    &&& text_of(config.jira_token) == layered(overrides.jira_token, stored.jira_token)
    &&& text_of(config.jira_email) == layered(overrides.jira_email, stored.jira_email)
    &&& text_of(config.default_board) == layered(overrides.default_board, stored.default_board)
    &&& text_of(config.gemini_api_key) == layered(overrides.gemini_api_key, stored.gemini_api_key)
    &&& config.gemini_model@ == layered_or(
        overrides.gemini_model,
        stored.gemini_model,
        "gemini-2.5-flash"@,
    )
    &&& config.jira_issue_type@ == layered_or(
        overrides.jira_issue_type,
        stored.jira_issue_type,
        "Task"@,
    )
    &&& match layered(overrides.llm_provider, stored.llm_provider) {
        None => config.llm_provider == LlmProvider::Gemini,
        Some(name) => if unicode_lowercase(trim(name)).len() == 0 {
            config.llm_provider == LlmProvider::Gemini
        } else {
            is_provider(Some(config.llm_provider), unicode_lowercase(trim(name)))
        },
    }
}

impl AppConfig {
    /// Resolves the settings for a run in `workspace_root`: for each one
    /// the override from the environment, else the stored value, else the
    /// default where there is one.
    pub fn resolve(
        overrides: &StoredConfig,
        stored: &StoredConfig,
        workspace_root: std::path::PathBuf,
    ) -> (config: Self)
        ensures
            resolves_to(config, *overrides, *stored),
            config.workspace_root == workspace_root,
    {
        let llm_provider = match resolve_setting(&overrides.llm_provider, &stored.llm_provider) {
            Some(name) => match LlmProvider::from_str(name.as_str()) {
                Some(provider) => provider,
                None => LlmProvider::Gemini,
            },
            None => LlmProvider::Gemini,
        };
        let gemini_model = match resolve_setting(&overrides.gemini_model, &stored.gemini_model) {
            Some(model) => model,
            None => "gemini-2.5-flash".to_owned(),
        };
        let jira_issue_type = match resolve_setting(
            &overrides.jira_issue_type,
            &stored.jira_issue_type,
        ) {
            Some(name) => name,
            None => "Task".to_owned(),
        };
        Self {
            jira_base_url: resolve_setting(&overrides.jira_base_url, &stored.jira_base_url),
            jira_token: resolve_setting(&overrides.jira_token, &stored.jira_token),
            jira_email: resolve_setting(&overrides.jira_email, &stored.jira_email),
            default_board: resolve_setting(&overrides.default_board, &stored.default_board),
            llm_provider,
            workspace_root,
            gemini_api_key: resolve_setting(&overrides.gemini_api_key, &stored.gemini_api_key),
            gemini_model,
            jira_issue_type,
        }
    }
}

/// The names of the settings a run cannot do without and does not have, in
/// the order in which they are asked for.
pub open spec fn missing_names(config: AppConfig, board_given: bool) -> Seq<Seq<char>> {
    (if config.jira_base_url is None {
        seq!["Jira base URL"@]
    } else {
        Seq::<Seq<char>>::empty()
    }) + (if config.jira_email is None {
        seq!["Jira email"@]
    } else {
        Seq::<Seq<char>>::empty()
    }) + (if config.jira_token is None {
        seq!["Jira API token"@]
    } else {
        Seq::<Seq<char>>::empty()
    }) + (if !board_given && config.default_board is None {
        seq!["default Jira board"@]
    } else {
        Seq::<Seq<char>>::empty()
    }) + (if config.gemini_api_key is None {
        seq!["Gemini API key"@]
    } else {
        Seq::<Seq<char>>::empty()
    })
}

/// Names the required settings that are missing, separated by commas, or
/// gives `None` where none is.
pub fn missing_required_settings(config: &AppConfig, board_override: Option<&String>) -> (out:
    Option<String>)
    ensures
        match out {
            Some(text) => missing_names(*config, board_override is Some).len() > 0 && text@
                == join(missing_names(*config, board_override is Some), ", "@),
            None => missing_names(*config, board_override is Some).len() == 0,
        },
{
    let mut missing: Vec<Vec<char>> = Vec::new();
    assert(texts(missing@) == Seq::<Seq<char>>::empty());
    if config.jira_base_url.is_none() {
        missing.push(chars_of("Jira base URL"));
    }
    let ghost first = texts(missing@);
    assert(first == if config.jira_base_url is None {
        seq!["Jira base URL"@]
    } else {
        Seq::<Seq<char>>::empty()
    });
    if config.jira_email.is_none() {
        missing.push(chars_of("Jira email"));
    }
    let ghost second = texts(missing@);
    assert(second == first + (if config.jira_email is None {
        seq!["Jira email"@]
    } else {
        Seq::<Seq<char>>::empty()
    }));
    if config.jira_token.is_none() {
        missing.push(chars_of("Jira API token"));
    }
    let ghost third = texts(missing@);
    assert(third == second + (if config.jira_token is None {
        seq!["Jira API token"@]
    } else {
        Seq::<Seq<char>>::empty()
    }));
    if board_override.is_none() && config.default_board.is_none() {
        missing.push(chars_of("default Jira board"));
    }
    let ghost fourth = texts(missing@);
    assert(fourth == third + (if board_override is None && config.default_board is None {
        seq!["default Jira board"@]
    } else {
        Seq::<Seq<char>>::empty()
    }));
    if config.gemini_api_key.is_none() {
        missing.push(chars_of("Gemini API key"));
    }
    assert(texts(missing@) == fourth + (if config.gemini_api_key is None {
        seq!["Gemini API key"@]
    } else {
        Seq::<Seq<char>>::empty()
    }));
    if missing.len() == 0 {
        None
    } else {
        Some(string_of(&join_vecs(&missing, ", ")))
    }
}

/// The name of the file that holds the stored settings.
pub const CONFIG_FILE_NAME: &'static str = "config.json";

/// The name of the file that holds the cache of drafts.
pub const CACHE_FILE_NAME: &'static str = "draft_cache.json";

/// The family of operating system the program runs on.
#[derive(Debug, Clone, Copy, PartialEq, Eq, Structural)]
pub enum Platform {
    MacOs,
    Windows,
    Other,
}

/// What the environment says about where settings may be kept.
pub struct DirectoryEnv {
    /// `UGH_CONFIG_DIR`
    pub config_dir: Option<String>,
    /// `XDG_CONFIG_HOME`
    pub xdg_config_home: Option<String>,
    /// `HOME`
    pub home: Option<String>,
    /// `APPDATA`
    pub appdata: Option<String>,
    /// `USERPROFILE`
    pub user_profile: Option<String>,
}

/// A place in the file system: a base directory and the names that lead
/// down from it.
pub struct ConfigLocation {
    pub base: String,
    pub segments: Vec<String>,
}

/// A place as the contracts see it.
pub struct LocationView {
    pub base: Seq<char>,
    pub segments: Seq<Seq<char>>,
}

impl View for ConfigLocation {
    type V = LocationView;

    open spec fn view(&self) -> LocationView {
        LocationView {
            base: self.base@,
            segments: Seq::new(self.segments@.len(), |i: int| self.segments@[i]@),
        }
    }
}

/// The value of a variable that is set to more than whitespace.
pub open spec fn set_value(variable: Option<String>) -> Option<Seq<char>> {
    match variable {
        Some(text) => if trim(text@).len() == 0 {
            None
        } else {
            Some(text@)
        },
        None => None,
    }
}

/// The home directory: `HOME`, or on Windows `USERPROFILE` where `HOME` is
/// not set.
pub open spec fn home_of(env: DirectoryEnv, platform: Platform) -> Option<Seq<char>> {
    match set_value(env.home) {
        Some(home) => Some(home),
        None => if platform is Windows {
            set_value(env.user_profile)
        } else {
            None
        },
    }
}

/// The place under the home directory that is used when the platform
/// names no better one.
pub open spec fn fallback_location(env: DirectoryEnv, platform: Platform) -> Option<LocationView> {
    match home_of(env, platform) {
        Some(home) => Some(LocationView { base: home, segments: seq![".ugh"@] }),
        None => None,
    }
}

/// The directory that settings are kept in.
///
/// `UGH_CONFIG_DIR` decides where it is set, even to nothing; then
/// `XDG_CONFIG_HOME`; then the custom of the platform; then `.ugh` in the
/// home directory.
pub open spec fn directory_of(env: DirectoryEnv, platform: Platform) -> Option<LocationView> {
    if env.config_dir is Some {
        Some(LocationView { base: env.config_dir->Some_0@, segments: Seq::<Seq<char>>::empty() })
    } else if set_value(env.xdg_config_home) is Some {
        Some(LocationView { base: set_value(env.xdg_config_home)->Some_0, segments: seq!["ugh"@] })
    } else {
        match platform {
            Platform::MacOs => match home_of(env, platform) {
                Some(home) => Some(
                    LocationView {
                        base: home,
                        segments: seq!["Library"@, "Application Support"@, "ugh"@],
                    },
                ),
                None => None,
            },
            Platform::Windows => match set_value(env.appdata) {
                Some(appdata) => Some(LocationView { base: appdata, segments: seq!["ugh"@] }),
                None => fallback_location(env, platform),
            },
            Platform::Other => match home_of(env, platform) {
                Some(home) => Some(
                    LocationView { base: home, segments: seq![".config"@, "ugh"@] },
                ),
                None => None,
            },
        }
    }
}

/// A copy of the value of a variable that is set to more than whitespace.
fn value_if_set(variable: &Option<String>) -> (out: Option<String>)
    ensures
        text_of(out) == set_value(*variable),
{
    match variable {
        Some(text) => {
            if trim_vec(&chars_of(text.as_str())).len() == 0 {
                None
            } else {
                Some(text.clone())
            }
        },
        None => None,
    }
}

/// Finds the home directory in the environment.
pub fn home_dir(env: &DirectoryEnv, platform: Platform) -> (home: Option<String>)
    ensures
        text_of(home) == home_of(*env, platform),
{
    match value_if_set(&env.home) {
        Some(home) => Some(home),
        None => match platform {
            Platform::Windows => value_if_set(&env.user_profile),
            _ => None,
        },
    }
}

/// The place `base` with the names `names` below it.
fn location(base: String, names: Vec<&'static str>) -> (out: ConfigLocation)
    ensures
        out@.base == base@,
        out@.segments == Seq::new(names@.len(), |i: int| names@[i]@),
{
    let mut segments: Vec<String> = Vec::new();
    let mut i: usize = 0;
    while i < names.len()
        invariant
            i <= names.len(),
            segments.len() == i,
            forall|j: int| 0 <= j < i ==> (#[trigger] segments@[j])@ == names@[j]@,
        decreases names.len() - i,
    {
        segments.push(names[i].to_owned());
        i += 1;
    }
    let out = ConfigLocation { base, segments };
    assert(out@.segments =~= Seq::new(names@.len(), |i: int| names@[i]@));
    out
}

/// Decides where settings are kept, or reports that no place can be
/// determined.
pub fn config_directory(env: &DirectoryEnv, platform: Platform) -> (out: AppResult<ConfigLocation>)
    ensures
        match directory_of(*env, platform) {
            Some(place) => out is Ok && out->Ok_0@ == place,
            None => out is Err && out->Err_0.reads(
                ErrorKind::Configuration,
                "could not determine configuration directory"@,
            ),
        },
{
    let mut names: Vec<&'static str> = Vec::new();
    let base = match &env.config_dir {
        Some(custom) => Some(custom.clone()),
        None => match value_if_set(&env.xdg_config_home) {
            Some(xdg) => {
                names.push("ugh");
                Some(xdg)
            },
            None => {
                let home = home_dir(env, platform);
                match platform {
                    Platform::MacOs => {
                        names.push("Library");
                        names.push("Application Support");
                        names.push("ugh");
                        home
                    },
                    Platform::Windows => match value_if_set(&env.appdata) {
                        Some(appdata) => {
                            names.push("ugh");
                            Some(appdata)
                        },
                        None => {
                            names.push(".ugh");
                            home
                        },
                    },
                    Platform::Other => {
                        names.push(".config");
                        names.push("ugh");
                        home
                    },
                }
            },
        },
    };
    match base {
        Some(base) => {
            let out = location(base, names);
            assert(out@.segments =~= directory_of(*env, platform)->Some_0.segments);
            Ok(out)
        },
        None => Err(
            AppError::Configuration("could not determine configuration directory".to_owned()),
        ),
    }
}

/// The place of the file `name` in the directory `directory`.
pub fn file_in(directory: ConfigLocation, name: &str) -> (out: ConfigLocation)
    ensures
        out@.base == directory@.base,
        out@.segments == directory@.segments.push(name@),
{
    let ghost before = directory@.segments;
    let mut segments = directory.segments;
    segments.push(name.to_owned());
    let out = ConfigLocation { base: directory.base, segments };
    assert(out@.segments =~= before.push(name@));
    out
}

/// Decides where the file of stored settings is kept.
pub fn config_file_path(env: &DirectoryEnv, platform: Platform) -> (out: AppResult<ConfigLocation>)
    ensures
        match directory_of(*env, platform) {
            Some(place) => out is Ok && out->Ok_0@.base == place.base && out->Ok_0@.segments
                == place.segments.push(CONFIG_FILE_NAME@),
            None => out is Err && out->Err_0.reads(
                ErrorKind::Configuration,
                "could not determine configuration directory"@,
            ),
        },
{
    match config_directory(env, platform) {
        Ok(directory) => Ok(file_in(directory, CONFIG_FILE_NAME)),
        Err(error) => Err(error),
    }
}

/// The error for a run whose required settings are still missing after
/// the setup was gone through; `missing` names them.
pub fn setup_incomplete(missing: &str) -> (error: AppError)
    ensures
        error.reads(
            ErrorKind::Configuration,
            "Required settings still missing after setup ("@ + missing@
                + "). Re-run `ugh config init` or set the appropriate environment variables."@,
        ),
{
    let mut text = chars_of("Required settings still missing after setup (");
    append_str(&mut text, missing);
    append_str(
        &mut text,
        "). Re-run `ugh config init` or set the appropriate environment variables.",
    );
    AppError::Configuration(string_of(&text))
}

} // verus!
