use std::path::PathBuf;

use ugh::cmd::config::{
    apply_action, display_value, mask_secret, prompt_label, read_action, PromptAction,
};
use ugh::config::{
    config_directory, config_file_path, file_in, home_dir, missing_required_settings,
    setup_incomplete, AppConfig, ConfigRead, DirectoryEnv, LlmProvider, Platform, StoredConfig, CACHE_FILE_NAME,
};
use ugh::error::AppError;

fn some(text: &str) -> Option<String> {
    Some(text.to_string())
}

fn env(
    config_dir: Option<&str>,
    xdg: Option<&str>,
    home: Option<&str>,
    appdata: Option<&str>,
    user_profile: Option<&str>,
) -> DirectoryEnv {
    DirectoryEnv {
        config_dir: config_dir.map(|s| s.to_string()),
        xdg_config_home: xdg.map(|s| s.to_string()),
        home: home.map(|s| s.to_string()),
        appdata: appdata.map(|s| s.to_string()),
        user_profile: user_profile.map(|s| s.to_string()),
    }
}

fn place(env: &DirectoryEnv, platform: Platform) -> Option<(String, Vec<String>)> {
    match config_directory(env, platform) {
        Ok(location) => Some((location.base, location.segments)),
        Err(AppError::Configuration(message)) => {
            assert_eq!(message, "could not determine configuration directory");
            None
        }
        Err(_) => panic!("unexpected error kind"),
    }
}

fn at(base: &str, segments: &[&str]) -> Option<(String, Vec<String>)> {
    Some((
        base.to_string(),
        segments.iter().map(|s| s.to_string()).collect(),
    ))
}

#[test]
fn reads_provider_names() {
    assert!(matches!(LlmProvider::from_str(" Gemini "), Some(LlmProvider::Gemini)));
    assert!(matches!(LlmProvider::from_str("GEMINI"), Some(LlmProvider::Gemini)));
    match LlmProvider::from_str(" OpenAI\n") {
        Some(LlmProvider::Custom(name)) => assert_eq!(name, "openai"),
        _ => panic!("a custom provider was not read"),
    }
    assert!(LlmProvider::from_str("   ").is_none());
    assert!(LlmProvider::from_str("").is_none());
    assert!(LlmProvider::from_canonical("").is_none());
}

#[test]
fn default_stored_config_is_empty() {
    let stored = StoredConfig::default();
    assert!(stored.jira_base_url.is_none());
    assert!(stored.jira_token.is_none());
    assert!(stored.jira_email.is_none());
    assert!(stored.default_board.is_none());
    assert!(stored.llm_provider.is_none());
    assert!(stored.gemini_api_key.is_none());
    assert!(stored.gemini_model.is_none());
    assert!(stored.jira_issue_type.is_none());
}

#[test]
fn resolves_defaults() {
    let config = AppConfig::resolve(
        &StoredConfig::default(),
        &StoredConfig::default(),
        PathBuf::from("/work"),
    );
    assert!(config.jira_base_url.is_none());
    assert!(config.default_board.is_none());
    assert!(matches!(config.llm_provider, LlmProvider::Gemini));
    assert_eq!(config.gemini_model, "gemini-2.5-flash");
    assert_eq!(config.jira_issue_type, "Task");
    assert_eq!(config.workspace_root, PathBuf::from("/work"));
}

#[test]
fn environment_overrides_stored_settings() {
    let mut stored = StoredConfig::default();
    stored.jira_base_url = some("https://stored");
    stored.jira_email = some("stored@example.com");
    stored.default_board = some("STO");
    stored.gemini_model = some("stored-model");
    stored.llm_provider = some("  ");
    let mut overrides = StoredConfig::default();
    overrides.jira_base_url = some("https://env");
    overrides.default_board = some("");
    overrides.jira_issue_type = some("Bug");
    overrides.gemini_api_key = some("k");
    let config = AppConfig::resolve(&overrides, &stored, PathBuf::from("."));
    assert_eq!(config.jira_base_url, some("https://env"));
    assert_eq!(config.jira_email, some("stored@example.com"));
    assert_eq!(config.jira_token, None);
    assert_eq!(config.default_board, some(""));
    assert_eq!(config.gemini_api_key, some("k"));
    assert_eq!(config.gemini_model, "stored-model");
    assert_eq!(config.jira_issue_type, "Bug");
    assert!(matches!(config.llm_provider, LlmProvider::Gemini));
    overrides.llm_provider = some("Custom-LLM");
    let config = AppConfig::resolve(&overrides, &stored, PathBuf::from("."));
    match config.llm_provider {
        LlmProvider::Custom(name) => assert_eq!(name, "custom-llm"),
        LlmProvider::Gemini => panic!("the override was ignored"),
    }
}

#[test]
fn names_missing_settings() {
    let empty = AppConfig::resolve(
        &StoredConfig::default(),
        &StoredConfig::default(),
        PathBuf::from("."),
    );
    assert_eq!(
        missing_required_settings(&empty, None),
        some("Jira base URL, Jira email, Jira API token, default Jira board, Gemini API key")
    );
    let board = "TCK".to_string();
    assert_eq!(
        missing_required_settings(&empty, Some(&board)),
        some("Jira base URL, Jira email, Jira API token, Gemini API key")
    );
    let mut stored = StoredConfig::default();
    stored.jira_base_url = some("u");
    stored.jira_email = some("e");
    stored.jira_token = some("t");
    stored.gemini_api_key = some("k");
    let partial = AppConfig::resolve(&StoredConfig::default(), &stored, PathBuf::from("."));
    assert_eq!(missing_required_settings(&partial, None), some("default Jira board"));
    assert_eq!(missing_required_settings(&partial, Some(&board)), None);
}

#[test]
fn custom_directory_wins() {
    let e = env(Some("/custom"), Some("/xdg"), Some("/home/u"), None, None);
    assert_eq!(place(&e, Platform::Other), at("/custom", &[]));
    let e = env(Some(""), Some("/xdg"), Some("/home/u"), None, None);
    assert_eq!(place(&e, Platform::MacOs), at("", &[]));
}

#[test]
fn xdg_directory_comes_next() {
    let e = env(None, Some("/xdg"), Some("/home/u"), Some("C:\\AppData"), None);
    for platform in [Platform::Other, Platform::MacOs, Platform::Windows] {
        assert_eq!(place(&e, platform), at("/xdg", &["ugh"]));
    }
}

#[test]
fn platform_customs_apply() {
    let e = env(None, Some("  "), Some("/home/u"), Some("C:\\AppData"), Some("C:\\Users\\u"));
    assert_eq!(place(&e, Platform::Other), at("/home/u", &[".config", "ugh"]));
    assert_eq!(
        place(&e, Platform::MacOs),
        at("/home/u", &["Library", "Application Support", "ugh"])
    );
    assert_eq!(place(&e, Platform::Windows), at("C:\\AppData", &["ugh"]));
    let e = env(None, None, None, Some(" "), Some("C:\\Users\\u"));
    assert_eq!(place(&e, Platform::Windows), at("C:\\Users\\u", &[".ugh"]));
    assert_eq!(place(&e, Platform::Other), None);
    assert_eq!(place(&e, Platform::MacOs), None);
    let e = env(None, None, Some(" "), None, None);
    assert_eq!(place(&e, Platform::Windows), None);
}

#[test]
fn finds_home_directory() {
    let e = env(None, None, Some("/home/u"), None, Some("C:\\Users\\u"));
    assert_eq!(home_dir(&e, Platform::Windows), some("/home/u"));
    let e = env(None, None, Some(""), None, Some("C:\\Users\\u"));
    assert_eq!(home_dir(&e, Platform::Windows), some("C:\\Users\\u"));
    assert_eq!(home_dir(&e, Platform::Other), None);
}

#[test]
fn names_files_in_the_directory() {
    let e = env(None, None, Some("/home/u"), None, None);
    let file = match config_file_path(&e, Platform::Other) {
        Ok(file) => file,
        Err(_) => panic!("no place for the file"),
    };
    assert_eq!(file.base, "/home/u");
    assert_eq!(file.segments, vec![".config", "ugh", "config.json"]);
    let directory = match config_directory(&e, Platform::Other) {
        Ok(directory) => directory,
        Err(_) => panic!("no directory"),
    };
    let cache = file_in(directory, CACHE_FILE_NAME);
    assert_eq!(cache.segments, vec![".config", "ugh", "draft_cache.json"]);
    assert!(config_file_path(&env(None, None, None, None, None), Platform::Other).is_err());
}

#[test]
fn shows_values_and_masks_secrets() {
    assert_eq!(display_value(&some("https://x")), "https://x");
    assert_eq!(display_value(&some("")), "<not set>");
    assert_eq!(display_value(&None), "<not set>");
    assert_eq!(mask_secret(&some("abcdefghij")), "abc***hij");
    assert_eq!(mask_secret(&some("abcdefg")), "abc***efg");
    assert_eq!(mask_secret(&some("abcdef")), "***");
    assert_eq!(mask_secret(&some("a")), "***");
    assert_eq!(mask_secret(&some("")), "<not set>");
    assert_eq!(mask_secret(&None), "<not set>");
    assert_eq!(mask_secret(&some("aébcdéf")), "aé***éf");
    assert_eq!(mask_secret(&some("ééé1234")), "***");
    assert_eq!(mask_secret(&some("éé")), "***");
}

#[test]
fn writes_prompts() {
    assert_eq!(
        prompt_label("Jira email", Some("me@example.com"), false),
        "Jira email [me@example.com] (Enter to keep, '-' to clear): "
    );
    assert_eq!(
        prompt_label("Jira API token", Some("secret"), true),
        "Jira API token [****] (Enter to keep, '-' to clear): "
    );
    assert_eq!(
        prompt_label("Gemini model", None, false),
        "Gemini model (Enter to skip): "
    );
    assert_eq!(
        prompt_label("Gemini API key", None, true),
        "Gemini API key (Enter to skip): "
    );
}

#[test]
fn reads_and_applies_answers() {
    assert!(matches!(read_action("\n"), PromptAction::Keep));
    assert!(matches!(read_action("   "), PromptAction::Keep));
    assert!(matches!(read_action(" - \n"), PromptAction::Clear));
    match read_action("  TCK \n") {
        PromptAction::Change(value) => assert_eq!(value, "TCK"),
        _ => panic!("the value was not read"),
    }
    match read_action("--\n") {
        PromptAction::Change(value) => assert_eq!(value, "--"),
        _ => panic!("the value was not read"),
    }
    let mut target = some("old");
    apply_action(&mut target, PromptAction::Keep);
    assert_eq!(target, some("old"));
    apply_action(&mut target, PromptAction::Change("new".to_string()));
    assert_eq!(target, some("new"));
    apply_action(&mut target, PromptAction::Clear);
    assert_eq!(target, None);
}

#[test]
fn missing_settings_file_holds_nothing() {
    let stored = match StoredConfig::from_read(ConfigRead::Missing) {
        Ok(stored) => stored,
        Err(_) => panic!("a missing file was reported as an error"),
    };
    assert!(stored.jira_base_url.is_none());
    assert!(stored.gemini_model.is_none());
    assert!(stored.default_board.is_none());
}

#[test]
fn settings_file_contents_are_taken_as_they_are() {
    let mut file = StoredConfig::default();
    file.default_board = some("TCK");
    file.jira_issue_type = some("Bug");
    let stored = match StoredConfig::from_read(ConfigRead::Contents(file)) {
        Ok(stored) => stored,
        Err(_) => panic!("a readable file was reported as an error"),
    };
    assert_eq!(stored.default_board, some("TCK"));
    assert_eq!(stored.jira_issue_type, some("Bug"));
    assert_eq!(stored.jira_email, None);
}

#[test]
fn corrupt_settings_file_is_a_configuration_error() {
    match StoredConfig::from_read(ConfigRead::Corrupt("EOF while parsing".to_string())) {
        Err(AppError::Configuration(message)) => {
            assert_eq!(message, "invalid config file: EOF while parsing")
        }
        _ => panic!("a corrupt file was not reported as a configuration error"),
    }
}

#[test]
fn unreadable_settings_file_is_an_io_error() {
    let error = std::io::Error::new(std::io::ErrorKind::PermissionDenied, "denied");
    match StoredConfig::from_read(ConfigRead::Failed(error)) {
        Err(AppError::Io(error)) => {
            assert_eq!(error.kind(), std::io::ErrorKind::PermissionDenied)
        }
        _ => panic!("a failed read was not reported as an I/O error"),
    }
}

#[test]
fn write_and_setup_failures_are_configuration_errors() {
    match StoredConfig::write_failure("disk full") {
        AppError::Configuration(message) => {
            assert_eq!(message, "failed to serialize config: disk full")
        }
        _ => panic!("not a configuration error"),
    }
    match setup_incomplete("Jira email, Gemini API key") {
        AppError::Configuration(message) => assert_eq!(
            message,
            "Required settings still missing after setup (Jira email, Gemini API key). Re-run `ugh config init` or set the appropriate environment variables."
        ),
        _ => panic!("not a configuration error"),
    }
}
