use potato_voice::{get_default_config, get_history, AiProvider, Args, UserConfig};

fn empty_user_config() -> UserConfig {
    UserConfig {
        api_key: None,
        language: None,
        volume: None,
        debug_mode: None,
        ai_provider: None,
        ai_model: None,
        ai_url: None,
    }
}

#[test]
fn default_config_values() {
    let config = get_default_config();
    assert_eq!(config.api_key, "");
    assert_eq!(config.ai_url, "");
    assert_eq!(config.ai_model, "");
    assert_eq!(config.language, "en");
    assert_eq!(config.volume, 50);
    assert!(!config.debug_mode);
    assert!(matches!(config.ai_provider, AiProvider::Custom));
}

#[test]
fn override_with_keeps_base_when_user_sets_nothing() {
    let merged = get_default_config().override_with(empty_user_config());
    assert_eq!(merged.language, "en");
    assert_eq!(merged.volume, 50);
    assert!(!merged.debug_mode);
    assert!(matches!(merged.ai_provider, AiProvider::Custom));
}

#[test]
fn override_with_takes_every_user_field() {
    let user = UserConfig {
        api_key: Some("key".to_string()),
        language: Some("fr".to_string()),
        volume: Some(80),
        debug_mode: Some(true),
        ai_provider: Some(AiProvider::OpenAI),
        ai_model: Some("mini".to_string()),
        ai_url: Some("http://localhost".to_string()),
    };
    let merged = get_default_config().override_with(user);
    assert_eq!(merged.api_key, "key");
    assert_eq!(merged.language, "fr");
    assert_eq!(merged.volume, 80);
    assert!(merged.debug_mode);
    assert!(matches!(merged.ai_provider, AiProvider::OpenAI));
    assert_eq!(merged.ai_model, "mini");
    assert_eq!(merged.ai_url, "http://localhost");
}

#[test]
fn override_with_merges_field_by_field() {
    let user = UserConfig { volume: Some(10), ..empty_user_config() };
    let merged = get_default_config().override_with(user);
    assert_eq!(merged.volume, 10);
    assert_eq!(merged.language, "en");
}

#[test]
fn history_starts_empty() {
    let history = get_history();
    assert!(history.conversations.is_empty());
}

#[test]
fn args_carry_the_debug_flag() {
    let args = Args { debug: true };
    assert!(args.debug);
    assert!(!Args { debug: false }.debug);
}
