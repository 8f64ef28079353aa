use tmdbtag::config::{normalize_language_tag, StartupConfig};
use tmdbtag::error::ConfigError;

#[test]
fn startup_config_redacts_the_api_key_in_debug_output() {
    let config = StartupConfig::new("secret-value".to_owned(), "pt-br".to_owned()).unwrap();
    let debug = config.redacted_debug();

    assert!(debug.contains("[REDACTED]"));
    assert!(!debug.contains("secret-value"));
    assert_eq!(config.tmdb_language(), "pt-BR");
    assert_eq!(config.tmdb_api_key(), "secret-value");
}

#[test]
fn language_tags_are_canonicalized_for_common_forms() {
    assert_eq!(normalize_language_tag(" PT-br ").unwrap(), "pt-BR");
    assert_eq!(normalize_language_tag("zh-hant-tw").unwrap(), "zh-Hant-TW");
    assert_eq!(normalize_language_tag("es-419").unwrap(), "es-419");
}

#[test]
fn invalid_startup_values_are_rejected_without_echoing_input() {
    assert!(matches!(
        StartupConfig::new("   ".to_owned(), "pt-BR".to_owned()),
        Err(ConfigError::MissingApiKey)
    ));
    assert!(matches!(
        normalize_language_tag("not a locale"),
        Err(ConfigError::InvalidLanguage)
    ));
    assert!(matches!(
        normalize_language_tag("pt_BR"),
        Err(ConfigError::InvalidLanguage)
    ));
}
