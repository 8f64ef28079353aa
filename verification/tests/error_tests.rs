use std::io;
use std::path::PathBuf;

use tmdbtag::config::ConfigStore;
use tmdbtag::domain::{DomainError, MediaType};
use tmdbtag::error::{
    AppError, ConfigError, FilesystemError, NamingError, PlanningError, StorageError, TmdbError,
    UiError,
};

fn io_error() -> io::Error {
    io::Error::new(io::ErrorKind::PermissionDenied, "denied")
}

#[test]
fn configuration_failures_use_the_documented_exit_codes() {
    assert_eq!(ConfigError::MissingApiKey.exit_code(), 2);
    assert_eq!(ConfigError::InvalidLanguage.exit_code(), 2);
    assert_eq!(ConfigError::MissingS3Bucket.exit_code(), 2);
    assert_eq!(
        ConfigError::DuplicateS3Name {
            name: "archive".to_owned()
        }
        .exit_code(),
        2
    );
    assert_eq!(
        ConfigError::InvalidFile {
            path: PathBuf::from("config.json"),
            source: serde_json::from_str::<serde_json::Value>("{").unwrap_err(),
        }
        .exit_code(),
        2
    );
    assert_eq!(ConfigError::HomeDirectoryUnavailable.exit_code(), 1);
    assert_eq!(
        ConfigError::Write {
            path: PathBuf::from("config.json"),
            source: io_error(),
        }
        .exit_code(),
        1
    );
}

#[test]
fn tmdb_failures_use_the_documented_exit_codes() {
    assert_eq!(TmdbError::Authentication { status: 401 }.exit_code(), 2);
    assert_eq!(TmdbError::InvalidBaseUrl.exit_code(), 2);
    assert_eq!(TmdbError::EmptySearchQuery.exit_code(), 2);
    assert_eq!(TmdbError::InvalidSearchPage.exit_code(), 2);
    assert_eq!(
        TmdbError::MediaTypeMismatch {
            expected: MediaType::Movie,
            actual: "tv".to_owned()
        }
        .exit_code(),
        2
    );
    assert_eq!(TmdbError::Server { status: 500 }.exit_code(), 1);
    assert_eq!(
        TmdbError::RateLimited {
            retry_after_seconds: None
        }
        .exit_code(),
        1
    );
    assert_eq!(
        TmdbError::Timeout {
            operation: "searching movies".to_owned()
        }
        .exit_code(),
        1
    );
    assert!(TmdbError::Authentication { status: 403 }.is_authentication());
    assert!(!TmdbError::Server { status: 503 }.is_authentication());
}

#[test]
fn filesystem_and_storage_failures_use_the_documented_exit_codes() {
    assert_eq!(FilesystemError::EmptyDestination.exit_code(), 2);
    assert_eq!(
        FilesystemError::DestinationIsSourceRoot {
            path: PathBuf::from("/media")
        }
        .exit_code(),
        2
    );
    assert_eq!(
        FilesystemError::ReadDirectory {
            path: PathBuf::from("/media"),
            source: io_error(),
        }
        .exit_code(),
        1
    );
    assert_eq!(FilesystemError::CurrentDirectory { source: io_error() }.exit_code(), 1);
    assert_eq!(StorageError::EmptyPlan.exit_code(), 2);
    assert_eq!(StorageError::UnsupportedTransfer.exit_code(), 1);
    assert_eq!(
        StorageError::S3Request {
            operation: "upload"
        }
        .exit_code(),
        1
    );
}

#[test]
fn application_failures_delegate_to_the_wrapped_error() {
    assert_eq!(AppError::Configuration(ConfigError::MissingApiKey).exit_code(), 2);
    assert_eq!(
        AppError::Configuration(ConfigError::HomeDirectoryUnavailable).exit_code(),
        1
    );
    assert_eq!(AppError::Domain(DomainError::InvalidTmdbId).exit_code(), 2);
    assert_eq!(AppError::Tmdb(TmdbError::Server { status: 502 }).exit_code(), 1);
    assert_eq!(AppError::Naming(NamingError::EmptyTitle).exit_code(), 2);
    assert_eq!(AppError::Planning(PlanningError::EmptyPlan).exit_code(), 2);
    assert_eq!(
        AppError::Filesystem(FilesystemError::EmptyOperationPlan).exit_code(),
        2
    );
    assert_eq!(AppError::Storage(StorageError::EmptyPlan).exit_code(), 2);
    assert_eq!(AppError::NonInteractive.exit_code(), 2);
    assert_eq!(AppError::Ui(UiError::Canceled).exit_code(), 1);
}

#[test]
fn dialoguer_errors_keep_ctrl_c_as_a_cancellation() {
    let interrupted = dialoguer::Error::IO(io::Error::new(io::ErrorKind::Interrupted, "^C"));
    assert!(matches!(UiError::from_dialoguer(interrupted), UiError::Canceled));
    let other = dialoguer::Error::IO(io_error());
    match UiError::from_dialoguer(other) {
        UiError::Prompt(error) => assert_eq!(error.kind(), io::ErrorKind::PermissionDenied),
        _ => panic!("a prompt failure must be kept"),
    }
}

#[test]
fn the_configuration_store_lives_in_the_home_directory() {
    let store = ConfigStore::for_current_user(Some(PathBuf::from("/home/user"))).unwrap();
    assert_eq!(
        store.path(),
        &PathBuf::from("/home/user/.title-tmdb-file/config.json")
    );
    assert!(matches!(
        ConfigStore::for_current_user(None),
        Err(ConfigError::HomeDirectoryUnavailable)
    ));
    assert!(matches!(
        ConfigStore::for_current_user(Some(PathBuf::new())),
        Err(ConfigError::HomeDirectoryUnavailable)
    ));
    let explicit = ConfigStore::from_path(PathBuf::from("custom.json"));
    assert_eq!(explicit.path(), &PathBuf::from("custom.json"));
}

#[test]
fn prompt_failures_keep_the_terminal_error_unless_interrupted() {
    assert!(matches!(
        UiError::from_prompt_failure(io_error(), true),
        UiError::Canceled
    ));
    match UiError::from_prompt_failure(io_error(), false) {
        UiError::Prompt(error) => assert_eq!(error.to_string(), "denied"),
        _ => panic!("the terminal error must be kept"),
    }
}
