use tmdbtag::config::{
    stored_config_for_mode, ConfigPromptMode, ConfigWizard, StartupConfig, StoredConfig,
    WizardAction,
};
use tmdbtag::domain::{MediaType, TmdbId, TmdbSearchCandidate};
use tmdbtag::error::{AppError, ConfigError, FilesystemError, TmdbError, UiError};
use tmdbtag::listing::{listed_no_later, listing_order};
use tmdbtag::selection::{
    DestinationNotice, FilesystemSelectionFlow, FoldersAgainReason, SelectionAction,
    SelectionEvent,
};
use tmdbtag::workflow::{
    combine_candidates, is_video_extension, retry_mode, sorted_indices,
    validate_selection_indices, CheckAction, CheckEvent, ConfigurationCheck,
};

fn stored(key: Option<&str>, language: Option<&str>) -> StoredConfig {
    StoredConfig {
        tmdb_api_key: key.map(str::to_owned),
        tmdb_language: language.map(str::to_owned),
    }
}

fn ask_key(action: &WizardAction) -> Option<(usize, usize, Option<String>)> {
    match action {
        WizardAction::AskApiKey {
            step,
            total,
            default,
        } => Some((*step, *total, default.clone())),
        _ => None,
    }
}

fn ask_language(action: &WizardAction) -> Option<(usize, usize, String)> {
    match action {
        WizardAction::AskLanguage {
            step,
            total,
            default,
        } => Some((*step, *total, default.clone())),
        _ => None,
    }
}

fn search_candidate(id: u64, media_type: MediaType, title: &str) -> TmdbSearchCandidate {
    TmdbSearchCandidate {
        id: TmdbId::new(id).unwrap(),
        media_type,
        title: title.to_owned(),
        original_title: None,
        year: None,
    }
}

#[test]
fn startup_questions_are_asked_in_the_required_order() {
    let mut wizard = ConfigWizard::start(
        &StoredConfig::empty(),
        ConfigPromptMode::MissingOnly,
        None,
        None,
    );

    let first = wizard.next_action();
    assert_eq!(ask_key(&first), Some((1, 2, None)));
    wizard.provide_api_key("test-api-key".to_owned());
    let second = wizard.next_action();
    assert_eq!(ask_language(&second), Some((2, 2, "pt-BR".to_owned())));
    wizard.provide_language("pt-BR".to_owned());
    match wizard.next_action() {
        WizardAction::Complete { config, persist } => {
            assert!(persist);
            assert_eq!(config.tmdb_api_key(), "test-api-key");
            assert_eq!(config.tmdb_language(), "pt-BR");
        }
        _ => panic!("the wizard did not complete"),
    }
}

#[test]
fn canceling_the_api_key_prompt_performs_no_later_work() {
    let mut wizard = ConfigWizard::start(
        &StoredConfig::empty(),
        ConfigPromptMode::MissingOnly,
        None,
        None,
    );
    assert!(ask_key(&wizard.next_action()).is_some());

    let (mut check, action) = ConfigurationCheck::start(ConfigPromptMode::MissingOnly);
    assert!(matches!(action, CheckAction::Configure(ConfigPromptMode::MissingOnly)));
    let action = check.step(CheckEvent::Configured(None));

    assert!(matches!(action, CheckAction::Finish(None)));
    assert!(check.pending.is_none());
}

#[test]
fn canceling_the_language_prompt_does_not_capture_configuration() {
    let mut wizard = ConfigWizard::start(
        &StoredConfig::empty(),
        ConfigPromptMode::MissingOnly,
        None,
        None,
    );
    assert!(ask_key(&wizard.next_action()).is_some());
    wizard.provide_api_key("test-api-key".to_owned());
    assert!(ask_language(&wizard.next_action()).is_some());

    let (mut check, _) = ConfigurationCheck::start(ConfigPromptMode::MissingOnly);
    let action = check.step(CheckEvent::Configured(None));

    assert!(matches!(action, CheckAction::Finish(None)));
}

#[test]
fn a_complete_saved_configuration_skips_startup_prompts() {
    let saved = stored(Some("test-api-key"), Some("pt-BR"));
    let mut wizard = ConfigWizard::start(&saved, ConfigPromptMode::MissingOnly, None, None);

    match wizard.next_action() {
        WizardAction::Complete { config, persist } => {
            assert!(!persist);
            assert_eq!(config.tmdb_api_key(), "test-api-key");
            assert_eq!(config.tmdb_language(), "pt-BR");
        }
        _ => panic!("a complete configuration must not prompt"),
    }
}

#[test]
fn startup_validates_the_complete_configuration_before_reporting_success() {
    let (mut check, _) = ConfigurationCheck::start(ConfigPromptMode::MissingOnly);
    let config = StartupConfig::new("test-api-key".to_owned(), "pt-BR".to_owned()).unwrap();

    let action = check.step(CheckEvent::Configured(Some(config)));
    assert!(matches!(action, CheckAction::Validate));
    let pending = check.pending.as_ref().unwrap();
    assert_eq!(pending.tmdb_language(), "pt-BR");
    assert_eq!(pending.tmdb_api_key(), "test-api-key");

    match check.step(CheckEvent::Validated(Ok(()))) {
        CheckAction::Finish(Some(config)) => assert_eq!(config.tmdb_api_key(), "test-api-key"),
        _ => panic!("a validated configuration must be returned"),
    }
}

#[test]
fn a_partial_saved_configuration_prompts_only_for_the_missing_language() {
    let saved = stored(Some("stored-api-key"), None);
    let mut wizard = ConfigWizard::start(&saved, ConfigPromptMode::MissingOnly, None, None);

    let first = wizard.next_action();
    assert!(ask_key(&first).is_none());
    assert_eq!(ask_language(&first), Some((1, 1, "pt-BR".to_owned())));
    wizard.provide_language("pt-BR".to_owned());
    match wizard.next_action() {
        WizardAction::Complete { config, persist } => {
            assert!(persist);
            assert_eq!(config.tmdb_api_key(), "stored-api-key");
        }
        _ => panic!("the wizard did not complete"),
    }
}

#[test]
fn config_command_reuses_the_same_prompts_but_reopens_both_fields() {
    let saved = stored(Some("test-api-key"), Some("pt-BR"));
    let mut wizard = ConfigWizard::start(&saved, ConfigPromptMode::ReplaceAll, None, None);

    let first = wizard.next_action();
    assert_eq!(ask_key(&first), Some((1, 2, Some("test-api-key".to_owned()))));
    wizard.provide_api_key("new-key".to_owned());
    let second = wizard.next_action();
    assert_eq!(ask_language(&second), Some((2, 2, "pt-BR".to_owned())));
}

#[test]
fn canceling_config_update_preserves_the_existing_file() {
    let saved = stored(Some("test-api-key"), Some("pt-BR"));
    let mut wizard = ConfigWizard::start(&saved, ConfigPromptMode::ReplaceAll, None, None);
    assert!(ask_key(&wizard.next_action()).is_some());

    let (mut check, _) = ConfigurationCheck::start(ConfigPromptMode::ReplaceAll);
    let action = check.step(CheckEvent::Configured(None));
    assert!(matches!(action, CheckAction::Finish(None)));
    assert_eq!(saved.tmdb_api_key.as_deref(), Some("test-api-key"));
}

#[test]
fn rejected_answers_are_asked_for_again() {
    let mut wizard = ConfigWizard::start(
        &StoredConfig::empty(),
        ConfigPromptMode::MissingOnly,
        None,
        Some(" en-us ".to_owned()),
    );
    assert!(ask_key(&wizard.next_action()).is_some());
    wizard.provide_api_key("   ".to_owned());
    let second = wizard.next_action();
    assert_eq!(ask_language(&second), Some((2, 2, "en-US".to_owned())));
    wizard.provide_language("pt_BR".to_owned());
    assert!(matches!(
        wizard.next_action(),
        WizardAction::Rejected(ConfigError::MissingApiKey)
    ));
    assert!(ask_key(&wizard.next_action()).is_some());
    wizard.provide_api_key("key".to_owned());
    assert!(matches!(
        wizard.next_action(),
        WizardAction::Rejected(ConfigError::InvalidLanguage)
    ));
    assert!(ask_language(&wizard.next_action()).is_some());
    wizard.provide_language("pt-br".to_owned());
    match wizard.next_action() {
        WizardAction::Complete { config, .. } => assert_eq!(config.tmdb_language(), "pt-BR"),
        _ => panic!("the wizard did not complete"),
    }
}

#[test]
fn a_rejected_key_is_repaired_on_retry() {
    let (mut check, _) = ConfigurationCheck::start(ConfigPromptMode::MissingOnly);
    let config = StartupConfig::new("bad-key".to_owned(), "pt-BR".to_owned()).unwrap();
    check.step(CheckEvent::Configured(Some(config)));
    let action = check.step(CheckEvent::Validated(Err(TmdbError::Authentication {
        status: 401,
    })));
    assert!(matches!(
        action,
        CheckAction::AskRetry(TmdbError::Authentication { status: 401 })
    ));
    let action = check.step(CheckEvent::Retry(Some(true)));
    assert!(matches!(
        action,
        CheckAction::Configure(ConfigPromptMode::RepairApiKey)
    ));

    let saved = stored(Some("bad-key"), Some("pt-BR"));
    let mut wizard = ConfigWizard::start(&saved, ConfigPromptMode::RepairApiKey, None, None);
    assert_eq!(
        ask_key(&wizard.next_action()),
        Some((1, 1, Some("bad-key".to_owned())))
    );
    wizard.provide_api_key("good-key".to_owned());
    match wizard.next_action() {
        WizardAction::Complete { config, persist } => {
            assert!(persist);
            assert_eq!(config.tmdb_api_key(), "good-key");
            assert_eq!(config.tmdb_language(), "pt-BR");
        }
        _ => panic!("the repaired configuration did not complete"),
    }

    assert_eq!(
        retry_mode(
            ConfigPromptMode::ReplaceAll,
            &TmdbError::Server { status: 503 }
        ),
        ConfigPromptMode::ReplaceAll
    );
    let (mut check, _) = ConfigurationCheck::start(ConfigPromptMode::MissingOnly);
    check.step(CheckEvent::Validated(Err(TmdbError::Timeout {
        operation: "validating credentials".to_owned(),
    })));
    assert!(matches!(check.step(CheckEvent::Retry(Some(false))), CheckAction::Finish(None)));
}

#[test]
fn invalid_saved_files_stop_the_run_but_not_the_config_command() {
    let invalid = || ConfigError::InvalidFile {
        path: std::path::PathBuf::from("config.json"),
        source: serde_json::from_str::<serde_json::Value>("{").unwrap_err(),
    };
    assert!(matches!(
        stored_config_for_mode(Err(invalid()), ConfigPromptMode::MissingOnly),
        Err(ConfigError::InvalidFile { .. })
    ));
    match stored_config_for_mode(Err(invalid()), ConfigPromptMode::ReplaceAll) {
        Ok((config, warn)) => {
            assert!(warn);
            assert!(config.tmdb_api_key.is_none());
        }
        Err(_) => panic!("the config command replaces an invalid file"),
    }
    assert!(matches!(
        stored_config_for_mode(
            Err(ConfigError::HomeDirectoryUnavailable),
            ConfigPromptMode::ReplaceAll
        ),
        Err(ConfigError::HomeDirectoryUnavailable)
    ));
}

#[test]
fn filesystem_selection_preserves_folder_associations_and_deterministic_file_order() {
    let (mut flow, action) = FilesystemSelectionFlow::start();
    assert!(matches!(action, SelectionAction::AskDestination(None)));
    match flow.step(SelectionEvent::DestinationEntered(Some("organized".to_owned()))) {
        SelectionAction::ResolveDestination(raw) => assert_eq!(raw, "organized"),
        _ => panic!("the destination must be resolved"),
    }
    assert!(matches!(
        flow.step(SelectionEvent::DestinationResolved(Ok(true))),
        SelectionAction::DiscoverFolders {
            destination_exists: true
        }
    ));
    assert!(matches!(
        flow.step(SelectionEvent::FoldersDiscovered(Ok(2))),
        SelectionAction::SelectFolders {
            empty_notice: false
        }
    ));
    assert!(matches!(
        flow.step(SelectionEvent::FoldersSelected(Some(vec![1, 0]))),
        SelectionAction::DiscoverVideos(0)
    ));
    assert!(matches!(
        flow.step(SelectionEvent::VideosDiscovered(Ok(3))),
        SelectionAction::SelectVideos {
            folder: 0,
            empty_notice: false
        }
    ));
    assert!(matches!(
        flow.step(SelectionEvent::VideosSelected(Some(vec![2, 1, 0]))),
        SelectionAction::DiscoverVideos(1)
    ));
    assert!(matches!(
        flow.step(SelectionEvent::VideosDiscovered(Ok(1))),
        SelectionAction::SelectVideos {
            folder: 1,
            empty_notice: false
        }
    ));
    assert!(matches!(
        flow.step(SelectionEvent::VideosSelected(Some(vec![0]))),
        SelectionAction::CheckSources
    ));
    match flow.step(SelectionEvent::SourcesChecked(Ok(()))) {
        SelectionAction::Finish(Some(selected)) => {
            assert_eq!(selected.len(), 2);
            assert_eq!(selected[0].folder, 0);
            assert_eq!(selected[0].files, vec![0, 1, 2]);
            assert_eq!(selected[1].folder, 1);
            assert_eq!(selected[1].files, vec![0]);
        }
        _ => panic!("the selection must complete"),
    }
}

#[test]
fn canceling_filesystem_selection_does_not_create_a_deferred_destination() {
    let (mut flow, _) = FilesystemSelectionFlow::start();
    flow.step(SelectionEvent::DestinationEntered(Some("new-destination".to_owned())));
    assert!(matches!(
        flow.step(SelectionEvent::DestinationResolved(Ok(false))),
        SelectionAction::ConfirmCreation
    ));
    assert!(matches!(
        flow.step(SelectionEvent::CreationConfirmed(Some(true))),
        SelectionAction::DiscoverFolders {
            destination_exists: false
        }
    ));
    assert!(matches!(
        flow.step(SelectionEvent::FoldersDiscovered(Ok(1))),
        SelectionAction::SelectFolders { .. }
    ));
    assert!(matches!(
        flow.step(SelectionEvent::FoldersSelected(None)),
        SelectionAction::Finish(None)
    ));
}

#[test]
fn a_source_folder_without_videos_can_be_declined_without_mutation() {
    let (mut flow, _) = FilesystemSelectionFlow::start();
    flow.step(SelectionEvent::DestinationEntered(Some("organized".to_owned())));
    flow.step(SelectionEvent::DestinationResolved(Ok(true)));
    flow.step(SelectionEvent::FoldersDiscovered(Ok(1)));
    assert!(matches!(
        flow.step(SelectionEvent::FoldersSelected(Some(vec![0]))),
        SelectionAction::DiscoverVideos(0)
    ));
    assert!(matches!(
        flow.step(SelectionEvent::VideosDiscovered(Ok(0))),
        SelectionAction::AskFoldersAgain(FoldersAgainReason::NoVideos(0))
    ));
    assert!(matches!(
        flow.step(SelectionEvent::FoldersAgain(Some(false))),
        SelectionAction::Finish(None)
    ));
}

#[test]
fn selection_rejections_and_retries() {
    let (mut flow, _) = FilesystemSelectionFlow::start();
    assert!(matches!(
        flow.step(SelectionEvent::DestinationResolved(Err(FilesystemError::EmptyDestination))),
        SelectionAction::AskDestination(Some(DestinationNotice::Rejected(
            FilesystemError::EmptyDestination
        )))
    ));
    flow.step(SelectionEvent::DestinationResolved(Ok(false)));
    assert!(matches!(
        flow.step(SelectionEvent::CreationConfirmed(Some(false))),
        SelectionAction::AskDestination(Some(DestinationNotice::NotCreated))
    ));
    assert!(matches!(
        flow.step(SelectionEvent::FoldersDiscovered(Ok(0))),
        SelectionAction::AskOtherDestination
    ));
    assert!(matches!(
        flow.step(SelectionEvent::OtherDestination(Some(true))),
        SelectionAction::AskDestination(None)
    ));
    flow.step(SelectionEvent::FoldersDiscovered(Ok(2)));
    assert!(matches!(
        flow.step(SelectionEvent::FoldersSelected(Some(Vec::new()))),
        SelectionAction::SelectFolders { empty_notice: true }
    ));
    match flow.step(SelectionEvent::FoldersSelected(Some(vec![0, 0]))) {
        SelectionAction::Fail(AppError::Ui(UiError::InvalidSelection { context })) => {
            assert_eq!(context, "source folder")
        }
        _ => panic!("a duplicate folder must be rejected"),
    }
    assert!(matches!(
        flow.step(SelectionEvent::FoldersSelected(Some(vec![2]))),
        SelectionAction::Fail(AppError::Ui(UiError::InvalidSelection { .. }))
    ));
    flow.step(SelectionEvent::FoldersSelected(Some(vec![1])));
    flow.step(SelectionEvent::VideosDiscovered(Ok(2)));
    assert!(matches!(
        flow.step(SelectionEvent::VideosSelected(Some(Vec::new()))),
        SelectionAction::SelectVideos {
            folder: 1,
            empty_notice: true
        }
    ));
    match flow.step(SelectionEvent::VideosSelected(Some(vec![5]))) {
        SelectionAction::Fail(AppError::Ui(UiError::InvalidSelection { context })) => {
            assert_eq!(context, "video file")
        }
        _ => panic!("an out-of-range video must be rejected"),
    }
    assert!(matches!(
        flow.step(SelectionEvent::VideosSelected(Some(vec![1]))),
        SelectionAction::CheckSources
    ));
    assert!(matches!(
        flow.step(SelectionEvent::SourcesChecked(Err(
            FilesystemError::EmptyOperationPlan
        ))),
        SelectionAction::AskFoldersAgain(FoldersAgainReason::Conflict(_))
    ));
    assert!(matches!(
        flow.step(SelectionEvent::FoldersAgain(Some(true))),
        SelectionAction::SelectFolders {
            empty_notice: false
        }
    ));
    assert!(flow.selected.is_empty());
    assert!(matches!(
        flow.step(SelectionEvent::VideosDiscovered(Err(
            FilesystemError::EmptyDestination
        ))),
        SelectionAction::Fail(AppError::Filesystem(_))
    ));
}

#[test]
fn selections_are_sorted_and_validated() {
    assert_eq!(sorted_indices(vec![2, 0, 1]), vec![0, 1, 2]);
    assert_eq!(sorted_indices(vec![3, 1, 3]), vec![1, 3, 3]);
    assert_eq!(sorted_indices(Vec::new()), Vec::<usize>::new());
    assert!(validate_selection_indices(&vec![1, 0], 2, "source folder").is_ok());
    assert!(validate_selection_indices(&Vec::new(), 0, "source folder").is_ok());
    assert!(matches!(
        validate_selection_indices(&vec![0, 2], 2, "video file"),
        Err(UiError::InvalidSelection {
            context: "video file"
        })
    ));
    assert!(matches!(
        validate_selection_indices(&vec![1, 1], 2, "source folder"),
        Err(UiError::InvalidSelection {
            context: "source folder"
        })
    ));
}

#[test]
fn video_extensions_are_recognized_without_regard_to_case() {
    for extension in ["mkv", "MKV", "Mkv", "mp4", "avi", "mov", "webm", "m4v", "ts", "m2ts", "wmv", "FLV"] {
        assert!(is_video_extension(extension), "{extension}");
    }
    for extension in ["", "txt", "mkvv", "mk", ".mkv", "srt"] {
        assert!(!is_video_extension(extension), "{extension}");
    }
}

#[test]
fn candidates_keep_movies_before_series() {
    let movies = vec![search_candidate(550, MediaType::Movie, "Fight Club")];
    let series = vec![
        search_candidate(1399, MediaType::Series, "Game of Thrones"),
        search_candidate(1400, MediaType::Series, "Seinfeld"),
    ];
    let all = combine_candidates(movies, series);
    let ids: Vec<u64> = all.iter().map(|c| c.id.value()).collect();
    assert_eq!(ids, vec![550, 1399, 1400]);
    assert_eq!(all[0].media_type, MediaType::Movie);
}

#[test]
fn folders_and_videos_are_listed_without_regard_to_case() {
    let folders = vec!["Beta".to_owned(), "alpha".to_owned()];
    assert_eq!(listing_order(&folders), vec![1, 0]);

    let files = vec![
        "second.MKV".to_owned(),
        "season-01/episode.mp4".to_owned(),
        "first.mkv".to_owned(),
    ];
    let order = listing_order(&files);
    let listed: Vec<&str> = order.iter().map(|&i| files[i].as_str()).collect();
    assert_eq!(listed, vec!["first.mkv", "season-01/episode.mp4", "second.MKV"]);

    let same = vec!["b".to_owned(), "B".to_owned(), "a".to_owned(), "b".to_owned()];
    assert_eq!(listing_order(&same), vec![2, 1, 0, 3]);
    assert!(listed_no_later("abc", "abd"));
    assert!(listed_no_later("ab", "abc"));
    assert!(!listed_no_later("abc", "ab"));
    assert!(listed_no_later("Zeta", "zeta"));
    assert!(listing_order(&Vec::new()).is_empty());
}
