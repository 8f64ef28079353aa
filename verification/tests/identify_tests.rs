use tmdbtag::domain::{
    parse_tmdb_id, DomainError, EpisodeRef, MediaType, TmdbId, TmdbItem, TmdbSearchCandidate,
};
use tmdbtag::error::{TmdbError, UiError};
use tmdbtag::identify::{
    EpisodeAction, EpisodeCollection, EpisodeEvent, ManualAction, ManualEvent,
    ManualIdentification, SearchAction, SearchEvent, SearchIdentification, SearchNotice,
};

fn candidate(id: u64, media_type: MediaType, title: &str) -> TmdbSearchCandidate {
    TmdbSearchCandidate {
        id: TmdbId::new(id).unwrap(),
        media_type,
        title: title.to_owned(),
        original_title: None,
        year: None,
    }
}

fn item(id: u64, media_type: MediaType, title: &str) -> TmdbItem {
    TmdbItem {
        id: TmdbId::new(id).unwrap(),
        media_type,
        title: title.to_owned(),
        original_title: None,
        year: Some(1999),
    }
}

#[test]
fn a_search_is_confirmed_only_after_the_user_picks_and_accepts_a_result() {
    let (mut flow, action) = SearchIdentification::start();
    assert!(matches!(action, SearchAction::AskQuery(None)));

    assert!(matches!(
        flow.step(SearchEvent::Query(Some("   ".to_owned()))),
        SearchAction::AskQuery(Some(SearchNotice::EmptyQuery))
    ));
    match flow.step(SearchEvent::Query(Some("  Fight Club ".to_owned()))) {
        SearchAction::Search(query) => assert_eq!(query, "Fight Club"),
        _ => panic!("the trimmed query must be searched"),
    }
    assert!(matches!(
        flow.step(SearchEvent::Searched(Ok((Vec::new(), Vec::new())))),
        SearchAction::AskQuery(Some(SearchNotice::NoResults))
    ));
    let movies = vec![candidate(550, MediaType::Movie, "Fight Club")];
    let series = vec![candidate(1399, MediaType::Series, "Game of Thrones")];
    assert!(matches!(
        flow.step(SearchEvent::Searched(Ok((movies, series)))),
        SearchAction::Select
    ));
    assert_eq!(flow.candidates.len(), 2);
    match flow.step(SearchEvent::Selected(Some(1))) {
        SearchAction::Fetch { media_type, id } => {
            assert_eq!(media_type, MediaType::Series);
            assert_eq!(id.value(), 1399);
        }
        _ => panic!("the chosen result must be fetched"),
    }
    assert!(matches!(
        flow.step(SearchEvent::Fetched(Ok(item(1399, MediaType::Series, "Game of Thrones")))),
        SearchAction::Confirm
    ));
    match flow.step(SearchEvent::Confirmed(Some(true))) {
        SearchAction::Finish(Some(found)) => {
            assert_eq!(found.id.value(), 1399);
            assert_eq!(found.title, "Game of Thrones");
        }
        _ => panic!("the confirmed item must be returned"),
    }
}

#[test]
fn search_failures_and_refusals_never_pick_a_result() {
    let (mut flow, _) = SearchIdentification::start();
    flow.step(SearchEvent::Searched(Ok((
        vec![candidate(550, MediaType::Movie, "Fight Club")],
        Vec::new(),
    ))));
    match flow.step(SearchEvent::Selected(Some(3))) {
        SearchAction::Fail(UiError::InvalidSelection { context }) => {
            assert_eq!(context, "TMDB result")
        }
        _ => panic!("an out-of-range selection must fail"),
    }
    assert!(matches!(
        flow.step(SearchEvent::Selected(None)),
        SearchAction::Finish(None)
    ));
    assert!(matches!(
        flow.step(SearchEvent::Searched(Err(TmdbError::Server { status: 503 }))),
        SearchAction::AskRetry(TmdbError::Server { status: 503 })
    ));
    assert!(matches!(
        flow.step(SearchEvent::Retry(Some(true))),
        SearchAction::AskQuery(None)
    ));
    assert!(matches!(
        flow.step(SearchEvent::Retry(None)),
        SearchAction::Finish(None)
    ));
    flow.step(SearchEvent::Fetched(Ok(item(550, MediaType::Movie, "Fight Club"))));
    assert!(matches!(
        flow.step(SearchEvent::Confirmed(Some(false))),
        SearchAction::AskQuery(None)
    ));
    assert!(matches!(
        flow.step(SearchEvent::Query(None)),
        SearchAction::Finish(None)
    ));
}

#[test]
fn a_manual_identifier_is_fetched_in_the_chosen_namespace() {
    let (mut flow, action) = ManualIdentification::start();
    assert!(matches!(action, ManualAction::ChooseMediaType));
    assert!(matches!(
        flow.step(ManualEvent::MediaTypeChosen(Some(MediaType::Movie))),
        ManualAction::AskId(None)
    ));
    assert!(matches!(
        flow.step(ManualEvent::IdEntered(Some("abc".to_owned()))),
        ManualAction::AskId(Some(DomainError::InvalidTmdbId))
    ));
    assert!(matches!(
        flow.step(ManualEvent::IdEntered(Some("0".to_owned()))),
        ManualAction::AskId(Some(DomainError::InvalidTmdbId))
    ));
    match flow.step(ManualEvent::IdEntered(Some(" 550 ".to_owned()))) {
        ManualAction::Fetch { media_type, id } => {
            assert_eq!(media_type, MediaType::Movie);
            assert_eq!(id.value(), 550);
        }
        _ => panic!("a valid identifier must be fetched"),
    }
    assert!(matches!(
        flow.step(ManualEvent::Fetched(Err(TmdbError::NotFound {
            resource: "movie 550".to_owned()
        }))),
        ManualAction::AskRetry(TmdbError::NotFound { .. })
    ));
    assert!(matches!(
        flow.step(ManualEvent::Retry(Some(true))),
        ManualAction::AskId(None)
    ));
    flow.step(ManualEvent::Fetched(Ok(item(550, MediaType::Movie, "Fight Club"))));
    assert!(matches!(
        flow.step(ManualEvent::Confirmed(Some(false))),
        ManualAction::ChooseMediaType
    ));
    flow.step(ManualEvent::Fetched(Ok(item(550, MediaType::Movie, "Fight Club"))));
    match flow.step(ManualEvent::Confirmed(Some(true))) {
        ManualAction::Finish(Some(found)) => assert_eq!(found.id.value(), 550),
        _ => panic!("the confirmed item must be returned"),
    }
    assert!(matches!(
        flow.step(ManualEvent::MediaTypeChosen(None)),
        ManualAction::Finish(None)
    ));
}

#[test]
fn an_episode_is_accepted_only_after_tmdb_confirms_it() {
    let (mut flow, action) = EpisodeCollection::start();
    assert!(matches!(action, EpisodeAction::AskNumbers(None)));
    assert!(matches!(
        flow.step(EpisodeEvent::Entered(Some(("x".to_owned(), "1".to_owned())))),
        EpisodeAction::AskNumbers(Some(DomainError::InvalidSeasonNumber))
    ));
    assert!(matches!(
        flow.step(EpisodeEvent::Entered(Some(("1".to_owned(), "-1".to_owned())))),
        EpisodeAction::AskNumbers(Some(DomainError::InvalidEpisodeNumber))
    ));
    match flow.step(EpisodeEvent::Entered(Some((" 0 ".to_owned(), "1".to_owned())))) {
        EpisodeAction::Validate(reference) => assert_eq!(reference, EpisodeRef::new(0, 1)),
        _ => panic!("valid numbers must be validated"),
    }
    assert!(matches!(
        flow.step(EpisodeEvent::Validated(Err(TmdbError::EpisodeNotFound {
            series_id: 1399,
            season: 0,
            episode: 1
        }))),
        EpisodeAction::AskRetry(_)
    ));
    assert!(matches!(
        flow.step(EpisodeEvent::Retry(Some(true))),
        EpisodeAction::AskNumbers(None)
    ));
    flow.step(EpisodeEvent::Entered(Some(("1".to_owned(), "2".to_owned()))));
    match flow.step(EpisodeEvent::Validated(Ok(()))) {
        EpisodeAction::Finish(Some(reference)) => assert_eq!(reference, EpisodeRef::new(1, 2)),
        _ => panic!("the verified episode must be returned"),
    }
    assert!(matches!(
        flow.step(EpisodeEvent::Retry(Some(false))),
        EpisodeAction::Finish(None)
    ));
}

#[test]
fn identifiers_and_episode_numbers_are_parsed_strictly() {
    assert_eq!(parse_tmdb_id(" 1399 ").unwrap().value(), 1399);
    assert_eq!(parse_tmdb_id("+7").unwrap().value(), 7);
    assert_eq!(parse_tmdb_id("0"), Err(DomainError::InvalidTmdbId));
    assert_eq!(parse_tmdb_id(""), Err(DomainError::InvalidTmdbId));
    assert_eq!(parse_tmdb_id("-5"), Err(DomainError::InvalidTmdbId));
    assert_eq!(parse_tmdb_id("18446744073709551616"), Err(DomainError::InvalidTmdbId));
    assert_eq!(
        parse_tmdb_id("18446744073709551615").unwrap().value(),
        18446744073709551615
    );
    assert_eq!(TmdbId::new(0), Err(DomainError::InvalidTmdbId));
    assert_eq!(TmdbId::new(42).unwrap().to_decimal(), "42");

    assert_eq!(EpisodeRef::parse("1", "10"), Ok(EpisodeRef::new(1, 10)));
    assert_eq!(
        EpisodeRef::parse("4294967295", "0"),
        Ok(EpisodeRef::new(4294967295, 0))
    );
    assert_eq!(
        EpisodeRef::parse("4294967296", "1"),
        Err(DomainError::InvalidSeasonNumber)
    );
    assert_eq!(EpisodeRef::parse("1", ""), Err(DomainError::InvalidEpisodeNumber));
    assert_eq!(EpisodeRef::parse("", ""), Err(DomainError::InvalidSeasonNumber));
}

#[test]
fn identifier_and_episode_text_round_trips() {
    for value in [1u64, 9, 10, 550, 1399, 18446744073709551615] {
        let id = TmdbId::new(value).unwrap();
        assert_eq!(parse_tmdb_id(&id.to_decimal()).unwrap(), id);
    }
    for value in [0u32, 1, 10, 4294967295] {
        let text = value.to_string();
        assert_eq!(
            EpisodeRef::parse(&text, &text),
            Ok(EpisodeRef::new(value, value))
        );
    }
}

#[test]
fn a_retried_manual_lookup_stays_in_the_chosen_namespace() {
    let (mut flow, _) = ManualIdentification::start();
    flow.step(ManualEvent::MediaTypeChosen(Some(MediaType::Series)));
    flow.step(ManualEvent::IdEntered(Some("x".to_owned())));
    flow.step(ManualEvent::Fetched(Err(TmdbError::Server { status: 503 })));
    assert!(matches!(
        flow.step(ManualEvent::Retry(Some(true))),
        ManualAction::AskId(None)
    ));
    match flow.step(ManualEvent::IdEntered(Some("1399".to_owned()))) {
        ManualAction::Fetch { media_type, id } => {
            assert_eq!(media_type, MediaType::Series);
            assert_eq!(id.value(), 1399);
        }
        _ => panic!("the identifier must be fetched in the chosen namespace"),
    }
}
