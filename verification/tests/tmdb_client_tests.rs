use tmdbtag::config::StartupConfig;
use tmdbtag::domain::{EpisodeRef, MediaType, TmdbId};
use tmdbtag::error::TmdbError;
use tmdbtag::tmdb::client::{origin_parts_supported, TmdbClient};
use tmdbtag::tmdb::models::{
    map_episode_details, map_movie_details, map_movie_search, map_tv_details, map_tv_search,
    EpisodeDetailsResponse, MovieDetailsResponse, MovieSearchResponse, MovieSearchResult,
    TvDetailsResponse, TvSearchResponse, TvSearchResult,
};
use tmdbtag::tmdb::request::{
    credentials_request, episode_request, item_request, map_body_read_error, map_status_error,
    timeout_or_network,
    check_body, check_head, check_status, search_request, MissingResource, Operation, TmdbRequest, MAX_SEARCH_RESULTS,
};

fn test_config() -> StartupConfig {
    StartupConfig::new("test-only-api-key".to_owned(), "pt-BR".to_owned()).unwrap()
}

fn client_for(base_url: &str) -> TmdbClient {
    TmdbClient::with_base_url(&test_config(), base_url).unwrap()
}

fn text(value: &str) -> Option<String> {
    Some(value.to_owned())
}

fn movie_result(id: u64, title: &str, original: &str, date: &str, adult: bool) -> MovieSearchResult {
    MovieSearchResult {
        id,
        title: text(title),
        original_title: text(original),
        release_date: text(date),
        adult: Some(adult),
    }
}

/// The request line path and query the transport sends for a request.
fn request_line(client: &TmdbClient, request: &TmdbRequest) -> (String, Vec<(String, String)>) {
    client.request_target(request).unwrap()
}

fn has_param(params: &[(String, String)], name: &str, value: &str) -> bool {
    params.iter().any(|(n, v)| n == name && v == value)
}

fn no_details_title(id: u64, title: Option<String>) -> MovieDetailsResponse {
    MovieDetailsResponse {
        id,
        title,
        original_title: None,
        release_date: None,
        media_type: None,
    }
}

#[test]
fn movie_search_maps_results_filters_adult_items_and_propagates_query_parameters() {
    let response = MovieSearchResponse {
        page: Some(2),
        total_pages: Some(3),
        results: vec![
            movie_result(550, " Clube da Luta ", "Fight Club", "1999-10-15", false),
            movie_result(551, "Adult result", "Adult result", "2020-01-01", true),
            movie_result(552, "", "Fallback title", "unknown", false),
        ],
    };
    let client = client_for("http://127.0.0.1:1/");

    let page = map_movie_search(response, MAX_SEARCH_RESULTS).unwrap();

    assert_eq!(page.page, 2);
    assert_eq!(page.total_pages, 3);
    assert!(page.has_next_page());
    assert_eq!(page.results.len(), 2);
    assert_eq!(page.results[0].id.value(), 550);
    assert_eq!(page.results[0].media_type, MediaType::Movie);
    assert_eq!(page.results[0].title, "Clube da Luta");
    assert_eq!(page.results[0].original_title.as_deref(), Some("Fight Club"));
    assert_eq!(page.results[0].year, Some(1999));
    assert_eq!(page.results[1].title, "Fallback title");
    assert_eq!(page.results[1].year, None);

    let request = search_request(MediaType::Movie, "  Fight Club  ", 2).unwrap();
    let (url, params) = request_line(&client, &request);
    assert_eq!(url, "http://127.0.0.1:1/3/search/movie");
    assert!(has_param(&params, "api_key", "test-only-api-key"));
    assert!(has_param(&params, "language", "pt-BR"));
    assert!(has_param(&params, "query", "Fight Club"));
    assert!(has_param(&params, "include_adult", "false"));
    assert!(has_param(&params, "page", "2"));
}

#[test]
fn tv_search_maps_series_namespace_and_year() {
    let response = TvSearchResponse {
        page: Some(1),
        total_pages: Some(1),
        results: vec![TvSearchResult {
            id: 1399,
            name: text("Game of Thrones"),
            original_name: text("Game of Thrones"),
            first_air_date: text("2011-04-17"),
            adult: Some(false),
        }],
    };
    let client = client_for("http://127.0.0.1:1/");

    let results = map_tv_search(response, MAX_SEARCH_RESULTS).unwrap().results;

    assert_eq!(results.len(), 1);
    assert_eq!(results[0].id.value(), 1399);
    assert_eq!(results[0].media_type, MediaType::Series);
    assert_eq!(results[0].title, "Game of Thrones");
    assert_eq!(results[0].year, Some(2011));
    let request = search_request(MediaType::Series, "Game of Thrones", 1).unwrap();
    let (url, _) = request_line(&client, &request);
    assert!(url.ends_with("/3/search/tv"));
}

#[test]
fn empty_search_results_are_returned_without_an_implicit_selection() {
    let response = MovieSearchResponse {
        page: Some(1),
        total_pages: Some(1),
        results: Vec::new(),
    };
    let results = map_movie_search(response, MAX_SEARCH_RESULTS).unwrap().results;

    assert!(results.is_empty());
}

#[test]
fn details_and_episode_requests_map_verified_metadata() {
    let client = client_for("http://127.0.0.1:1/");
    let movie_id = TmdbId::new(550).unwrap();
    let series_id = TmdbId::new(1399).unwrap();

    let movie = map_movie_details(
        MovieDetailsResponse {
            id: 550,
            title: text(""),
            original_title: text("Fight Club"),
            release_date: text("1999-10-15"),
            media_type: None,
        },
        movie_id,
    )
    .unwrap();
    let series = map_tv_details(
        TvDetailsResponse {
            id: 1399,
            name: text(" Game of Thrones "),
            original_name: text("Game of Thrones"),
            first_air_date: text("2011-04-17"),
            media_type: None,
        },
        series_id,
    )
    .unwrap();
    let episode = map_episode_details(
        EpisodeDetailsResponse {
            name: text("Winter Is Coming"),
            season_number: 1,
            episode_number: 1,
        },
        series_id,
        EpisodeRef::new(1, 1),
    )
    .unwrap();

    assert_eq!(movie.title, "Fight Club");
    assert_eq!(movie.original_title.as_deref(), Some("Fight Club"));
    assert_eq!(series.media_type, MediaType::Series);
    assert_eq!(series.title, "Game of Thrones");
    assert_eq!(episode.series_id, series_id);
    assert_eq!(episode.episode, EpisodeRef::new(1, 1));
    assert_eq!(episode.title.as_deref(), Some("Winter Is Coming"));

    let (movie_url, _) = request_line(&client, &item_request(MediaType::Movie, movie_id));
    let (series_url, _) = request_line(&client, &item_request(MediaType::Series, series_id));
    let (episode_url, _) =
        request_line(&client, &episode_request(series_id, EpisodeRef::new(1, 1)));
    assert!(movie_url.ends_with("/3/movie/550"));
    assert!(series_url.ends_with("/3/tv/1399"));
    assert!(episode_url.ends_with("/3/tv/1399/season/1/episode/1"));
}

#[test]
fn special_season_zero_is_sent_to_tmdb_and_can_be_verified() {
    let client = client_for("http://127.0.0.1:1/");
    let series_id = TmdbId::new(1399).unwrap();

    let episode = map_episode_details(
        EpisodeDetailsResponse {
            name: text("Special"),
            season_number: 0,
            episode_number: 1,
        },
        series_id,
        EpisodeRef::new(0, 1),
    )
    .unwrap();

    assert_eq!(episode.episode, EpisodeRef::new(0, 1));
    let (url, _) = request_line(&client, &episode_request(series_id, EpisodeRef::new(0, 1)));
    assert!(url.ends_with("/season/0/episode/1"));
}

#[test]
fn invalid_details_and_episode_responses_are_rejected_without_body_or_key_leaks() {
    let movie_id = TmdbId::new(550).unwrap();
    let error = map_movie_details(no_details_title(551, text("Wrong")), movie_id).unwrap_err();
    assert!(matches!(error, TmdbError::InvalidResponse { .. }));

    let error = map_movie_details(no_details_title(550, text("   ")), movie_id).unwrap_err();
    assert!(matches!(error, TmdbError::InvalidResponse { .. }));
    assert!(!format!("{error:?}").contains("test-only-api-key"));

    let series_id = TmdbId::new(1399).unwrap();
    let error = map_episode_details(
        EpisodeDetailsResponse {
            name: text("Wrong episode"),
            season_number: 2,
            episode_number: 1,
        },
        series_id,
        EpisodeRef::new(1, 1),
    )
    .unwrap_err();
    assert!(matches!(error, TmdbError::InvalidResponse { .. }));
}

#[test]
fn an_explicit_detail_media_type_mismatch_is_rejected() {
    let error = map_movie_details(
        MovieDetailsResponse {
            id: 550,
            title: text("Unexpected"),
            original_title: None,
            release_date: None,
            media_type: text("tv"),
        },
        TmdbId::new(550).unwrap(),
    )
    .unwrap_err();

    assert_eq!(
        error,
        TmdbError::MediaTypeMismatch {
            expected: MediaType::Movie,
            actual: "tv".to_owned(),
        }
    );
}

#[test]
fn status_codes_are_mapped_to_actionable_typed_errors() {
    let request = credentials_request();
    let error = map_status_error(401, None, request.operation, request.missing_resource.clone());
    assert_eq!(error, TmdbError::Authentication { status: 401 });

    let error = map_status_error(
        429,
        Some("7".to_owned()),
        request.operation,
        request.missing_resource.clone(),
    );
    assert_eq!(
        error,
        TmdbError::RateLimited {
            retry_after_seconds: Some(7)
        }
    );

    let error = map_status_error(503, None, request.operation, request.missing_resource.clone());
    assert_eq!(error, TmdbError::Server { status: 503 });

    let movie = item_request(MediaType::Movie, TmdbId::new(550).unwrap());
    let error = map_status_error(404, None, movie.operation, movie.missing_resource);
    assert_eq!(
        error,
        TmdbError::NotFound {
            resource: "movie 550".to_owned()
        }
    );

    let episode = episode_request(TmdbId::new(1399).unwrap(), EpisodeRef::new(0, 1));
    let error = map_status_error(404, None, episode.operation, episode.missing_resource);
    assert_eq!(
        error,
        TmdbError::EpisodeNotFound {
            series_id: 1399,
            season: 0,
            episode: 1,
        }
    );
}

#[test]
fn timeout_empty_query_and_invalid_page_are_bounded_errors() {
    let client =
        TmdbClient::with_base_url_and_timeout(&test_config(), "http://127.0.0.1:1/", 50).unwrap();
    assert_eq!(client.timeout_millis(), 50);
    let error = timeout_or_network(credentials_request().operation, true);
    assert!(matches!(error, TmdbError::Timeout { .. }));
    let read_error = std::io::Error::new(std::io::ErrorKind::TimedOut, "slow");
    assert_eq!(
        map_body_read_error(credentials_request().operation, read_error),
        TmdbError::Timeout {
            operation: "validating credentials".to_owned()
        }
    );

    assert_eq!(
        search_request(MediaType::Movie, "   ", 1).unwrap_err(),
        TmdbError::EmptySearchQuery
    );
    assert_eq!(
        search_request(MediaType::Movie, "Movie", 0).unwrap_err(),
        TmdbError::InvalidSearchPage
    );
}

#[test]
fn client_debug_output_redacts_the_api_key() {
    let client = client_for("http://127.0.0.1:1/");
    let debug = client.redacted_debug();

    assert!(debug.contains("[REDACTED]"));
    assert!(!debug.contains("test-only-api-key"));
    assert!(debug.contains("language: \"pt-BR\""));
    assert!(debug.contains("base_url: Url { scheme: \"http\""));
}

#[test]
fn unsupported_base_urls_are_rejected() {
    let config = test_config();
    for base in [
        "ftp://example.com/",
        "not a url",
        "http://example.com/?q=1",
        "https://example.com/#part",
        "mailto:someone@example.com",
    ] {
        match TmdbClient::with_base_url(&config, base) {
            Err(error) => assert_eq!(error, TmdbError::InvalidBaseUrl, "{base}"),
            Ok(_) => panic!("{base} must be rejected"),
        }
    }
    let client = TmdbClient::new(&config).unwrap();
    let (url, params) = client.request_target(&credentials_request()).unwrap();
    assert_eq!(url, "https://api.themoviedb.org/3/configuration");
    assert_eq!(params[0], ("api_key".to_owned(), "test-only-api-key".to_owned()));
    assert_eq!(params[1], ("language".to_owned(), "pt-BR".to_owned()));
    assert_eq!(params.len(), 2);
}

#[test]
fn empty_path_segments_are_rejected() {
    let client = client_for("http://127.0.0.1:1/");
    let request = TmdbRequest {
        segments: vec!["3".to_owned(), String::new()],
        params: Vec::new(),
        operation: Operation::MovieDetails,
        missing_resource: MissingResource::Description("movie".to_owned()),
    };
    assert_eq!(client.request_target(&request).unwrap_err(), TmdbError::InvalidBaseUrl);
}

#[test]
fn other_statuses_and_transport_failures_keep_the_operation() {
    let request = search_request(MediaType::Series, "x", 1).unwrap();
    assert_eq!(
        map_status_error(418, None, request.operation, request.missing_resource.clone()),
        TmdbError::UnexpectedStatus {
            operation: "searching TV series".to_owned(),
            status: 418
        }
    );
    assert_eq!(
        map_status_error(403, None, request.operation, request.missing_resource.clone()),
        TmdbError::Authentication { status: 403 }
    );
    assert_eq!(
        map_status_error(
            429,
            Some(" soon ".to_owned()),
            request.operation,
            request.missing_resource.clone()
        ),
        TmdbError::RateLimited {
            retry_after_seconds: None
        }
    );
    assert_eq!(
        timeout_or_network(Operation::MovieDetails, false),
        TmdbError::Network {
            operation: "fetching movie details".to_owned()
        }
    );
}

#[test]
fn only_successful_statuses_are_accepted() {
    let request = credentials_request();
    assert!(check_status(200, None, request.operation, request.missing_resource.clone()).is_ok());
    assert!(check_status(204, None, request.operation, request.missing_resource.clone()).is_ok());
    assert_eq!(
        check_status(302, None, request.operation, request.missing_resource.clone()),
        Err(TmdbError::UnexpectedStatus {
            operation: "validating credentials".to_owned(),
            status: 302
        })
    );
    assert_eq!(
        check_status(401, None, request.operation, request.missing_resource.clone()),
        Err(TmdbError::Authentication { status: 401 })
    );
}

#[test]
fn body_read_failures_other_than_timeouts_are_network_errors() {
    let read_error = std::io::Error::new(std::io::ErrorKind::ConnectionReset, "reset");
    assert_eq!(
        map_body_read_error(Operation::EpisodeDetails, read_error),
        TmdbError::Network {
            operation: "validating episode details".to_owned()
        }
    );
}

#[test]
fn search_pages_with_inconsistent_pagination_or_unusable_results_are_rejected() {
    let bad_page = MovieSearchResponse {
        page: Some(4),
        total_pages: Some(3),
        results: Vec::new(),
    };
    assert_eq!(
        map_movie_search(bad_page, MAX_SEARCH_RESULTS).unwrap_err(),
        TmdbError::InvalidResponse {
            operation: "movie search".to_owned(),
            reason: "the response contained invalid pagination values".to_owned()
        }
    );
    let zero_id = MovieSearchResponse {
        page: None,
        total_pages: None,
        results: vec![movie_result(0, "Zero", "Zero", "2000", false)],
    };
    assert_eq!(
        map_movie_search(zero_id, MAX_SEARCH_RESULTS).unwrap_err(),
        TmdbError::InvalidResponse {
            operation: "movie search".to_owned(),
            reason: "a result had an invalid ID".to_owned()
        }
    );
    let many = MovieSearchResponse {
        page: None,
        total_pages: None,
        results: (1..=25)
            .map(|id| movie_result(id, "Title", "Title", "2001-01-01", false))
            .collect(),
    };
    let page = map_movie_search(many, MAX_SEARCH_RESULTS).unwrap();
    assert_eq!(page.results.len(), 20);
    assert_eq!(page.page, 1);
    assert!(!page.has_next_page());
}

#[test]
fn only_http_origins_with_a_host_and_no_query_or_fragment_are_supported() {
    let host = Some("api.themoviedb.org".to_owned());
    assert!(origin_parts_supported("https", &host, &None, &None));
    assert!(origin_parts_supported("http", &host, &None, &None));
    assert!(!origin_parts_supported("ftp", &host, &None, &None));
    assert!(!origin_parts_supported("https", &None, &None, &None));
    assert!(!origin_parts_supported("https", &host, &Some("q=1".to_owned()), &None));
    assert!(!origin_parts_supported("https", &host, &None, &Some("top".to_owned())));
}

#[test]
fn responses_are_checked_before_and_after_reading_the_body() {
    let request = credentials_request();
    let operation = request.operation;
    assert!(check_head(operation, 200, None, Some(2), request.missing_resource.clone()).is_ok());
    assert!(check_head(operation, 200, None, None, request.missing_resource.clone()).is_ok());
    let too_large = TmdbError::InvalidResponse {
        operation: "validating credentials".to_owned(),
        reason: "the response exceeded the maximum supported size".to_owned(),
    };
    assert_eq!(
        check_head(operation, 200, None, Some(5242881), request.missing_resource.clone()),
        Err(too_large.clone())
    );
    assert_eq!(
        check_head(operation, 429, Some("7".to_owned()), Some(5242881), request.missing_resource.clone()),
        Err(TmdbError::RateLimited {
            retry_after_seconds: Some(7)
        })
    );
    assert_eq!(check_body(operation, Ok(b"{}".to_vec())), Ok(b"{}".to_vec()));
    assert_eq!(
        check_body(operation, Ok(vec![b' '; 5242881])),
        Err(too_large)
    );
    assert!(check_body(operation, Ok(vec![b' '; 5242880])).is_ok());
    assert!(matches!(
        check_body(
            operation,
            Err(std::io::Error::new(std::io::ErrorKind::TimedOut, "slow"))
        ),
        Err(TmdbError::Timeout { .. })
    ));
}
