//! The TMDB v3 request policy: which endpoint and query each operation uses, how the
//! credential and language are attached, which responses are too large, and how transport
//! failures and HTTP statuses become typed errors. The HTTP transport itself performs no
//! decisions of its own.
use std::io;

use vstd::prelude::*;

use crate::domain::{EpisodeRef, MediaType, TmdbId};
use crate::error::TmdbError;
use crate::text::{decimal, opt_view, parse_u64, parse_unsigned, trim, trim_str, u64_to_decimal};

verus! {

/// The official TMDB v3 API origin.
pub const DEFAULT_BASE_URL: &'static str = "https://api.themoviedb.org/";

/// The largest response body the client accepts.
pub const MAX_RESPONSE_BYTES: u64 = 5242880;

/// The largest number of candidates mapped from one search page.
pub const MAX_SEARCH_RESULTS: usize = 20;

/// The TMDB operations, named for diagnostics without URLs or credentials.
#[derive(Debug, Clone, Copy, PartialEq, Eq, Structural)]
pub enum Operation {
    ValidateCredentials,
    MovieSearch,
    SeriesSearch,
    MovieDetails,
    SeriesDetails,
    EpisodeDetails,
}

pub open spec fn operation_label(operation: Operation) -> Seq<char> {
    match operation {
        Operation::ValidateCredentials => "validating credentials"@,
        Operation::MovieSearch => "searching movies"@,
        Operation::SeriesSearch => "searching TV series"@,
        Operation::MovieDetails => "fetching movie details"@,
        Operation::SeriesDetails => "fetching TV series details"@,
        Operation::EpisodeDetails => "validating episode details"@,
    }
}

impl Operation {
    /// The diagnostic label of the operation.
    pub fn label(self) -> (r: &'static str)
        ensures
            r@ == operation_label(self),
    {
        match self {
            Self::ValidateCredentials => "validating credentials",
            Self::MovieSearch => "searching movies",
            Self::SeriesSearch => "searching TV series",
            Self::MovieDetails => "fetching movie details",
            Self::SeriesDetails => "fetching TV series details",
            Self::EpisodeDetails => "validating episode details",
        }
    }
}

/// What a `404 Not Found` answer to a request means.
#[derive(Debug, Clone)]
pub enum MissingResource {
    /// A described resource, such as `movie 550`.
    Description(String),
    /// One episode of a series.
    Episode { series_id: TmdbId, episode: EpisodeRef },
}

/// One TMDB request: its URL path segments below the base URL, its query parameters
/// besides the credential and language, and how its failures are reported.
#[derive(Debug, Clone)]
pub struct TmdbRequest {
    pub segments: Vec<String>,
    pub params: Vec<(String, String)>,
    pub operation: Operation,
    pub missing_resource: MissingResource,
}

pub open spec fn strings_view(v: Seq<String>) -> Seq<Seq<char>> {
    v.map_values(|s: String| s@)
}

pub open spec fn pairs_view(v: Seq<(String, String)>) -> Seq<(Seq<char>, Seq<char>)> {
    v.map_values(|p: (String, String)| (p.0@, p.1@))
}

/// Every path segment is non-empty.
pub open spec fn segments_non_empty(segments: Seq<Seq<char>>) -> bool {
    forall|i: int| 0 <= i < segments.len() ==> #[trigger] segments[i].len() > 0
}

pub open spec fn described_missing(m: MissingResource, description: Seq<char>) -> bool {
    m matches MissingResource::Description(d) && d@ == description
}

fn text(s: &str) -> (r: String)
    ensures
        r@ == s@,
{
    String::from_str(s)
}

fn segments_of(parts: &[&str]) -> (r: Vec<String>)
    ensures
        r@.len() == parts@.len(),
        forall|i: int| 0 <= i < parts@.len() ==> #[trigger] r@[i]@ == parts@[i]@,
{
    let mut r: Vec<String> = Vec::new();
    let mut i: usize = 0;
    while i < parts.len()
        invariant
            i <= parts@.len(),
            r@.len() == i,
            forall|j: int| 0 <= j < i ==> #[trigger] r@[j]@ == parts@[j]@,
        decreases parts@.len() - i,
    {
        r.push(text(parts[i]));
        i = i + 1;
    }
    r
}

/// `GET /3/configuration`, the lightweight authenticated request that validates the key.
pub fn credentials_request() -> (r: TmdbRequest)
    ensures
        strings_view(r.segments@) == seq!["3"@, "configuration"@],
        r.params@.len() == 0,
        r.operation == Operation::ValidateCredentials,
        described_missing(r.missing_resource, "TMDB configuration"@),
{
    let segments = segments_of(&["3", "configuration"]);
    assert(strings_view(segments@) =~= seq!["3"@, "configuration"@]);
    TmdbRequest {
        segments,
        params: Vec::new(),
        operation: Operation::ValidateCredentials,
        missing_resource: MissingResource::Description(text("TMDB configuration")),
    }
}

/// The path, operation and missing-resource description of a search namespace.
pub open spec fn search_endpoint(media_type: MediaType) -> (Seq<char>, Operation, Seq<char>) {
    match media_type {
        MediaType::Movie => ("movie"@, Operation::MovieSearch, "movie search"@),
        MediaType::Series => ("tv"@, Operation::SeriesSearch, "TV search"@),
    }
}

/// A search of one namespace at a one-based page. The query is trimmed and must not be
/// empty; adult results are excluded.
pub fn search_request(media_type: MediaType, query: &str, page: u32) -> (r: Result<
    TmdbRequest,
    TmdbError,
>)
    ensures
        trim(query@).len() == 0 ==> r matches Err(TmdbError::EmptySearchQuery),
        trim(query@).len() > 0 && page == 0 ==> r matches Err(TmdbError::InvalidSearchPage),
        trim(query@).len() > 0 && page > 0 ==> (r matches Ok(request) && {
            let (path, operation, description) = search_endpoint(media_type);
            &&& strings_view(request.segments@) == seq!["3"@, "search"@, path]
            &&& pairs_view(request.params@) == seq![
                ("query"@, trim(query@)),
                ("include_adult"@, "false"@),
                ("page"@, decimal(page as nat)),
            ]
            &&& request.operation == operation
            &&& described_missing(request.missing_resource, description)
        }),
{
    let trimmed = trim_str(query);
    if trimmed.as_str().is_empty() {
        return Err(TmdbError::EmptySearchQuery);
    }
    if page == 0 {
        return Err(TmdbError::InvalidSearchPage);
    }
    let params = vec![
        (text("query"), trimmed),
        (text("include_adult"), text("false")),
        (text("page"), u64_to_decimal(page as u64)),
    ];
    let (segments, operation, description) = match media_type {
        MediaType::Movie => (
            segments_of(&["3", "search", "movie"]),
            Operation::MovieSearch,
            text("movie search"),
        ),
        MediaType::Series => (
            segments_of(&["3", "search", "tv"]),
            Operation::SeriesSearch,
            text("TV search"),
        ),
    };
    let request = TmdbRequest {
        segments,
        params,
        operation,
        missing_resource: MissingResource::Description(description),
    };
    assert(pairs_view(request.params@) =~= seq![
        ("query"@, trim(query@)),
        ("include_adult"@, "false"@),
        ("page"@, decimal(page as nat)),
    ]);
    assert(strings_view(request.segments@) =~= seq![
        "3"@,
        "search"@,
        search_endpoint(media_type).0,
    ]);
    Ok(request)
}

/// The path, operation and missing-resource prefix of a details namespace.
pub open spec fn details_endpoint(media_type: MediaType) -> (Seq<char>, Operation, Seq<char>) {
    match media_type {
        MediaType::Movie => ("movie"@, Operation::MovieDetails, "movie "@),
        MediaType::Series => ("tv"@, Operation::SeriesDetails, "TV series "@),
    }
}

/// `GET /3/movie/{id}` or `GET /3/tv/{id}`: the details of one movie or series.
pub fn item_request(media_type: MediaType, id: TmdbId) -> (r: TmdbRequest)
    ensures
        ({
            let (path, operation, prefix) = details_endpoint(media_type);
            let id_text = decimal(id.spec_value() as nat);
            &&& strings_view(r.segments@) == seq!["3"@, path, id_text]
            &&& r.params@.len() == 0
            &&& r.operation == operation
            &&& described_missing(r.missing_resource, prefix + id_text)
        }),
{
    let id_text = id.to_decimal();
    let (path, operation, mut description) = match media_type {
        MediaType::Movie => ("movie", Operation::MovieDetails, text("movie ")),
        MediaType::Series => ("tv", Operation::SeriesDetails, text("TV series ")),
    };
    description.append(id_text.as_str());
    let segments = vec![text("3"), text(path), id_text];
    assert(strings_view(segments@) =~= seq!["3"@, path@, decimal(id.spec_value() as nat)]);
    TmdbRequest {
        segments,
        params: Vec::new(),
        operation,
        missing_resource: MissingResource::Description(description),
    }
}

/// `GET /3/tv/{series_id}/season/{season}/episode/{episode}`: one episode of a series.
pub fn episode_request(series_id: TmdbId, episode: EpisodeRef) -> (r: TmdbRequest)
    ensures
        strings_view(r.segments@) == seq![
            "3"@,
            "tv"@,
            decimal(series_id.spec_value() as nat),
            "season"@,
            decimal(episode.season as nat),
            "episode"@,
            decimal(episode.episode as nat),
        ],
        r.params@.len() == 0,
        r.operation == Operation::EpisodeDetails,
        r.missing_resource == (MissingResource::Episode { series_id, episode }),
{
    let segments = vec![
        text("3"),
        text("tv"),
        series_id.to_decimal(),
        text("season"),
        u64_to_decimal(episode.season() as u64),
        text("episode"),
        u64_to_decimal(episode.episode() as u64),
    ];
    assert(strings_view(segments@) =~= seq![
        "3"@,
        "tv"@,
        decimal(series_id.spec_value() as nat),
        "season"@,
        decimal(episode.season as nat),
        "episode"@,
        decimal(episode.episode as nat),
    ]);
    TmdbRequest {
        segments,
        params: Vec::new(),
        operation: Operation::EpisodeDetails,
        missing_resource: MissingResource::Episode { series_id, episode },
    }
}

/// The query string of a request: the credential, then the metadata language, then the
/// request's own parameters.
pub fn query_params(api_key: &str, language: &str, request: &TmdbRequest) -> (r: Vec<
    (String, String),
>)
    ensures
        pairs_view(r@) == seq![("api_key"@, api_key@), ("language"@, language@)] + pairs_view(
            request.params@,
        ),
{
    let mut r: Vec<(String, String)> = Vec::new();
    r.push((text("api_key"), text(api_key)));
    r.push((text("language"), text(language)));
    let mut i: usize = 0;
    while i < request.params.len()
        invariant
            i <= request.params@.len(),
            r@.len() == i + 2,
            r@[0].0@ == "api_key"@ && r@[0].1@ == api_key@,
            r@[1].0@ == "language"@ && r@[1].1@ == language@,
            forall|k: int|
                0 <= k < i ==> #[trigger] r@[k + 2].0@ == request.params@[k].0@ && r@[k
                    + 2].1@ == request.params@[k].1@,
        decreases request.params@.len() - i,
    {
        let name = request.params[i].0.clone();
        let value = request.params[i].1.clone();
        r.push((name, value));
        i = i + 1;
    }
    assert(pairs_view(r@) =~= seq![("api_key"@, api_key@), ("language"@, language@)] + pairs_view(
        request.params@,
    )) by {
        assert forall|k: int| 0 <= k < r@.len() implies pairs_view(r@)[k] == (seq![
            ("api_key"@, api_key@),
            ("language"@, language@),
        ] + pairs_view(request.params@))[k] by {
            if k >= 2 {
                assert(r@[(k - 2) + 2].0@ == request.params@[k - 2].0@);
            }
        }
    }
    r
}

/// Rejects a declared or read response length above the supported maximum.
pub fn check_response_size(operation: Operation, length: u64) -> (r: Result<(), TmdbError>)
    ensures
        length <= MAX_RESPONSE_BYTES ==> r is Ok,
        length > MAX_RESPONSE_BYTES ==> (r matches Err(
            TmdbError::InvalidResponse { operation: o, reason: why },
        ) && o@ == operation_label(operation)
            && why@ == "the response exceeded the maximum supported size"@),
{
    if length > MAX_RESPONSE_BYTES {
        Err(
            TmdbError::InvalidResponse {
                operation: text(operation.label()),
                reason: text("the response exceeded the maximum supported size"),
            },
        )
    } else {
        Ok(())
    }
}

/// The checks on a response before its body is read: the status must be successful (2xx),
/// and a declared length must not exceed the supported maximum. Neither check sees the
/// credential.
pub fn check_head(
    operation: Operation,
    status: u16,
    retry_after: Option<String>,
    declared_length: Option<u64>,
    missing_resource: MissingResource,
) -> (r: Result<(), TmdbError>)
    ensures
        !(200 <= status <= 299) ==> (r matches Err(e) && is_status_error(
            e,
            status,
            opt_view(retry_after),
            operation,
            missing_resource,
        )),
        200 <= status <= 299 ==> match declared_length {
            Some(length) if length > MAX_RESPONSE_BYTES => r matches Err(
                TmdbError::InvalidResponse { operation: o, reason: why },
            ) && o@ == operation_label(operation)
                && why@ == "the response exceeded the maximum supported size"@,
            _ => r is Ok,
        },
{
    if let Err(error) = check_status(status, retry_after, operation, missing_resource) {
        return Err(error);
    }
    match declared_length {
        Some(length) => check_response_size(operation, length),
        None => Ok(()),
    }
}

/// The body as it was read: a failed read becomes `Timeout` or `Network`, a body above the
/// supported maximum is rejected, and any other body is passed on unchanged.
pub fn check_body(operation: Operation, read: Result<Vec<u8>, io::Error>) -> (r: Result<
    Vec<u8>,
    TmdbError,
>)
    ensures
        match read {
            Err(_) => r matches Err(e) && ((e matches TmdbError::Timeout { operation: o } && o@
                == operation_label(operation)) || (e matches TmdbError::Network { operation: o }
                && o@ == operation_label(operation))),
            Ok(body) => if body@.len() > MAX_RESPONSE_BYTES {
                r matches Err(TmdbError::InvalidResponse { operation: o, reason: why }) && o@
                    == operation_label(operation) && why@
                    == "the response exceeded the maximum supported size"@
            } else {
                r == Ok::<Vec<u8>, TmdbError>(body)
            },
        },
{
    match read {
        Err(error) => Err(map_body_read_error(operation, error)),
        Ok(body) => {
            let length = body.len();
            if length as u64 > MAX_RESPONSE_BYTES {
                Err(
                    TmdbError::InvalidResponse {
                        operation: text(operation.label()),
                        reason: text("the response exceeded the maximum supported size"),
                    },
                )
            } else {
                Ok(body)
            }
        },
    }
}

/// A response body that is not the expected JSON.
pub fn invalid_response(operation: Operation, reason: &str) -> (e: TmdbError)
    ensures
        e matches TmdbError::InvalidResponse { operation: o, reason: why } && o@
            == operation_label(operation) && why@ == reason@,
{
    TmdbError::InvalidResponse { operation: text(operation.label()), reason: text(reason) }
}

/// A transport failure: a timeout, or any other failure before a complete response.
pub fn timeout_or_network(operation: Operation, timed_out: bool) -> (e: TmdbError)
    ensures
        timed_out ==> (e matches TmdbError::Timeout { operation: o } && o@ == operation_label(
            operation,
        )),
        !timed_out ==> (e matches TmdbError::Network { operation: o } && o@ == operation_label(
            operation,
        )),
{
    if timed_out {
        TmdbError::Timeout { operation: text(operation.label()) }
    } else {
        TmdbError::Network { operation: text(operation.label()) }
    }
}

/// `reqwest::Error::is_timeout`. The contract claims nothing of the result: the error is
/// opaque to the verifier.
#[verifier::external_body]
fn request_timed_out(error: &reqwest::Error) -> bool {
    error.is_timeout()
}

/// Whether `std::io::Error::kind` is `ErrorKind::TimedOut`. The contract claims nothing of
/// the result: the error is opaque to the verifier.
#[verifier::external_body]
fn read_timed_out(error: &io::Error) -> bool {
    error.kind() == io::ErrorKind::TimedOut
}

/// A request that failed before a response arrived: `Timeout` when the transport reports
/// a timeout, `Network` otherwise, both naming the operation and nothing else.
pub fn map_request_error(operation: Operation, error: reqwest::Error) -> (e: TmdbError)
    ensures
        (e matches TmdbError::Timeout { operation: o } && o@ == operation_label(operation)) || (
        e matches TmdbError::Network { operation: o } && o@ == operation_label(operation)),
{
    timeout_or_network(operation, request_timed_out(&error))
}

/// A response body that could not be read completely: `Timeout` when the read timed out,
/// `Network` otherwise, both naming the operation and nothing else.
pub fn map_body_read_error(operation: Operation, error: io::Error) -> (e: TmdbError)
    ensures
        (e matches TmdbError::Timeout { operation: o } && o@ == operation_label(operation)) || (
        e matches TmdbError::Network { operation: o } && o@ == operation_label(operation)),
{
    timeout_or_network(operation, read_timed_out(&error))
}

/// The `Retry-After` delay in seconds, when the header holds a decimal number.
pub open spec fn spec_retry_after(header: Option<Seq<char>>) -> Option<u64> {
    match header {
        Some(value) => match parse_unsigned(trim(value)) {
            Some(seconds) => Some(seconds as u64),
            None => None,
        },
        None => None,
    }
}

/// The typed error for an unsuccessful HTTP status: a rejected credential, a rate limit
/// with its optional delay, a missing resource, a server failure, or any other status
/// with the operation that received it.
pub open spec fn is_status_error(
    e: TmdbError,
    status: u16,
    retry_after: Option<Seq<char>>,
    operation: Operation,
    missing_resource: MissingResource,
) -> bool {
    if status == 401 || status == 403 {
        e == (TmdbError::Authentication { status })
    } else if status == 429 {
        e == (TmdbError::RateLimited { retry_after_seconds: spec_retry_after(retry_after) })
    } else if status == 404 {
        match missing_resource {
            MissingResource::Description(resource) => e == (TmdbError::NotFound { resource }),
            MissingResource::Episode { series_id, episode } => e == (TmdbError::EpisodeNotFound {
                series_id: series_id.spec_value(),
                season: episode.season,
                episode: episode.episode,
            }),
        }
    } else if 500 <= status <= 599 {
        e == (TmdbError::Server { status })
    } else {
        e matches TmdbError::UnexpectedStatus { operation: o, status: s } && s == status && o@
            == operation_label(operation)
    }
}

/// The typed error for an unsuccessful HTTP status. `retry_after` is the text of the
/// `Retry-After` header, when it is present and readable.
pub fn map_status_error(
    status: u16,
    retry_after: Option<String>,
    operation: Operation,
    missing_resource: MissingResource,
) -> (e: TmdbError)
    ensures
        is_status_error(e, status, opt_view(retry_after), operation, missing_resource),
{
    if status == 401 || status == 403 {
        return TmdbError::Authentication { status };
    }
    if status == 429 {
        let retry_after_seconds = match retry_after {
            Some(value) => {
                let value = trim_str(value.as_str());
                parse_u64(value.as_str())
            },
            None => None,
        };
        return TmdbError::RateLimited { retry_after_seconds };
    }
    if status == 404 {
        return match missing_resource {
            MissingResource::Description(resource) => TmdbError::NotFound { resource },
            MissingResource::Episode { series_id, episode } => TmdbError::EpisodeNotFound {
                series_id: series_id.value(),
                season: episode.season(),
                episode: episode.episode(),
            },
        };
    }
    if 500 <= status && status <= 599 {
        return TmdbError::Server { status };
    }
    TmdbError::UnexpectedStatus { operation: text(operation.label()), status }
}

/// Accepts a successful (2xx) status; any other status becomes its typed error.
pub fn check_status(
    status: u16,
    retry_after: Option<String>,
    operation: Operation,
    missing_resource: MissingResource,
) -> (r: Result<(), TmdbError>)
    ensures
        200 <= status <= 299 ==> r is Ok,
        !(200 <= status <= 299) ==> (r matches Err(e) && is_status_error(
            e,
            status,
            opt_view(retry_after),
            operation,
            missing_resource,
        )),
{
    if 200 <= status && status <= 299 {
        Ok(())
    } else {
        Err(map_status_error(status, retry_after, operation, missing_resource))
    }
}

} // verus!
