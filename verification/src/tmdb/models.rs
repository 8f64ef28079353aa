//! TMDB response fields used by the application, and their mapping into verified domain
//! values: title fallback, year extraction, adult-result filtering, pagination checks,
//! identifier checks and media-type checks.
use vstd::prelude::*;

use crate::domain::{
    EpisodeRef, MediaType, TmdbEpisode, TmdbId, TmdbItem, TmdbSearchCandidate, TmdbSearchPage,
};
use crate::error::TmdbError;
use crate::text::{
    all_ascii_digits, digits_value, is_ascii_digit, is_ascii_digit_char, non_blank, opt_view,
    spec_non_blank, trim, trim_str,
};

verus! {

/// Raw movie-search response fields used by the application.
#[derive(Debug, Clone)]
pub struct MovieSearchResponse {
    pub page: Option<u32>,
    pub total_pages: Option<u32>,
    pub results: Vec<MovieSearchResult>,
}

/// Raw movie-search result fields used by the application.
#[derive(Debug, Clone)]
pub struct MovieSearchResult {
    pub id: u64,
    pub title: Option<String>,
    pub original_title: Option<String>,
    pub release_date: Option<String>,
    pub adult: Option<bool>,
}

/// Raw TV-search response fields used by the application.
#[derive(Debug, Clone)]
pub struct TvSearchResponse {
    pub page: Option<u32>,
    pub total_pages: Option<u32>,
    pub results: Vec<TvSearchResult>,
}

/// Raw TV-search result fields used by the application.
#[derive(Debug, Clone)]
pub struct TvSearchResult {
    pub id: u64,
    pub name: Option<String>,
    pub original_name: Option<String>,
    pub first_air_date: Option<String>,
    pub adult: Option<bool>,
}

/// Raw movie-details response fields used by the application.
#[derive(Debug, Clone)]
pub struct MovieDetailsResponse {
    pub id: u64,
    pub title: Option<String>,
    pub original_title: Option<String>,
    pub release_date: Option<String>,
    pub media_type: Option<String>,
}

/// Raw TV-details response fields used by the application.
#[derive(Debug, Clone)]
pub struct TvDetailsResponse {
    pub id: u64,
    pub name: Option<String>,
    pub original_name: Option<String>,
    pub first_air_date: Option<String>,
    pub media_type: Option<String>,
}

/// Raw episode-details response fields used by the application.
#[derive(Debug, Clone)]
pub struct EpisodeDetailsResponse {
    pub name: Option<String>,
    pub season_number: u32,
    pub episode_number: u32,
}

/// The fields a movie or TV search result shares, under common names.
pub struct RawCandidate {
    pub id: u64,
    pub title: Option<String>,
    pub original_title: Option<String>,
    pub date: Option<String>,
    pub adult: Option<bool>,
}

pub open spec fn movie_result_view(r: MovieSearchResult) -> RawCandidate {
    RawCandidate {
        id: r.id,
        title: r.title,
        original_title: r.original_title,
        date: r.release_date,
        adult: r.adult,
    }
}

pub open spec fn tv_result_view(r: TvSearchResult) -> RawCandidate {
    RawCandidate {
        id: r.id,
        title: r.name,
        original_title: r.original_name,
        date: r.first_air_date,
        adult: r.adult,
    }
}

/// The year at the start of a TMDB date: its first four characters, when they are all
/// ASCII digits.
pub open spec fn spec_year(date: Option<Seq<char>>) -> Option<u16> {
    match date {
        Some(d) => if d.len() >= 4 && all_ascii_digits(d.take(4)) {
            Some(digits_value(d.take(4)) as u16)
        } else {
            None
        },
        None => None,
    }
}

/// The displayed title (localized, falling back to the original) and the cleaned
/// original title; `None` when neither is usable.
pub open spec fn spec_choose_title(localized: Option<Seq<char>>, original: Option<Seq<char>>) -> Option<
    (Seq<char>, Option<Seq<char>>),
> {
    match spec_non_blank(localized) {
        Some(title) => Some((title, spec_non_blank(original))),
        None => match spec_non_blank(original) {
            Some(title) => Some((title, Some(title))),
            None => None,
        },
    }
}

/// The results that are not explicitly marked adult, in order.
pub open spec fn non_adult(s: Seq<RawCandidate>) -> Seq<RawCandidate>
    decreases s.len(),
{
    if s.len() == 0 {
        Seq::empty()
    } else if s.last().adult == Some(true) {
        non_adult(s.drop_last())
    } else {
        non_adult(s.drop_last()).push(s.last())
    }
}

/// The results offered to the user: the first `max` non-adult results.
pub open spec fn offered(s: Seq<RawCandidate>, max: nat) -> Seq<RawCandidate> {
    if non_adult(s).len() <= max {
        non_adult(s)
    } else {
        non_adult(s).take(max as int)
    }
}

/// A result becomes a candidate when its identifier is positive and it has a usable title.
pub open spec fn candidate_ok(r: RawCandidate) -> bool {
    r.id > 0 && spec_choose_title(opt_view(r.title), opt_view(r.original_title)) is Some
}

/// The candidate mapped from a result.
pub open spec fn candidate_matches(
    c: TmdbSearchCandidate,
    r: RawCandidate,
    media_type: MediaType,
) -> bool {
    &&& c.id.spec_value() == r.id
    &&& c.media_type == media_type
    &&& spec_choose_title(opt_view(r.title), opt_view(r.original_title)) == Some(
        (c.title@, opt_view(c.original_title)),
    )
    &&& c.year == spec_year(opt_view(r.date))
}

/// The page number and page count, with absent values read as `1`, when they are
/// consistent.
pub open spec fn spec_page_values(page: Option<u32>, total_pages: Option<u32>) -> Option<(u32, u32)> {
    let page = match page {
        Some(p) => p,
        None => 1u32,
    };
    let total = match total_pages {
        Some(t) => t,
        None => 1u32,
    };
    if page == 0 || total == 0 || page > total {
        None
    } else {
        Some((page, total))
    }
}

/// An `InvalidResponse` error for `operation` with `reason`.
pub open spec fn is_invalid_response(e: TmdbError, operation: Seq<char>, reason: Seq<char>) -> bool {
    e matches TmdbError::InvalidResponse { operation: o, reason: r } && o@ == operation && r@
        == reason
}

/// The error a search mapping reports for the first result it cannot map.
pub open spec fn candidate_error(e: TmdbError, r: RawCandidate, operation: Seq<char>) -> bool {
    if r.id == 0 {
        is_invalid_response(e, operation, "a result had an invalid ID"@)
    } else {
        is_invalid_response(e, operation, "the response had no usable title"@)
    }
}

/// The outcome of mapping one page of search results.
pub open spec fn search_mapped(
    r: Result<TmdbSearchPage, TmdbError>,
    page: Option<u32>,
    total_pages: Option<u32>,
    results: Seq<RawCandidate>,
    max: nat,
    media_type: MediaType,
    operation: Seq<char>,
) -> bool {
    let shown = offered(results, max);
    match spec_page_values(page, total_pages) {
        None => r is Err && is_invalid_response(
            r->Err_0,
            operation,
            "the response contained invalid pagination values"@,
        ),
        Some((p, t)) => match r {
            Ok(mapped) => {
                &&& mapped.page == p
                &&& mapped.total_pages == t
                &&& mapped.results@.len() == shown.len()
                &&& forall|j: int| 0 <= j < shown.len() ==> #[trigger] candidate_ok(shown[j])
                &&& forall|j: int|
                    0 <= j < shown.len() ==> candidate_matches(
                        #[trigger] mapped.results@[j],
                        shown[j],
                        media_type,
                    )
            },
            Err(e) => exists|j: int|
                0 <= j < shown.len() && !candidate_ok(#[trigger] shown[j]) && (forall|k: int|
                    0 <= k < j ==> candidate_ok(#[trigger] shown[k])) && candidate_error(
                    e,
                    shown[j],
                    operation,
                ),
        },
    }
}

pub fn invalid_response(operation: &str, reason: &str) -> (e: TmdbError)
    ensures
        is_invalid_response(e, operation@, reason@),
{
    TmdbError::InvalidResponse {
        operation: String::from_str(operation),
        reason: String::from_str(reason),
    }
}

/// Trims the text and drops it when nothing remains.
pub fn clean_text(value: Option<String>) -> (r: Option<String>)
    ensures
        opt_view(r) == spec_non_blank(opt_view(value)),
{
    non_blank(&value)
}

/// The year at the start of a TMDB date, when its first four characters are digits.
pub fn year_from_date(value: Option<&str>) -> (r: Option<u16>)
    ensures
        r == spec_year(
            match value {
                Some(s) => Some(s@),
                None => None,
            },
        ),
{
    let date = match value {
        Some(date) => date,
        None => return None,
    };
    if date.unicode_len() < 4 {
        return None;
    }
    let mut year: u16 = 0;
    let mut i: usize = 0;
    while i < 4
        invariant
            value == Some(date),
            date@.len() >= 4,
            i <= 4,
            all_ascii_digits(date@.take(i as int)),
            year as nat == digits_value(date@.take(i as int)),
            year < 10000,
            i == 0 ==> year == 0,
            i == 1 ==> year < 10,
            i == 2 ==> year < 100,
            i == 3 ==> year < 1000,
        decreases 4 - i,
    {
        let c = date.get_char(i);
        assert(date@.take(i + 1).drop_last() =~= date@.take(i as int));
        if !is_ascii_digit_char(c) {
            assert(!is_ascii_digit(date@.take(4)[i as int]));
            return None;
        }
        let digit = ((c as u32) - 48) as u16;
        year = year * 10 + digit;
        i = i + 1;
        assert(all_ascii_digits(date@.take(i as int))) by {
            assert forall|j: int| 0 <= j < i implies #[trigger] is_ascii_digit(
                date@.take(i as int)[j],
            ) by {
                if j < i - 1 {
                    assert(date@.take(i as int)[j] == date@.take(i - 1)[j]);
                }
            }
        }
    }
    Some(year)
}

/// The displayed title and the cleaned original title, or `None` when neither is usable.
pub fn choose_title(localized: Option<String>, original: Option<String>) -> (r: Option<
    (String, Option<String>),
>)
    ensures
        match r {
            Some((title, original_title)) => spec_choose_title(
                opt_view(localized),
                opt_view(original),
            ) == Some((title@, opt_view(original_title))),
            None => spec_choose_title(opt_view(localized), opt_view(original)) is None,
        },
{
    let original = clean_text(original);
    match clean_text(localized) {
        Some(title) => Some((title, original)),
        None => match original {
            Some(title) => {
                let copy = title.clone();
                Some((title, Some(copy)))
            },
            None => None,
        },
    }
}

/// The page number and page count, with absent values read as `1`.
pub fn page_values(page: Option<u32>, total_pages: Option<u32>, operation: &str) -> (r: Result<
    (u32, u32),
    TmdbError,
>)
    ensures
        match r {
            Ok(values) => spec_page_values(page, total_pages) == Some(values),
            Err(e) => spec_page_values(page, total_pages) is None && is_invalid_response(
                e,
                operation@,
                "the response contained invalid pagination values"@,
            ),
        },
{
    let page = match page {
        Some(p) => p,
        None => 1,
    };
    let total_pages = match total_pages {
        Some(t) => t,
        None => 1,
    };
    if page == 0 || total_pages == 0 || page > total_pages {
        return Err(
            invalid_response(operation, "the response contained invalid pagination values"),
        );
    }
    Ok((page, total_pages))
}

fn clone_text(value: &Option<String>) -> (r: Option<String>)
    ensures
        r == *value,
{
    match value {
        Some(text) => Some(text.clone()),
        None => None,
    }
}

proof fn lemma_non_adult_prefix(s: Seq<RawCandidate>, i: int)
    requires
        0 <= i <= s.len(),
    ensures
        non_adult(s.take(i)).len() <= non_adult(s).len(),
        non_adult(s.take(i)) == non_adult(s).take(non_adult(s.take(i)).len() as int),
    decreases s.len(),
{
    if i < s.len() {
        lemma_non_adult_prefix(s.drop_last(), i);
        assert(s.drop_last().take(i) =~= s.take(i));
    } else {
        assert(s.take(i) =~= s);
    }
    assert(non_adult(s.take(i)) =~= non_adult(s).take(non_adult(s.take(i)).len() as int));
}

/// Maps the first `max_results` non-adult results, in order, into typed candidates.
fn map_search_results(
    results: &Vec<RawCandidate>,
    page: Option<u32>,
    total_pages: Option<u32>,
    max_results: usize,
    media_type: MediaType,
    operation: &str,
) -> (r: Result<TmdbSearchPage, TmdbError>)
    ensures
        search_mapped(
            r,
            page,
            total_pages,
            results@,
            max_results as nat,
            media_type,
            operation@,
        ),
{
    let (page_number, page_count) = match page_values(page, total_pages, operation) {
        Ok(values) => values,
        Err(error) => return Err(error),
    };
    let ghost s = results@;
    let n = results.len();
    let mut out: Vec<TmdbSearchCandidate> = Vec::new();
    let mut i: usize = 0;
    assert(s.take(0) =~= Seq::<RawCandidate>::empty());
    while i < n && out.len() < max_results
        invariant
            n == s.len(),
            s == results@,
            i <= n,
            spec_page_values(page, total_pages) == Some((page_number, page_count)),
            out@.len() == non_adult(s.take(i as int)).len(),
            out@.len() <= max_results,
            forall|j: int|
                0 <= j < out@.len() ==> #[trigger] candidate_ok(non_adult(s.take(i as int))[j]),
            forall|j: int|
                0 <= j < out@.len() ==> candidate_matches(
                    #[trigger] out@[j],
                    non_adult(s.take(i as int))[j],
                    media_type,
                ),
        decreases n - i,
    {
        let item = &results[i];
        let ghost before = non_adult(s.take(i as int));
        assert(s.take(i + 1).drop_last() =~= s.take(i as int));
        if matches!(item.adult, Some(true)) {
            i = i + 1;
        } else {
            let ghost after = before.push(s[i as int]);
            assert(non_adult(s.take(i + 1)) == after);
            proof {
                lemma_non_adult_prefix(s, i + 1);
            }
            let id = match TmdbId::new(item.id) {
                Ok(id) => id,
                Err(_) => {
                    let e = invalid_response(operation, "a result had an invalid ID");
                    proof {
                        let shown = offered(s, max_results as nat);
                        let na = non_adult(s);
                        let j = before.len() as int;
                        assert(after == na.take(after.len() as int));
                        assert(after[j] == na[j]);
                        assert(shown[j] == na[j]);
                        assert(shown[j] == s[i as int]);
                        assert forall|k: int| 0 <= k < j implies candidate_ok(#[trigger] shown[k]) by {
                            assert(after[k] == na[k]);
                            assert(shown[k] == na[k]);
                            assert(after[k] == before[k]);
                        }
                    }
                    return Err(e);
                },
            };
            let (title, original_title) = match choose_title(
                clone_text(&item.title),
                clone_text(&item.original_title),
            ) {
                Some(chosen) => chosen,
                None => {
                    let e = invalid_response(operation, "the response had no usable title");
                    proof {
                        let shown = offered(s, max_results as nat);
                        let na = non_adult(s);
                        let j = before.len() as int;
                        assert(after == na.take(after.len() as int));
                        assert(after[j] == na[j]);
                        assert(shown[j] == na[j]);
                        assert(shown[j] == s[i as int]);
                        assert forall|k: int| 0 <= k < j implies candidate_ok(#[trigger] shown[k]) by {
                            assert(after[k] == na[k]);
                            assert(shown[k] == na[k]);
                            assert(after[k] == before[k]);
                        }
                    }
                    return Err(e);
                },
            };
            let year = match &item.date {
                Some(date) => year_from_date(Some(date.as_str())),
                None => year_from_date(None),
            };
            out.push(TmdbSearchCandidate { id, media_type, title, original_title, year });
            i = i + 1;
            assert forall|j: int| 0 <= j < out@.len() implies #[trigger] candidate_ok(
                non_adult(s.take(i as int))[j],
            ) && candidate_matches(out@[j], non_adult(s.take(i as int))[j], media_type) by {
                if j < out@.len() - 1 {
                    assert(non_adult(s.take(i as int))[j] == before[j]);
                }
            }
        }
    }
    proof {
        lemma_non_adult_prefix(s, i as int);
        if i == n {
            assert(s.take(n as int) =~= s);
        }
        assert(offered(s, max_results as nat) =~= non_adult(s.take(i as int)));
    }
    Ok(TmdbSearchPage { results: out, page: page_number, total_pages: page_count })
}

fn movie_candidates(results: &Vec<MovieSearchResult>) -> (out: Vec<RawCandidate>)
    ensures
        out@ == results@.map_values(|r: MovieSearchResult| movie_result_view(r)),
{
    let mut out: Vec<RawCandidate> = Vec::new();
    let mut i: usize = 0;
    while i < results.len()
        invariant
            i <= results@.len(),
            out@ == results@.take(i as int).map_values(|r: MovieSearchResult| movie_result_view(r)),
        decreases results@.len() - i,
    {
        let item = &results[i];
        out.push(
            RawCandidate {
                id: item.id,
                title: clone_text(&item.title),
                original_title: clone_text(&item.original_title),
                date: clone_text(&item.release_date),
                adult: item.adult,
            },
        );
        i = i + 1;
        assert(out@ =~= results@.take(i as int).map_values(
            |r: MovieSearchResult| movie_result_view(r),
        ));
    }
    assert(results@.take(i as int) =~= results@);
    out
}

fn tv_candidates(results: &Vec<TvSearchResult>) -> (out: Vec<RawCandidate>)
    ensures
        out@ == results@.map_values(|r: TvSearchResult| tv_result_view(r)),
{
    let mut out: Vec<RawCandidate> = Vec::new();
    let mut i: usize = 0;
    while i < results.len()
        invariant
            i <= results@.len(),
            out@ == results@.take(i as int).map_values(|r: TvSearchResult| tv_result_view(r)),
        decreases results@.len() - i,
    {
        let item = &results[i];
        out.push(
            RawCandidate {
                id: item.id,
                title: clone_text(&item.name),
                original_title: clone_text(&item.original_name),
                date: clone_text(&item.first_air_date),
                adult: item.adult,
            },
        );
        i = i + 1;
        assert(out@ =~= results@.take(i as int).map_values(
            |r: TvSearchResult| tv_result_view(r),
        ));
    }
    assert(results@.take(i as int) =~= results@);
    out
}

/// Maps a movie-search page: the first `max_results` non-adult results become movie
/// candidates, and the first result without a positive ID or a usable title rejects the
/// page.
pub fn map_movie_search(response: MovieSearchResponse, max_results: usize) -> (r: Result<
    TmdbSearchPage,
    TmdbError,
>)
    ensures
        search_mapped(
            r,
            response.page,
            response.total_pages,
            response.results@.map_values(|x: MovieSearchResult| movie_result_view(x)),
            max_results as nat,
            MediaType::Movie,
            "movie search"@,
        ),
{
    let results = movie_candidates(&response.results);
    map_search_results(
        &results,
        response.page,
        response.total_pages,
        max_results,
        MediaType::Movie,
        "movie search",
    )
}

/// Maps a TV-search page: the first `max_results` non-adult results become series
/// candidates, and the first result without a positive ID or a usable name rejects the
/// page.
pub fn map_tv_search(response: TvSearchResponse, max_results: usize) -> (r: Result<
    TmdbSearchPage,
    TmdbError,
>)
    ensures
        search_mapped(
            r,
            response.page,
            response.total_pages,
            response.results@.map_values(|x: TvSearchResult| tv_result_view(x)),
            max_results as nat,
            MediaType::Series,
            "TV search"@,
        ),
{
    let results = tv_candidates(&response.results);
    map_search_results(
        &results,
        response.page,
        response.total_pages,
        max_results,
        MediaType::Series,
        "TV search",
    )
}

/// The `media_type` value TMDB uses for a namespace.
pub open spec fn media_type_label(media_type: MediaType) -> Seq<char> {
    match media_type {
        MediaType::Movie => "movie"@,
        MediaType::Series => "tv"@,
    }
}

/// An explicit, non-blank `media_type` in a details response that names another namespace.
pub open spec fn media_type_conflict(response_type: Option<Seq<char>>, expected: MediaType) -> Option<
    Seq<char>,
> {
    match spec_non_blank(response_type) {
        Some(actual) => if actual == media_type_label(expected) {
            None
        } else {
            Some(actual)
        },
        None => None,
    }
}

/// Accepts an absent or blank `media_type`, or the one of the requested namespace.
pub fn validate_media_type(response_type: &Option<String>, expected: MediaType) -> (r: Result<
    (),
    TmdbError,
>)
    ensures
        match media_type_conflict(opt_view(*response_type), expected) {
            None => r is Ok,
            Some(actual) => r matches Err(TmdbError::MediaTypeMismatch { expected: e, actual: a })
                && e == expected && a@ == actual,
        },
{
    let actual = match non_blank(response_type) {
        Some(actual) => actual,
        None => return Ok(()),
    };
    let expected_type = match expected {
        MediaType::Movie => String::from_str("movie"),
        MediaType::Series => String::from_str("tv"),
    };
    if actual == expected_type {
        Ok(())
    } else {
        Err(TmdbError::MediaTypeMismatch { expected, actual })
    }
}

/// The identifier TMDB returned, which must be positive and the one requested.
pub fn map_response_id(response_id: u64, requested_id: TmdbId, operation: &str) -> (r: Result<
    TmdbId,
    TmdbError,
>)
    ensures
        match r {
            Ok(id) => response_id > 0 && response_id == requested_id.spec_value() && id.spec_value()
                == response_id,
            Err(e) => if response_id == 0 {
                is_invalid_response(e, operation@, "the response had an invalid ID"@)
            } else {
                response_id != requested_id.spec_value() && is_invalid_response(
                    e,
                    operation@,
                    "the response ID did not match the requested ID"@,
                )
            },
        },
{
    let response_id = match TmdbId::new(response_id) {
        Ok(id) => id,
        Err(_) => return Err(invalid_response(operation, "the response had an invalid ID")),
    };
    if response_id.value() != requested_id.value() {
        return Err(
            invalid_response(operation, "the response ID did not match the requested ID"),
        );
    }
    Ok(response_id)
}

/// The outcome of mapping a details response: the media type is checked first, then the
/// identifier, then the title.
pub open spec fn details_mapped(
    r: Result<TmdbItem, TmdbError>,
    response_type: Option<Seq<char>>,
    id: u64,
    title: Option<Seq<char>>,
    original_title: Option<Seq<char>>,
    date: Option<Seq<char>>,
    requested_id: TmdbId,
    expected: MediaType,
    operation: Seq<char>,
) -> bool {
    if let Some(actual) = media_type_conflict(response_type, expected) {
        r matches Err(TmdbError::MediaTypeMismatch { expected: e, actual: a }) && e == expected
            && a@ == actual
    } else if id == 0 {
        r is Err && is_invalid_response(r->Err_0, operation, "the response had an invalid ID"@)
    } else if id != requested_id.spec_value() {
        r is Err && is_invalid_response(
            r->Err_0,
            operation,
            "the response ID did not match the requested ID"@,
        )
    } else {
        match spec_choose_title(title, original_title) {
            None => r is Err && is_invalid_response(
                r->Err_0,
                operation,
                "the response had no usable title"@,
            ),
            Some((t, o)) => r matches Ok(item) && item.id.spec_value() == id && item.media_type
                == expected && item.title@ == t && opt_view(item.original_title) == o
                && item.year == spec_year(date),
        }
    }
}

/// Maps verified movie details for the requested identifier.
pub fn map_movie_details(response: MovieDetailsResponse, requested_id: TmdbId) -> (r: Result<
    TmdbItem,
    TmdbError,
>)
    ensures
        details_mapped(
            r,
            opt_view(response.media_type),
            response.id,
            opt_view(response.title),
            opt_view(response.original_title),
            opt_view(response.release_date),
            requested_id,
            MediaType::Movie,
            "movie details"@,
        ),
{
    if let Err(error) = validate_media_type(&response.media_type, MediaType::Movie) {
        return Err(error);
    }
    let id = match map_response_id(response.id, requested_id, "movie details") {
        Ok(id) => id,
        Err(error) => return Err(error),
    };
    let year = match &response.release_date {
        Some(date) => year_from_date(Some(date.as_str())),
        None => year_from_date(None),
    };
    let (title, original_title) = match choose_title(response.title, response.original_title) {
        Some(chosen) => chosen,
        None => return Err(invalid_response("movie details", "the response had no usable title")),
    };
    Ok(TmdbItem { id, media_type: MediaType::Movie, title, original_title, year })
}

/// Maps verified TV-series details for the requested identifier.
pub fn map_tv_details(response: TvDetailsResponse, requested_id: TmdbId) -> (r: Result<
    TmdbItem,
    TmdbError,
>)
    ensures
        details_mapped(
            r,
            opt_view(response.media_type),
            response.id,
            opt_view(response.name),
            opt_view(response.original_name),
            opt_view(response.first_air_date),
            requested_id,
            MediaType::Series,
            "TV details"@,
        ),
{
    if let Err(error) = validate_media_type(&response.media_type, MediaType::Series) {
        return Err(error);
    }
    let id = match map_response_id(response.id, requested_id, "TV details") {
        Ok(id) => id,
        Err(error) => return Err(error),
    };
    let year = match &response.first_air_date {
        Some(date) => year_from_date(Some(date.as_str())),
        None => year_from_date(None),
    };
    let (title, original_title) = match choose_title(response.name, response.original_name) {
        Some(chosen) => chosen,
        None => return Err(invalid_response("TV details", "the response had no usable title")),
    };
    Ok(TmdbItem { id, media_type: MediaType::Series, title, original_title, year })
}

/// Maps an episode response, which must echo the requested season and episode.
pub fn map_episode_details(
    response: EpisodeDetailsResponse,
    series_id: TmdbId,
    requested_episode: EpisodeRef,
) -> (r: Result<TmdbEpisode, TmdbError>)
    ensures
        if response.season_number != requested_episode.season || response.episode_number
            != requested_episode.episode {
            r is Err && is_invalid_response(
                r->Err_0,
                "episode details"@,
                "the returned season and episode do not match the request"@,
            )
        } else {
            r matches Ok(e) && e.series_id == series_id && e.episode == requested_episode
                && opt_view(e.title) == spec_non_blank(opt_view(response.name))
        },
{
    if response.season_number != requested_episode.season()
        || response.episode_number != requested_episode.episode() {
        return Err(
            invalid_response(
                "episode details",
                "the returned season and episode do not match the request",
            ),
        );
    }
    Ok(TmdbEpisode { series_id, episode: requested_episode, title: clean_text(response.name) })
}

} // verus!
