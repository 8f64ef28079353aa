//! The configured TMDB client: the credential, the metadata language, the validated API
//! origin and the request timeout, and how each request's URL and query are formed from
//! them. Sending the request is the transport's work; nothing here prompts, touches the
//! filesystem or picks a result for the user.
use vstd::prelude::*;

use crate::config::StartupConfig;
use crate::error::TmdbError;
use crate::language::spec_language_tag;
use crate::text::opt_view;
use crate::tmdb::request::{
    pairs_view, query_params, segments_non_empty, strings_view, TmdbRequest, DEFAULT_BASE_URL,
};

verus! {

/// The finite request timeout used by normal commands, in milliseconds.
pub const DEFAULT_TIMEOUT_MILLIS: u64 = 15000;

/// `url::Url::parse` followed by reading the scheme, host, query and fragment of the parsed
/// URL; `None` when the text is not a URL. The parse follows the WHATWG URL standard and
/// depends on the text alone.
pub uninterp spec fn parsed_url_parts(text: Seq<char>) -> Option<
    (Seq<char>, Option<Seq<char>>, Option<Seq<char>>, Option<Seq<char>>),
>;

/// `url::Url::parse` of the base URL, then `path_segments_mut().extend(segments)` and the
/// serialization of the result; `None` when the base is not a URL or cannot be a base.
/// Each segment is percent-encoded as a single path segment; the result depends on the
/// base text and the segments alone.
pub uninterp spec fn url_with_segments(base: Seq<char>, segments: Seq<Seq<char>>) -> Option<
    Seq<char>,
>;

/// `reqwest::Url::parse` (the `url` crate's WHATWG parser) and the parsed URL's
/// `scheme`, `host_str`, `query` and `fragment`, copied out as owned strings. The contract
/// names the result and claims nothing more of it.
#[verifier::external_body]
fn url_parts(text: &str) -> (r: Option<(String, Option<String>, Option<String>, Option<String>)>)
    ensures
        match r {
            Some((scheme, host, query, fragment)) => parsed_url_parts(text@) == Some(
                (scheme@, opt_view(host), opt_view(query), opt_view(fragment)),
            ),
            None => parsed_url_parts(text@) is None,
        },
{
    match reqwest::Url::parse(text) {
        Ok(url) => Some(
            (
                url.scheme().to_owned(),
                url.host_str().map(str::to_owned),
                url.query().map(str::to_owned),
                url.fragment().map(str::to_owned),
            ),
        ),
        Err(_) => None,
    }
}

/// `reqwest::Url::parse` of `base`, `Url::path_segments_mut` with `PathSegmentsMut::extend`
/// over `segments`, and the URL's string form. The contract names the result and claims
/// nothing more of it.
#[verifier::external_body]
fn join_url_segments(base: &str, segments: &Vec<String>) -> (r: Option<String>)
    ensures
        opt_view(r) == url_with_segments(base@, strings_view(segments@)),
{
    let mut url = reqwest::Url::parse(base).ok()?;
    url.path_segments_mut().ok()?.extend(segments.iter());
    Some(url.to_string())
}

/// The parts of a URL the client accepts as its origin: HTTP or HTTPS, with a host,
/// without a query or fragment.
pub open spec fn supported_parts(
    parts: (Seq<char>, Option<Seq<char>>, Option<Seq<char>>, Option<Seq<char>>),
) -> bool {
    let (scheme, host, query, fragment) = parts;
    (scheme == "http"@ || scheme == "https"@) && host is Some && query is None
        && fragment is None
}

/// A base URL the client accepts: one that parses, with supported parts.
pub open spec fn supported_base_url(text: Seq<char>) -> bool {
    match parsed_url_parts(text) {
        Some(parts) => supported_parts(parts),
        None => false,
    }
}

/// Whether the scheme, host, query and fragment of a parsed URL make a usable origin.
pub fn origin_parts_supported(
    scheme: &str,
    host: &Option<String>,
    query: &Option<String>,
    fragment: &Option<String>,
) -> (r: bool)
    ensures
        r == supported_parts((scheme@, opt_view(*host), opt_view(*query), opt_view(*fragment))),
{
    let scheme = String::from_str(scheme);
    let scheme_ok = scheme == String::from_str("http") || scheme == String::from_str("https");
    scheme_ok && host.is_some() && query.is_none() && fragment.is_none()
}

/// `url::Url::parse` followed by the parsed URL's `Debug` form; `None` when the text is
/// not a URL. The result depends on the text alone.
pub uninterp spec fn url_debug(text: Seq<char>) -> Option<Seq<char>>;

/// `reqwest::Url::parse` and `format!("{:?}")` of the parsed URL. The contract names the
/// result, and states that it is present exactly when the same parse succeeds in
/// `url_parts`.
#[verifier::external_body]
fn url_debug_text(text: &str) -> (r: Option<String>)
    ensures
        opt_view(r) == url_debug(text@),
        r is Some <==> parsed_url_parts(text@) is Some,
{
    match reqwest::Url::parse(text) {
        Ok(url) => Some(format!("{url:?}")),
        Err(_) => None,
    }
}

/// The redacted debug form of a client: the credential never appears in it; the
/// language is shown quoted and the origin in the parsed URL's debug form.
pub open spec fn spec_client_debug(language: Seq<char>, origin: Seq<char>) -> Seq<char> {
    "TmdbClient { api_key: \"[REDACTED]\", language: \""@ + language + "\", base_url: "@
        + origin + " }"@
}

/// The query parameters sent with a request: the credential, the language, then the
/// request's own parameters.
pub open spec fn sent_params(
    api_key: Seq<char>,
    language: Seq<char>,
    params: Seq<(Seq<char>, Seq<char>)>,
) -> Seq<(Seq<char>, Seq<char>)> {
    seq![("api_key"@, api_key), ("language"@, language)] + params
}

/// The credential reaches a request only as the value of its `api_key` parameter: two
/// clients with the same origin and language that differ only in their key form the same
/// URL and the same parameters apart from that value. What comes back is checked and
/// mapped by functions that take no credential (`check_head`, `check_body`, the response
/// mappings), so no outcome depends on the key.
pub proof fn lemma_credential_only_in_api_key(
    first: TmdbClient,
    second: TmdbClient,
    segments: Seq<Seq<char>>,
    params: Seq<(Seq<char>, Seq<char>)>,
)
    requires
        first.spec_language() == second.spec_language(),
        first.spec_base_url() == second.spec_base_url(),
    ensures
        ({
            let a = sent_params(first.spec_api_key(), first.spec_language(), params);
            let b = sent_params(second.spec_api_key(), second.spec_language(), params);
            &&& url_with_segments(first.spec_base_url(), segments) == url_with_segments(
                second.spec_base_url(),
                segments,
            )
            &&& a.len() == b.len()
            &&& a[0].0 == "api_key"@ && b[0].0 == "api_key"@
            &&& forall|i: int| 1 <= i < a.len() ==> #[trigger] a[i] == b[i]
        }),
{
    let a = sent_params(first.spec_api_key(), first.spec_language(), params);
    let b = sent_params(second.spec_api_key(), second.spec_language(), params);
    assert forall|i: int| 1 <= i < a.len() implies #[trigger] a[i] == b[i] by {
        if i >= 2 {
            assert(a[i] == params[i - 2] && b[i] == params[i - 2]);
        }
    }
}

/// A reusable, configured TMDB API client.
///
/// The client owns the API-key authentication, the language query parameter, the API
/// origin and the timeout policy. It never prompts, mutates the filesystem, or chooses a
/// search result for the user.
pub struct TmdbClient {
    api_key: String,
    language: String,
    base_url: String,
    timeout_millis: u64,
}

impl Clone for TmdbClient {
    /// An equal client.
    fn clone(&self) -> (r: Self)
        ensures
            r == *self,
    {
        proof {
            use_type_invariant(self);
        }
        TmdbClient {
            api_key: self.api_key.clone(),
            language: self.language.clone(),
            base_url: self.base_url.clone(),
            timeout_millis: self.timeout_millis,
        }
    }
}

impl TmdbClient {
    /// The origin was accepted, and the language is a canonical tag.
    #[verifier::type_invariant]
    spec fn valid(self) -> bool {
        &&& supported_base_url(self.base_url@)
        &&& spec_language_tag(self.language@) == Some(self.language@)
    }

    /// The credential sent with every request.
    pub closed spec fn spec_api_key(&self) -> Seq<char> {
        self.api_key@
    }

    /// The metadata language sent with every request.
    pub closed spec fn spec_language(&self) -> Seq<char> {
        self.language@
    }

    /// The API origin, as it was given.
    pub closed spec fn spec_base_url(&self) -> Seq<char> {
        self.base_url@
    }

    /// The request timeout in milliseconds.
    pub closed spec fn spec_timeout_millis(&self) -> u64 {
        self.timeout_millis
    }

    /// Creates a client for the official TMDB API origin with the default timeout.
    pub fn new(config: &StartupConfig) -> (r: Result<Self, TmdbError>)
        ensures
            supported_base_url(DEFAULT_BASE_URL@) ==> (r matches Ok(client)
                && client.spec_api_key() == config.spec_api_key()
                && client.spec_language() == config.spec_language()
                && client.spec_base_url() == DEFAULT_BASE_URL@
                && client.spec_timeout_millis() == DEFAULT_TIMEOUT_MILLIS),
            !supported_base_url(DEFAULT_BASE_URL@) ==> r matches Err(TmdbError::InvalidBaseUrl),
    {
        Self::with_base_url_and_timeout(config, DEFAULT_BASE_URL, DEFAULT_TIMEOUT_MILLIS)
    }

    /// Creates a client with a custom origin and the default timeout.
    pub fn with_base_url(config: &StartupConfig, base_url: &str) -> (r: Result<Self, TmdbError>)
        ensures
            supported_base_url(base_url@) ==> (r matches Ok(client) && client.spec_api_key()
                == config.spec_api_key() && client.spec_language() == config.spec_language()
                && client.spec_base_url() == base_url@ && client.spec_timeout_millis()
                == DEFAULT_TIMEOUT_MILLIS),
            !supported_base_url(base_url@) ==> r matches Err(TmdbError::InvalidBaseUrl),
    {
        Self::with_base_url_and_timeout(config, base_url, DEFAULT_TIMEOUT_MILLIS)
    }

    /// Creates a client with a custom origin and timeout. The origin must be an HTTP or
    /// HTTPS URL with a host and without a query or fragment.
    pub fn with_base_url_and_timeout(
        config: &StartupConfig,
        base_url: &str,
        timeout_millis: u64,
    ) -> (r: Result<Self, TmdbError>)
        ensures
            supported_base_url(base_url@) ==> (r matches Ok(client) && client.spec_api_key()
                == config.spec_api_key() && client.spec_language() == config.spec_language()
                && client.spec_base_url() == base_url@ && client.spec_timeout_millis()
                == timeout_millis),
            !supported_base_url(base_url@) ==> r matches Err(TmdbError::InvalidBaseUrl),
    {
        let supported = match url_parts(base_url) {
            Some((scheme, host, query, fragment)) => origin_parts_supported(
                scheme.as_str(),
                &host,
                &query,
                &fragment,
            ),
            None => false,
        };
        if !supported {
            return Err(TmdbError::InvalidBaseUrl);
        }
        Ok(
            TmdbClient {
                api_key: String::from_str(config.tmdb_api_key()),
                language: String::from_str(config.tmdb_language()),
                base_url: String::from_str(base_url),
                timeout_millis,
            },
        )
    }

    /// The request timeout in milliseconds, for the transport.
    pub fn timeout_millis(&self) -> (r: u64)
        ensures
            r == self.spec_timeout_millis(),
    {
        self.timeout_millis
    }

    /// The debug representation, with the API key redacted.
    pub fn redacted_debug(&self) -> (r: String)
        ensures
            r@ == spec_client_debug(self.spec_language(), url_debug(self.spec_base_url()).unwrap()),
    {
        proof {
            use_type_invariant(self);
        }
        let mut r = String::from_str("TmdbClient { api_key: \"[REDACTED]\", language: \"");
        r.append(self.language.as_str());
        r.append("\", base_url: ");
        match url_debug_text(self.base_url.as_str()) {
            Some(origin) => r.append(origin.as_str()),
            None => {
                assert(false);
            },
        }
        r.append(" }");
        r
    }

    /// The URL of a path below the API origin. Every segment must be non-empty.
    pub fn url_for_segments(&self, segments: &Vec<String>) -> (r: Result<String, TmdbError>)
        ensures
            match r {
                Ok(url) => segments_non_empty(strings_view(segments@)) && url_with_segments(
                    self.spec_base_url(),
                    strings_view(segments@),
                ) == Some(url@),
                Err(e) => e is InvalidBaseUrl && (!segments_non_empty(strings_view(segments@))
                    || url_with_segments(self.spec_base_url(), strings_view(segments@)) is None),
            },
    {
        let mut i: usize = 0;
        while i < segments.len()
            invariant
                i <= segments@.len(),
                forall|k: int| 0 <= k < i ==> #[trigger] segments@[k]@.len() > 0,
            decreases segments@.len() - i,
        {
            if segments[i].as_str().is_empty() {
                assert(strings_view(segments@)[i as int].len() == 0);
                return Err(TmdbError::InvalidBaseUrl);
            }
            i = i + 1;
        }
        assert(segments_non_empty(strings_view(segments@)));
        match join_url_segments(self.base_url.as_str(), segments) {
            Some(url) => Ok(url),
            None => Err(TmdbError::InvalidBaseUrl),
        }
    }

    /// The URL and the query parameters of a request: the credential, the language, then
    /// the request's own parameters.
    pub fn request_target(&self, request: &TmdbRequest) -> (r: Result<
        (String, Vec<(String, String)>),
        TmdbError,
    >)
        ensures
            match r {
                Ok((url, params)) => segments_non_empty(strings_view(request.segments@))
                    && url_with_segments(self.spec_base_url(), strings_view(request.segments@))
                    == Some(url@) && pairs_view(params@) == sent_params(
                    self.spec_api_key(),
                    self.spec_language(),
                    pairs_view(request.params@),
                ),
                Err(e) => e is InvalidBaseUrl && (!segments_non_empty(
                    strings_view(request.segments@),
                ) || url_with_segments(self.spec_base_url(), strings_view(request.segments@))
                    is None),
            },
    {
        let url = match self.url_for_segments(&request.segments) {
            Ok(url) => url,
            Err(error) => return Err(error),
        };
        let params = query_params(self.api_key.as_str(), self.language.as_str(), request);
        Ok((url, params))
    }
}

} // verus!
