//! The decisions of TMDB identification: search, manual-ID confirmation and episode
//! validation. Each flow is a state machine; the terminal layer performs the action it
//! returns (a prompt, a TMDB request) and hands back what happened as the next event.
//! No flow ever picks a result, an identifier or an episode for the user.
use vstd::prelude::*;

use crate::domain::{
    parse_tmdb_id, spec_parse_episode_number, spec_parse_tmdb_id, DomainError, EpisodeRef,
    MediaType, TmdbId, TmdbItem, TmdbSearchCandidate,
};
use crate::error::{TmdbError, UiError};
use crate::text::{trim, trim_str};
use crate::workflow::combine_candidates;

verus! {

/// A message shown before the search query is asked for again.
#[derive(Debug, Clone, Copy, PartialEq, Eq, Structural)]
pub enum SearchNotice {
    /// "The TMDB search query cannot be empty."
    EmptyQuery,
    /// "TMDB returned no movies or TV series for that search."
    NoResults,
}

/// What happened after the last search action.
pub enum SearchEvent {
    /// The query the user entered, or `None` when the prompt was canceled.
    Query(Option<String>),
    /// The movie results and then the series results, or the first request's failure.
    Searched(Result<(Vec<TmdbSearchCandidate>, Vec<TmdbSearchCandidate>), TmdbError>),
    /// The position of the chosen result, or `None` when the selection was canceled.
    Selected(Option<usize>),
    /// The details of the chosen result.
    Fetched(Result<TmdbItem, TmdbError>),
    /// The answer to the identification confirmation.
    Confirmed(Option<bool>),
    /// The answer to "Retry the TMDB request?".
    Retry(Option<bool>),
}

/// What the terminal does next in a search identification.
pub enum SearchAction {
    /// Ask for a search query, after showing the notice, if any.
    AskQuery(Option<SearchNotice>),
    /// Search movies, then TV series, for the trimmed query.
    Search(String),
    /// Let the user choose among `candidates`; nothing is chosen silently.
    Select,
    /// Fetch the details of the chosen result.
    Fetch { media_type: MediaType, id: TmdbId },
    /// Show the error and ask whether to retry.
    AskRetry(TmdbError),
    /// Show the fetched details in `pending` and ask for the identification confirmation.
    Confirm,
    /// The identified item, or `None` when the user canceled.
    Finish(Option<TmdbItem>),
    /// The terminal returned a selection outside the offered results.
    Fail(UiError),
}

/// The results on offer and the item awaiting confirmation.
pub struct SearchIdentification {
    pub candidates: Vec<TmdbSearchCandidate>,
    pub pending: Option<TmdbItem>,
}

impl SearchIdentification {
    /// Starts a search identification by asking for a query.
    pub fn start() -> (r: (Self, SearchAction))
        ensures
            r.0.candidates@.len() == 0,
            r.0.pending is None,
            r.1 matches SearchAction::AskQuery(None),
    {
        (SearchIdentification { candidates: Vec::new(), pending: None }, SearchAction::AskQuery(None))
    }

    /// Decides what follows an event.
    pub fn step(&mut self, event: SearchEvent) -> (a: SearchAction)
        ensures
            match event {
                SearchEvent::Query(None) => a matches SearchAction::Finish(None),
                SearchEvent::Query(Some(q)) => if trim(q@).len() == 0 {
                    a matches SearchAction::AskQuery(Some(SearchNotice::EmptyQuery))
                } else {
                    a matches SearchAction::Search(t) && t@ == trim(q@)
                },
                SearchEvent::Searched(Err(e)) => a matches SearchAction::AskRetry(err) && err == e,
                SearchEvent::Searched(Ok((movies, series))) => if movies@.len() + series@.len()
                    == 0 {
                    a matches SearchAction::AskQuery(Some(SearchNotice::NoResults))
                } else {
                    &&& a matches SearchAction::Select
                    &&& final(self).candidates@ == movies@ + series@
                },
                SearchEvent::Selected(None) => a matches SearchAction::Finish(None),
                SearchEvent::Selected(Some(i)) => if i < old(self).candidates@.len() {
                    a matches SearchAction::Fetch { media_type, id } && media_type == old(
                        self,
                    ).candidates@[i as int].media_type && id == old(self).candidates@[i as int].id
                } else {
                    a matches SearchAction::Fail(UiError::InvalidSelection { context })
                        && context@ == "TMDB result"@
                },
                SearchEvent::Fetched(Err(e)) => a matches SearchAction::AskRetry(err) && err == e,
                SearchEvent::Fetched(Ok(item)) => a matches SearchAction::Confirm
                    && final(self).pending == Some(item),
                SearchEvent::Confirmed(Some(true)) => a matches SearchAction::Finish(found)
                    && found == old(self).pending,
                SearchEvent::Confirmed(Some(false)) => a matches SearchAction::AskQuery(None),
                SearchEvent::Confirmed(None) => a matches SearchAction::Finish(None),
                SearchEvent::Retry(Some(true)) => a matches SearchAction::AskQuery(None),
                SearchEvent::Retry(_) => a matches SearchAction::Finish(None),
            },
            match event {
                SearchEvent::Searched(Ok((movies, series))) => {
                    &&& final(self).pending == old(self).pending
                    &&& movies@.len() + series@.len() == 0 ==> final(self).candidates@ == old(
                        self,
                    ).candidates@
                },
                SearchEvent::Fetched(Ok(_)) => final(self).candidates@ == old(self).candidates@,
                SearchEvent::Confirmed(Some(true)) => {
                    &&& final(self).candidates@ == old(self).candidates@
                    &&& final(self).pending is None
                },
                _ => {
                    &&& final(self).candidates@ == old(self).candidates@
                    &&& final(self).pending == old(self).pending
                },
            },
    {
        match event {
            SearchEvent::Query(None) => SearchAction::Finish(None),
            SearchEvent::Query(Some(query)) => {
                let query = trim_str(query.as_str());
                if query.as_str().is_empty() {
                    SearchAction::AskQuery(Some(SearchNotice::EmptyQuery))
                } else {
                    SearchAction::Search(query)
                }
            },
            SearchEvent::Searched(Err(error)) => SearchAction::AskRetry(error),
            SearchEvent::Searched(Ok((movies, series))) => {
                let candidates = combine_candidates(movies, series);
                if candidates.len() == 0 {
                    SearchAction::AskQuery(Some(SearchNotice::NoResults))
                } else {
                    self.candidates = candidates;
                    SearchAction::Select
                }
            },
            SearchEvent::Selected(None) => SearchAction::Finish(None),
            SearchEvent::Selected(Some(index)) => {
                if index < self.candidates.len() {
                    let candidate = &self.candidates[index];
                    SearchAction::Fetch { media_type: candidate.media_type, id: candidate.id }
                } else {
                    SearchAction::Fail(UiError::InvalidSelection { context: "TMDB result" })
                }
            },
            SearchEvent::Fetched(Err(error)) => SearchAction::AskRetry(error),
            SearchEvent::Fetched(Ok(item)) => {
                self.pending = Some(item);
                SearchAction::Confirm
            },
            SearchEvent::Confirmed(Some(true)) => SearchAction::Finish(self.pending.take()),
            SearchEvent::Confirmed(Some(false)) => SearchAction::AskQuery(None),
            SearchEvent::Confirmed(None) => SearchAction::Finish(None),
            SearchEvent::Retry(Some(true)) => SearchAction::AskQuery(None),
            SearchEvent::Retry(_) => SearchAction::Finish(None),
        }
    }
}

/// What happened after the last manual-identification action.
pub enum ManualEvent {
    /// The namespace chosen for the identifier, or `None` when canceled.
    MediaTypeChosen(Option<MediaType>),
    /// The identifier text the user entered, or `None` when canceled.
    IdEntered(Option<String>),
    /// The details TMDB returned for the identifier.
    Fetched(Result<TmdbItem, TmdbError>),
    /// The answer to the identification confirmation.
    Confirmed(Option<bool>),
    /// The answer to "Retry the TMDB request?".
    Retry(Option<bool>),
}

/// What the terminal does next in a manual identification.
pub enum ManualAction {
    /// Ask whether the identifier names a movie or a TV series.
    ChooseMediaType,
    /// Ask for the numeric identifier, after showing why the last one was rejected.
    AskId(Option<DomainError>),
    /// Fetch the details of the identifier in the chosen namespace.
    Fetch { media_type: MediaType, id: TmdbId },
    /// Show the error and ask whether to retry.
    AskRetry(TmdbError),
    /// Show the fetched details in `pending` and ask for the identification confirmation.
    Confirm,
    /// The identified item, or `None` when the user canceled.
    Finish(Option<TmdbItem>),
}

/// The chosen namespace and the item awaiting confirmation.
pub struct ManualIdentification {
    pub media_type: MediaType,
    pub pending: Option<TmdbItem>,
}

impl ManualIdentification {
    /// Starts a manual identification: the namespace is asked for before the identifier,
    /// and the movie namespace stands until the user chooses one.
    pub fn start() -> (r: (Self, ManualAction))
        ensures
            r.0.media_type == MediaType::Movie,
            r.0.pending is None,
            r.1 matches ManualAction::ChooseMediaType,
    {
        (
            ManualIdentification { media_type: MediaType::Movie, pending: None },
            ManualAction::ChooseMediaType,
        )
    }

    /// Decides what follows an event.
    pub fn step(&mut self, event: ManualEvent) -> (a: ManualAction)
        ensures
            match event {
                ManualEvent::MediaTypeChosen(None) => a matches ManualAction::Finish(None),
                ManualEvent::MediaTypeChosen(Some(t)) => a matches ManualAction::AskId(None)
                    && final(self).media_type == t,
                ManualEvent::IdEntered(None) => a matches ManualAction::Finish(None),
                ManualEvent::IdEntered(Some(raw)) => match spec_parse_tmdb_id(raw@) {
                    Some(v) => a matches ManualAction::Fetch { media_type, id } && media_type
                        == old(self).media_type && id.spec_value() == v,
                    None => a matches ManualAction::AskId(Some(DomainError::InvalidTmdbId)),
                },
                ManualEvent::Fetched(Err(e)) => a matches ManualAction::AskRetry(err) && err == e,
                ManualEvent::Fetched(Ok(item)) => a matches ManualAction::Confirm
                    && final(self).pending == Some(item),
                ManualEvent::Confirmed(Some(true)) => a matches ManualAction::Finish(found)
                    && found == old(self).pending,
                ManualEvent::Confirmed(Some(false)) => a matches ManualAction::ChooseMediaType,
                ManualEvent::Confirmed(None) => a matches ManualAction::Finish(None),
                ManualEvent::Retry(Some(true)) => a matches ManualAction::AskId(None),
                ManualEvent::Retry(_) => a matches ManualAction::Finish(None),
            },
            match event {
                ManualEvent::MediaTypeChosen(Some(_)) => final(self).pending == old(self).pending,
                ManualEvent::Fetched(Ok(_)) => final(self).media_type == old(self).media_type,
                ManualEvent::Confirmed(Some(true)) => {
                    &&& final(self).media_type == old(self).media_type
                    &&& final(self).pending is None
                },
                _ => {
                    &&& final(self).media_type == old(self).media_type
                    &&& final(self).pending == old(self).pending
                },
            },
    {
        match event {
            ManualEvent::MediaTypeChosen(None) => ManualAction::Finish(None),
            ManualEvent::MediaTypeChosen(Some(media_type)) => {
                self.media_type = media_type;
                ManualAction::AskId(None)
            },
            ManualEvent::IdEntered(None) => ManualAction::Finish(None),
            ManualEvent::IdEntered(Some(raw)) => match parse_tmdb_id(raw.as_str()) {
                Ok(id) => ManualAction::Fetch { media_type: self.media_type, id },
                Err(error) => ManualAction::AskId(Some(error)),
            },
            ManualEvent::Fetched(Err(error)) => ManualAction::AskRetry(error),
            ManualEvent::Fetched(Ok(item)) => {
                self.pending = Some(item);
                ManualAction::Confirm
            },
            ManualEvent::Confirmed(Some(true)) => ManualAction::Finish(self.pending.take()),
            ManualEvent::Confirmed(Some(false)) => ManualAction::ChooseMediaType,
            ManualEvent::Confirmed(None) => ManualAction::Finish(None),
            ManualEvent::Retry(Some(true)) => ManualAction::AskId(None),
            ManualEvent::Retry(_) => ManualAction::Finish(None),
        }
    }
}

/// What happened after the last episode-collection action.
pub enum EpisodeEvent {
    /// The season and episode text the user entered, or `None` when canceled.
    Entered(Option<(String, String)>),
    /// Whether TMDB confirmed the episode.
    Validated(Result<(), TmdbError>),
    /// The answer to "Retry this episode?".
    Retry(Option<bool>),
}

/// What the terminal does next while collecting one series episode.
pub enum EpisodeAction {
    /// Ask for the season and episode numbers, after showing why the last ones were rejected.
    AskNumbers(Option<DomainError>),
    /// Ask TMDB whether the episode exists in the series.
    Validate(EpisodeRef),
    /// Show the error and ask whether to retry.
    AskRetry(TmdbError),
    /// The verified episode, or `None` when the user canceled.
    Finish(Option<EpisodeRef>),
}

/// The episode awaiting TMDB validation.
pub struct EpisodeCollection {
    pub pending: Option<EpisodeRef>,
}

impl EpisodeCollection {
    /// Starts collecting an episode by asking for its numbers.
    pub fn start() -> (r: (Self, EpisodeAction))
        ensures
            r.0.pending is None,
            r.1 matches EpisodeAction::AskNumbers(None),
    {
        (EpisodeCollection { pending: None }, EpisodeAction::AskNumbers(None))
    }

    /// Decides what follows an event. An episode is only accepted once TMDB confirmed it.
    pub fn step(&mut self, event: EpisodeEvent) -> (a: EpisodeAction)
        ensures
            match event {
                EpisodeEvent::Entered(None) => a matches EpisodeAction::Finish(None),
                EpisodeEvent::Entered(Some((season, episode))) => match (
                    spec_parse_episode_number(season@),
                    spec_parse_episode_number(episode@),
                ) {
                    (Some(s), Some(e)) => a matches EpisodeAction::Validate(r) && r.season == s
                        && r.episode == e && final(self).pending == Some(r),
                    (None, _) => a matches EpisodeAction::AskNumbers(
                        Some(DomainError::InvalidSeasonNumber),
                    ),
                    (Some(_), None) => a matches EpisodeAction::AskNumbers(
                        Some(DomainError::InvalidEpisodeNumber),
                    ),
                },
                EpisodeEvent::Validated(Ok(())) => a matches EpisodeAction::Finish(found) && found
                    == old(self).pending,
                EpisodeEvent::Validated(Err(e)) => a matches EpisodeAction::AskRetry(err) && err
                    == e,
                EpisodeEvent::Retry(Some(true)) => a matches EpisodeAction::AskNumbers(None),
                EpisodeEvent::Retry(_) => a matches EpisodeAction::Finish(None),
            },
            match event {
                EpisodeEvent::Entered(Some((season, episode))) => (spec_parse_episode_number(
                    season@,
                ) is Some && spec_parse_episode_number(episode@) is Some) || final(self).pending
                    == old(self).pending,
                EpisodeEvent::Validated(Ok(())) => final(self).pending is None,
                _ => final(self).pending == old(self).pending,
            },
    {
        match event {
            EpisodeEvent::Entered(None) => EpisodeAction::Finish(None),
            EpisodeEvent::Entered(Some((season, episode))) => match EpisodeRef::parse(
                season.as_str(),
                episode.as_str(),
            ) {
                Ok(reference) => {
                    self.pending = Some(reference);
                    EpisodeAction::Validate(reference)
                },
                Err(error) => EpisodeAction::AskNumbers(Some(error)),
            },
            EpisodeEvent::Validated(Ok(())) => EpisodeAction::Finish(self.pending.take()),
            EpisodeEvent::Validated(Err(error)) => EpisodeAction::AskRetry(error),
            EpisodeEvent::Retry(Some(true)) => EpisodeAction::AskNumbers(None),
            EpisodeEvent::Retry(_) => EpisodeAction::Finish(None),
        }
    }
}

} // verus!
