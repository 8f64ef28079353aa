//! Typed TMDB identities and verified metadata values.
use vstd::prelude::*;

use crate::text::{
    all_ascii_digits, decimal, lemma_decimal_parses_back, lemma_leading_zero_parses_the_same,
    parse_u64, parse_unsigned, trim, trim_str, u64_to_decimal,
};

verus! {

/// Errors raised when user input cannot become a domain value.
#[derive(Debug, Clone, Copy, PartialEq, Eq, Structural)]
pub enum DomainError {
    /// The TMDB identifier is not a positive decimal number.
    InvalidTmdbId,
    /// The season number is not a non-negative decimal number that fits in 32 bits.
    InvalidSeasonNumber,
    /// The episode number is not a non-negative decimal number that fits in 32 bits.
    InvalidEpisodeNumber,
}

/// A positive numeric TMDB identifier.
#[derive(Debug, Clone, Copy, PartialEq, Eq, Hash)]
pub struct TmdbId {
    value: u64,
}

impl TmdbId {
    #[verifier::type_invariant]
    spec fn positive(self) -> bool {
        self.value > 0
    }

    /// The numeric value of the identifier.
    pub closed spec fn spec_value(self) -> u64 {
        self.value
    }

    /// Accepts only positive identifiers.
    pub fn new(value: u64) -> (r: Result<TmdbId, DomainError>)
        ensures
            match r {
                Ok(id) => value > 0 && id.spec_value() == value,
                Err(e) => value == 0 && e == DomainError::InvalidTmdbId,
            },
    {
        if value == 0 {
            Err(DomainError::InvalidTmdbId)
        } else {
            Ok(TmdbId { value })
        }
    }

    /// The numeric value, which is always positive.
    pub fn value(&self) -> (r: u64)
        ensures
            r == self.spec_value(),
            r > 0,
    {
        proof {
            use_type_invariant(self);
        }
        self.value
    }

    /// The decimal text of the identifier, as its `Display` form writes it.
    pub fn to_decimal(&self) -> (r: String)
        ensures
            r@ == decimal(self.spec_value() as nat),
    {
        u64_to_decimal(self.value)
    }
}

/// What `parse_tmdb_id` accepts: surrounding whitespace, then a positive decimal number.
pub open spec fn spec_parse_tmdb_id(raw: Seq<char>) -> Option<u64> {
    match parse_unsigned(trim(raw)) {
        Some(v) => if v > 0 {
            Some(v as u64)
        } else {
            None
        },
        None => None,
    }
}

/// Parses a manually entered TMDB identifier.
pub fn parse_tmdb_id(raw: &str) -> (r: Result<TmdbId, DomainError>)
    ensures
        match r {
            Ok(id) => spec_parse_tmdb_id(raw@) == Some(id.spec_value()),
            Err(e) => spec_parse_tmdb_id(raw@) is None && e == DomainError::InvalidTmdbId,
        },
{
    let trimmed = trim_str(raw);
    match parse_u64(trimmed.as_str()) {
        Some(value) => TmdbId::new(value),
        None => Err(DomainError::InvalidTmdbId),
    }
}

/// An identifier's decimal text, as `TmdbId::to_decimal` writes it, parses back with
/// `parse_tmdb_id` to the same identifier.
pub proof fn lemma_tmdb_id_text_round_trip(value: u64)
    requires
        value > 0,
    ensures
        spec_parse_tmdb_id(decimal(value as nat)) == Some(value),
{
    lemma_decimal_parses_back(value);
}

/// The two TMDB namespaces the application identifies.
#[derive(Debug, Clone, Copy, PartialEq, Eq, Structural)]
pub enum MediaType {
    Movie,
    Series,
}

/// A season and episode number of a TV series; season `0` holds specials.
#[derive(Debug, Clone, Copy, PartialEq, Eq, Structural)]
pub struct EpisodeRef {
    pub season: u32,
    pub episode: u32,
}

/// What `EpisodeRef::parse` accepts for one number: surrounding whitespace, then a
/// decimal number that fits in 32 bits.
pub open spec fn spec_parse_episode_number(raw: Seq<char>) -> Option<u32> {
    match parse_unsigned(trim(raw)) {
        Some(v) => if v <= u32::MAX {
            Some(v as u32)
        } else {
            None
        },
        None => None,
    }
}

fn parse_u32(raw: &str) -> (r: Option<u32>)
    ensures
        r == spec_parse_episode_number(raw@),
{
    let trimmed = trim_str(raw);
    match parse_u64(trimmed.as_str()) {
        Some(value) => if value <= 4294967295 {
            Some(value as u32)
        } else {
            None
        },
        None => None,
    }
}

impl EpisodeRef {
    pub fn new(season: u32, episode: u32) -> (r: EpisodeRef)
        ensures
            r.season == season,
            r.episode == episode,
    {
        EpisodeRef { season, episode }
    }

    pub fn season(&self) -> (r: u32)
        ensures
            r == self.season,
    {
        self.season
    }

    pub fn episode(&self) -> (r: u32)
        ensures
            r == self.episode,
    {
        self.episode
    }

    /// Parses the season and episode entered for one series file.
    pub fn parse(season: &str, episode: &str) -> (r: Result<EpisodeRef, DomainError>)
        ensures
            match r {
                Ok(e) => spec_parse_episode_number(season@) == Some(e.season)
                    && spec_parse_episode_number(episode@) == Some(e.episode),
                Err(DomainError::InvalidSeasonNumber) => spec_parse_episode_number(
                    season@,
                ) is None,
                Err(DomainError::InvalidEpisodeNumber) => spec_parse_episode_number(
                    season@,
                ) is Some && spec_parse_episode_number(episode@) is None,
                Err(_) => false,
            },
    {
        let season = match parse_u32(season) {
            Some(value) => value,
            None => return Err(DomainError::InvalidSeasonNumber),
        };
        let episode = match parse_u32(episode) {
            Some(value) => value,
            None => return Err(DomainError::InvalidEpisodeNumber),
        };
        Ok(EpisodeRef { season, episode })
    }
}

/// A season or episode number's decimal text parses back to the same number, so the
/// numbers sent to TMDB are the ones the user entered.
pub proof fn lemma_episode_number_text_round_trip(value: u32)
    ensures
        spec_parse_episode_number(decimal(value as nat)) == Some(value),
{
    lemma_decimal_parses_back(value as u64);
}

/// A season or episode number is accepted exactly when its trimmed text is what
/// `str::parse::<u32>` accepts: an optional `+` and decimal digits (leading zeros
/// included) whose value fits in 32 bits, read as that value.
pub proof fn lemma_episode_number_is_u32_parse(raw: Seq<char>)
    ensures
        (parse_unsigned(trim(raw)) matches Some(v) && v <= u32::MAX) ==> spec_parse_episode_number(
            raw,
        ) == Some(parse_unsigned(trim(raw)).unwrap() as u32),
        spec_parse_episode_number(raw) matches Some(n) ==> parse_unsigned(trim(raw)) == Some(
            n as nat,
        ),
{
}

/// A zero in front of a season or episode number, as in `01`, changes nothing.
pub proof fn lemma_episode_number_leading_zero(digits: Seq<char>)
    requires
        digits.len() > 0,
        all_ascii_digits(digits),
    ensures
        spec_parse_episode_number(seq!['0'] + digits) == spec_parse_episode_number(digits),
{
    lemma_leading_zero_parses_the_same(digits);
}

/// A search result offered to the user; it still needs a details lookup.
#[derive(Debug, Clone)]
pub struct TmdbSearchCandidate {
    pub id: TmdbId,
    pub media_type: MediaType,
    pub title: String,
    pub original_title: Option<String>,
    pub year: Option<u16>,
}

/// One page of mapped search results.
#[derive(Debug, Clone)]
pub struct TmdbSearchPage {
    pub results: Vec<TmdbSearchCandidate>,
    pub page: u32,
    pub total_pages: u32,
}

impl TmdbSearchPage {
    /// Whether TMDB has a later page for the same query.
    pub fn has_next_page(&self) -> (r: bool)
        ensures
            r == (self.page < self.total_pages),
    {
        self.page < self.total_pages
    }
}

/// A movie or series whose details TMDB confirmed.
#[derive(Debug, Clone)]
pub struct TmdbItem {
    pub id: TmdbId,
    pub media_type: MediaType,
    pub title: String,
    pub original_title: Option<String>,
    pub year: Option<u16>,
}

/// An episode whose existence TMDB confirmed.
#[derive(Debug, Clone)]
pub struct TmdbEpisode {
    pub series_id: TmdbId,
    pub episode: EpisodeRef,
    pub title: Option<String>,
}

} // verus!
