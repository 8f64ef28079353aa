//! Decisions of the interactive workflow that do not depend on the terminal: how the
//! user's selections are checked and ordered, how search results are offered, which files
//! count as videos, and the configure-and-validate loop with the prompt mode a failed
//! check retries with.
use vstd::prelude::*;

use crate::config::{spec_wizard_next, spec_wizard_start, ConfigPromptMode, StartupConfig};
use crate::domain::TmdbSearchCandidate;
use crate::error::{TmdbError, UiError};
use crate::text::{chars_of, lower, lower_chars};

verus! {

/// Movie candidates first, then series candidates, each in TMDB order.
pub fn combine_candidates(
    movie_results: Vec<TmdbSearchCandidate>,
    series_results: Vec<TmdbSearchCandidate>,
) -> (r: Vec<TmdbSearchCandidate>)
    ensures
        r@ == movie_results@ + series_results@,
{
    let mut movie_results = movie_results;
    let mut series_results = series_results;
    movie_results.append(&mut series_results);
    movie_results
}

/// Indices that each name one of `item_count` items, and no item twice.
pub open spec fn valid_selection(indices: Seq<usize>, item_count: usize) -> bool {
    &&& forall|i: int| 0 <= i < indices.len() ==> #[trigger] indices[i] < item_count
    &&& forall|i: int, j: int|
        0 <= i < j < indices.len() ==> #[trigger] indices[i] != #[trigger] indices[j]
}

/// Rejects a selection that a terminal adapter returned out of range or with a duplicate.
pub fn validate_selection_indices(indices: &Vec<usize>, item_count: usize, context: &'static str) -> (r:
    Result<(), UiError>)
    ensures
        valid_selection(indices@, item_count) ==> r is Ok,
        !valid_selection(indices@, item_count) ==> (r matches Err(
            UiError::InvalidSelection { context: c },
        ) && c == context),
{
    let n = indices.len();
    let mut i: usize = 0;
    while i < n
        invariant
            n == indices@.len(),
            i <= n,
            forall|k: int| 0 <= k < i ==> #[trigger] indices@[k] < item_count,
            forall|k: int, j: int|
                0 <= k < j < i ==> #[trigger] indices@[k] != #[trigger] indices@[j],
        decreases n - i,
    {
        if indices[i] >= item_count {
            return Err(UiError::InvalidSelection { context });
        }
        let mut j: usize = 0;
        while j < i
            invariant
                n == indices@.len(),
                j <= i < n,
                forall|k: int| 0 <= k < j ==> #[trigger] indices@[k] != indices@[i as int],
            decreases i - j,
        {
            if indices[j] == indices[i] {
                return Err(UiError::InvalidSelection { context });
            }
            j = j + 1;
        }
        i = i + 1;
    }
    Ok(())
}

/// The prompt mode used after a failed TMDB check when the user retries: a rejected
/// credential asks for the key again; other failures repeat the same mode.
pub open spec fn spec_retry_mode(mode: ConfigPromptMode, error: TmdbError) -> ConfigPromptMode {
    if error is Authentication {
        ConfigPromptMode::RepairApiKey
    } else {
        mode
    }
}

/// After TMDB rejects the credential, the retried wizard asks for the API key again,
/// whatever was saved and whichever mode the check was in.
pub proof fn lemma_rejected_key_is_asked_again(
    saved_key: Option<Seq<char>>,
    saved_language: Option<Seq<char>>,
    mode: ConfigPromptMode,
    env_key: Option<Seq<char>>,
    env_language: Option<Seq<char>>,
    error: TmdbError,
)
    requires
        error is Authentication,
    ensures
        spec_wizard_next(
            spec_wizard_start(
                saved_key,
                saved_language,
                spec_retry_mode(mode, error),
                env_key,
                env_language,
            ),
        ).1 is AskApiKey,
{
}

/// Only a rejected credential changes how the retry asks: after any other failure
/// (offline, timeout, rate limit, server error, a missing resource) the retry uses the
/// mode the check was in, so a complete saved configuration is validated again without a
/// prompt; after a rejected credential the retry repairs the key.
pub proof fn lemma_only_a_rejected_key_changes_the_retry(mode: ConfigPromptMode, error: TmdbError)
    ensures
        !(error is Authentication) ==> spec_retry_mode(mode, error) == mode,
        error is Authentication ==> spec_retry_mode(mode, error) == ConfigPromptMode::RepairApiKey,
        (mode is MissingOnly && !(error is Authentication)) ==> spec_retry_mode(mode, error)
            is MissingOnly,
{
}

/// The prompt mode used after a failed TMDB check when the user retries.
pub fn retry_mode(mode: ConfigPromptMode, error: &TmdbError) -> (r: ConfigPromptMode)
    ensures
        r == spec_retry_mode(mode, *error),
        *error is Authentication ==> r == ConfigPromptMode::RepairApiKey,
        !(*error is Authentication) ==> r == mode,
{
    if error.is_authentication() {
        ConfigPromptMode::RepairApiKey
    } else {
        mode
    }
}

/// What happened after the last configuration-check action.
pub enum CheckEvent {
    /// The configuration the wizard completed (and saved when it asked to), or `None` when
    /// the user canceled a prompt.
    Configured(Option<StartupConfig>),
    /// Whether TMDB accepted the configuration.
    Validated(Result<(), TmdbError>),
    /// The answer to "Retry TMDB configuration validation?".
    Retry(Option<bool>),
}

/// What the terminal does next while configuring and validating TMDB access.
pub enum CheckAction {
    /// Run the configuration wizard in this mode.
    Configure(ConfigPromptMode),
    /// Validate the configuration in `pending` through TMDB.
    Validate,
    /// Show the error and ask whether to retry.
    AskRetry(TmdbError),
    /// The validated configuration, or `None` when the user canceled.
    Finish(Option<StartupConfig>),
}

/// The configuration-and-validation loop shared by the normal run and the `config` command:
/// a configuration is only returned once TMDB accepted it.
pub struct ConfigurationCheck {
    /// The prompt mode of the next wizard run.
    pub mode: ConfigPromptMode,
    /// The configuration awaiting validation.
    pub pending: Option<StartupConfig>,
}

impl ConfigurationCheck {
    /// Starts by running the wizard in the initial mode.
    pub fn start(mode: ConfigPromptMode) -> (r: (Self, CheckAction))
        ensures
            r.0.mode == mode,
            r.0.pending is None,
            r.1 matches CheckAction::Configure(m) && m == mode,
    {
        (ConfigurationCheck { mode, pending: None }, CheckAction::Configure(mode))
    }

    /// Decides what follows an event.
    pub fn step(&mut self, event: CheckEvent) -> (a: CheckAction)
        ensures
            match event {
                CheckEvent::Configured(None) => a matches CheckAction::Finish(None),
                CheckEvent::Configured(Some(config)) => a matches CheckAction::Validate
                    && final(self).pending == Some(config) && final(self).mode == old(self).mode,
                CheckEvent::Validated(Ok(())) => a matches CheckAction::Finish(found) && found
                    == old(self).pending,
                CheckEvent::Validated(Err(e)) => a matches CheckAction::AskRetry(err) && err == e
                    && final(self).mode == spec_retry_mode(old(self).mode, e),
                CheckEvent::Retry(Some(true)) => a matches CheckAction::Configure(m) && m == old(
                    self).mode,
                CheckEvent::Retry(_) => a matches CheckAction::Finish(None),
            },
            match event {
                CheckEvent::Configured(Some(_)) => final(self).mode == old(self).mode,
                CheckEvent::Validated(Ok(())) => {
                    &&& final(self).mode == old(self).mode
                    &&& final(self).pending is None
                },
                CheckEvent::Validated(Err(_)) => final(self).pending == old(self).pending,
                _ => {
                    &&& final(self).mode == old(self).mode
                    &&& final(self).pending == old(self).pending
                },
            },
    {
        match event {
            CheckEvent::Configured(None) => CheckAction::Finish(None),
            CheckEvent::Configured(Some(config)) => {
                self.pending = Some(config);
                CheckAction::Validate
            },
            CheckEvent::Validated(Ok(())) => CheckAction::Finish(self.pending.take()),
            CheckEvent::Validated(Err(error)) => {
                self.mode = retry_mode(self.mode, &error);
                CheckAction::AskRetry(error)
            },
            CheckEvent::Retry(Some(true)) => CheckAction::Configure(self.mode),
            CheckEvent::Retry(_) => CheckAction::Finish(None),
        }
    }
}

/// Ascending order.
pub open spec fn ascending(s: Seq<usize>) -> bool {
    forall|i: int, j: int| 0 <= i < j < s.len() ==> #[trigger] s[i] <= #[trigger] s[j]
}

/// Strictly ascending order: ascending, with no value twice.
pub open spec fn strictly_ascending(s: Seq<usize>) -> bool {
    forall|i: int, j: int| 0 <= i < j < s.len() ==> #[trigger] s[i] < #[trigger] s[j]
}

/// No value occurs twice.
pub open spec fn distinct(s: Seq<usize>) -> bool {
    forall|i: int, j: int| 0 <= i < j < s.len() ==> #[trigger] s[i] != #[trigger] s[j]
}

/// The same indices in ascending order, so that selections keep the listing order
/// whatever order the user picked them in.
pub fn sorted_indices(indices: Vec<usize>) -> (r: Vec<usize>)
    ensures
        ascending(r@),
        r@.to_multiset() == indices@.to_multiset(),
        r@.len() == indices@.len(),
        forall|k: int| 0 <= k < r@.len() ==> indices@.contains(#[trigger] r@[k]),
        distinct(indices@) ==> strictly_ascending(r@),
{
    let mut out: Vec<usize> = Vec::new();
    let mut i: usize = 0;
    assert(indices@.take(0) =~= Seq::<usize>::empty());
    while i < indices.len()
        invariant
            i <= indices@.len(),
            out@.len() == i,
            ascending(out@),
            out@.to_multiset() == indices@.take(i as int).to_multiset(),
            forall|k: int|
                0 <= k < out@.len() ==> exists|j: int|
                    0 <= j < i && #[trigger] out@[k] == #[trigger] indices@[j],
            distinct(indices@) ==> strictly_ascending(out@),
        decreases indices@.len() - i,
    {
        let x = indices[i];
        let mut pos: usize = 0;
        while pos < out.len() && out[pos] <= x
            invariant
                pos <= out@.len(),
                forall|k: int| 0 <= k < pos ==> #[trigger] out@[k] <= x,
            decreases out@.len() - pos,
        {
            pos = pos + 1;
        }
        let ghost before = out@;
        out.insert(pos, x);
        proof {
            assert(out@ =~= before.insert(pos as int, x));
            assert forall|a: int, b: int| 0 <= a < b < out@.len() implies #[trigger] out@[a]
                <= #[trigger] out@[b] by {
                if b < pos {
                    assert(out@[a] == before[a] && out@[b] == before[b]);
                } else if b == pos {
                    assert(out@[a] == before[a]);
                } else if a < pos {
                    assert(out@[a] == before[a] && out@[b] == before[b - 1]);
                    assert(before[b - 1] > x || b - 1 < pos);
                } else if a == pos {
                    assert(out@[b] == before[b - 1]);
                } else {
                    assert(out@[a] == before[a - 1] && out@[b] == before[b - 1]);
                }
            }
            assert forall|k: int| 0 <= k < out@.len() implies exists|j: int|
                0 <= j < i + 1 && #[trigger] out@[k] == #[trigger] indices@[j] by {
                if k < pos {
                    assert(out@[k] == before[k]);
                    let j = choose|j: int| 0 <= j < i && before[k] == #[trigger] indices@[j];
                    assert(out@[k] == indices@[j]);
                } else if k == pos {
                    assert(out@[k] == indices@[i as int]);
                } else {
                    assert(out@[k] == before[k - 1]);
                    let j = choose|j: int| 0 <= j < i && before[k - 1] == #[trigger] indices@[j];
                    assert(out@[k] == indices@[j]);
                }
            }
            if distinct(indices@) {
                if pos > 0 {
                    let j = choose|j: int|
                        0 <= j < i && before[pos - 1] == #[trigger] indices@[j];
                    assert(indices@[j] != indices@[i as int]);
                }
                assert forall|a: int, b: int| 0 <= a < b < out@.len() implies #[trigger] out@[a]
                    < #[trigger] out@[b] by {
                    if b < pos {
                        assert(out@[a] == before[a] && out@[b] == before[b]);
                    } else if b == pos {
                        assert(out@[a] == before[a]);
                        assert(before[a] <= before[pos - 1]);
                    } else if a < pos {
                        assert(out@[a] == before[a] && out@[b] == before[b - 1]);
                    } else if a == pos {
                        assert(out@[b] == before[b - 1]);
                        assert(before[pos as int] <= before[b - 1]);
                    } else {
                        assert(out@[a] == before[a - 1] && out@[b] == before[b - 1]);
                    }
                }
            }
            vstd::seq_lib::to_multiset_insert(before, pos as int, x);
            assert(indices@.take(i + 1) =~= indices@.take(i as int).push(x));
            vstd::seq_lib::to_multiset_build(indices@.take(i as int), x);
        }
        i = i + 1;
    }
    proof {
        assert(indices@.take(i as int) =~= indices@);
        assert forall|k: int| 0 <= k < out@.len() implies indices@.contains(#[trigger] out@[k]) by {
            let j = choose|j: int| 0 <= j < i && out@[k] == #[trigger] indices@[j];
            assert(indices@[j] == out@[k]);
        }
    }
    out
}

/// The video extensions offered for selection, compared without regard to ASCII case.
pub open spec fn video_extension(extension: Seq<char>) -> bool {
    let e = lower(extension);
    ||| e == "mkv"@
    ||| e == "mp4"@
    ||| e == "avi"@
    ||| e == "mov"@
    ||| e == "webm"@
    ||| e == "m4v"@
    ||| e == "ts"@
    ||| e == "m2ts"@
    ||| e == "wmv"@
    ||| e == "flv"@
}

/// Whether a file extension (without the dot) names a recognized video format.
pub fn is_video_extension(extension: &str) -> (r: bool)
    ensures
        r == video_extension(extension@),
{
    let chars = chars_of(extension);
    let lowered = lower_chars(&chars, 0, chars.len());
    assert(chars@.subrange(0, chars@.len() as int) =~= extension@);
    let known = ["mkv", "mp4", "avi", "mov", "webm", "m4v", "ts", "m2ts", "wmv", "flv"];
    let mut i: usize = 0;
    while i < 10
        invariant
            i <= 10,
            lowered@ == lower(extension@),
            known@ == seq!["mkv", "mp4", "avi", "mov", "webm", "m4v", "ts", "m2ts", "wmv", "flv"],
            forall|k: int| 0 <= k < i ==> lowered@ != (#[trigger] known@[k])@,
        decreases 10 - i,
    {
        if lowered == String::from_str(known[i]) {
            return true;
        }
        i = i + 1;
    }
    assert(lowered@ != known@[0]@ && lowered@ != known@[1]@ && lowered@ != known@[2]@
        && lowered@ != known@[3]@ && lowered@ != known@[4]@ && lowered@ != known@[5]@
        && lowered@ != known@[6]@ && lowered@ != known@[7]@ && lowered@ != known@[8]@
        && lowered@ != known@[9]@);
    false
}

} // verus!
