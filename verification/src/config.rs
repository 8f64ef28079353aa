//! Startup configuration: the validated runtime values, the per-user store location,
//! the optional saved fields, and the shared configuration wizard that decides which
//! prompts to show.
use std::path::PathBuf;

use vstd::prelude::*;

use crate::error::ConfigError;
use crate::language::{
    canonical_language_tag, canonical_parts, lemma_language_tag_idempotent,
    lemma_language_tag_shape, lemma_pt_br_is_canonical, spec_language_tag, split_dash,
};
use crate::text::{lemma_trim_idempotent, lower, non_blank, opt_view, spec_non_blank, trim, trim_str};

verus! {

/// The initial language requested for TMDB metadata.
pub const DEFAULT_TMDB_LANGUAGE: &'static str = "pt-BR";

/// The directory created in the current user's home directory for application configuration.
pub const CONFIG_DIRECTORY_NAME: &'static str = ".title-tmdb-file";

/// The JSON file containing the user's TMDB configuration.
pub const CONFIG_FILE_NAME: &'static str = "config.json";

/// Normalizes a plausible BCP-47-style locale for use in TMDB query parameters.
///
/// This boundary only rejects empty, malformed, or whitespace-containing values and
/// canonicalizes common language/region casing.
pub fn normalize_language_tag(value: &str) -> (r: Result<String, ConfigError>)
    ensures
        match r {
            Ok(tag) => {
                &&& spec_language_tag(value@) == Some(tag@)
                &&& split_dash(tag@) == canonical_parts(split_dash(trim(value@)))
                &&& tag@.len() == trim(value@).len()
                &&& lower(tag@) == lower(trim(value@))
                &&& spec_language_tag(tag@) == Some(tag@)
            },
            Err(e) => spec_language_tag(value@) is None && e is InvalidLanguage,
        },
{
    match canonical_language_tag(value) {
        Some(tag) => {
            proof {
                lemma_language_tag_shape(value@);
                lemma_language_tag_idempotent(value@);
            }
            Ok(tag)
        },
        None => Err(ConfigError::InvalidLanguage),
    }
}

/// The configuration `StartupConfig::new` builds from a key and a language, or the
/// error it reports first.
pub open spec fn spec_startup(api_key: Seq<char>, language: Seq<char>) -> Result<
    (Seq<char>, Seq<char>),
    StartupRejection,
> {
    if trim(api_key).len() == 0 {
        Err(StartupRejection::MissingApiKey)
    } else {
        match spec_language_tag(language) {
            Some(tag) => Ok((trim(api_key), tag)),
            None => Err(StartupRejection::InvalidLanguage),
        }
    }
}

/// Why a key and language pair is not a valid startup configuration.
#[derive(Debug, Clone, Copy, PartialEq, Eq, Structural)]
pub enum StartupRejection {
    MissingApiKey,
    InvalidLanguage,
}

/// The prefix and suffix around the language in the redacted debug form.
pub open spec fn spec_redacted_debug(language: Seq<char>) -> Seq<char> {
    "StartupConfig { tmdb_api_key: \"[REDACTED]\", tmdb_language: \""@ + language + "\" }"@
}

/// Startup values collected before the filesystem workflow begins.
///
/// The API key is kept in memory for the current process and is exposed through a narrow
/// accessor for the TMDB client; its debug form is redacted.
pub struct StartupConfig {
    tmdb_api_key: String,
    tmdb_language: String,
}

impl StartupConfig {
    /// Every configuration holds a non-blank, trimmed key and a canonical language tag.
    #[verifier::type_invariant]
    spec fn valid(self) -> bool {
        &&& self.tmdb_api_key@.len() > 0
        &&& trim(self.tmdb_api_key@) == self.tmdb_api_key@
        &&& spec_language_tag(self.tmdb_language@) == Some(self.tmdb_language@)
    }

    /// The stored API key.
    pub closed spec fn spec_api_key(&self) -> Seq<char> {
        self.tmdb_api_key@
    }

    /// The stored, normalized language.
    pub closed spec fn spec_language(&self) -> Seq<char> {
        self.tmdb_language@
    }

    /// Creates a validated startup configuration from prompt or configuration-file values.
    pub fn new(api_key: String, language: String) -> (r: Result<Self, ConfigError>)
        ensures
            match r {
                Ok(config) => spec_startup(api_key@, language@) == Ok::<
                    (Seq<char>, Seq<char>),
                    StartupRejection,
                >((config.spec_api_key(), config.spec_language())),
                Err(e) => match spec_startup(api_key@, language@) {
                    Err(StartupRejection::MissingApiKey) => e is MissingApiKey,
                    Err(StartupRejection::InvalidLanguage) => e is InvalidLanguage,
                    Ok(_) => false,
                },
            },
    {
        let ghost api_key_text = api_key@;
        let api_key = trim_str(api_key.as_str());
        if api_key.as_str().is_empty() {
            return Err(ConfigError::MissingApiKey);
        }
        let tmdb_language = match normalize_language_tag(language.as_str()) {
            Ok(tag) => tag,
            Err(error) => return Err(error),
        };
        proof {
            lemma_trim_idempotent(api_key_text);
            lemma_language_tag_idempotent(language@);
        }
        Ok(Self { tmdb_api_key: api_key, tmdb_language })
    }

    /// Returns the configured API key for the in-process TMDB client.
    ///
    /// Callers must not log, format, serialize, or store this value outside the configuration
    /// persistence boundary.
    pub fn tmdb_api_key(&self) -> (r: &str)
        ensures
            r@ == self.spec_api_key(),
            r@.len() > 0,
            trim(r@) == r@,
    {
        proof {
            use_type_invariant(self);
        }
        self.tmdb_api_key.as_str()
    }

    /// Returns the normalized TMDB metadata language, which is a canonical tag that the
    /// validator accepts unchanged.
    pub fn tmdb_language(&self) -> (r: &str)
        ensures
            r@ == self.spec_language(),
            spec_language_tag(r@) == Some(r@),
    {
        proof {
            use_type_invariant(self);
        }
        self.tmdb_language.as_str()
    }

    /// The debug representation, with the API key redacted: it depends on the language only.
    pub fn redacted_debug(&self) -> (r: String)
        ensures
            r@ == spec_redacted_debug(self.spec_language()),
    {
        let mut r = String::from_str("StartupConfig { tmdb_api_key: \"[REDACTED]\", tmdb_language: \"");
        r.append(self.tmdb_language.as_str());
        r.append("\" }");
        r
    }
}

impl Clone for StartupConfig {
    /// An equal configuration.
    fn clone(&self) -> (r: Self)
        ensures
            r == *self,
    {
        proof {
            use_type_invariant(self);
        }
        StartupConfig {
            tmdb_api_key: self.tmdb_api_key.clone(),
            tmdb_language: self.tmdb_language.clone(),
        }
    }
}

/// Determines whether the shared configuration wizard asks for missing values or replaces
/// values in the saved configuration.
#[derive(Debug, Clone, Copy, PartialEq, Eq, Structural)]
pub enum ConfigPromptMode {
    /// Ask only for absent or invalid fields during the normal workflow.
    MissingOnly,
    /// Ask for both fields so the `config` command can update them deliberately.
    ReplaceAll,
    /// Ask again for the API key after TMDB rejected it, and for the language only when
    /// it is absent or invalid.
    RepairApiKey,
}

/// `Path::join`: the path `base` extended by one more component. The path value is opaque
/// to the verifier; the name only records that the same base and component give the same
/// path.
pub uninterp spec fn joined_path(base: PathBuf, segment: Seq<char>) -> PathBuf;

/// `std::path::Path::join` with a relative component: its result is a function of the
/// base path and the component text alone.
#[verifier::external_body]
fn join_path(base: &PathBuf, segment: &str) -> (r: PathBuf)
    ensures
        r == joined_path(*base, segment@),
{
    base.join(segment)
}

/// Whether a path has no text at all (`OsStr::is_empty` of `Path::as_os_str`). The path
/// value is opaque to the verifier; the name only records that the answer depends on the
/// path alone.
pub uninterp spec fn empty_path(path: PathBuf) -> bool;

/// `Path::as_os_str` followed by `OsStr::is_empty`.
#[verifier::external_body]
fn path_is_empty(path: &PathBuf) -> (r: bool)
    ensures
        r == empty_path(*path),
{
    path.as_os_str().is_empty()
}

/// Owns the on-disk location of the user's configuration.
///
/// The store is intentionally separate from `StartupConfig`: the runtime type contains the
/// validated secret, while the stored form models optional fields so a partially written or
/// manually edited file can be detected without pretending it is complete.
#[derive(Debug)]
pub struct ConfigStore {
    path: PathBuf,
}

impl ConfigStore {
    pub closed spec fn spec_path(&self) -> PathBuf {
        self.path
    }

    /// Creates a store at the standard per-user location inside the given home directory:
    /// `<home>/.title-tmdb-file/config.json`. `None` means the home directory could not
    /// be resolved; an empty path is no home directory either.
    pub fn for_current_user(home: Option<PathBuf>) -> (r: Result<Self, ConfigError>)
        ensures
            match home {
                Some(h) if !empty_path(h) => r matches Ok(store) && store.spec_path()
                    == joined_path(joined_path(h, CONFIG_DIRECTORY_NAME@), CONFIG_FILE_NAME@),
                _ => r matches Err(e) && e is HomeDirectoryUnavailable,
            },
    {
        match home {
            Some(home) => {
                if path_is_empty(&home) {
                    return Err(ConfigError::HomeDirectoryUnavailable);
                }
                let directory = join_path(&home, CONFIG_DIRECTORY_NAME);
                Ok(Self::from_path(join_path(&directory, CONFIG_FILE_NAME)))
            },
            None => Err(ConfigError::HomeDirectoryUnavailable),
        }
    }

    /// Creates a store at an explicit path.
    pub fn from_path(path: PathBuf) -> (r: Self)
        ensures
            r.spec_path() == path,
    {
        Self { path }
    }

    /// Returns the path used by this store without exposing any credential value.
    pub fn path(&self) -> (r: &PathBuf)
        ensures
            *r == self.spec_path(),
    {
        &self.path
    }
}

/// The optional fields of the configuration file, as they were read.
#[derive(Debug, Clone)]
pub struct StoredConfig {
    pub tmdb_api_key: Option<String>,
    pub tmdb_language: Option<String>,
}

/// The usable saved key: present and not blank, trimmed.
pub open spec fn spec_api_key_default(saved: Option<Seq<char>>) -> Option<Seq<char>> {
    spec_non_blank(saved)
}

/// The usable saved language: present and accepted, in canonical form.
pub open spec fn spec_saved_language(saved: Option<Seq<char>>) -> Option<Seq<char>> {
    match saved {
        Some(language) => spec_language_tag(language),
        None => None,
    }
}

/// The language default offered by the environment: the trimmed value when it is not
/// blank, else the documented initial language.
pub open spec fn spec_env_language(env: Option<Seq<char>>) -> Seq<char> {
    match spec_api_key_default(env) {
        Some(value) => value,
        None => DEFAULT_TMDB_LANGUAGE@,
    }
}

/// The language offered as the editable default: the saved language, else the canonical
/// environment default, else the documented initial language.
pub open spec fn spec_language_default(saved: Option<Seq<char>>, env: Option<Seq<char>>) -> Seq<
    char,
> {
    match spec_saved_language(saved) {
        Some(language) => language,
        None => match spec_language_tag(spec_env_language(env)) {
            Some(language) => language,
            None => DEFAULT_TMDB_LANGUAGE@,
        },
    }
}

/// The API-key default offered by the environment value of `TMDB_API_KEY`, if any: the
/// trimmed value when it is not blank.
pub fn tmdb_api_key_default(env_value: Option<String>) -> (r: Option<String>)
    ensures
        opt_view(r) == spec_api_key_default(opt_view(env_value)),
{
    non_blank(&env_value)
}

/// The language default offered by the environment value of `TMDB_LANGUAGE`, if any,
/// falling back to the documented initial locale.
pub fn tmdb_language_default(env_value: Option<String>) -> (r: String)
    ensures
        r@ == spec_env_language(opt_view(env_value)),
{
    match non_blank(&env_value) {
        Some(value) => value,
        None => String::from_str(DEFAULT_TMDB_LANGUAGE),
    }
}

impl StoredConfig {
    /// An empty configuration, which is what a missing file holds.
    pub fn empty() -> (r: Self)
        ensures
            r.tmdb_api_key is None,
            r.tmdb_language is None,
    {
        StoredConfig { tmdb_api_key: None, tmdb_language: None }
    }

    /// The fields of a validated configuration, as they are saved.
    pub fn from_startup(config: &StartupConfig) -> (r: Self)
        ensures
            opt_view(r.tmdb_api_key) == Some(config.spec_api_key()),
            opt_view(r.tmdb_language) == Some(config.spec_language()),
    {
        StoredConfig {
            tmdb_api_key: Some(String::from_str(config.tmdb_api_key())),
            tmdb_language: Some(String::from_str(config.tmdb_language())),
        }
    }

    pub fn has_api_key(&self) -> (r: bool)
        ensures
            r == spec_api_key_default(opt_view(self.tmdb_api_key)) is Some,
    {
        self.api_key_default().is_some()
    }

    pub fn has_language(&self) -> (r: bool)
        ensures
            r == spec_saved_language(opt_view(self.tmdb_language)) is Some,
    {
        self.saved_language().is_some()
    }

    pub fn api_key_default(&self) -> (r: Option<String>)
        ensures
            opt_view(r) == spec_api_key_default(opt_view(self.tmdb_api_key)),
    {
        non_blank(&self.tmdb_api_key)
    }

    fn saved_language(&self) -> (r: Option<String>)
        ensures
            opt_view(r) == spec_saved_language(opt_view(self.tmdb_language)),
    {
        match &self.tmdb_language {
            Some(language) => match normalize_language_tag(language.as_str()) {
                Ok(tag) => Some(tag),
                Err(_) => None,
            },
            None => None,
        }
    }

    /// The editable language default, given the environment value of `TMDB_LANGUAGE`.
    pub fn language_default(&self, env_language: Option<String>) -> (r: String)
        ensures
            r@ == spec_language_default(opt_view(self.tmdb_language), opt_view(env_language)),
    {
        match self.saved_language() {
            Some(language) => language,
            None => {
                let fallback = tmdb_language_default(env_language);
                match normalize_language_tag(fallback.as_str()) {
                    Ok(language) => language,
                    Err(_) => String::from_str(DEFAULT_TMDB_LANGUAGE),
                }
            },
        }
    }
}

/// The state of the configuration wizard: which fields are asked for, what is offered as
/// their defaults, and the values accepted so far.
pub struct WizardState {
    pub mode: ConfigPromptMode,
    pub prompt_api_key: bool,
    pub prompt_language: bool,
    pub persist: bool,
    pub total_steps: nat,
    pub api_key_default: Option<Seq<char>>,
    pub language_default: Seq<char>,
    pub api_key: Option<Seq<char>>,
    pub language: Option<Seq<char>>,
}

impl WizardState {
    /// Fields that are not asked for already hold a valid value, and the step count and
    /// persistence decision follow from which fields are asked for.
    pub open spec fn wf(self) -> bool {
        &&& self.total_steps == (if self.prompt_api_key {
            1nat
        } else {
            0nat
        }) + (if self.prompt_language {
            1nat
        } else {
            0nat
        })
        &&& self.persist == (self.mode is ReplaceAll || self.prompt_api_key
            || self.prompt_language)
        &&& !self.prompt_api_key ==> (self.api_key matches Some(key) && trim(key).len() > 0)
        &&& !self.prompt_language ==> (self.language matches Some(language) && spec_language_tag(
            language,
        ) is Some)
    }
}

/// What the wizard asks the user for next, or its outcome.
pub enum WizardStep {
    AskApiKey { step: nat, total: nat, default: Option<Seq<char>> },
    AskLanguage { step: nat, total: nat, default: Seq<char> },
    Rejected(StartupRejection),
    Complete { api_key: Seq<char>, language: Seq<char>, persist: bool },
}

/// The wizard at the start: during the normal run only absent or invalid saved fields are
/// asked for; the `config` command asks for both; a repair asks for the key again.
pub open spec fn spec_wizard_start(
    saved_key: Option<Seq<char>>,
    saved_language: Option<Seq<char>>,
    mode: ConfigPromptMode,
    env_key: Option<Seq<char>>,
    env_language: Option<Seq<char>>,
) -> WizardState {
    let has_key = spec_api_key_default(saved_key) is Some;
    let has_language = spec_saved_language(saved_language) is Some;
    let prompt_api_key = mode is ReplaceAll || mode is RepairApiKey || !has_key;
    let prompt_language = mode is ReplaceAll || !has_language;
    WizardState {
        mode,
        prompt_api_key,
        prompt_language,
        persist: mode is ReplaceAll || prompt_api_key || prompt_language,
        total_steps: (if prompt_api_key {
            1nat
        } else {
            0nat
        }) + (if prompt_language {
            1nat
        } else {
            0nat
        }),
        api_key_default: match spec_api_key_default(saved_key) {
            Some(key) => Some(key),
            None => spec_api_key_default(env_key),
        },
        language_default: spec_language_default(saved_language, env_language),
        api_key: if prompt_api_key {
            None
        } else {
            spec_api_key_default(saved_key)
        },
        language: if prompt_language {
            None
        } else {
            spec_saved_language(saved_language)
        },
    }
}

/// One step of the wizard: ask for the key if it is still needed, then the language; once
/// both are present, validate them, and on a rejection forget the rejected field.
pub open spec fn spec_wizard_next(s: WizardState) -> (WizardState, WizardStep) {
    if s.api_key is None && s.prompt_api_key {
        (s, WizardStep::AskApiKey { step: 1, total: s.total_steps, default: s.api_key_default })
    } else if s.language is None && s.prompt_language {
        (
            s,
            WizardStep::AskLanguage {
                step: if s.prompt_api_key {
                    2
                } else {
                    1
                },
                total: s.total_steps,
                default: s.language_default,
            },
        )
    } else {
        match (s.api_key, s.language) {
            (Some(key), Some(language)) => match spec_startup(key, language) {
                Ok((api_key, language)) => (
                    s,
                    WizardStep::Complete { api_key, language, persist: s.persist },
                ),
                Err(StartupRejection::MissingApiKey) => (
                    WizardState { api_key: None, ..s },
                    WizardStep::Rejected(StartupRejection::MissingApiKey),
                ),
                Err(StartupRejection::InvalidLanguage) => (
                    WizardState { language: None, ..s },
                    WizardStep::Rejected(StartupRejection::InvalidLanguage),
                ),
            },
            _ => (s, WizardStep::Rejected(StartupRejection::MissingApiKey)),
        }
    }
}

/// The wizard after the user entered an API key; a key is only taken when it is asked for.
pub open spec fn spec_provide_api_key(s: WizardState, value: Seq<char>) -> WizardState {
    if s.prompt_api_key {
        WizardState { api_key: Some(value), ..s }
    } else {
        s
    }
}

/// The wizard after the user entered a language; it is only taken when it is asked for.
pub open spec fn spec_provide_language(s: WizardState, value: Seq<char>) -> WizardState {
    if s.prompt_language {
        WizardState { language: Some(value), ..s }
    } else {
        s
    }
}

/// The wizard starts well formed: a field that is not asked for already holds a valid value.
pub proof fn lemma_wizard_start_wf(
    saved_key: Option<Seq<char>>,
    saved_language: Option<Seq<char>>,
    mode: ConfigPromptMode,
    env_key: Option<Seq<char>>,
    env_language: Option<Seq<char>>,
)
    ensures
        spec_wizard_start(saved_key, saved_language, mode, env_key, env_language).wf(),
{
    if let Some(key) = saved_key {
        lemma_trim_idempotent(key);
    }
    if let Some(language) = saved_language {
        if spec_language_tag(language) is Some {
            lemma_language_tag_idempotent(language);
        }
    }
}

/// Every step keeps the wizard well formed, and a rejected field is asked for again at
/// the next step.
pub proof fn lemma_wizard_rejection_asks_again(s: WizardState)
    requires
        s.wf(),
    ensures
        spec_wizard_next(s).0.wf(),
        spec_wizard_next(s).1 == WizardStep::Rejected(StartupRejection::MissingApiKey)
            ==> spec_wizard_next(spec_wizard_next(s).0).1 is AskApiKey,
        spec_wizard_next(s).1 == WizardStep::Rejected(StartupRejection::InvalidLanguage)
            ==> spec_wizard_next(spec_wizard_next(s).0).1 is AskLanguage,
{
}

/// A complete saved configuration skips both startup prompts during the normal run: the
/// first step completes with the saved values and nothing is written back.
pub proof fn lemma_complete_saved_configuration_prompts_nothing(
    saved_key: Option<Seq<char>>,
    saved_language: Option<Seq<char>>,
    env_key: Option<Seq<char>>,
    env_language: Option<Seq<char>>,
)
    requires
        spec_api_key_default(saved_key) is Some,
        spec_saved_language(saved_language) is Some,
    ensures
        spec_wizard_next(
            spec_wizard_start(
                saved_key,
                saved_language,
                ConfigPromptMode::MissingOnly,
                env_key,
                env_language,
            ),
        ).1 == (WizardStep::Complete {
            api_key: spec_api_key_default(saved_key).unwrap(),
            language: spec_saved_language(saved_language).unwrap(),
            persist: false,
        }),
{
    lemma_trim_idempotent(saved_key.unwrap());
    lemma_language_tag_idempotent(saved_language.unwrap());
}

/// When both fields are asked for, the API key comes first (step 1 of 2) and the language
/// second (step 2 of 2), whatever key was entered.
pub proof fn lemma_api_key_is_asked_before_language(
    saved_key: Option<Seq<char>>,
    saved_language: Option<Seq<char>>,
    mode: ConfigPromptMode,
    env_key: Option<Seq<char>>,
    env_language: Option<Seq<char>>,
    entered_key: Seq<char>,
)
    ensures
        ({
            let s = spec_wizard_start(saved_key, saved_language, mode, env_key, env_language);
            &&& s.prompt_api_key ==> spec_wizard_next(s).1 is AskApiKey && spec_wizard_next(
                s,
            ).1->AskApiKey_step == 1
            &&& (s.prompt_api_key && s.prompt_language) ==> spec_wizard_next(
                spec_provide_api_key(s, entered_key),
            ).1 == WizardStep::AskLanguage { step: 2, total: 2, default: s.language_default }
        }),
{
}

/// A saved key with a missing or invalid saved language asks for the language only, as
/// step 1 of 1, and the completed configuration is saved.
pub proof fn lemma_partial_saved_configuration_asks_only_for_language(
    saved_key: Option<Seq<char>>,
    saved_language: Option<Seq<char>>,
    env_key: Option<Seq<char>>,
    env_language: Option<Seq<char>>,
)
    requires
        spec_api_key_default(saved_key) is Some,
        spec_saved_language(saved_language) is None,
    ensures
        ({
            let s = spec_wizard_start(
                saved_key,
                saved_language,
                ConfigPromptMode::MissingOnly,
                env_key,
                env_language,
            );
            &&& !s.prompt_api_key
            &&& s.persist
            &&& spec_wizard_next(s).1 == WizardStep::AskLanguage {
                step: 1,
                total: 1,
                default: s.language_default,
            }
        }),
{
}

/// A saved language with a missing or blank saved key asks for the masked key only, as
/// step 1 of 1, and a usable key then completes with the saved language and is saved.
pub proof fn lemma_missing_key_asks_only_for_the_key(
    saved_key: Option<Seq<char>>,
    saved_language: Option<Seq<char>>,
    env_key: Option<Seq<char>>,
    env_language: Option<Seq<char>>,
    entered_key: Seq<char>,
)
    requires
        spec_api_key_default(saved_key) is None,
        spec_saved_language(saved_language) is Some,
        trim(entered_key).len() > 0,
    ensures
        ({
            let s = spec_wizard_start(
                saved_key,
                saved_language,
                ConfigPromptMode::MissingOnly,
                env_key,
                env_language,
            );
            &&& !s.prompt_language
            &&& spec_wizard_next(s).1 == WizardStep::AskApiKey {
                step: 1,
                total: 1,
                default: spec_api_key_default(env_key),
            }
            &&& spec_wizard_next(spec_provide_api_key(s, entered_key)).1 == WizardStep::Complete {
                api_key: trim(entered_key),
                language: spec_saved_language(saved_language).unwrap(),
                persist: true,
            }
        }),
{
    lemma_language_tag_idempotent(saved_language.unwrap());
}

/// The masked API-key default: the trimmed saved key whenever a non-blank key is saved,
/// whatever the environment holds; the trimmed `TMDB_API_KEY` only when no usable key is
/// saved; nothing otherwise. In every mode the key prompt offers it.
pub proof fn lemma_saved_key_is_the_default_key(
    saved_key: Option<Seq<char>>,
    saved_language: Option<Seq<char>>,
    mode: ConfigPromptMode,
    env_key: Option<Seq<char>>,
    env_language: Option<Seq<char>>,
)
    ensures
        ({
            let s = spec_wizard_start(saved_key, saved_language, mode, env_key, env_language);
            let saved_usable = saved_key is Some && trim(saved_key.unwrap()).len() > 0;
            let env_usable = env_key is Some && trim(env_key.unwrap()).len() > 0;
            &&& saved_usable ==> s.api_key_default == Some(trim(saved_key.unwrap()))
            &&& !saved_usable && env_usable ==> s.api_key_default == Some(trim(env_key.unwrap()))
            &&& !saved_usable && !env_usable ==> s.api_key_default is None
            &&& s.prompt_api_key ==> spec_wizard_next(s).1 is AskApiKey && spec_wizard_next(
                s,
            ).1->AskApiKey_default == s.api_key_default
        }),
{
}

/// The editable language default: the canonical saved language whenever the saved
/// language is accepted, whatever `TMDB_LANGUAGE` holds; otherwise the canonical
/// environment language when it is accepted; otherwise `pt-BR`.
pub proof fn lemma_saved_language_is_the_default_language(
    saved_language: Option<Seq<char>>,
    env_language: Option<Seq<char>>,
)
    ensures
        ({
            let d = spec_language_default(saved_language, env_language);
            let saved_valid = saved_language is Some && spec_language_tag(saved_language.unwrap()) is Some;
            let env_valid = env_language is Some && spec_language_tag(env_language.unwrap()) is Some;
            &&& saved_valid ==> d == spec_language_tag(saved_language.unwrap()).unwrap()
            &&& !saved_valid && env_valid ==> d == spec_language_tag(env_language.unwrap()).unwrap()
            &&& !saved_valid && !env_valid ==> d == "pt-BR"@
            &&& spec_language_tag(d) == Some(d)
        }),
{
    lemma_pt_br_is_canonical();
    if let Some(e) = env_language {
        lemma_trim_idempotent(e);
        assert(spec_language_tag(trim(e)) == spec_language_tag(e));
    }
    if let Some(l) = saved_language {
        if spec_language_tag(l) is Some {
            lemma_language_tag_idempotent(l);
        }
    }
    if let Some(e) = env_language {
        if spec_language_tag(e) is Some {
            lemma_language_tag_idempotent(e);
        }
    }
}

/// The `config` command opens with the masked key prompt (step 1 of 2) offering the
/// trimmed saved key, then asks for the language (step 2 of 2) offering the canonical
/// saved language.
pub proof fn lemma_config_command_offers_the_saved_values(
    saved_key: Seq<char>,
    saved_language: Seq<char>,
    env_key: Option<Seq<char>>,
    env_language: Option<Seq<char>>,
    entered_key: Seq<char>,
)
    requires
        trim(saved_key).len() > 0,
        spec_language_tag(saved_language) is Some,
    ensures
        ({
            let s = spec_wizard_start(
                Some(saved_key),
                Some(saved_language),
                ConfigPromptMode::ReplaceAll,
                env_key,
                env_language,
            );
            &&& spec_wizard_next(s).1 == WizardStep::AskApiKey {
                step: 1,
                total: 2,
                default: Some(trim(saved_key)),
            }
            &&& spec_wizard_next(spec_provide_api_key(s, entered_key)).1 == WizardStep::AskLanguage {
                step: 2,
                total: 2,
                default: spec_language_tag(saved_language).unwrap(),
            }
        }),
{
}

/// The `config` command asks for both fields and always saves the result.
pub proof fn lemma_config_command_asks_for_both(
    saved_key: Option<Seq<char>>,
    saved_language: Option<Seq<char>>,
    env_key: Option<Seq<char>>,
    env_language: Option<Seq<char>>,
)
    ensures
        ({
            let s = spec_wizard_start(
                saved_key,
                saved_language,
                ConfigPromptMode::ReplaceAll,
                env_key,
                env_language,
            );
            s.prompt_api_key && s.prompt_language && s.total_steps == 2 && s.persist
        }),
{
}

/// A repair after TMDB rejected the key asks for the key again.
pub proof fn lemma_repair_asks_for_the_key(
    saved_key: Option<Seq<char>>,
    saved_language: Option<Seq<char>>,
    env_key: Option<Seq<char>>,
    env_language: Option<Seq<char>>,
)
    ensures
        spec_wizard_start(
            saved_key,
            saved_language,
            ConfigPromptMode::RepairApiKey,
            env_key,
            env_language,
        ).prompt_api_key,
{
}

/// Environment values are defaults only: they never change which fields are asked for.
pub proof fn lemma_environment_never_skips_a_prompt(
    saved_key: Option<Seq<char>>,
    saved_language: Option<Seq<char>>,
    mode: ConfigPromptMode,
    env_key1: Option<Seq<char>>,
    env_language1: Option<Seq<char>>,
    env_key2: Option<Seq<char>>,
    env_language2: Option<Seq<char>>,
)
    ensures
        ({
            let s1 = spec_wizard_start(saved_key, saved_language, mode, env_key1, env_language1);
            let s2 = spec_wizard_start(saved_key, saved_language, mode, env_key2, env_language2);
            &&& s1.prompt_api_key == s2.prompt_api_key
            &&& s1.prompt_language == s2.prompt_language
            &&& s1.persist == s2.persist
            &&& s1.api_key == s2.api_key
            &&& s1.language == s2.language
        }),
{
}

/// Valid answers to the asked fields complete the wizard with exactly those values,
/// trimmed and canonicalized.
pub proof fn lemma_valid_answers_complete(s: WizardState, key: Seq<char>, language: Seq<char>)
    requires
        s.wf(),
        s.prompt_api_key,
        s.prompt_language,
        trim(key).len() > 0,
        (spec_language_tag(language) is Some),
    ensures
        spec_wizard_next(spec_provide_language(spec_provide_api_key(s, key), language)).1
            == (WizardStep::Complete {
            api_key: trim(key),
            language: spec_language_tag(language).unwrap(),
            persist: s.persist,
        }),
{
}

/// The saved fields the wizard starts from. A missing file is an empty configuration; an
/// unreadable or malformed file stops the normal run, while the `config` command replaces
/// a malformed file after a warning (the `bool`).
pub fn stored_config_for_mode(loaded: Result<StoredConfig, ConfigError>, mode: ConfigPromptMode) -> (r:
    Result<(StoredConfig, bool), ConfigError>)
    ensures
        match loaded {
            Ok(stored) => r matches Ok((c, warn)) && c == stored && !warn,
            Err(ConfigError::InvalidFile { .. }) => if mode is ReplaceAll {
                r matches Ok((c, warn)) && c.tmdb_api_key is None && c.tmdb_language is None
                    && warn
            } else {
                r is Err && r->Err_0 == loaded->Err_0
            },
            Err(_) => r is Err && r->Err_0 == loaded->Err_0,
        },
{
    match loaded {
        Ok(stored) => Ok((stored, false)),
        Err(ConfigError::InvalidFile { path, source }) => match mode {
            ConfigPromptMode::ReplaceAll => Ok((StoredConfig::empty(), true)),
            _ => Err(ConfigError::InvalidFile { path, source }),
        },
        Err(error) => Err(error),
    }
}

/// What the configuration wizard asks the terminal to do next.
pub enum WizardAction {
    /// Ask for the masked API key, offering `default` as a masked default.
    AskApiKey { step: usize, total: usize, default: Option<String> },
    /// Ask for the metadata language, offering `default` as an editable default.
    AskLanguage { step: usize, total: usize, default: String },
    /// Show the error; the rejected field will be asked for again.
    Rejected(ConfigError),
    /// The configuration is complete; save it first when `persist` is set.
    Complete { config: StartupConfig, persist: bool },
}

impl WizardAction {
    pub open spec fn spec_step(&self) -> WizardStep {
        match self {
            WizardAction::AskApiKey { step, total, default } => WizardStep::AskApiKey {
                step: *step as nat,
                total: *total as nat,
                default: opt_view(*default),
            },
            WizardAction::AskLanguage { step, total, default } => WizardStep::AskLanguage {
                step: *step as nat,
                total: *total as nat,
                default: default@,
            },
            WizardAction::Rejected(e) => WizardStep::Rejected(
                if e is InvalidLanguage {
                    StartupRejection::InvalidLanguage
                } else {
                    StartupRejection::MissingApiKey
                },
            ),
            WizardAction::Complete { config, persist } => WizardStep::Complete {
                api_key: config.spec_api_key(),
                language: config.spec_language(),
                persist: *persist,
            },
        }
    }
}

/// The shared configuration wizard used by the normal run and by the `config` command.
///
/// The terminal layer runs the loop: it performs each `WizardAction`, hands the answers
/// back with `provide_api_key` and `provide_language`, and stops without saving anything
/// when the user cancels a prompt.
pub struct ConfigWizard {
    mode: ConfigPromptMode,
    prompt_api_key: bool,
    prompt_language: bool,
    persist: bool,
    total_steps: usize,
    api_key_default: Option<String>,
    language_default: String,
    api_key: Option<String>,
    language: Option<String>,
}

impl View for ConfigWizard {
    type V = WizardState;

    closed spec fn view(&self) -> WizardState {
        WizardState {
            mode: self.mode,
            prompt_api_key: self.prompt_api_key,
            prompt_language: self.prompt_language,
            persist: self.persist,
            total_steps: self.total_steps as nat,
            api_key_default: opt_view(self.api_key_default),
            language_default: self.language_default@,
            api_key: opt_view(self.api_key),
            language: opt_view(self.language),
        }
    }
}

impl ConfigWizard {
    #[verifier::type_invariant]
    spec fn well_formed(self) -> bool {
        self@.wf()
    }

    /// Starts the wizard from the saved fields, the prompt mode, and the environment values
    /// of `TMDB_API_KEY` and `TMDB_LANGUAGE`, which only serve as defaults.
    pub fn start(
        stored: &StoredConfig,
        mode: ConfigPromptMode,
        env_api_key: Option<String>,
        env_language: Option<String>,
    ) -> (r: Self)
        ensures
            r@ == spec_wizard_start(
                opt_view(stored.tmdb_api_key),
                opt_view(stored.tmdb_language),
                mode,
                opt_view(env_api_key),
                opt_view(env_language),
            ),
    {
        let saved_key = stored.api_key_default();
        let saved_language = stored.saved_language();
        let has_key = saved_key.is_some();
        let has_language = saved_language.is_some();
        let replace_all = match mode {
            ConfigPromptMode::ReplaceAll => true,
            _ => false,
        };
        let repair = match mode {
            ConfigPromptMode::RepairApiKey => true,
            _ => false,
        };
        let prompt_api_key = replace_all || repair || !has_key;
        let prompt_language = replace_all || !has_language;
        let persist = replace_all || prompt_api_key || prompt_language;
        let total_steps: usize = (if prompt_api_key {
            1
        } else {
            0
        }) + (if prompt_language {
            1
        } else {
            0
        });
        let api_key_default = match stored.api_key_default() {
            Some(key) => Some(key),
            None => tmdb_api_key_default(env_api_key),
        };
        let language_default = stored.language_default(env_language);
        proof {
            if let Some(key) = opt_view(saved_key) {
                lemma_trim_idempotent(opt_view(stored.tmdb_api_key).unwrap());
            }
            if let Some(language) = opt_view(saved_language) {
                lemma_language_tag_idempotent(opt_view(stored.tmdb_language).unwrap());
            }
        }
        ConfigWizard {
            mode,
            prompt_api_key,
            prompt_language,
            persist,
            total_steps,
            api_key_default,
            language_default,
            api_key: if prompt_api_key {
                None
            } else {
                saved_key
            },
            language: if prompt_language {
                None
            } else {
                saved_language
            },
        }
    }

    /// Decides what the terminal does next.
    pub fn next_action(&mut self) -> (a: WizardAction)
        ensures
            (final(self)@, a.spec_step()) == spec_wizard_next(old(self)@),
            a matches WizardAction::Rejected(e) ==> (e is MissingApiKey || e is InvalidLanguage),
    {
        proof {
            use_type_invariant(&*self);
        }
        if self.api_key.is_none() && self.prompt_api_key {
            return WizardAction::AskApiKey {
                step: 1,
                total: self.total_steps,
                default: self.api_key_default.clone(),
            };
        }
        if self.language.is_none() && self.prompt_language {
            return WizardAction::AskLanguage {
                step: if self.prompt_api_key {
                    2
                } else {
                    1
                },
                total: self.total_steps,
                default: self.language_default.clone(),
            };
        }
        let (api_key, language) = match (&self.api_key, &self.language) {
            (Some(api_key), Some(language)) => (api_key.clone(), language.clone()),
            _ => {
                return WizardAction::Rejected(ConfigError::MissingApiKey);
            },
        };
        match StartupConfig::new(api_key, language) {
            Ok(config) => WizardAction::Complete { config, persist: self.persist },
            Err(ConfigError::InvalidLanguage) => {
                self.language = None;
                WizardAction::Rejected(ConfigError::InvalidLanguage)
            },
            Err(_) => {
                self.api_key = None;
                WizardAction::Rejected(ConfigError::MissingApiKey)
            },
        }
    }

    /// Records the API key the user entered.
    pub fn provide_api_key(&mut self, value: String)
        ensures
            final(self)@ == spec_provide_api_key(old(self)@, value@),
    {
        proof {
            use_type_invariant(&*self);
        }
        if self.prompt_api_key {
            self.api_key = Some(value);
        }
    }

    /// Records the language the user entered.
    pub fn provide_language(&mut self, value: String)
        ensures
            final(self)@ == spec_provide_language(old(self)@, value@),
    {
        proof {
            use_type_invariant(&*self);
        }
        if self.prompt_language {
            self.language = Some(value);
        }
    }
}

} // verus!
