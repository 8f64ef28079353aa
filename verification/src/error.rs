//! Typed application errors and the documented process exit-code policy: `2` for
//! input, usage and validation failures the user can correct, `1` for runtime failures.
use std::{io, path::PathBuf};

use vstd::prelude::*;

use serde_json::Error as JsonError;

use crate::domain::{DomainError, MediaType};

verus! {

#[verifier::external_type_specification]
#[verifier::external_body]
pub struct ExPathBuf(std::path::PathBuf);

#[verifier::external_type_specification]
#[verifier::external_body]
pub struct ExIoError(std::io::Error);

#[verifier::external_type_specification]
#[verifier::external_body]
pub struct ExJsonError(serde_json::Error);

#[verifier::external_type_specification]
#[verifier::external_body]
pub struct ExDialoguerError(dialoguer::Error);

#[verifier::external_type_specification]
#[verifier::external_body]
pub struct ExReqwestError(reqwest::Error);

/// Errors raised while collecting or validating startup configuration.
#[derive(Debug)]
pub enum ConfigError {
    /// The user did not provide an API key.
    MissingApiKey,
    /// The selected language is not a plausible TMDB locale tag.
    InvalidLanguage,
    /// The S3 access key was not provided.
    MissingS3AccessKey,
    /// The S3 profile name was not provided.
    MissingS3Name,
    /// The S3 secret key was not provided.
    MissingS3SecretKey,
    /// The S3 bucket name was not provided.
    MissingS3Bucket,
    /// The S3 profile name contains unsupported control characters.
    InvalidS3Name,
    /// Another profile already uses the selected S3 profile name.
    DuplicateS3Name {
        /// The display-safe duplicate profile name.
        name: String,
    },
    /// The selected S3 profile was removed or could not be found.
    S3ProfileNotFound {
        /// The display-safe profile name.
        name: String,
    },
    /// The S3 region was not provided.
    MissingS3Region,
    /// The S3 endpoint is not an HTTP(S) endpoint.
    InvalidS3Endpoint,
    /// The S3 signing region contains unsupported whitespace or control characters.
    InvalidS3Region,
    /// The S3 bucket name contains unsupported whitespace or control characters.
    InvalidS3Bucket,
    /// The current user's home directory could not be resolved.
    HomeDirectoryUnavailable,
    /// The application could not read its configuration file.
    Read {
        /// The path that was read.
        path: PathBuf,
        /// The operating-system error.
        source: io::Error,
    },
    /// The configuration file is not valid JSON or does not match the supported schema.
    InvalidFile {
        /// The path containing invalid data.
        path: PathBuf,
        /// The JSON parsing error without echoing the file contents.
        source: JsonError,
    },
    /// The application could not create the private configuration directory.
    CreateDirectory {
        /// The directory that was requested.
        path: PathBuf,
        /// The operating-system error.
        source: io::Error,
    },
    /// The application could not persist the configuration file.
    Write {
        /// The path that was written.
        path: PathBuf,
        /// The operating-system error.
        source: io::Error,
    },
    /// The in-memory configuration could not be encoded as JSON.
    Serialize(JsonError),
}

/// Errors returned by the TMDB transport and response-mapping boundary.
#[derive(Debug, Clone, PartialEq, Eq)]
pub enum TmdbError {
    /// The reusable HTTP client could not be initialized.
    ClientBuild {
        /// A sanitized client-construction explanation.
        message: String,
    },
    /// The configured base URL is not an HTTP(S) URL that can accept path segments.
    InvalidBaseUrl,
    /// TMDB rejected the configured credential.
    Authentication {
        /// The HTTP status returned by TMDB.
        status: u16,
    },
    /// TMDB asked the client to slow down.
    RateLimited {
        /// The optional server-provided delay, retained for callers that want to render it.
        retry_after_seconds: Option<u64>,
    },
    /// A requested TMDB resource does not exist.
    NotFound {
        /// A safe resource description such as `movie 550`.
        resource: String,
    },
    /// The selected endpoint returned an explicitly different media namespace.
    MediaTypeMismatch {
        /// The media namespace selected by the user.
        expected: MediaType,
        /// The safe type label returned by TMDB.
        actual: String,
    },
    /// TMDB returned a server-side failure.
    Server {
        /// The HTTP status returned by TMDB.
        status: u16,
    },
    /// The request exceeded the configured timeout.
    Timeout {
        /// A safe operation description without a URL or credential.
        operation: String,
    },
    /// The request failed before a valid response was received.
    Network {
        /// A safe operation description without a URL or credential.
        operation: String,
    },
    /// TMDB returned JSON that could not be mapped to the expected response.
    InvalidResponse {
        /// A safe operation description without a URL or credential.
        operation: String,
        /// A parser or invariant explanation that does not contain the response body.
        reason: String,
    },
    /// TMDB returned an unhandled HTTP status.
    UnexpectedStatus {
        /// A safe operation description without a URL or credential.
        operation: String,
        /// The unexpected HTTP status.
        status: u16,
    },
    /// A requested episode does not exist in the selected series.
    EpisodeNotFound {
        /// The verified series ID.
        series_id: u64,
        /// The requested season.
        season: u32,
        /// The requested episode.
        episode: u32,
    },
    /// A search request was given no usable text.
    EmptySearchQuery,
    /// A search page number was outside the TMDB range.
    InvalidSearchPage,
}

/// Errors raised while composing or parsing metadata-bearing filenames.
#[derive(Debug, Clone, PartialEq, Eq)]
pub enum NamingError {
    /// A filename was requested for the wrong TMDB namespace.
    MediaTypeMismatch {
        /// The namespace required by the filename operation.
        expected: MediaType,
        /// The namespace carried by the verified TMDB item.
        actual: MediaType,
    },
    /// No usable title remained after normalization and fallback selection.
    EmptyTitle,
    /// The selected or parsed extension is outside the supported video policy.
    UnsupportedVideoExtension {
        /// A safe representation of the unsupported extension.
        extension: String,
    },
    /// A parsed filename violates the generated filename contract.
    InvalidGeneratedFilename {
        /// A concise, static explanation safe for normal CLI output.
        reason: &'static str,
    },
    /// The fixed identity prefix and extension leave no safe title capacity.
    FilenameTooLong,
}

/// Errors raised while combining selections, verified metadata, and generated names into a plan.
#[derive(Debug)]
pub enum PlanningError {
    /// No source file was available to organize.
    EmptyPlan,
    /// A selected source folder unexpectedly contains no files.
    NoSelectedFiles { folder: PathBuf },
    /// The same series episode was assigned to more than one selected file.
    DuplicateSeriesEpisode {
        series_id: u64,
        season: u32,
        episode: u32,
        file: PathBuf,
    },
}

/// Errors raised while resolving the working directory, destination, or selectable media.
#[derive(Debug)]
pub enum FilesystemError {
    /// The process working directory could not be obtained.
    CurrentDirectory {
        /// The operating-system error.
        source: io::Error,
    },
    /// The resolved source root could not be inspected as a directory.
    SourceRootMetadata {
        /// The source-root path.
        path: PathBuf,
        /// The operating-system error.
        source: io::Error,
    },
    /// The current working directory resolved to a non-directory path.
    SourceRootNotDirectory {
        /// The invalid source-root path.
        path: PathBuf,
    },
    /// A directory could not be enumerated.
    ReadDirectory {
        /// The directory that was being enumerated.
        path: PathBuf,
        /// The operating-system error.
        source: io::Error,
    },
    /// A selected source file or folder could not be inspected.
    SourceMetadata {
        /// The source path that was inspected.
        path: PathBuf,
        /// The operating-system error.
        cause: io::Error,
    },
    /// The user submitted an empty destination path.
    EmptyDestination,
    /// The destination string cannot be represented as a safe path input.
    InvalidDestination {
        /// The sanitized user input retained for the diagnostic.
        input: String,
        /// The boundary validation reason.
        reason: String,
    },
    /// The destination path could not be inspected.
    DestinationMetadata {
        /// The destination path.
        path: PathBuf,
        /// The operating-system error.
        source: io::Error,
    },
    /// The destination path already exists as a regular file.
    DestinationIsFile {
        /// The existing file path.
        path: PathBuf,
    },
    /// A symbolic link was supplied where a real destination directory is required.
    DestinationSymlink {
        /// The symbolic-link path.
        path: PathBuf,
    },
    /// The existing destination has a type that cannot safely be used as a directory.
    DestinationUnsupportedType {
        /// The unsupported path.
        path: PathBuf,
    },
    /// A missing destination has a parent that is not a directory.
    DestinationParentNotDirectory {
        /// The invalid parent path.
        path: PathBuf,
    },
    /// The current source root cannot also be the destination.
    DestinationIsSourceRoot {
        /// The rejected destination path.
        path: PathBuf,
    },
    /// The destination would be inside a selected source folder.
    DestinationIsSelectedSource {
        /// The rejected destination path.
        path: PathBuf,
    },
    /// The operation plan contains no files.
    EmptyOperationPlan,
    /// A selected source folder no longer exists.
    SourceFolderNotFound {
        /// The missing source folder.
        path: PathBuf,
    },
    /// A selected source folder is no longer a real directory.
    SourceFolderInvalid {
        /// The invalid source folder.
        path: PathBuf,
    },
    /// A source path selected during planning no longer exists.
    SourceNotFound {
        /// The missing source path.
        path: PathBuf,
    },
    /// A source path is no longer a regular file.
    SourceNotRegularFile {
        /// The changed source path.
        path: PathBuf,
    },
    /// A source path became a symbolic link after selection.
    SourceSymlink {
        /// The unsafe source path.
        path: PathBuf,
    },
    /// A source path no longer has a recognized video extension.
    SourceUnsupportedExtension {
        /// The source path with the unsupported extension.
        path: PathBuf,
    },
    /// The source file's extension changed after it was selected.
    SourceExtensionChanged {
        /// The changed source path.
        path: PathBuf,
        /// The extension captured in the plan.
        expected: String,
        /// The extension observed during revalidation.
        actual: String,
    },
    /// The source file changed after the plan was built.
    SourceChanged {
        /// The changed source path.
        path: PathBuf,
    },
    /// A selected file is not inside the source folder recorded for its operation.
    SourceFolderMismatch {
        /// The source path.
        source_path: PathBuf,
        /// The recorded source folder.
        folder: PathBuf,
    },
    /// One source file was included more than once in a plan.
    DuplicateSource {
        /// The duplicated source path.
        path: PathBuf,
    },
    /// A generated destination path already exists.
    DestinationAlreadyExists {
        /// The conflicting destination path.
        path: PathBuf,
    },
    /// Two operations generated the same destination path.
    DuplicateDestination {
        /// The duplicated destination path.
        path: PathBuf,
    },
    /// A destination changed state between selection and validation.
    DestinationStateChanged {
        /// The changed destination path.
        path: PathBuf,
    },
    /// The existing destination directory cannot be written safely.
    DestinationNotWritable {
        /// The destination directory.
        path: PathBuf,
    },
    /// The plan does not have permission to create the selected destination.
    DestinationCreationNotAllowed {
        /// The deferred destination path.
        path: PathBuf,
    },
    /// A destination could not be created at the commit point.
    DestinationCreation {
        /// The destination directory.
        path: PathBuf,
        /// The operating-system error.
        cause: io::Error,
    },
    /// A generated destination escaped the selected destination directory.
    DestinationEscapes {
        /// The unsafe destination path.
        path: PathBuf,
    },
    /// A source and destination path refer to the same file.
    SourceDestinationSame {
        /// The conflicting path.
        path: PathBuf,
    },
    /// A no-replace same-volume publication failed.
    SameVolumeMove {
        /// The source path.
        source_path: PathBuf,
        /// The destination path.
        destination: PathBuf,
        /// The operating-system error.
        cause: io::Error,
    },
    /// A cross-volume copy or its temporary-file lifecycle failed.
    CrossVolumeCopy {
        /// The source path.
        source_path: PathBuf,
        /// The destination path.
        destination: PathBuf,
        /// A safe operation description.
        reason: String,
    },
    /// The copied bytes did not match the source snapshot.
    CopyVerification {
        /// The source path.
        source_path: PathBuf,
        /// The destination path.
        destination: PathBuf,
        /// A safe verification explanation.
        reason: String,
    },
    /// The temporary copy could not be published without replacement.
    DestinationPublication {
        /// The final destination path.
        path: PathBuf,
        /// The operating-system error.
        cause: io::Error,
    },
    /// The verified destination exists but the source could not be removed.
    SourceRemoval {
        /// The source path that remains.
        path: PathBuf,
        /// The operating-system error.
        cause: io::Error,
    },
    /// A selected file completed, but its containing source folder could not be removed.
    SourceFolderRemoval {
        /// The source folder that could not be removed.
        path: PathBuf,
        /// The operating-system error.
        cause: io::Error,
    },
    /// A temporary artifact could not be removed after a failed operation.
    TemporaryCleanup {
        /// The temporary artifact path.
        path: PathBuf,
        /// The operating-system error.
        cause: io::Error,
    },
}

/// Errors raised by a configured storage backend or by a cross-storage transfer.
///
/// This type deliberately stores only safe operation descriptions. In particular, an SDK error
/// is never retained or formatted because its debug representation could eventually contain
/// request details that do not belong in normal CLI output.
#[derive(Debug)]
pub enum StorageError {
    /// The user confirmed an empty storage plan.
    EmptyPlan,
    /// A local adapter operation failed.
    Local {
        /// The safe operation description.
        operation: &'static str,
        /// A sanitized operating-system explanation.
        message: String,
    },
    /// An S3 request failed before a usable result was returned.
    S3Request {
        /// The safe S3 operation description.
        operation: &'static str,
    },
    /// S3 rejected the configured credentials or authorization signature.
    S3Authentication {
        /// The safe S3 operation description.
        operation: &'static str,
    },
    /// S3 asked the client to slow down.
    S3RateLimited {
        /// The safe S3 operation description.
        operation: &'static str,
    },
    /// S3 returned a response that violated the expected object contract.
    S3InvalidResponse {
        /// The safe S3 operation description.
        operation: &'static str,
    },
    /// A storage path cannot be represented safely by the selected backend.
    InvalidPath {
        /// A display-safe relative path or object key.
        path: String,
        /// The validation reason.
        reason: &'static str,
    },
    /// The selected source disappeared or changed before publication.
    SourceChanged {
        /// A display-safe source path.
        path: String,
    },
    /// A destination object or file already exists.
    DestinationAlreadyExists {
        /// A display-safe destination path.
        path: String,
    },
    /// A source-to-destination transfer failed before publication completed.
    Transfer {
        /// A display-safe source path.
        source_path: String,
        /// A display-safe destination path.
        destination: String,
        /// A safe transfer explanation.
        reason: String,
    },
    /// A published destination could not be verified against the planned source size.
    CopyVerification {
        /// A display-safe destination path.
        path: String,
    },
    /// The local destination could not be created at the commit point.
    DestinationCreation {
        /// A display-safe destination path.
        path: String,
        /// A sanitized operating-system explanation.
        message: String,
    },
    /// A local temporary file could not be published without replacement.
    DestinationPublication {
        /// A display-safe destination path.
        path: String,
        /// A sanitized operating-system explanation.
        message: String,
    },
    /// The source could not be removed after the destination was verified.
    SourceRemoval {
        /// A display-safe source path.
        path: String,
        /// A sanitized operating-system explanation.
        message: String,
    },
    /// A selected file completed, but its containing S3 prefix or local folder could not be removed.
    SourceFolderRemoval {
        /// A display-safe source folder or S3 prefix.
        path: String,
        /// A safe cleanup explanation.
        message: String,
    },
    /// A temporary local artifact could not be removed after an unsuccessful transfer.
    TemporaryCleanup {
        /// A display-safe temporary path.
        path: String,
        /// A sanitized operating-system explanation.
        message: String,
    },
    /// The requested backend combination is not supported by the current adapter.
    UnsupportedTransfer,
}

/// Errors raised at the interactive terminal boundary.
#[derive(Debug)]
pub enum UiError {
    /// The process was started without interactive input and output streams.
    NotInteractive,
    /// The user interrupted a prompt in a context that cannot represent cancellation as a value.
    Canceled,
    /// A prompt or terminal operation failed.
    Prompt(io::Error),
    /// A selection prompt was asked to render without any options.
    EmptySelection { context: &'static str },
    /// A UI implementation returned a position outside the options it was given.
    InvalidSelection { context: &'static str },
    /// The progress renderer could not be configured.
    ProgressStyle(String),
}

/// Errors that can terminate the application before a successful outcome.
#[derive(Debug)]
pub enum AppError {
    /// Startup configuration was invalid.
    Configuration(ConfigError),
    /// An input could not become a valid domain value.
    Domain(DomainError),
    /// TMDB rejected a request or returned an unusable response.
    Tmdb(TmdbError),
    /// Filename generation or parsing failed.
    Naming(NamingError),
    /// The selections and verified metadata cannot form one safe operation plan.
    Planning(PlanningError),
    /// Filesystem discovery or destination validation failed.
    Filesystem(FilesystemError),
    /// Storage discovery, S3 access, validation, or cross-storage execution failed.
    Storage(StorageError),
    /// The normal wizard requires an interactive terminal.
    NonInteractive,
    /// The UI boundary failed while collecting or rendering interaction state.
    Ui(UiError),
}

/// The exit code for a user-correctable failure.
pub const USAGE_EXIT_CODE: i32 = 2;

/// The exit code for a runtime failure.
pub const FAILURE_EXIT_CODE: i32 = 1;

impl ConfigError {
    /// The configuration failures that the user corrects by changing input.
    pub open spec fn is_usage_error(&self) -> bool {
        ||| self is MissingApiKey
        ||| self is InvalidLanguage
        ||| self is MissingS3Name
        ||| self is MissingS3AccessKey
        ||| self is MissingS3SecretKey
        ||| self is MissingS3Bucket
        ||| self is MissingS3Region
        ||| self is InvalidS3Endpoint
        ||| self is InvalidS3Region
        ||| self is InvalidS3Bucket
        ||| self is InvalidS3Name
        ||| self is DuplicateS3Name
        ||| self is S3ProfileNotFound
        ||| self is InvalidFile
    }

    /// Returns the exit code appropriate for a configuration failure.
    pub fn exit_code(&self) -> (r: i32)
        ensures
            r == if self.is_usage_error() {
                USAGE_EXIT_CODE
            } else {
                FAILURE_EXIT_CODE
            },
    {
        match self {
            Self::MissingApiKey
            | Self::InvalidLanguage
            | Self::MissingS3Name
            | Self::MissingS3AccessKey
            | Self::MissingS3SecretKey
            | Self::MissingS3Bucket
            | Self::MissingS3Region
            | Self::InvalidS3Endpoint
            | Self::InvalidS3Region
            | Self::InvalidS3Bucket
            | Self::InvalidS3Name
            | Self::DuplicateS3Name { .. }
            | Self::S3ProfileNotFound { .. }
            | Self::InvalidFile { .. } => 2,
            Self::HomeDirectoryUnavailable
            | Self::Read { .. }
            | Self::CreateDirectory { .. }
            | Self::Write { .. }
            | Self::Serialize(_) => 1,
        }
    }
}

impl TmdbError {
    /// The TMDB failures that the user corrects by changing input or configuration.
    pub open spec fn is_usage_error(&self) -> bool {
        ||| self is Authentication
        ||| self is InvalidBaseUrl
        ||| self is EmptySearchQuery
        ||| self is InvalidSearchPage
        ||| self is MediaTypeMismatch
    }

    /// Returns whether the error means the saved credential must be replaced.
    pub fn is_authentication(&self) -> (r: bool)
        ensures
            r == (self is Authentication),
    {
        matches!(self, Self::Authentication { .. })
    }

    /// Returns the process exit code appropriate for this TMDB failure.
    pub fn exit_code(&self) -> (r: i32)
        ensures
            r == if self.is_usage_error() {
                USAGE_EXIT_CODE
            } else {
                FAILURE_EXIT_CODE
            },
    {
        match self {
            Self::Authentication { .. }
            | Self::InvalidBaseUrl
            | Self::EmptySearchQuery
            | Self::InvalidSearchPage
            | Self::MediaTypeMismatch { .. } => 2,
            Self::ClientBuild { .. }
            | Self::RateLimited { .. }
            | Self::NotFound { .. }
            | Self::Server { .. }
            | Self::Timeout { .. }
            | Self::Network { .. }
            | Self::InvalidResponse { .. }
            | Self::UnexpectedStatus { .. }
            | Self::EpisodeNotFound { .. } => 1,
        }
    }
}

impl FilesystemError {
    /// The filesystem failures that the user corrects by changing a selection or path.
    pub open spec fn is_usage_error(&self) -> bool {
        ||| self is EmptyDestination
        ||| self is InvalidDestination
        ||| self is DestinationIsFile
        ||| self is DestinationSymlink
        ||| self is DestinationUnsupportedType
        ||| self is DestinationParentNotDirectory
        ||| self is DestinationIsSourceRoot
        ||| self is DestinationIsSelectedSource
        ||| self is EmptyOperationPlan
        ||| self is SourceFolderNotFound
        ||| self is SourceFolderInvalid
        ||| self is SourceNotFound
        ||| self is SourceNotRegularFile
        ||| self is SourceSymlink
        ||| self is SourceUnsupportedExtension
        ||| self is SourceExtensionChanged
        ||| self is SourceChanged
        ||| self is SourceFolderMismatch
        ||| self is DuplicateSource
        ||| self is DestinationAlreadyExists
        ||| self is DuplicateDestination
        ||| self is DestinationStateChanged
        ||| self is DestinationNotWritable
        ||| self is DestinationCreationNotAllowed
        ||| self is DestinationEscapes
        ||| self is SourceDestinationSame
    }

    /// Returns the process exit code appropriate for a filesystem failure.
    pub fn exit_code(&self) -> (r: i32)
        ensures
            r == if self.is_usage_error() {
                USAGE_EXIT_CODE
            } else {
                FAILURE_EXIT_CODE
            },
    {
        match self {
            Self::EmptyDestination
            | Self::InvalidDestination { .. }
            | Self::DestinationIsFile { .. }
            | Self::DestinationSymlink { .. }
            | Self::DestinationUnsupportedType { .. }
            | Self::DestinationParentNotDirectory { .. }
            | Self::DestinationIsSourceRoot { .. }
            | Self::DestinationIsSelectedSource { .. }
            | Self::EmptyOperationPlan
            | Self::SourceFolderNotFound { .. }
            | Self::SourceFolderInvalid { .. }
            | Self::SourceNotFound { .. }
            | Self::SourceNotRegularFile { .. }
            | Self::SourceSymlink { .. }
            | Self::SourceUnsupportedExtension { .. }
            | Self::SourceExtensionChanged { .. }
            | Self::SourceChanged { .. }
            | Self::SourceFolderMismatch { .. }
            | Self::DuplicateSource { .. }
            | Self::DestinationAlreadyExists { .. }
            | Self::DuplicateDestination { .. }
            | Self::DestinationStateChanged { .. }
            | Self::DestinationNotWritable { .. }
            | Self::DestinationCreationNotAllowed { .. }
            | Self::DestinationEscapes { .. }
            | Self::SourceDestinationSame { .. } => 2,
            Self::CurrentDirectory { .. }
            | Self::SourceRootMetadata { .. }
            | Self::SourceRootNotDirectory { .. }
            | Self::ReadDirectory { .. }
            | Self::DestinationMetadata { .. }
            | Self::SourceMetadata { .. }
            | Self::DestinationCreation { .. }
            | Self::SameVolumeMove { .. }
            | Self::CrossVolumeCopy { .. }
            | Self::CopyVerification { .. }
            | Self::DestinationPublication { .. }
            | Self::SourceRemoval { .. }
            | Self::SourceFolderRemoval { .. }
            | Self::TemporaryCleanup { .. } => 1,
        }
    }
}

impl StorageError {
    /// The storage failures that the user corrects by changing a selection or path.
    pub open spec fn is_usage_error(&self) -> bool {
        ||| self is EmptyPlan
        ||| self is InvalidPath
        ||| self is DestinationAlreadyExists
    }

    /// Returns the process exit code appropriate for storage failures.
    pub fn exit_code(&self) -> (r: i32)
        ensures
            r == if self.is_usage_error() {
                USAGE_EXIT_CODE
            } else {
                FAILURE_EXIT_CODE
            },
    {
        match self {
            Self::EmptyPlan | Self::InvalidPath { .. } | Self::DestinationAlreadyExists { .. } => 2,
            Self::Local { .. }
            | Self::S3Request { .. }
            | Self::S3Authentication { .. }
            | Self::S3RateLimited { .. }
            | Self::S3InvalidResponse { .. }
            | Self::SourceChanged { .. }
            | Self::Transfer { .. }
            | Self::CopyVerification { .. }
            | Self::DestinationCreation { .. }
            | Self::DestinationPublication { .. }
            | Self::SourceRemoval { .. }
            | Self::SourceFolderRemoval { .. }
            | Self::TemporaryCleanup { .. }
            | Self::UnsupportedTransfer => 1,
        }
    }
}

/// Takes the `std::io::Error` out of `dialoguer::Error::IO`, the crate's only variant. The
/// contract claims nothing of the result: the error value is opaque to the verifier.
#[verifier::external_body]
fn dialoguer_io_error(error: dialoguer::Error) -> io::Error {
    match error {
        dialoguer::Error::IO(io_error) => io_error,
    }
}

/// Whether `std::io::Error::kind` reports `ErrorKind::Interrupted`, which is how the
/// terminal reports Ctrl-C. The contract claims nothing of the result: the error's kind is
/// not visible to the verifier.
#[verifier::external_body]
fn is_interrupted(error: &io::Error) -> bool {
    error.kind() == io::ErrorKind::Interrupted
}

impl UiError {
    /// Converts a dialoguer error while preserving Ctrl-C as a cancellation value.
    pub fn from_dialoguer(error: dialoguer::Error) -> (r: Self)
        ensures
            r is Canceled || r is Prompt,
    {
        let io_error = dialoguer_io_error(error);
        let interrupted = is_interrupted(&io_error);
        Self::from_prompt_failure(io_error, interrupted)
    }

    /// A failed prompt: an interruption (Ctrl-C) is a cancellation, anything else keeps
    /// the terminal's error.
    pub fn from_prompt_failure(error: io::Error, interrupted: bool) -> (r: Self)
        ensures
            interrupted ==> r is Canceled,
            !interrupted ==> r == UiError::Prompt(error),
    {
        if interrupted {
            Self::Canceled
        } else {
            Self::Prompt(error)
        }
    }
}

impl AppError {
    /// The exit code of the wrapped error, `2` for domain, naming, planning and
    /// non-interactive failures, and `1` for UI failures.
    pub open spec fn spec_exit_code(&self) -> i32 {
        match self {
            AppError::Configuration(e) => if e.is_usage_error() {
                USAGE_EXIT_CODE
            } else {
                FAILURE_EXIT_CODE
            },
            AppError::Domain(_) => USAGE_EXIT_CODE,
            AppError::Tmdb(e) => if e.is_usage_error() {
                USAGE_EXIT_CODE
            } else {
                FAILURE_EXIT_CODE
            },
            AppError::Naming(_) => USAGE_EXIT_CODE,
            AppError::Planning(_) => USAGE_EXIT_CODE,
            AppError::Filesystem(e) => if e.is_usage_error() {
                USAGE_EXIT_CODE
            } else {
                FAILURE_EXIT_CODE
            },
            AppError::Storage(e) => if e.is_usage_error() {
                USAGE_EXIT_CODE
            } else {
                FAILURE_EXIT_CODE
            },
            AppError::NonInteractive => USAGE_EXIT_CODE,
            AppError::Ui(_) => FAILURE_EXIT_CODE,
        }
    }

    /// Maps the typed application error to the documented CLI exit-code contract.
    pub fn exit_code(&self) -> (r: i32)
        ensures
            r == self.spec_exit_code(),
    {
        match self {
            Self::Configuration(error) => error.exit_code(),
            Self::Domain(_) => 2,
            Self::Tmdb(error) => error.exit_code(),
            Self::Naming(_) => 2,
            Self::Planning(_) => 2,
            Self::Filesystem(error) => error.exit_code(),
            Self::Storage(error) => error.exit_code(),
            Self::NonInteractive => 2,
            Self::Ui(_) => 1,
        }
    }
}

} // verus!
