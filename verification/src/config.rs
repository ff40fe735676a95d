//! The consent record: the decision whether usage data may be sent, with the
//! identity and the time of its making, and the place where it is kept.

use crate::error::{TelemetryError, TelemetryErrorView, TelemetryResult};
use crate::keys::text_of;
use crate::text::{has_prefix, has_suffix, join};
use vstd::prelude::*;

verus! {

/// `directories::ProjectDirs`, the directories that the platform gives a project.
/// It is handed from one lookup to the next; nothing is known of what it holds.
#[verifier::external_type_specification]
#[verifier::external_body]
pub struct ExProjectDirs(directories::ProjectDirs);

/// The name of the file that holds the record, below the application's
/// configuration directory.
pub const CONFIG_FILE_NAME: &'static str = "telemetry.json";

/// The qualifier under which the platform files the application's directories.
pub const PROJECT_QUALIFIER: &'static str = "com";

/// The organization under which the platform files the application's directories.
pub const PROJECT_ORGANIZATION: &'static str = "matter-labs";

/// The earliest second that the calendar holds: the start of the year -262143.
pub const MIN_SECONDS: i64 = -8_334_601_228_800;

/// The latest second that the calendar holds: the end of the year 262142.
pub const MAX_SECONDS: i64 = 8_210_266_876_799;

/// A point in time, in UTC: whole seconds since the start of 1970, and the
/// nanoseconds since the last full second.
#[derive(Clone, Copy, Debug, PartialEq, Eq, Structural)]
pub struct Timestamp {
    pub seconds: i64,
    pub nanoseconds: u32,
}

impl Timestamp {
    /// The time is one that the calendar holds: the second lies within its years,
    /// and the nanoseconds stay below a full second, or below two in the last
    /// second of a minute, where a leap second is written so.
    pub open spec fn valid(self) -> bool {
        &&& MIN_SECONDS <= self.seconds <= MAX_SECONDS
        &&& (self.nanoseconds < 1_000_000_000 || (self.nanoseconds < 2_000_000_000
            && self.seconds % 60 == 59))
    }

    /// Decides whether the time is one that the calendar holds.
    pub fn is_valid(&self) -> (valid: bool)
        ensures
            valid == self.valid(),
    {
        if self.seconds < MIN_SECONDS || self.seconds > MAX_SECONDS {
            return false;
        }
        if self.nanoseconds < 1_000_000_000 {
            return true;
        }
        let since_first: i64 = self.seconds - MIN_SECONDS;
        assert(since_first % 60 == self.seconds % 60) by {
            assert(MIN_SECONDS == -138_910_020_480 * 60);
        }
        self.nanoseconds < 2_000_000_000 && since_first % 60 == 59
    }
}

/// The persisted decision.
#[derive(Debug, PartialEq, Eq)]
pub struct TelemetryConfig {
    /// Whether data may be sent.
    pub enabled: bool,
    /// The random identifier of this installation.
    pub instance_id: String,
    /// When the record was made.
    pub created_at: Timestamp,
    /// Where the record is kept, if it is kept anywhere.
    pub config_path: Option<String>,
}

/// The record as a mathematical value.
pub struct TelemetryConfigView {
    pub enabled: bool,
    pub instance_id: Seq<char>,
    pub created_at: Timestamp,
    pub config_path: Option<Seq<char>>,
}

impl View for TelemetryConfig {
    type V = TelemetryConfigView;

    open spec fn view(&self) -> TelemetryConfigView {
        TelemetryConfigView {
            enabled: self.enabled,
            instance_id: self.instance_id@,
            created_at: self.created_at,
            config_path: text_of(self.config_path),
        }
    }
}

/// A digit of lower-case hexadecimal notation.
pub open spec fn is_lower_hex(c: char) -> bool {
    ('0' <= c && c <= '9') || ('a' <= c && c <= 'f')
}

/// The hyphenated lower-case notation of a random (version 4) UUID: 36 characters
/// in groups of 8, 4, 4, 4 and 12 hexadecimal digits with hyphens between them, the
/// third group beginning with `4` and the fourth with `8`, `9`, `a` or `b`.
pub open spec fn is_random_identifier(id: Seq<char>) -> bool {
    &&& id.len() == 36
    &&& forall|i: int|
        0 <= i < 36 ==> if i == 8 || i == 13 || i == 18 || i == 23 {
            #[trigger] id[i] == '-'
        } else {
            is_lower_hex(id[i])
        }
    &&& id[14] == '4'
    &&& (id[19] == '8' || id[19] == '9' || id[19] == 'a' || id[19] == 'b')
}

/// Calls `uuid::Uuid::new_v4` and writes the identifier with its `Display`.
/// Trusted: whatever the random bits, the text is the hyphenated lower-case
/// notation with the version and variant marks of a random UUID.
#[verifier::external_body]
fn random_identifier() -> (id: String)
    ensures
        is_random_identifier(id@),
{
    uuid::Uuid::new_v4().to_string()
}

/// Calls `chrono::Utc::now` and takes the time apart with `DateTime::timestamp`
/// and `DateTime::timestamp_subsec_nanos`. Trusted: whatever the clock shows, the
/// time is one that the calendar holds, not before 1970 and no leap second.
#[verifier::external_body]
fn current_time() -> (now: Timestamp)
    ensures
        now.valid(),
        now.seconds >= 0,
        now.nanoseconds < 1_000_000_000,
{
    let now = chrono::Utc::now();
    Timestamp { seconds: now.timestamp(), nanoseconds: now.timestamp_subsec_nanos() }
}

/// Calls `directories::ProjectDirs::from`, which looks up where this platform keeps
/// the files of a project, and finds nothing where the platform names no home
/// directory. Nothing is claimed of the result.
#[verifier::external_body]
fn project_dirs(qualifier: &str, organization: &str, application: &str) -> (dirs: Option<
    directories::ProjectDirs,
>) {
    directories::ProjectDirs::from(qualifier, organization, application)
}

/// Calls `directories::ProjectDirs::config_dir` and hands the directory out as a
/// text, if it can be written as one. Nothing is claimed of the result.
#[verifier::external_body]
fn config_dir(dirs: &directories::ProjectDirs) -> (directory: Option<String>) {
    dirs.config_dir().to_str().map(String::from)
}

/// The name of one plain entry of a directory: not empty, not beginning with a
/// dot, and without a separator or a colon.
pub open spec fn is_file_name(name: Seq<char>) -> bool {
    &&& name.len() > 0
    &&& name[0] != '.'
    &&& forall|i: int|
        0 <= i < name.len() ==> #[trigger] name[i] != '/' && name[i] != '\\' && name[i] != ':'
}

/// A directory in the verbatim notation of Windows, which begins with `\\?\`.
/// Such a directory is written anew when an entry is added to it.
pub open spec fn is_verbatim(directory: Seq<char>) -> bool {
    has_prefix(directory, "\\\\?\\"@)
}

/// `path` names the entry `name` of `directory`: it ends with the name, and it
/// begins with the directory unless that is in verbatim notation.
pub open spec fn is_entry_of(path: Seq<char>, directory: Seq<char>, name: Seq<char>) -> bool {
    &&& has_suffix(path, name)
    &&& !is_verbatim(directory) ==> has_prefix(path, directory)
}

/// Calls `std::path::Path::join`, which names the entry `name` of `directory` as this
/// platform writes it. Trusted: the name of a plain entry extends the directory,
/// so the path ends with the name and, the verbatim notation apart, begins with
/// the directory. What stands between the two is the platform's.
#[verifier::external_body]
fn join_path(directory: &str, name: &str) -> (path: String)
    ensures
        is_file_name(name@) ==> is_entry_of(path@, directory@, name@),
{
    std::path::Path::new(directory).join(name).to_string_lossy().into_owned()
}

/// What is to be written to the store: the whole record, and the file it goes to.
#[derive(Debug)]
pub struct SaveRequest {
    pub path: String,
    pub config: TelemetryConfig,
}

/// How an attempt to write a record ended. A failure names the step that failed
/// and carries the reason that the system gave.
#[derive(Debug)]
pub enum SaveOutcome {
    /// The record is in its file.
    Written,
    /// The directory of the file is missing and could not be made.
    DirectoryFailed(String),
    /// The file could not be opened for writing.
    CreateFailed(String),
    /// The document could not be produced or written.
    WriteFailed(String),
}

/// What the platform is asked when it is to name the place of a record.
#[derive(Debug)]
pub struct ProjectLookup<'a> {
    pub qualifier: &'a str,
    pub organization: &'a str,
    pub application: &'a str,
    pub file_name: &'a str,
}

/// What the platform answers when asked for an application's configuration
/// directory.
#[derive(Debug)]
pub enum PlatformDirectory {
    /// It names no directories at all.
    Nowhere,
    /// It names a directory that cannot be written as a text.
    NotText,
    /// The directory.
    At(String),
}

/// The error for a platform that names no place for the record.
pub open spec fn no_project_directories() -> TelemetryErrorView {
    TelemetryErrorView::EnvironmentError("Failed to get project directories"@)
}

/// The error for a platform whose directory cannot be written as a text.
pub open spec fn directory_not_text() -> TelemetryErrorView {
    TelemetryErrorView::InvalidPath("The configuration directory is no Unicode text"@)
}

/// What a lookup without a named path comes to: a path that ends with the
/// record's file name, or one of the two errors of the platform.
pub open spec fn is_default_path(path: TelemetryResult<String>) -> bool {
    match path {
        Ok(place) => has_suffix(place@, CONFIG_FILE_NAME@),
        Err(error) => error@ == no_project_directories() || error@ == directory_not_text(),
    }
}

/// The record's file name is the name of one plain entry.
pub proof fn lemma_config_file_name()
    ensures
        is_file_name(CONFIG_FILE_NAME@),
{
    reveal_strlit("telemetry.json");
    let name = CONFIG_FILE_NAME@;
    assert(name.len() == 14);
}

impl SaveOutcome {
    /// The error with which the first writing of a record fails.
    pub open spec fn creation_error(self) -> Option<TelemetryErrorView> {
        match self {
            SaveOutcome::Written => None,
            SaveOutcome::DirectoryFailed(reason) => Some(
                TelemetryErrorView::ConfigError("Failed to create config directory: "@ + reason@),
            ),
            SaveOutcome::CreateFailed(reason) => Some(
                TelemetryErrorView::ConfigError("Failed to create config file: "@ + reason@),
            ),
            SaveOutcome::WriteFailed(reason) => Some(
                TelemetryErrorView::ConfigError("Failed to write config: "@ + reason@),
            ),
        }
    }

    /// The error with which the writing of a changed decision fails.
    pub open spec fn update_error(self) -> Option<TelemetryErrorView> {
        match self {
            SaveOutcome::Written => None,
            SaveOutcome::DirectoryFailed(reason) => Some(
                TelemetryErrorView::ConfigError("Failed to create config directory: "@ + reason@),
            ),
            SaveOutcome::CreateFailed(reason) => Some(
                TelemetryErrorView::ConfigError("Failed to update telemetry consent: "@ + reason@),
            ),
            SaveOutcome::WriteFailed(reason) => Some(
                TelemetryErrorView::ConfigError("Failed to save telemetry consent: "@ + reason@),
            ),
        }
    }

    /// What the first writing of a record comes to.
    pub fn creation_result(&self) -> (result: TelemetryResult<()>)
        ensures
            match self.creation_error() {
                None => result is Ok,
                Some(expected) => result matches Err(error) && error@ == expected,
            },
    {
        match self {
            SaveOutcome::Written => Ok(()),
            SaveOutcome::DirectoryFailed(reason) => Err(
                TelemetryError::ConfigError(
                    join("Failed to create config directory: ", reason.as_str()),
                ),
            ),
            SaveOutcome::CreateFailed(reason) => Err(
                TelemetryError::ConfigError(
                    join("Failed to create config file: ", reason.as_str()),
                ),
            ),
            SaveOutcome::WriteFailed(reason) => Err(
                TelemetryError::ConfigError(join("Failed to write config: ", reason.as_str())),
            ),
        }
    }

    /// What the writing of a changed decision comes to.
    pub fn update_result(&self) -> (result: TelemetryResult<()>)
        ensures
            match self.update_error() {
                None => result is Ok,
                Some(expected) => result matches Err(error) && error@ == expected,
            },
    {
        match self {
            SaveOutcome::Written => Ok(()),
            SaveOutcome::DirectoryFailed(reason) => Err(
                TelemetryError::ConfigError(
                    join("Failed to create config directory: ", reason.as_str()),
                ),
            ),
            SaveOutcome::CreateFailed(reason) => Err(
                TelemetryError::ConfigError(
                    join("Failed to update telemetry consent: ", reason.as_str()),
                ),
            ),
            SaveOutcome::WriteFailed(reason) => Err(
                TelemetryError::ConfigError(
                    join("Failed to save telemetry consent: ", reason.as_str()),
                ),
            ),
        }
    }
}

impl Clone for TelemetryConfig {
    fn clone(&self) -> (copy: TelemetryConfig)
        ensures
            copy == *self,
    {
        let config_path = match &self.config_path {
            Some(path) => Some(path.clone()),
            None => None,
        };
        TelemetryConfig {
            enabled: self.enabled,
            instance_id: self.instance_id.clone(),
            created_at: self.created_at,
            config_path,
        }
    }
}

impl TelemetryConfig {
    /// The time of the record's making is one that the calendar holds.
    pub open spec fn wf(self) -> bool {
        self.created_at.valid()
    }

    /// Makes a record: the decision and the place are given, the identifier is
    /// drawn at random and the time is read from the clock.
    pub fn new(enabled: bool, config_path: Option<String>) -> (config: TelemetryConfig)
        ensures
            config.wf(),
            config.enabled == enabled,
            config.config_path == config_path,
            is_random_identifier(config.instance_id@),
    {
        TelemetryConfig {
            enabled,
            instance_id: random_identifier(),
            created_at: current_time(),
            config_path,
        }
    }

    /// The record with another decision, and all else as it is.
    pub open spec fn with_consent(self, enabled: bool) -> TelemetryConfig {
        TelemetryConfig {
            enabled,
            instance_id: self.instance_id,
            created_at: self.created_at,
            config_path: self.config_path,
        }
    }

    /// What is to be written for a record: the whole record to its place, and
    /// nothing for a record that has no place.
    pub open spec fn save_request(self) -> Option<SaveRequest> {
        match self.config_path {
            Some(path) => Some(SaveRequest { path, config: self }),
            None => None,
        }
    }

    /// Sets the decision and leaves the rest of the record as it is. A record that
    /// is kept somewhere is to be written there again, whole: the request says so.
    /// A record without a place changes in memory only.
    pub fn update_consent(&mut self, enabled: bool) -> (request: Option<SaveRequest>)
        ensures
            *final(self) == old(self).with_consent(enabled),
            request == final(self).save_request(),
    {
        self.enabled = enabled;
        match &self.config_path {
            Some(path) => Some(SaveRequest { path: path.clone(), config: self.clone() }),
            None => None,
        }
    }

    /// What the platform is asked for the record of `app_name`: the directories
    /// of that application of this organization, and in them the record's file.
    pub fn project_lookup<'a>(app_name: &'a str) -> (lookup: ProjectLookup<'a>)
        ensures
            lookup.qualifier@ == PROJECT_QUALIFIER@,
            lookup.organization@ == PROJECT_ORGANIZATION@,
            lookup.application@ == app_name@,
            lookup.file_name@ == CONFIG_FILE_NAME@,
    {
        ProjectLookup {
            qualifier: PROJECT_QUALIFIER,
            organization: PROJECT_ORGANIZATION,
            application: app_name,
            file_name: CONFIG_FILE_NAME,
        }
    }

    /// The file that this platform gives the record of `app_name`: the record's
    /// file in the application's configuration directory, or the error that says
    /// why the platform gives none.
    fn platform_config_path(app_name: &str) -> (path: TelemetryResult<String>)
        ensures
            is_default_path(path),
    {
        let lookup = Self::project_lookup(app_name);
        let found = match project_dirs(lookup.qualifier, lookup.organization, lookup.application) {
            None => PlatformDirectory::Nowhere,
            Some(dirs) => match config_dir(&dirs) {
                None => PlatformDirectory::NotText,
                Some(directory) => PlatformDirectory::At(directory),
            },
        };
        proof {
            lemma_config_file_name();
        }
        Self::default_config_path(found, lookup.file_name)
    }

    /// The place of the record where the caller names none: the entry `file_name`
    /// of the directory that the platform gives, and an error where it gives none
    /// or one that is no text.
    pub fn default_config_path(found: PlatformDirectory, file_name: &str) -> (path: TelemetryResult<
        String,
    >)
        ensures
            match found {
                PlatformDirectory::Nowhere => path matches Err(error) && error@
                    == no_project_directories(),
                PlatformDirectory::NotText => path matches Err(error) && error@
                    == directory_not_text(),
                PlatformDirectory::At(directory) => path matches Ok(place) && (is_file_name(
                    file_name@,
                ) ==> is_entry_of(place@, directory@, file_name@)),
            },
    {
        match found {
            PlatformDirectory::Nowhere => Err(
                TelemetryError::EnvironmentError(
                    String::from_str("Failed to get project directories"),
                ),
            ),
            PlatformDirectory::NotText => Err(
                TelemetryError::InvalidPath(
                    String::from_str("The configuration directory is no Unicode text"),
                ),
            ),
            PlatformDirectory::At(directory) => Ok(join_path(directory.as_str(), file_name)),
        }
    }

    /// The place of the record: the path that the caller names, as it is, else the
    /// file `telemetry.json` in the directory that the platform gives the
    /// application for its configuration.
    pub fn get_config_path(app_name: &str, custom_path: Option<String>) -> (path: TelemetryResult<
        String,
    >)
        ensures
            custom_path matches Some(expected) ==> path matches Ok(place) && place == expected,
            custom_path is None ==> is_default_path(path),
    {
        match custom_path {
            Some(path) => Ok(path),
            None => Self::platform_config_path(app_name),
        }
    }
}

} // verus!
