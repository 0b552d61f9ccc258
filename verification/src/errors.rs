//! The errors that the catalogue reports, and the message of each.
//!
//! An error of SQLite, of the file system or of the directory walk is carried as it came.
//! Its own text is whatever the crate that raised it prints; the messages here say what
//! stands around that text. The text of an error of SQLite has a name,
//! [`sqlite_message`], so that a message can be said to hold it.

use vstd::prelude::*;
use vstd::string::StringExecFns;
use crate::decimal::ParseIntError;

verus! {

#[verifier::external_type_specification]
#[verifier::external_body]
pub struct ExSqliteError(rusqlite::Error);

#[verifier::external_type_specification]
#[verifier::external_body]
pub struct ExIoError(std::io::Error);

#[verifier::external_type_specification]
#[verifier::external_body]
pub struct ExWalkError(walkdir::Error);

/// The text that a `rusqlite::Error` holds for its readers: what its `Display` writes.
pub uninterp spec fn sqlite_message(err: rusqlite::Error) -> Seq<char>;

/// Writes a `rusqlite::Error` out through its `Display`.
///
/// Trusted: the text is a function of the error alone. `Display` writes the message
/// that the error was made with, or a fixed text for its kind with the numbers and
/// names that it carries, or what the conversion error that it wraps writes for itself.
#[verifier::external_body]
pub(crate) fn sqlite_text(err: &rusqlite::Error) -> (text: String)
    ensures
        text@ == sqlite_message(*err),
{
    format!("{}", err)
}

/// The text that `std::io::Error` prints through `Display`. Nothing is claimed of it.
#[verifier::external_body]
fn io_text(err: &std::io::Error) -> (text: String) {
    format!("{}", err)
}

/// The text that `walkdir::Error` prints through `Display`. Nothing is claimed of it.
#[verifier::external_body]
fn walk_text(err: &walkdir::Error) -> (text: String) {
    format!("{}", err)
}

/// Whether `text` begins with `prefix`.
pub open spec fn starts_with(text: Seq<char>, prefix: Seq<char>) -> bool {
    prefix.len() <= text.len() && text.take(prefix.len() as int) == prefix
}

/// `before`, then `middle`, then `after`.
pub fn enclose(before: &str, middle: &str, after: &str) -> (text: String)
    ensures
        text@ == before@ + middle@ + after@,
{
    let mut text = before.to_owned();
    text.append(middle);
    text.append(after);
    text
}

/// `before`, then `detail`: a message that ends with a text from elsewhere.
pub fn introduce(before: &str, detail: String) -> (text: String)
    ensures
        text@ == before@ + detail@,
        starts_with(text@, before@),
{
    let mut text = before.to_owned();
    text.append(detail.as_str());
    assert(text@.take(before@.len() as int) =~= before@);
    text
}

impl ParseIntError {
    pub open spec fn message_text(self) -> Seq<char> {
        match self {
            ParseIntError::Empty => "cannot parse integer from empty string"@,
            ParseIntError::InvalidDigit => "invalid digit found in string"@,
            ParseIntError::PosOverflow => "number too large to fit in target type"@,
        }
    }

    /// Says why the text is no number.
    pub fn message(&self) -> (text: String)
        ensures
            text@ == self.message_text(),
    {
        match self {
            ParseIntError::Empty => "cannot parse integer from empty string".to_owned(),
            ParseIntError::InvalidDigit => "invalid digit found in string".to_owned(),
            ParseIntError::PosOverflow => "number too large to fit in target type".to_owned(),
        }
    }
}

/// Why the database could not be opened.
pub enum OpenDatabaseError {
    IO(std::io::Error),
    SQLite(rusqlite::Error),
    DataFolderNotFound,
}

impl OpenDatabaseError {
    /// Whether `text` can be the message of this error.
    pub open spec fn is_message(self, text: Seq<char>) -> bool {
        match self {
            OpenDatabaseError::IO(_) => true,
            OpenDatabaseError::SQLite(err) => text == sqlite_message(err),
            OpenDatabaseError::DataFolderNotFound => text == "data folder for Zik not found"@,
        }
    }

    pub fn message(&self) -> (text: String)
        ensures
            self.is_message(text@),
    {
        match self {
            OpenDatabaseError::IO(err) => io_text(err),
            OpenDatabaseError::SQLite(err) => sqlite_text(err),
            OpenDatabaseError::DataFolderNotFound => "data folder for Zik not found".to_owned(),
        }
    }
}

/// Why the schema could not be set up.
pub enum InitDatabaseError {
    SQLite(rusqlite::Error),
}

/// Why a path cannot be the library root.
pub enum GetLibraryPathError {
    DoesNotExist(String),
    NotADirectory(String),
    IO(std::io::Error),
}

impl GetLibraryPathError {
    /// Whether `text` can be the message of this error.
    pub open spec fn is_message(self, text: Seq<char>) -> bool {
        match self {
            GetLibraryPathError::DoesNotExist(path) => text == "path \""@ + path@
                + "\" does not exist"@,
            GetLibraryPathError::NotADirectory(path) => text == "path \""@ + path@
                + "\" is not a directory"@,
            GetLibraryPathError::IO(_) => starts_with(text, "unable to access path, err: "@),
        }
    }

    pub fn message(&self) -> (text: String)
        ensures
            self.is_message(text@),
    {
        match self {
            GetLibraryPathError::DoesNotExist(path) => enclose(
                "path \"",
                path.as_str(),
                "\" does not exist",
            ),
            GetLibraryPathError::NotADirectory(path) => enclose(
                "path \"",
                path.as_str(),
                "\" is not a directory",
            ),
            GetLibraryPathError::IO(err) => introduce("unable to access path, err: ", io_text(err)),
        }
    }
}

/// Why a configuration command failed.
pub enum CommandConfigError {
    SQLite(rusqlite::Error),
    InvalidKey(String),
    NoValue(String),
    GetLibraryPath(GetLibraryPathError),
    InvalidScanParallelismValue(ParseIntError),
}

impl CommandConfigError {
    /// Whether `text` can be the message of this error.
    pub open spec fn is_message(self, text: Seq<char>) -> bool {
        match self {
            CommandConfigError::SQLite(err) => text == "SQLite error, "@ + sqlite_message(err),
            CommandConfigError::InvalidKey(key) => text == "key name `"@ + key@ + "` is invalid"@,
            CommandConfigError::NoValue(key) => text == "no value for key name `"@ + key@ + "`"@,
            CommandConfigError::GetLibraryPath(err) => {
                &&& starts_with(text, "could not resolve library path: "@)
                &&& err.is_message(text.skip("could not resolve library path: "@.len() as int))
            },
            CommandConfigError::InvalidScanParallelismValue(err) => text
                == "`scan_parallelism` value \""@ + err.message_text() + "\" is invalid"@,
        }
    }

    pub fn message(&self) -> (text: String)
        ensures
            self.is_message(text@),
    {
        match self {
            CommandConfigError::SQLite(err) => introduce("SQLite error, ", sqlite_text(err)),
            CommandConfigError::InvalidKey(key) => enclose(
                "key name `",
                key.as_str(),
                "` is invalid",
            ),
            CommandConfigError::NoValue(key) => enclose("no value for key name `", key.as_str(), "`"),
            CommandConfigError::GetLibraryPath(err) => {
                let detail = err.message();
                let text = introduce("could not resolve library path: ", detail);
                assert(text@.skip("could not resolve library path: "@.len() as int) =~= detail@);
                text
            },
            CommandConfigError::InvalidScanParallelismValue(err) => enclose(
                "`scan_parallelism` value \"",
                err.message().as_str(),
                "\" is invalid",
            ),
        }
    }
}

/// Why the tags of a file could not be read.
pub enum MetadataReadError {
    IO(std::io::Error),
}

impl MetadataReadError {
    /// Whether `text` can be the message of this error.
    pub open spec fn is_message(self, text: Seq<char>) -> bool {
        starts_with(text, "unable to open or read file, err: "@)
    }

    pub fn message(&self) -> (text: String)
        ensures
            self.is_message(text@),
    {
        match self {
            MetadataReadError::IO(err) => introduce(
                "unable to open or read file, err: ",
                io_text(err),
            ),
        }
    }
}

/// Why an artist could not be saved.
pub enum SaveArtistError {
    SQLite(rusqlite::Error),
}

impl SaveArtistError {
    /// The message of this error: the text of the failure of the database.
    pub open spec fn message_text(self) -> Seq<char> {
        match self {
            SaveArtistError::SQLite(err) => sqlite_message(err),
        }
    }

    pub fn message(&self) -> (text: String)
        ensures
            text@ == self.message_text(),
    {
        match self {
            SaveArtistError::SQLite(err) => sqlite_text(err),
        }
    }
}

/// Why an album could not be saved.
pub enum SaveAlbumError {
    SQLite(rusqlite::Error),
}

impl SaveAlbumError {
    /// The message of this error: the text of the failure of the database.
    pub open spec fn message_text(self) -> Seq<char> {
        match self {
            SaveAlbumError::SQLite(err) => sqlite_message(err),
        }
    }

    pub fn message(&self) -> (text: String)
        ensures
            text@ == self.message_text(),
    {
        match self {
            SaveAlbumError::SQLite(err) => sqlite_text(err),
        }
    }
}

/// Why a track could not be saved.
pub enum SaveTrackError {
    SQLite(rusqlite::Error),
}

impl SaveTrackError {
    /// The message of this error: the text of the failure of the database.
    pub open spec fn message_text(self) -> Seq<char> {
        match self {
            SaveTrackError::SQLite(err) => sqlite_message(err),
        }
    }

    pub fn message(&self) -> (text: String)
        ensures
            text@ == self.message_text(),
    {
        match self {
            SaveTrackError::SQLite(err) => sqlite_text(err),
        }
    }
}

/// Why a scan failed.
pub enum CommandScanError {
    /// The configuration names no library to scan.
    LibraryNotSet,
    SQLite(rusqlite::Error),
    WalkDir(walkdir::Error),
    IO(std::io::Error),
    MetadataRead(MetadataReadError),
    SaveArtist(SaveArtistError),
    SaveAlbum(SaveAlbumError),
    SaveTrack(SaveTrackError),
}

impl CommandScanError {
    /// Whether `text` can be the message of this error.
    pub open spec fn is_message(self, text: Seq<char>) -> bool {
        match self {
            CommandScanError::LibraryNotSet => text
                == "no library is set, set one with `zik config library <path>`"@,
            CommandScanError::SQLite(err) => text == sqlite_message(err),
            CommandScanError::WalkDir(_) => true,
            CommandScanError::IO(_) => true,
            CommandScanError::MetadataRead(err) => err.is_message(text),
            CommandScanError::SaveArtist(err) => text == err.message_text(),
            CommandScanError::SaveAlbum(err) => text == err.message_text(),
            CommandScanError::SaveTrack(err) => text == err.message_text(),
        }
    }

    pub fn message(&self) -> (text: String)
        ensures
            self.is_message(text@),
    {
        match self {
            CommandScanError::LibraryNotSet => {
                "no library is set, set one with `zik config library <path>`".to_owned()
            },
            CommandScanError::SQLite(err) => sqlite_text(err),
            CommandScanError::WalkDir(err) => walk_text(err),
            CommandScanError::IO(err) => io_text(err),
            CommandScanError::MetadataRead(err) => err.message(),
            CommandScanError::SaveArtist(err) => err.message(),
            CommandScanError::SaveAlbum(err) => err.message(),
            CommandScanError::SaveTrack(err) => err.message(),
        }
    }
}

/// Why a run of the program failed.
pub enum AppError {
    OpenDatabase(OpenDatabaseError),
    InitDatabase(InitDatabaseError),
    CommandConfig(CommandConfigError),
    CommandScan(CommandScanError),
}

impl AppError {
    /// Whether `text` can be the message of this error.
    pub open spec fn is_message(self, text: Seq<char>) -> bool {
        match self {
            AppError::OpenDatabase(err) => err.is_message(text),
            AppError::InitDatabase(InitDatabaseError::SQLite(err)) => text == sqlite_message(err),
            AppError::CommandConfig(err) => err.is_message(text),
            AppError::CommandScan(err) => err.is_message(text),
        }
    }

    pub fn message(&self) -> (text: String)
        ensures
            self.is_message(text@),
    {
        match self {
            AppError::OpenDatabase(err) => err.message(),
            AppError::CommandConfig(err) => err.message(),
            AppError::CommandScan(err) => err.message(),
            AppError::InitDatabase(InitDatabaseError::SQLite(err)) => sqlite_text(err),
        }
    }
}

} // verus!
