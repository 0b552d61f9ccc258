//! The commands: setting up the schema, reading and writing the configuration, and the
//! steps of a scan.
//!
//! A scan is run by the caller, who walks the library and reads the files: it asks for
//! the library root, begins the scan, hands over the record of each file in turn, and
//! finishes. Everything is written under one savepoint, which is released at the end and
//! rolled back where the scan is given up before.

use vstd::prelude::*;
use vstd::string::StringExecFns;
use crate::config::{entry_of, refused_as, valid_key, Config, PathProbe};
use crate::decimal::{decimal_text, format_usize};
use crate::errors::{
    introduce, sqlite_message, sqlite_text, starts_with, CommandConfigError, CommandScanError,
    InitDatabaseError,
};
use crate::metadata::{Metadata, MetadataView};
use crate::store::{
    commit, connection_of, execute, lookup_params, query_pairs, query_text, save_album,
    save_artist, save_track, savepoint, AlbumID, ArtistID, Lookup, SqlValue, SqlValueView,
};

verus! {

/// The statements that make the tables and indexes, in the order in which they are
/// run: the configuration, the artists and their index, the albums and their index,
/// the tracks. Each makes its object only where it does not exist yet.
pub open spec fn schema_text() -> Seq<Seq<char>> {
    seq![
        "CREATE TABLE IF NOT EXISTS config(key TEXT UNIQUE, value ANY)"@,
        "CREATE TABLE IF NOT EXISTS artist(id INTEGER PRIMARY KEY, name TEXT) STRICT"@,
        "CREATE INDEX IF NOT EXISTS artist_name ON artist(name)"@,
        "CREATE TABLE IF NOT EXISTS album(id INTEGER PRIMARY KEY, name TEXT, artist_id INTEGER, album_artist_id INTEGER, year TEXT, FOREIGN KEY(artist_id) REFERENCES artist(id) ON DELETE CASCADE) STRICT"@,
        "CREATE INDEX IF NOT EXISTS album_name ON album(name)"@,
        "CREATE TABLE IF NOT EXISTS track(id INTEGER PRIMARY KEY, name TEXT UNIQUE, artist_id INTEGER, album_id INTEGER, year TEXT, number INTEGER, FOREIGN KEY(artist_id) REFERENCES artist(id) ON DELETE CASCADE, FOREIGN KEY(album_id) REFERENCES album(id) ON DELETE CASCADE) STRICT"@,
    ]
}

/// The statements of the schema.
pub fn schema() -> (ddls: Vec<&'static str>)
    ensures
        ddls@.len() == 6,
        schema_text().len() == 6,
        forall|i: int| 0 <= i < 6 ==> ddls@[i]@ == schema_text()[i],
{
    vec![
        "CREATE TABLE IF NOT EXISTS config(key TEXT UNIQUE, value ANY)",
        "CREATE TABLE IF NOT EXISTS artist(id INTEGER PRIMARY KEY, name TEXT) STRICT",
        "CREATE INDEX IF NOT EXISTS artist_name ON artist(name)",
        "CREATE TABLE IF NOT EXISTS album(id INTEGER PRIMARY KEY, name TEXT, artist_id INTEGER, album_artist_id INTEGER, year TEXT, FOREIGN KEY(artist_id) REFERENCES artist(id) ON DELETE CASCADE) STRICT",
        "CREATE INDEX IF NOT EXISTS album_name ON album(name)",
        "CREATE TABLE IF NOT EXISTS track(id INTEGER PRIMARY KEY, name TEXT UNIQUE, artist_id INTEGER, album_id INTEGER, year TEXT, number INTEGER, FOREIGN KEY(artist_id) REFERENCES artist(id) ON DELETE CASCADE, FOREIGN KEY(album_id) REFERENCES album(id) ON DELETE CASCADE) STRICT",
    ]
}

/// The line that reports a statement of the schema that failed.
pub open spec fn failure_line_text(err: rusqlite::Error) -> Seq<char> {
    "unable to execute statement, err: "@ + sqlite_message(err)
}

/// Whether `line` reports a failure of the database.
pub open spec fn is_failure_line(line: Seq<char>) -> bool {
    exists|err: rusqlite::Error| line == #[trigger] failure_line_text(err)
}

/// Writes the line that reports a statement of the schema that failed.
pub fn failure_line(err: &rusqlite::Error) -> (line: String)
    ensures
        line@ == failure_line_text(*err),
        is_failure_line(line@),
        starts_with(line@, "unable to execute statement, err: "@),
{
    let line = introduce("unable to execute statement, err: ", sqlite_text(err));
    assert(line@ == failure_line_text(*err));
    line
}

/// Runs the statements of the schema under one savepoint.
///
/// A statement that fails does not stop the others: its failure is reported in the
/// list that comes back, one line for each, in the order of the statements, and each
/// line holds the text of the failure. Only the savepoint itself can make the whole
/// fail.
pub fn init_database(db: &mut rusqlite::Connection) -> (failures: Result<
    Vec<String>,
    InitDatabaseError,
>)
    ensures
        failures matches Ok(lines) ==> {
            &&& lines@.len() <= 6
            &&& forall|i: int| 0 <= i < lines@.len() ==> is_failure_line(#[trigger] lines@[i]@)
            &&& forall|i: int|
                0 <= i < lines@.len() ==> starts_with(
                    #[trigger] lines@[i]@,
                    "unable to execute statement, err: "@,
                )
        },
{
    let ddls = schema();
    let opened = match savepoint(db) {
        Ok(opened) => opened,
        Err(err) => {
            return Err(InitDatabaseError::SQLite(err));
        },
    };
    let mut lines: Vec<String> = Vec::new();
    let none: Vec<SqlValue> = Vec::new();
    let mut i: usize = 0;
    while i < ddls.len()
        invariant
            i <= ddls@.len(),
            lines@.len() <= i,
            forall|j: int| 0 <= j < lines@.len() ==> is_failure_line(#[trigger] lines@[j]@),
            forall|j: int|
                0 <= j < lines@.len() ==> starts_with(
                    #[trigger] lines@[j]@,
                    "unable to execute statement, err: "@,
                ),
        decreases ddls@.len() - i,
    {
        match execute(connection_of(&opened), ddls[i], &none) {
            Ok(_) => {},
            Err(err) => {
                lines.push(failure_line(&err));
            },
        }
        i = i + 1;
    }
    match commit(opened) {
        Ok(()) => Ok(lines),
        Err(err) => Err(InitDatabaseError::SQLite(err)),
    }
}

/// The line that shows an entry of the configuration.
pub open spec fn config_line_text(key: Seq<char>, value: Seq<char>) -> Seq<char> {
    key + " = \""@ + value + "\""@
}

/// Writes the line that shows an entry of the configuration.
pub fn config_line(key: &str, value: &str) -> (line: String)
    ensures
        line@ == config_line_text(key@, value@),
        starts_with(line@, key@ + " = \""@),
{
    let mut line = key.to_owned();
    line.append(" = \"");
    line.append(value);
    line.append("\"");
    assert(line@.take((key@ + " = \""@).len() as int) =~= key@ + " = \""@);
    line
}

/// What reading one key gives, for each answer of the database: the line of the entry
/// where a value was found, `NoValue` with the key where none was.
pub fn config_answer(key: &str, found: Lookup<String>) -> (lines: Result<
    Vec<String>,
    CommandConfigError,
>)
    ensures
        match found {
            Lookup::Found(value) => lines matches Ok(l) && l@.len() == 1 && l@[0]@
                == config_line_text(key@, value@) && starts_with(l@[0]@, key@ + " = \""@),
            Lookup::Missing(_) => lines matches Err(CommandConfigError::NoValue(k)) && k@ == key@,
            Lookup::Failed(err) => lines matches Err(CommandConfigError::SQLite(e)) && e == err,
        },
{
    match found {
        Lookup::Found(value) => Ok(vec![config_line(key, value.as_str())]),
        Lookup::Missing(_) => Err(CommandConfigError::NoValue(key.to_owned())),
        Lookup::Failed(err) => Err(CommandConfigError::SQLite(err)),
    }
}

/// The lines that show the entries of the configuration, one for each and in their
/// order.
pub fn config_listing(rows: &Vec<(String, String)>) -> (lines: Vec<String>)
    ensures
        lines@.len() == rows@.len(),
        forall|i: int|
            0 <= i < rows@.len() ==> #[trigger] lines@[i]@ == config_line_text(
                rows@[i].0@,
                rows@[i].1@,
            ),
        forall|i: int| 0 <= i < lines@.len() ==> is_config_line(#[trigger] lines@[i]@),
{
    let mut lines: Vec<String> = Vec::new();
    let mut i: usize = 0;
    while i < rows.len()
        invariant
            i <= rows@.len(),
            lines@.len() == i,
            forall|j: int|
                0 <= j < i ==> #[trigger] lines@[j]@ == config_line_text(rows@[j].0@, rows@[j].1@),
        decreases rows@.len() - i,
    {
        lines.push(config_line(rows[i].0.as_str(), rows[i].1.as_str()));
        i = i + 1;
    }
    lines
}

/// The statement that stores an entry, replacing the one of the same key.
pub fn config_write_statement() -> (sql: &'static str)
    ensures
        sql@
            == "INSERT INTO config(key, value) VALUES($key, $value) ON CONFLICT(key) DO UPDATE SET value = excluded.value"@,
{
    "INSERT INTO config(key, value) VALUES($key, $value) ON CONFLICT(key) DO UPDATE SET value = excluded.value"
}

/// The statement that reads the value of one key, as text.
pub fn config_read_statement() -> (sql: &'static str)
    ensures
        sql@ == "SELECT CAST(value AS TEXT) FROM config WHERE key = $key"@,
{
    "SELECT CAST(value AS TEXT) FROM config WHERE key = $key"
}

/// The statement that reads every key with its value, as text.
pub fn config_list_statement() -> (sql: &'static str)
    ensures
        sql@ == "SELECT key, CAST(value AS TEXT) FROM config"@,
{
    "SELECT key, CAST(value AS TEXT) FROM config"
}

/// The parameters of the statement that stores an entry: the key, and the value as it
/// is stored.
pub fn config_write_params(key: &str, config: &Config) -> (params: Vec<SqlValue>)
    ensures
        params@.len() == 2,
        params@[0]@ == SqlValueView::Text(key@),
        params@[1]@ == match config {
            Config::Library(path) => SqlValueView::Text(path@),
            Config::ScanParallelism(n) => SqlValueView::Integer(*n as i64),
        },
{
    vec![SqlValue::Text(key.to_owned()), config.to_sql()]
}

/// Whether `line` shows an entry of the configuration.
pub open spec fn is_config_line(line: Seq<char>) -> bool {
    exists|key: Seq<char>, value: Seq<char>| line == #[trigger] config_line_text(key, value)
}

/// Whether `lines` is an outcome that writing an entry can have: nothing to show where
/// the entry was stored, the failure of the database where it was not, and, where the
/// entry is not valid, its refusal whatever the database holds.
pub open spec fn set_outcome(
    key: Seq<char>,
    value: Seq<char>,
    probe: PathProbe,
    lines: Result<Vec<String>, CommandConfigError>,
) -> bool {
    match lines {
        Ok(shown) => entry_of(key, value, probe) is Some && shown@.len() == 0,
        Err(err) => if entry_of(key, value, probe) is Some {
            err is SQLite
        } else {
            refused_as(key, value, probe, err)
        },
    }
}

/// Whether `lines` is an outcome that reading one key can have: the one line of its
/// entry, `NoValue` with the key, or the failure of the database, and, where the key is
/// unknown, `InvalidKey` with the key whatever the database holds.
pub open spec fn get_outcome(key: Seq<char>, lines: Result<Vec<String>, CommandConfigError>) -> bool {
    match lines {
        Ok(shown) => valid_key(key) && shown@.len() == 1 && starts_with(
            shown@[0]@,
            key + " = \""@,
        ),
        Err(CommandConfigError::InvalidKey(k)) => !valid_key(key) && k@ == key,
        Err(CommandConfigError::NoValue(k)) => valid_key(key) && k@ == key,
        Err(CommandConfigError::SQLite(_)) => valid_key(key),
        Err(_) => false,
    }
}

/// Reads or writes the configuration, and returns the lines to show.
///
/// With a key and a value, the entry is validated and stored, replacing the value that
/// the key had; nothing is shown. With a key alone, its entry is shown. With neither,
/// all entries are shown. A value is shown as text, whatever it was stored as. An unknown
/// key is refused as `InvalidKey` before the database is asked anything. `probe` is what
/// the file system says of `value` as a path; it is read only where the key is
/// `library`.
///
/// A value without a key is no input of this command.
pub fn cmd_config(
    db: &mut rusqlite::Connection,
    key: Option<&str>,
    value: Option<&str>,
    probe: PathProbe,
) -> (lines: Result<Vec<String>, CommandConfigError>)
    requires
        value is Some ==> key is Some,
    ensures
        key is Some && value is Some ==> set_outcome(key->0@, value->0@, probe, lines),
        key is Some && value is None ==> get_outcome(key->0@, lines),
        key is None ==> match lines {
            Ok(shown) => forall|i: int| 0 <= i < shown@.len() ==> is_config_line(#[trigger] shown@[i]@),
            Err(err) => err is SQLite,
        },
{
    match key {
        Some(key) => match value {
            Some(value) => {
                let config = match Config::parse(key, value, probe) {
                    Ok(config) => config,
                    Err(err) => {
                        return Err(err);
                    },
                };
                match execute(db, config_write_statement(), &config_write_params(key, &config)) {
                    Ok(_) => Ok(Vec::new()),
                    Err(err) => Err(CommandConfigError::SQLite(err)),
                }
            },
            None => {
                if !Config::is_valid_key(key) {
                    return Err(CommandConfigError::InvalidKey(key.to_owned()));
                }
                let found = query_text(db, config_read_statement(), &lookup_params(&key.to_owned()));
                config_answer(key, found)
            },
        },
        None => {
            match query_pairs(db, config_list_statement()) {
                Ok(rows) => Ok(config_listing(&rows)),
                Err(err) => Err(CommandConfigError::SQLite(err)),
            }
        },
    }
}

/// The name under which a record is filed where its tags give none.
pub open spec fn name_or_unknown(name: Option<Seq<char>>) -> Seq<char> {
    match name {
        Some(n) => n,
        None => "Unknown"@,
    }
}

/// The text of a field, empty where the tags give none.
pub open spec fn text_or_empty(text: Option<Seq<char>>) -> Seq<char> {
    match text {
        Some(t) => t,
        None => Seq::<char>::empty(),
    }
}

fn or_unknown(name: &Option<String>) -> (filed: String)
    ensures
        filed@ == name_or_unknown(crate::metadata::text_view(*name)),
        filed@.len() == 0 ==> (name matches Some(n) && n@.len() == 0),
{
    proof {
        reveal_strlit("Unknown");
    }
    match name {
        Some(n) => n.clone(),
        None => "Unknown".to_owned(),
    }
}

fn or_empty(text: &Option<String>) -> (shown: String)
    ensures
        shown@ == text_or_empty(crate::metadata::text_view(*text)),
{
    match text {
        Some(t) => t.clone(),
        None => String::new(),
    }
}

/// The artist under which a record is filed: the one its tags name, or `Unknown`.
/// The name is empty only where the tags hold an empty name.
pub fn artist_name(metadata: &Metadata) -> (name: String)
    ensures
        name@ == name_or_unknown(metadata@.artist),
        name@.len() == 0 ==> metadata@.artist == Some(Seq::<char>::empty()),
{
    let name = or_unknown(&metadata.artist);
    proof {
        if name@.len() == 0 {
            assert(metadata@.artist->0 =~= Seq::<char>::empty());
        }
    }
    name
}

/// The album under which a record is filed: the one its tags name, or `Unknown`.
/// The name is empty only where the tags hold an empty name.
pub fn album_name(metadata: &Metadata) -> (name: String)
    ensures
        name@ == name_or_unknown(metadata@.album),
        name@.len() == 0 ==> metadata@.album == Some(Seq::<char>::empty()),
{
    let name = or_unknown(&metadata.album);
    proof {
        if name@.len() == 0 {
            assert(metadata@.album->0 =~= Seq::<char>::empty());
        }
    }
    name
}

/// A record is never filed under an empty name, unless its tags hold one: where the
/// tags name no artist or no album, `Unknown` stands in.
pub proof fn lemma_filed_names_not_empty(metadata: MetadataView)
    requires
        metadata.artist != Some(Seq::<char>::empty()),
        metadata.album != Some(Seq::<char>::empty()),
    ensures
        name_or_unknown(metadata.artist).len() > 0,
        name_or_unknown(metadata.album).len() > 0,
{
    reveal_strlit("Unknown");
    if metadata.artist is Some {
        assert(!(metadata.artist->0 =~= Seq::<char>::empty()));
    }
    if metadata.album is Some {
        assert(!(metadata.album->0 =~= Seq::<char>::empty()));
    }
}

/// Where a record went: the names it was filed under and the ids of their rows.
#[derive(Debug)]
pub struct Saved {
    pub artist: String,
    pub artist_id: ArtistID,
    pub album: String,
    pub album_id: AlbumID,
}

/// The line that reports a saved record.
pub open spec fn report_text(
    artist: Seq<char>,
    artist_id: usize,
    album: Seq<char>,
    album_id: usize,
    metadata: MetadataView,
) -> Seq<char> {
    "artist=\""@ + artist + "\" (id="@ + decimal_text(artist_id as nat) + "), album=\""@ + album
        + "\" (id="@ + decimal_text(album_id as nat) + "), album artist=\""@ + text_or_empty(
        metadata.album_artist,
    ) + "\", year="@ + text_or_empty(metadata.year) + ", track=\""@ + text_or_empty(
        metadata.track_name,
    ) + "\", track number="@ + decimal_text(metadata.track_number as nat)
}

/// Writes the line that reports a saved record.
pub fn report(saved: &Saved, metadata: &Metadata) -> (line: String)
    ensures
        line@ == report_text(
            saved.artist@,
            saved.artist_id,
            saved.album@,
            saved.album_id,
            metadata@,
        ),
{
    let mut line = "artist=\"".to_owned();
    line.append(saved.artist.as_str());
    line.append("\" (id=");
    line.append(format_usize(saved.artist_id).as_str());
    line.append("), album=\"");
    line.append(saved.album.as_str());
    line.append("\" (id=");
    line.append(format_usize(saved.album_id).as_str());
    line.append("), album artist=\"");
    line.append(or_empty(&metadata.album_artist).as_str());
    line.append("\", year=");
    line.append(or_empty(&metadata.year).as_str());
    line.append(", track=\"");
    line.append(or_empty(&metadata.track_name).as_str());
    line.append("\", track number=");
    line.append(format_usize(metadata.track_number).as_str());
    line
}

/// What asking for the library root gives, for each answer of the database: the root
/// where one is set, `LibraryNotSet` where none is.
pub fn root_answer(found: Lookup<String>) -> (root: Result<String, CommandScanError>)
    ensures
        match found {
            Lookup::Found(value) => root matches Ok(r) && r@ == value@,
            Lookup::Missing(_) => root matches Err(CommandScanError::LibraryNotSet),
            Lookup::Failed(err) => root matches Err(CommandScanError::SQLite(e)) && e == err,
        },
{
    match found {
        Lookup::Found(root) => Ok(root),
        Lookup::Missing(_) => Err(CommandScanError::LibraryNotSet),
        Lookup::Failed(err) => Err(CommandScanError::SQLite(err)),
    }
}

/// The statement that reads the library root.
pub fn library_statement() -> (sql: &'static str)
    ensures
        sql@ == "SELECT value FROM config WHERE key = 'library'"@,
{
    "SELECT value FROM config WHERE key = 'library'"
}

/// The statement that has SQLite enforce foreign keys.
pub fn foreign_keys_statement() -> (sql: &'static str)
    ensures
        sql@ == "PRAGMA foreign_keys = ON"@,
{
    "PRAGMA foreign_keys = ON"
}

/// The statement that clears the catalogue.
pub fn clear_statement() -> (sql: &'static str)
    ensures
        sql@ == "DELETE FROM artist"@,
{
    "DELETE FROM artist"
}

/// Asks the configuration for the library root.
pub fn library_root(db: &rusqlite::Connection) -> (root: Result<String, CommandScanError>)
    ensures
        root matches Err(err) ==> err is LibraryNotSet || err is SQLite,
{
    let none: Vec<String> = Vec::new();
    root_answer(query_text(db, library_statement(), &none))
}

/// What a step of a scan gives, for each answer of the database: what the database
/// gave where the step ran, and its failure, as the failure of the scan, where it did
/// not.
pub fn scan_step<T>(answer: Result<T, rusqlite::Error>) -> (step: Result<T, CommandScanError>)
    ensures
        match answer {
            Ok(value) => step == Ok::<T, CommandScanError>(value),
            Err(err) => step == Err::<T, CommandScanError>(CommandScanError::SQLite(err)),
        },
{
    match answer {
        Ok(value) => Ok(value),
        Err(err) => Err(CommandScanError::SQLite(err)),
    }
}

/// Begins a scan: opens the savepoint and clears the catalogue.
///
/// The catalogue is cleared by deleting the artists, which takes their albums and
/// tracks along. SQLite does so only while it enforces foreign keys, so that is
/// switched on for the connection first. Each step is run only where the one before
/// ran; the failure of a step is the failure of the database.
pub fn begin_scan<'conn>(db: &'conn mut rusqlite::Connection) -> (begun: Result<
    rusqlite::Savepoint<'conn>,
    CommandScanError,
>)
    ensures
        begun matches Err(err) ==> err is SQLite,
{
    let none: Vec<SqlValue> = Vec::new();
    match scan_step(execute(db, foreign_keys_statement(), &none)) {
        Ok(_) => {},
        Err(err) => {
            return Err(err);
        },
    }
    let opened = match scan_step(savepoint(db)) {
        Ok(opened) => opened,
        Err(err) => {
            return Err(err);
        },
    };
    match scan_step(execute(connection_of(&opened), clear_statement(), &none)) {
        Ok(_) => Ok(opened),
        Err(err) => Err(err),
    }
}

/// Files the record of one file: its artist, then its album under that artist, then
/// its track under both. An artist or an album that the tags do not name is filed as
/// `Unknown`. Each save is run only where the one before succeeded, and the failure of
/// a save is reported as the failure of that save.
///
/// A record without a title is skipped: nothing is saved for it, not even its artist,
/// and `None` comes back.
pub fn save_entry(savepoint: &mut rusqlite::Savepoint, metadata: &Metadata) -> (saved: Result<
    Option<Saved>,
    CommandScanError,
>)
    ensures
        metadata@.track_name is None ==> saved matches Ok(None),
        metadata@.track_name is Some ==> match saved {
            Ok(Some(s)) => s.artist@ == name_or_unknown(metadata@.artist) && s.album@
                == name_or_unknown(metadata@.album),
            Ok(None) => false,
            Err(err) => err is SaveArtist || err is SaveAlbum || err is SaveTrack,
        },
{
    if metadata.track_name.is_none() {
        return Ok(None);
    }
    let artist = artist_name(metadata);
    let artist_id = match save_artist(savepoint, &artist) {
        Ok(id) => id,
        Err(err) => {
            return Err(CommandScanError::SaveArtist(err));
        },
    };
    let album = album_name(metadata);
    let album_id = match save_album(savepoint, artist_id, &album, &metadata.year) {
        Ok(id) => id,
        Err(err) => {
            return Err(CommandScanError::SaveAlbum(err));
        },
    };
    match save_track(savepoint, artist_id, album_id, metadata) {
        Ok(()) => Ok(Some(Saved { artist, artist_id, album, album_id })),
        Err(err) => Err(CommandScanError::SaveTrack(err)),
    }
}

/// Finishes a scan: releases the savepoint, which makes what was written last. A
/// failure is the failure of the database.
pub fn finish_scan(savepoint: rusqlite::Savepoint) -> (done: Result<(), CommandScanError>)
    ensures
        done matches Err(err) ==> err is SQLite,
{
    scan_step(commit(savepoint))
}

} // verus!
