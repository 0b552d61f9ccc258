//! The catalogue's tables in SQLite: the statements, their parameters, and the three
//! upserts.
//!
//! What a statement does to the database is SQLite's business and nothing here claims
//! it. What is fixed here is the text of each statement, the values it is run with, and
//! what is made of each answer.

use vstd::prelude::*;
use crate::errors::{SaveAlbumError, SaveArtistError, SaveTrackError};
use crate::metadata::{text_view, Metadata};

verus! {

#[verifier::external_type_specification]
#[verifier::external_body]
pub struct ExConnection(rusqlite::Connection);

#[verifier::external_type_specification]
#[verifier::external_body]
pub struct ExSavepoint<'conn>(rusqlite::Savepoint<'conn>);

/// The row id of an artist.
pub type ArtistID = usize;

/// The row id of an album.
pub type AlbumID = usize;

/// A value bound to a parameter of a statement.
#[derive(Debug)]
pub enum SqlValue {
    Null,
    Integer(i64),
    Unsigned(usize),
    Text(String),
}

/// A bound value with its text as a sequence of characters.
pub enum SqlValueView {
    Null,
    Integer(i64),
    Unsigned(usize),
    Text(Seq<char>),
}

impl View for SqlValue {
    type V = SqlValueView;

    open spec fn view(&self) -> SqlValueView {
        match self {
            SqlValue::Null => SqlValueView::Null,
            SqlValue::Integer(n) => SqlValueView::Integer(*n),
            SqlValue::Unsigned(n) => SqlValueView::Unsigned(*n),
            SqlValue::Text(t) => SqlValueView::Text(t@),
        }
    }
}

/// The values of a list of parameters.
pub open spec fn values_of(params: Seq<SqlValue>) -> Seq<SqlValueView> {
    params.map_values(|p: SqlValue| p@)
}

/// The value that binds a text which may be absent: `NULL` where it is.
pub open spec fn nullable_text(text: Option<Seq<char>>) -> SqlValueView {
    match text {
        Some(t) => SqlValueView::Text(t),
        None => SqlValueView::Null,
    }
}

/// What a query for one row gave: the row, the answer that there is none (with the
/// error that says so), or another failure.
pub enum Lookup<T> {
    Found(T),
    Missing(rusqlite::Error),
    Failed(rusqlite::Error),
}

/// The connection that a savepoint stands on, through its `Deref`.
#[verifier::external_body]
pub(crate) fn connection_of<'a, 'conn>(savepoint: &'a rusqlite::Savepoint<'conn>) -> (db:
    &'a rusqlite::Connection) {
    savepoint
}

/// Runs a statement with `rusqlite::Connection::execute`, each value bound through the
/// `ToSql` of its own kind. Nothing is claimed of the outcome.
#[verifier::external_body]
pub(crate) fn execute(db: &rusqlite::Connection, sql: &str, params: &Vec<SqlValue>) -> (changed:
    Result<usize, rusqlite::Error>) {
    let bound = params.iter().map(|param| -> Box<dyn rusqlite::ToSql + '_> {
        match param {
            SqlValue::Null => Box::new(rusqlite::types::Null),
            SqlValue::Integer(n) => Box::new(n),
            SqlValue::Unsigned(n) => Box::new(n),
            SqlValue::Text(text) => Box::new(text),
        }
    });
    db.execute(sql, rusqlite::params_from_iter(bound))
}

/// Asks for the first column of the first row as an id, with
/// `rusqlite::Connection::query_row`, each text bound to a parameter in turn, and tells
/// the answer "no rows" from other failures. Nothing is claimed of the outcome.
#[verifier::external_body]
pub(crate) fn query_id(db: &rusqlite::Connection, sql: &str, params: &Vec<String>) -> (found:
    Lookup<usize>) {
    match db.query_row(sql, rusqlite::params_from_iter(params.iter()), |row| row.get(0)) {
        Ok(id) => Lookup::Found(id),
        Err(err @ rusqlite::Error::QueryReturnedNoRows) => Lookup::Missing(err),
        Err(err) => Lookup::Failed(err),
    }
}

/// Asks for the first column of the first row as a text, in the same way. Nothing is
/// claimed of the outcome.
#[verifier::external_body]
pub(crate) fn query_text(db: &rusqlite::Connection, sql: &str, params: &Vec<String>) -> (found:
    Lookup<String>) {
    match db.query_row(sql, rusqlite::params_from_iter(params.iter()), |row| row.get(0)) {
        Ok(text) => Lookup::Found(text),
        Err(err @ rusqlite::Error::QueryReturnedNoRows) => Lookup::Missing(err),
        Err(err) => Lookup::Failed(err),
    }
}

/// Asks for the first two columns of every row as texts, with
/// `rusqlite::Connection::prepare` and `rusqlite::Statement::query_map`. Nothing is
/// claimed of the outcome.
#[verifier::external_body]
pub(crate) fn query_pairs(db: &rusqlite::Connection, sql: &str) -> (rows: Result<
    Vec<(String, String)>,
    rusqlite::Error,
>) {
    let mut statement = db.prepare(sql)?;
    let rows = statement.query_map([], |row| Ok((row.get(0)?, row.get(1)?)))?;
    rows.collect()
}

/// Opens a savepoint with `rusqlite::Connection::savepoint`. Nothing is claimed of the
/// outcome.
#[verifier::external_body]
pub(crate) fn savepoint<'conn>(db: &'conn mut rusqlite::Connection) -> (opened: Result<
    rusqlite::Savepoint<'conn>,
    rusqlite::Error,
>) {
    db.savepoint()
}

/// Releases a savepoint with `rusqlite::Savepoint::commit`. Nothing is claimed of the
/// outcome.
#[verifier::external_body]
pub(crate) fn commit(savepoint: rusqlite::Savepoint) -> (done: Result<(), rusqlite::Error>) {
    savepoint.commit()
}

/// The row id of the latest insert, from `rusqlite::Connection::last_insert_rowid`.
/// Nothing is claimed of it.
#[verifier::external_body]
pub(crate) fn last_insert_rowid(db: &rusqlite::Connection) -> (id: i64) {
    db.last_insert_rowid()
}

/// The id that stands for a row id: the same number where it is not negative.
pub fn id_of_rowid(rowid: i64) -> (id: usize)
    ensures
        id == rowid as usize,
        0 <= rowid <= usize::MAX ==> id == rowid,
{
    #[verifier::truncate]
    (rowid as usize)
}

/// The parameters of the statement that inserts an artist.
pub fn artist_params(artist: &String) -> (params: Vec<SqlValue>)
    ensures
        values_of(params@) == seq![SqlValueView::Text(artist@)],
{
    let params = vec![SqlValue::Text(artist.clone())];
    assert(values_of(params@) =~= seq![SqlValueView::Text(artist@)]);
    params
}

/// The parameters of the statement that inserts an album: the artist, the name, and the
/// year or `NULL`.
pub fn album_params(artist_id: ArtistID, album: &String, year: &Option<String>) -> (params: Vec<
    SqlValue,
>)
    ensures
        values_of(params@) == seq![
            SqlValueView::Unsigned(artist_id),
            SqlValueView::Text(album@),
            nullable_text(text_view(*year)),
        ],
{
    let year_value = match year {
        Some(y) => SqlValue::Text(y.clone()),
        None => SqlValue::Null,
    };
    let params = vec![SqlValue::Unsigned(artist_id), SqlValue::Text(album.clone()), year_value];
    assert(values_of(params@) =~= seq![
        SqlValueView::Unsigned(artist_id),
        SqlValueView::Text(album@),
        nullable_text(text_view(*year)),
    ]);
    params
}

/// The parameters of the statement that upserts a track: the title or `NULL`, the
/// artist, the album, the year or `NULL`, and the number.
pub fn track_params(artist_id: ArtistID, album_id: AlbumID, metadata: &Metadata) -> (params: Vec<
    SqlValue,
>)
    ensures
        values_of(params@) == seq![
            nullable_text(metadata@.track_name),
            SqlValueView::Unsigned(artist_id),
            SqlValueView::Unsigned(album_id),
            nullable_text(metadata@.year),
            SqlValueView::Unsigned(metadata@.track_number),
        ],
{
    let name = match &metadata.track_name {
        Some(t) => SqlValue::Text(t.clone()),
        None => SqlValue::Null,
    };
    let year = match &metadata.year {
        Some(y) => SqlValue::Text(y.clone()),
        None => SqlValue::Null,
    };
    let params = vec![
        name,
        SqlValue::Unsigned(artist_id),
        SqlValue::Unsigned(album_id),
        year,
        SqlValue::Unsigned(metadata.track_number),
    ];
    assert(values_of(params@) =~= seq![
        nullable_text(metadata@.track_name),
        SqlValueView::Unsigned(artist_id),
        SqlValueView::Unsigned(album_id),
        nullable_text(metadata@.year),
        SqlValueView::Unsigned(metadata@.track_number),
    ]);
    params
}

/// The id that an upsert returns, for each answer of the database: the id that the
/// lookup found; where it found no row, the id of the row that was inserted, or the
/// failure of the insert; and the failure of the lookup. `inserted` is the row id that
/// the insert left behind, where one was run.
pub open spec fn upsert_id(found: Lookup<usize>, inserted: Option<Result<i64, rusqlite::Error>>) -> Result<
    usize,
    rusqlite::Error,
> {
    match found {
        Lookup::Found(id) => Ok(id),
        Lookup::Missing(none) => match inserted {
            Some(Ok(rowid)) => Ok(rowid as usize),
            Some(Err(err)) => Err(err),
            None => Err(none),
        },
        Lookup::Failed(err) => Err(err),
    }
}

/// Makes of the answers of the database the id that an upsert returns.
pub fn upsert_answer(found: Lookup<usize>, inserted: Option<Result<i64, rusqlite::Error>>) -> (id:
    Result<usize, rusqlite::Error>)
    ensures
        id == upsert_id(found, inserted),
{
    match found {
        Lookup::Found(id) => Ok(id),
        Lookup::Missing(none) => match inserted {
            Some(Ok(rowid)) => Ok(id_of_rowid(rowid)),
            Some(Err(err)) => Err(err),
            None => Err(none),
        },
        Lookup::Failed(err) => Err(err),
    }
}

/// Runs an insert and asks for the row id that it left behind.
fn insert(db: &rusqlite::Connection, sql: &str, params: &Vec<SqlValue>) -> (rowid: Result<
    i64,
    rusqlite::Error,
>) {
    match execute(db, sql, params) {
        Ok(_) => Ok(last_insert_rowid(db)),
        Err(err) => Err(err),
    }
}

/// The statement that looks an artist up by its name.
pub fn artist_lookup_statement() -> (sql: &'static str)
    ensures
        sql@ == "SELECT id FROM artist WHERE name = $name"@,
{
    "SELECT id FROM artist WHERE name = $name"
}

/// The statement that inserts an artist.
pub fn artist_insert_statement() -> (sql: &'static str)
    ensures
        sql@ == "INSERT INTO artist(name) VALUES($name)"@,
{
    "INSERT INTO artist(name) VALUES($name)"
}

/// The statement that looks an album up by its name.
pub fn album_lookup_statement() -> (sql: &'static str)
    ensures
        sql@ == "SELECT id FROM album WHERE name = $name"@,
{
    "SELECT id FROM album WHERE name = $name"
}

/// The statement that inserts an album.
pub fn album_insert_statement() -> (sql: &'static str)
    ensures
        sql@ == "INSERT INTO album(artist_id, name, year) VALUES($artist_id, $name, $year)"@,
{
    "INSERT INTO album(artist_id, name, year) VALUES($artist_id, $name, $year)"
}

/// The statement that inserts a track, or overwrites the one of the same title.
pub fn track_statement() -> (sql: &'static str)
    ensures
        sql@
            == "INSERT INTO track(name, artist_id, album_id, year, number) VALUES($name, $artist_id, $album_id, $year, $number) ON CONFLICT(name) DO UPDATE SET name = excluded.name, artist_id = excluded.artist_id, album_id = excluded.album_id, year = excluded.year, number = excluded.number"@,
{
    "INSERT INTO track(name, artist_id, album_id, year, number) VALUES($name, $artist_id, $album_id, $year, $number) ON CONFLICT(name) DO UPDATE SET name = excluded.name, artist_id = excluded.artist_id, album_id = excluded.album_id, year = excluded.year, number = excluded.number"
}

/// The parameter of a lookup by name: the name.
pub fn lookup_params(name: &String) -> (params: Vec<String>)
    ensures
        params@.len() == 1,
        params@[0]@ == name@,
{
    vec![name.clone()]
}

/// Whether `id` is what saving an artist returns where the database answered `found`
/// to the lookup and `inserted` to the insert.
pub open spec fn artist_saved_as(
    id: Result<ArtistID, SaveArtistError>,
    found: Lookup<usize>,
    inserted: Option<Result<i64, rusqlite::Error>>,
) -> bool {
    match upsert_id(found, inserted) {
        Ok(i) => id == Ok::<ArtistID, SaveArtistError>(i),
        Err(e) => id == Err::<ArtistID, SaveArtistError>(SaveArtistError::SQLite(e)),
    }
}

/// Whether `id` is what saving an album returns where the database answered `found` to
/// the lookup and `inserted` to the insert.
pub open spec fn album_saved_as(
    id: Result<AlbumID, SaveAlbumError>,
    found: Lookup<usize>,
    inserted: Option<Result<i64, rusqlite::Error>>,
) -> bool {
    match upsert_id(found, inserted) {
        Ok(i) => id == Ok::<AlbumID, SaveAlbumError>(i),
        Err(e) => id == Err::<AlbumID, SaveAlbumError>(SaveAlbumError::SQLite(e)),
    }
}

/// Whether `done` is what saving a track returns where the database answered `changed`
/// to the statement.
pub open spec fn track_saved_as(
    done: Result<(), SaveTrackError>,
    changed: Result<usize, rusqlite::Error>,
) -> bool {
    match changed {
        Ok(_) => done is Ok,
        Err(err) => done == Err::<(), SaveTrackError>(SaveTrackError::SQLite(err)),
    }
}

/// Finds the artist of that name, or inserts it, and returns its id.
///
/// The name is matched exactly. The insert is run only where the lookup found no row;
/// where the lookup fails for another reason, nothing is inserted. What comes back is
/// the id that the lookup found, or the id of the row that was inserted, or the failure
/// of the one that failed.
pub fn save_artist(savepoint: &mut rusqlite::Savepoint, artist: &String) -> (id: Result<
    ArtistID,
    SaveArtistError,
>)
    ensures
        exists|found: Lookup<usize>, inserted: Option<Result<i64, rusqlite::Error>>|
            (inserted is Some <==> found is Missing) && #[trigger] artist_saved_as(
                id,
                found,
                inserted,
            ),
{
    let db = connection_of(savepoint);
    let found = query_id(db, artist_lookup_statement(), &lookup_params(artist));
    let inserted = match &found {
        Lookup::Missing(_) => Some(insert(db, artist_insert_statement(), &artist_params(artist))),
        _ => None,
    };
    let ghost answered = found;
    let ghost left = inserted;
    let id = match upsert_answer(found, inserted) {
        Ok(id) => Ok(id),
        Err(err) => Err(SaveArtistError::SQLite(err)),
    };
    assert(artist_saved_as(id, answered, left));
    id
}

/// Finds the album of that name, or inserts it under the artist, and returns its id.
///
/// The name alone is matched: an album that exists keeps the artist and the year it
/// was inserted with. The insert is run only where the lookup found no row. What comes
/// back is the id that the lookup found, or the id of the row that was inserted, or the
/// failure of the one that failed.
pub fn save_album(
    savepoint: &mut rusqlite::Savepoint,
    artist_id: ArtistID,
    album: &String,
    year: &Option<String>,
) -> (id: Result<AlbumID, SaveAlbumError>)
    ensures
        exists|found: Lookup<usize>, inserted: Option<Result<i64, rusqlite::Error>>|
            (inserted is Some <==> found is Missing) && #[trigger] album_saved_as(
                id,
                found,
                inserted,
            ),
{
    let db = connection_of(savepoint);
    let found = query_id(db, album_lookup_statement(), &lookup_params(album));
    let inserted = match &found {
        Lookup::Missing(_) => Some(
            insert(db, album_insert_statement(), &album_params(artist_id, album, year)),
        ),
        _ => None,
    };
    let ghost answered = found;
    let ghost left = inserted;
    let id = match upsert_answer(found, inserted) {
        Ok(id) => Ok(id),
        Err(err) => Err(SaveAlbumError::SQLite(err)),
    };
    assert(album_saved_as(id, answered, left));
    id
}

/// What saving a track returns, for each answer of the database to its statement:
/// nothing where the statement ran, and its failure where it did not.
pub fn track_answer(changed: Result<usize, rusqlite::Error>) -> (done: Result<(), SaveTrackError>)
    ensures
        track_saved_as(done, changed),
{
    match changed {
        Ok(_) => Ok(()),
        Err(err) => Err(SaveTrackError::SQLite(err)),
    }
}

/// Inserts the track, or overwrites the artist, the album, the year and the number of
/// the track that has its title.
///
/// A record without a title is no track: nothing is run for it, and nothing fails.
pub fn save_track(
    savepoint: &mut rusqlite::Savepoint,
    artist_id: ArtistID,
    album_id: AlbumID,
    metadata: &Metadata,
) -> (done: Result<(), SaveTrackError>)
    ensures
        metadata@.track_name is None ==> done is Ok,
        metadata@.track_name is Some ==> exists|changed: Result<usize, rusqlite::Error>| #[trigger]
            track_saved_as(done, changed),
{
    if metadata.track_name.is_none() {
        return Ok(());
    }
    let db = connection_of(savepoint);
    let changed = execute(db, track_statement(), &track_params(artist_id, album_id, metadata));
    let ghost answered = changed;
    let done = track_answer(changed);
    assert(track_saved_as(done, answered));
    done
}

} // verus!
