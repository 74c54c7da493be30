//! The parts of `rusqlite` that the store uses, each stated over the rows it reads or writes.
//!
//! The database behind a connection is seen as two tables: the settings rows and the
//! window-geometry rows, each keyed by its integer primary key. Only this process writes them,
//! through one connection per file: the rows seen through a connection change only by what is
//! written through that connection.

use vstd::prelude::*;
use rusqlite::OptionalExtension;

verus! {

/// A connection to a SQLite database.
#[verifier::external_type_specification]
#[verifier::external_body]
pub struct ExConnection(rusqlite::Connection);

/// An error reported by rusqlite or SQLite.
#[verifier::external_type_specification]
#[verifier::external_body]
pub struct ExSqliteError(rusqlite::Error);

/// The rows of the settings table behind `c` by identifier, each a label and a content text;
/// empty while the table does not exist.
pub uninterp spec fn settings_rows(c: rusqlite::Connection) -> Map<int, (Seq<char>, Seq<char>)>;

/// The rows of the window-geometry table behind `c` by identifier, each x, y, width, height,
/// maximized and fullscreen; empty while the table does not exist.
pub uninterp spec fn geometry_rows(c: rusqlite::Connection) -> Map<
    int,
    (int, int, int, int, int, int),
>;

/// The `modified_at` time stamp of each window-geometry row behind `c`, as text, by identifier;
/// empty while the table does not exist.
pub uninterp spec fn geometry_stamps(c: rusqlite::Connection) -> Map<int, Seq<char>>;

/// Whether the database behind `a` holds what the database behind `b` holds: the same settings
/// rows, the same window-geometry rows and the same time stamps.
pub open spec fn same_tables(a: rusqlite::Connection, b: rusqlite::Connection) -> bool {
    &&& settings_rows(a) == settings_rows(b)
    &&& geometry_rows(a) == geometry_rows(b)
    &&& geometry_stamps(a) == geometry_stamps(b)
}

/// The settings rows after the content of row `id` is set to `content`, its label kept; the
/// rows unchanged where there is no row `id`.
pub open spec fn with_content(
    t: Map<int, (Seq<char>, Seq<char>)>,
    id: int,
    content: Seq<char>,
) -> Map<int, (Seq<char>, Seq<char>)> {
    if t.contains_key(id) {
        t.insert(id, (t[id].0, content))
    } else {
        t
    }
}

/// A window-geometry row as rusqlite reads and writes it.
pub type GeometryRow = (i64, i64, i64, i64, i64, i64);

/// The integers of a window-geometry row.
pub open spec fn geometry_values(r: GeometryRow) -> (int, int, int, int, int, int) {
    (r.0 as int, r.1 as int, r.2 as int, r.3 as int, r.4 as int, r.5 as int)
}

/// The two tables, made where they do not exist.
pub(crate) const SCHEMA: &'static str = "CREATE TABLE IF NOT EXISTS UserSettings (
        id INTEGER PRIMARY KEY,
        item_name TEXT NOT NULL,
        content TEXT NOT NULL,
        created_at DATETIME DEFAULT CURRENT_TIMESTAMP
    );
    CREATE TABLE IF NOT EXISTS WindowSettings (
        id INTEGER PRIMARY KEY,
        x INTEGER NOT NULL,
        y INTEGER NOT NULL,
        width INTEGER NOT NULL,
        height INTEGER NOT NULL,
        maximized INTEGER NOT NULL,
        fullscreen INTEGER NOT NULL,
        modified_at DATETIME DEFAULT CURRENT_TIMESTAMP
    );";

/// Inserts a window-geometry row, or overwrites all its fields and its time stamp.
pub(crate) const UPSERT_GEOMETRY: &'static str = "INSERT INTO WindowSettings (id, x, y, width, height, maximized, fullscreen, modified_at)
     VALUES (?1, ?2, ?3, ?4, ?5, ?6, ?7, CURRENT_TIMESTAMP)
     ON CONFLICT(id) DO UPDATE SET
         x = excluded.x,
         y = excluded.y,
         width = excluded.width,
         height = excluded.height,
         maximized = excluded.maximized,
         fullscreen = excluded.fullscreen,
         modified_at = CURRENT_TIMESTAMP";

/// Relies on `rusqlite::Connection::open`: opens the database file at `path`, creating it
/// where it does not exist.
#[verifier::external_body]
pub(crate) fn open_connection(path: &str) -> Result<rusqlite::Connection, rusqlite::Error> {
    rusqlite::Connection::open(path)
}

/// Relies on `rusqlite::Connection::execute_batch` with `CREATE TABLE IF NOT EXISTS`: a table
/// that exists keeps its rows, one that does not is made empty.
#[verifier::external_body]
pub(crate) fn create_tables(c: &mut rusqlite::Connection) -> (r: Result<(), rusqlite::Error>)
    ensures
        r is Ok ==> same_tables(*final(c), *old(c)),
{
    c.execute_batch(SCHEMA)
}

/// Relies on `rusqlite::Connection::query_row` and `OptionalExtension::optional`: the content
/// of the settings row `id`, or `None` where there is no such row.
#[verifier::external_body]
pub(crate) fn read_setting(c: &rusqlite::Connection, id: i64) -> (r: Result<
    Option<String>,
    rusqlite::Error,
>)
    ensures
        r matches Ok(Some(t)) ==> settings_rows(*c).contains_key(id as int) && t@ == settings_rows(
            *c,
        )[id as int].1,
        r matches Ok(None) ==> !settings_rows(*c).contains_key(id as int),
{
    c.query_row("SELECT content FROM UserSettings WHERE id = ?1", [id], |row| row.get(0)).optional()
}

/// Relies on `rusqlite::Connection::execute` with `REPLACE INTO`: the settings row `id` becomes
/// `(label, content)`, whether or not it existed. SQLite undoes a statement that fails, so on an
/// error the tables are as they were.
#[verifier::external_body]
pub(crate) fn write_setting(
    c: &mut rusqlite::Connection,
    id: i64,
    label: &str,
    content: &str,
) -> (r: Result<usize, rusqlite::Error>)
    ensures
        r is Ok ==> settings_rows(*final(c)) == settings_rows(*old(c)).insert(
            id as int,
            (label@, content@),
        ),
        r is Ok ==> geometry_rows(*final(c)) == geometry_rows(*old(c)),
        r is Ok ==> geometry_stamps(*final(c)) == geometry_stamps(*old(c)),
        r is Err ==> same_tables(*final(c), *old(c)),
{
    c.execute(
        "REPLACE INTO UserSettings (id, item_name, content) VALUES (?1, ?2, ?3)",
        (id, label, content),
    )
}

/// Relies on `rusqlite::Connection::execute` with `UPDATE ... SET content`: the content of the
/// settings row `id` is replaced and its label kept; nothing changes where there is no row `id`.
/// SQLite undoes a statement that fails, so on an error the tables are as they were.
#[verifier::external_body]
pub(crate) fn update_setting_content(c: &mut rusqlite::Connection, id: i64, content: &str) -> (r:
    Result<usize, rusqlite::Error>)
    ensures
        r is Ok ==> settings_rows(*final(c)) == with_content(
            settings_rows(*old(c)),
            id as int,
            content@,
        ),
        r is Ok ==> geometry_rows(*final(c)) == geometry_rows(*old(c)),
        r is Ok ==> geometry_stamps(*final(c)) == geometry_stamps(*old(c)),
        r is Err ==> same_tables(*final(c), *old(c)),
{
    c.execute("UPDATE UserSettings SET content = ?2 WHERE id = ?1", (id, content))
}

/// Relies on `rusqlite::Connection::execute` with one `REPLACE INTO` of two rows, which SQLite
/// applies as one statement: both rows are written, or, on an error, neither.
#[verifier::external_body]
pub(crate) fn write_setting_pair(
    c: &mut rusqlite::Connection,
    first_id: i64,
    first_label: &str,
    first_content: &str,
    second_id: i64,
    second_label: &str,
    second_content: &str,
) -> (r: Result<usize, rusqlite::Error>)
    ensures
        r is Ok ==> settings_rows(*final(c)) == settings_rows(*old(c)).insert(
            first_id as int,
            (first_label@, first_content@),
        ).insert(second_id as int, (second_label@, second_content@)),
        r is Ok ==> geometry_rows(*final(c)) == geometry_rows(*old(c)),
        r is Ok ==> geometry_stamps(*final(c)) == geometry_stamps(*old(c)),
        r is Err ==> same_tables(*final(c), *old(c)),
{
    c.execute(
        "REPLACE INTO UserSettings (id, item_name, content) VALUES (?1, ?2, ?3), (?4, ?5, ?6)",
        (first_id, first_label, first_content, second_id, second_label, second_content),
    )
}

/// Relies on `rusqlite::Connection::query_row` and `OptionalExtension::optional`: the
/// window-geometry row `id`, or `None` where there is no such row.
#[verifier::external_body]
pub(crate) fn read_geometry(c: &rusqlite::Connection, id: i64) -> (r: Result<
    Option<GeometryRow>,
    rusqlite::Error,
>)
    ensures
        r matches Ok(Some(g)) ==> geometry_rows(*c).contains_key(id as int) && geometry_values(g)
            == geometry_rows(*c)[id as int],
        r matches Ok(None) ==> !geometry_rows(*c).contains_key(id as int),
{
    c.query_row(
        "SELECT x, y, width, height, maximized, fullscreen FROM WindowSettings WHERE id = ?1",
        [id],
        |row| Ok((row.get(0)?, row.get(1)?, row.get(2)?, row.get(3)?, row.get(4)?, row.get(5)?)),
    ).optional()
}

/// Relies on `rusqlite::Connection::execute` with `INSERT ... ON CONFLICT(id) DO UPDATE`: the
/// window-geometry row `id` is inserted, or else all its fields and its time stamp overwritten;
/// the other rows keep theirs. SQLite undoes a statement that fails, so on an error the tables
/// are as they were.
#[verifier::external_body]
pub(crate) fn write_geometry(c: &mut rusqlite::Connection, id: i64, g: GeometryRow) -> (r: Result<
    usize,
    rusqlite::Error,
>)
    ensures
        r is Ok ==> geometry_rows(*final(c)) == geometry_rows(*old(c)).insert(
            id as int,
            geometry_values(g),
        ),
        r is Ok ==> settings_rows(*final(c)) == settings_rows(*old(c)),
        r is Ok ==> geometry_stamps(*final(c)).contains_key(id as int),
        r is Ok ==> geometry_stamps(*final(c)).remove(id as int) == geometry_stamps(*old(c)).remove(
            id as int,
        ),
        r is Err ==> same_tables(*final(c), *old(c)),
{
    c.execute(
        UPSERT_GEOMETRY,
        (id, g.0, g.1, g.2, g.3, g.4, g.5),
    )
}

/// Relies on the `Display` of `rusqlite::Error`: a message for the user.
#[verifier::external_body]
pub(crate) fn error_text(e: &rusqlite::Error) -> String {
    e.to_string()
}

} // verus!
