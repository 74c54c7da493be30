//! Opening the store: its tables made where missing, and the reserved rows seeded where absent.

use vstd::prelude::*;
use crate::db::sqlite::{
    create_tables, error_text, geometry_rows, geometry_stamps, geometry_values, open_connection,
    read_geometry, read_setting, same_tables, settings_rows, write_geometry, write_setting,
};

verus! {

/// Why a store operation failed.
#[derive(Debug, Clone)]
pub enum StoreError {
    /// The store's file could not be opened or created.
    Open(String),
    /// The tables could not be made, or the reserved rows not seeded.
    Schema(String),
    /// A read or a write failed.
    Query(String),
    /// The reserved settings row with this identifier is missing.
    MissingRow(i64),
    /// A stored value lies outside the range of the field that it is read into.
    Malformed,
}

/// The identifier of the settings row that holds the free-text note.
pub const NOTE_ID: i64 = 1;
/// The identifier of the settings row that holds the window width.
pub const WIDTH_ID: i64 = 2;
/// The identifier of the settings row that holds the window height.
pub const HEIGHT_ID: i64 = 3;
/// The identifier of the single window-geometry row.
pub const GEOMETRY_ID: i64 = 1;

/// `t` with the row `row` under `id` where `t` has no row `id`; `t` unchanged otherwise.
pub open spec fn seed_if_absent<V>(t: Map<int, V>, id: int, row: V) -> Map<int, V> {
    if t.contains_key(id) {
        t
    } else {
        t.insert(id, row)
    }
}

/// The settings rows after seeding: the note, the width and the height rows, each with its
/// default only where it is absent.
pub open spec fn seeded_settings(t: Map<int, (Seq<char>, Seq<char>)>) -> Map<
    int,
    (Seq<char>, Seq<char>),
> {
    seed_if_absent(
        seed_if_absent(
            seed_if_absent(t, NOTE_ID as int, ("Default Entry"@, "Initial Setting"@)),
            WIDTH_ID as int,
            ("WindowWidth"@, "600"@),
        ),
        HEIGHT_ID as int,
        ("WindowHeight"@, "300"@),
    )
}

/// The default window geometry: at (600, 300), 1000 wide, 600 high, neither maximized nor
/// fullscreen.
pub open spec fn default_geometry() -> (int, int, int, int, int, int) {
    (600, 300, 1000, 600, 0, 0)
}

/// The window-geometry rows after seeding: the single row with its default where it is absent.
pub open spec fn seeded_geometry(g: Map<int, (int, int, int, int, int, int)>) -> Map<
    int,
    (int, int, int, int, int, int),
> {
    seed_if_absent(g, GEOMETRY_ID as int, default_geometry())
}

fn seed_setting(c: &mut rusqlite::Connection, id: i64, label: &str, content: &str) -> (r: Result<
    (),
    rusqlite::Error,
>)
    ensures
        r is Ok ==> settings_rows(*final(c)) == seed_if_absent(
            settings_rows(*old(c)),
            id as int,
            (label@, content@),
        ),
        r is Ok ==> geometry_rows(*final(c)) == geometry_rows(*old(c)),
        r is Ok ==> geometry_stamps(*final(c)) == geometry_stamps(*old(c)),
        r is Ok && settings_rows(*old(c)).contains_key(id as int) ==> same_tables(
            *final(c),
            *old(c),
        ),
{
    match read_setting(c, id) {
        Err(e) => Err(e),
        Ok(Some(_)) => Ok(()),
        Ok(None) => match write_setting(c, id, label, content) {
            Ok(_) => Ok(()),
            Err(e) => Err(e),
        },
    }
}

fn seed_geometry(c: &mut rusqlite::Connection) -> (r: Result<(), rusqlite::Error>)
    ensures
        r is Ok ==> geometry_rows(*final(c)) == seeded_geometry(geometry_rows(*old(c))),
        r is Ok ==> settings_rows(*final(c)) == settings_rows(*old(c)),
        r is Ok ==> geometry_stamps(*final(c)).remove(GEOMETRY_ID as int) == geometry_stamps(
            *old(c),
        ).remove(GEOMETRY_ID as int),
        r is Ok && geometry_rows(*old(c)).contains_key(GEOMETRY_ID as int) ==> same_tables(
            *final(c),
            *old(c),
        ),
{
    match read_geometry(c, GEOMETRY_ID) {
        Err(e) => Err(e),
        Ok(Some(_)) => Ok(()),
        Ok(None) => {
            let row = (600i64, 300i64, 1000i64, 600i64, 0i64, 0i64);
            assert(geometry_values(row) == default_geometry());
            match write_geometry(c, GEOMETRY_ID, row) {
                Ok(_) => Ok(()),
                Err(e) => Err(e),
            }
        },
    }
}

fn schema_error(e: rusqlite::Error) -> (r: StoreError)
    ensures
        r is Schema,
{
    StoreError::Schema(error_text(&e))
}

/// Makes the tables where they are missing and seeds the reserved rows where they are absent;
/// rows that exist are left as they are, time stamps included. On a store that is already
/// seeded it changes nothing.
pub fn prepare_store(c: &mut rusqlite::Connection) -> (r: Result<(), StoreError>)
    ensures
        r is Ok ==> settings_rows(*final(c)) == seeded_settings(settings_rows(*old(c))),
        r is Ok ==> geometry_rows(*final(c)) == seeded_geometry(geometry_rows(*old(c))),
        r is Ok ==> geometry_stamps(*final(c)).remove(GEOMETRY_ID as int) == geometry_stamps(
            *old(c),
        ).remove(GEOMETRY_ID as int),
        r is Ok && geometry_rows(*old(c)).contains_key(GEOMETRY_ID as int) ==> geometry_stamps(
            *final(c),
        ) == geometry_stamps(*old(c)),
        r is Ok && is_seeded(*old(c)) ==> same_tables(*final(c), *old(c)),
        r is Ok && geometry_rows(*old(c)).dom().subset_of(set![GEOMETRY_ID as int])
            ==> geometry_rows(*final(c)).dom() == set![GEOMETRY_ID as int],
        r matches Err(e) ==> e is Schema,
{
    proof {
        if is_seeded(*old(c)) {
            lemma_seeded_store_is_fixed(*old(c));
        }
        lemma_reopening_changes_nothing(settings_rows(*old(c)), geometry_rows(*old(c)));
    }
    if let Err(e) = create_tables(c) {
        return Err(schema_error(e));
    }
    if let Err(e) = seed_setting(c, NOTE_ID, "Default Entry", "Initial Setting") {
        return Err(schema_error(e));
    }
    if let Err(e) = seed_setting(c, WIDTH_ID, "WindowWidth", "600") {
        return Err(schema_error(e));
    }
    if let Err(e) = seed_setting(c, HEIGHT_ID, "WindowHeight", "300") {
        return Err(schema_error(e));
    }
    if let Err(e) = seed_geometry(c) {
        return Err(schema_error(e));
    }
    Ok(())
}

/// Whether the rows are those of some earlier content after seeding.
pub open spec fn is_seeded(c: rusqlite::Connection) -> bool {
    exists|t: Map<int, (Seq<char>, Seq<char>)>, g: Map<int, (int, int, int, int, int, int)>|
        settings_rows(c) == seeded_settings(t) && geometry_rows(c) == seeded_geometry(g)
}

/// Opens the store's file at `path`, creating it where it does not exist, and prepares it
/// (see `prepare_store`).
pub fn init_db(path: &str) -> (r: Result<rusqlite::Connection, StoreError>)
    ensures
        r matches Ok(c) ==> is_seeded(c),
        r matches Err(e) ==> e is Open || e is Schema,
{
    let mut c = match open_connection(path) {
        Ok(c) => c,
        Err(e) => {
            return Err(StoreError::Open(error_text(&e)));
        },
    };
    let ghost before = c;
    match prepare_store(&mut c) {
        Ok(()) => {
            assert(settings_rows(c) == seeded_settings(settings_rows(before)));
            assert(geometry_rows(c) == seeded_geometry(geometry_rows(before)));
            Ok(c)
        },
        Err(e) => Err(e),
    }
}

/// A seeded store is left as it is by seeding: every reserved row is present, so none is
/// written again.
pub proof fn lemma_seeded_store_is_fixed(c: rusqlite::Connection)
    requires
        is_seeded(c),
    ensures
        seeded_settings(settings_rows(c)) == settings_rows(c),
        seeded_geometry(geometry_rows(c)) == geometry_rows(c),
        settings_rows(c).contains_key(NOTE_ID as int),
        settings_rows(c).contains_key(WIDTH_ID as int),
        settings_rows(c).contains_key(HEIGHT_ID as int),
        geometry_rows(c).contains_key(GEOMETRY_ID as int),
{
    let (t, g) = choose|t: Map<int, (Seq<char>, Seq<char>)>, g: Map<int, (int, int, int, int, int, int)>|
        settings_rows(c) == seeded_settings(t) && geometry_rows(c) == seeded_geometry(g);
    lemma_reopening_changes_nothing(t, g);
}

/// Opening the store again changes nothing: seeding adds exactly the reserved rows that are
/// absent, never alters a row that is present, and a second seeding leaves the rows as the
/// first left them, so no reserved row is ever doubled or overwritten.
pub proof fn lemma_reopening_changes_nothing(
    t: Map<int, (Seq<char>, Seq<char>)>,
    g: Map<int, (int, int, int, int, int, int)>,
)
    ensures
        seeded_settings(seeded_settings(t)) == seeded_settings(t),
        seeded_geometry(seeded_geometry(g)) == seeded_geometry(g),
        seeded_settings(t).dom() == t.dom().union(
            set![NOTE_ID as int, WIDTH_ID as int, HEIGHT_ID as int],
        ),
        seeded_geometry(g).dom() == g.dom().insert(GEOMETRY_ID as int),
        g.dom().subset_of(set![GEOMETRY_ID as int]) ==> seeded_geometry(g).dom() == set![
            GEOMETRY_ID as int,
        ],
        forall|id: int| #[trigger] t.contains_key(id) ==> seeded_settings(t)[id] == t[id],
        forall|id: int| #[trigger] g.contains_key(id) ==> seeded_geometry(g)[id] == g[id],
{
    assert(seeded_settings(t).dom() =~= t.dom().union(
        set![NOTE_ID as int, WIDTH_ID as int, HEIGHT_ID as int],
    ));
    assert(seeded_geometry(g).dom() =~= g.dom().insert(GEOMETRY_ID as int));
    if g.dom().subset_of(set![GEOMETRY_ID as int]) {
        assert(seeded_geometry(g).dom() =~= set![GEOMETRY_ID as int]);
    }
}

} // verus!
