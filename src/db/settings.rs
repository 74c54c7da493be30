//! The settings rows: the free-text note and the window size kept as text.

use vstd::prelude::*;
use crate::db::sqlite::{
    error_text, geometry_rows, geometry_stamps, read_setting, same_tables, settings_rows,
    update_setting_content, with_content, write_setting_pair,
};
use crate::db::store::{StoreError, HEIGHT_ID, NOTE_ID, WIDTH_ID};
use crate::text::{i32_of_text, int_text, lemma_int_text_round_trip, parse_i32, push_integer};
use crate::types::Dimension;

verus! {

fn query_error(e: rusqlite::Error) -> (r: StoreError)
    ensures
        r is Query,
{
    StoreError::Query(error_text(&e))
}

/// Reads the content of the settings row `id`; `MissingRow(id)` where it is absent.
fn read_required(c: &rusqlite::Connection, id: i64) -> (r: Result<String, StoreError>)
    ensures
        r matches Ok(s) ==> settings_rows(*c).contains_key(id as int) && s@ == settings_rows(
            *c,
        )[id as int].1,
        r matches Err(e) ==> e is Query || (e == StoreError::MissingRow(id)
            && !settings_rows(*c).contains_key(id as int)),
{
    match read_setting(c, id) {
        Ok(Some(s)) => Ok(s),
        Ok(None) => Err(StoreError::MissingRow(id)),
        Err(e) => Err(query_error(e)),
    }
}

/// The saved free-text note.
pub fn get_saved_entry(c: &rusqlite::Connection) -> (r: Result<String, StoreError>)
    ensures
        r matches Ok(s) ==> settings_rows(*c).contains_key(NOTE_ID as int) && s@ == settings_rows(
            *c,
        )[NOTE_ID as int].1,
        r matches Err(e) ==> e is Query || (e == StoreError::MissingRow(NOTE_ID)
            && !settings_rows(*c).contains_key(NOTE_ID as int)),
{
    read_required(c, NOTE_ID)
}

/// Saves `entry` as the content of the free-text note's row, its label kept; where the row is
/// missing nothing is written. On an error nothing is changed.
pub fn set_saved_entry(c: &mut rusqlite::Connection, entry: &str) -> (r: Result<(), StoreError>)
    ensures
        r is Ok ==> settings_rows(*final(c)) == with_content(
            settings_rows(*old(c)),
            NOTE_ID as int,
            entry@,
        ),
        r is Ok ==> geometry_rows(*final(c)) == geometry_rows(*old(c)),
        r is Ok ==> geometry_stamps(*final(c)) == geometry_stamps(*old(c)),
        r matches Err(e) ==> e is Query && same_tables(*final(c), *old(c)),
{
    match update_setting_content(c, NOTE_ID, entry) {
        Ok(_) => Ok(()),
        Err(e) => Err(query_error(e)),
    }
}

/// The saved window width and height, as the text that the settings rows hold.
pub fn get_window_size(c: &rusqlite::Connection) -> (r: Result<(String, String), StoreError>)
    ensures
        r matches Ok((w, h)) ==> {
            &&& settings_rows(*c).contains_key(WIDTH_ID as int)
            &&& settings_rows(*c).contains_key(HEIGHT_ID as int)
            &&& w@ == settings_rows(*c)[WIDTH_ID as int].1
            &&& h@ == settings_rows(*c)[HEIGHT_ID as int].1
        },
        r matches Err(e) ==> e is Query || (e == StoreError::MissingRow(WIDTH_ID)
            && !settings_rows(*c).contains_key(WIDTH_ID as int)) || (e == StoreError::MissingRow(
            HEIGHT_ID,
        ) && !settings_rows(*c).contains_key(HEIGHT_ID as int)),
{
    let w = read_required(c, WIDTH_ID)?;
    let h = read_required(c, HEIGHT_ID)?;
    Ok((w, h))
}

/// The settings rows after the window size `width` by `height` is saved: each as its decimal text.
pub open spec fn with_window_size(
    t: Map<int, (Seq<char>, Seq<char>)>,
    width: i32,
    height: i32,
) -> Map<int, (Seq<char>, Seq<char>)> {
    t.insert(WIDTH_ID as int, ("WindowWidth"@, int_text(width as int))).insert(
        HEIGHT_ID as int,
        ("WindowHeight"@, int_text(height as int)),
    )
}

fn integer_text(n: i32) -> (r: String)
    ensures
        r@ == int_text(n as int),
{
    let mut out = String::new();
    push_integer(&mut out, n as i64);
    assert(out@ =~= int_text(n as int));
    out
}

/// Saves the window size `width` by `height`, both rows in one statement: on an error neither
/// is written.
pub fn set_window_position(c: &mut rusqlite::Connection, width: i32, height: i32) -> (r: Result<
    (),
    StoreError,
>)
    ensures
        r is Ok ==> settings_rows(*final(c)) == with_window_size(settings_rows(*old(c)), width, height),
        r is Ok ==> geometry_rows(*final(c)) == geometry_rows(*old(c)),
        r is Ok ==> geometry_stamps(*final(c)) == geometry_stamps(*old(c)),
        r matches Err(e) ==> e is Query && same_tables(*final(c), *old(c)),
{
    let w = integer_text(width);
    let h = integer_text(height);
    match write_setting_pair(
        c,
        WIDTH_ID,
        "WindowWidth",
        w.as_str(),
        HEIGHT_ID,
        "WindowHeight",
        h.as_str(),
    ) {
        Ok(_) => Ok(()),
        Err(e) => Err(query_error(e)),
    }
}

impl Dimension {
    /// The window width and height that the texts `width` and `height` write in decimal,
    /// each absent where its text writes no `i32`.
    pub fn from_text(width: &str, height: &str) -> (r: Dimension)
        ensures
            r.x_position == i32_of_text(width@),
            r.y_position == i32_of_text(height@),
    {
        Dimension { x_position: parse_i32(width), y_position: parse_i32(height) }
    }
}

/// The saved window width and height, read as numbers (see `Dimension::from_text`).
pub fn get_window_position(c: &rusqlite::Connection) -> (r: Result<Dimension, StoreError>)
    ensures
        r matches Ok(d) ==> {
            &&& settings_rows(*c).contains_key(WIDTH_ID as int)
            &&& settings_rows(*c).contains_key(HEIGHT_ID as int)
            &&& d.x_position == i32_of_text(settings_rows(*c)[WIDTH_ID as int].1)
            &&& d.y_position == i32_of_text(settings_rows(*c)[HEIGHT_ID as int].1)
        },
        r matches Err(e) ==> e is Query || (e == StoreError::MissingRow(WIDTH_ID)
            && !settings_rows(*c).contains_key(WIDTH_ID as int)) || (e == StoreError::MissingRow(
            HEIGHT_ID,
        ) && !settings_rows(*c).contains_key(HEIGHT_ID as int)),
{
    let (w, h) = get_window_size(c)?;
    Ok(Dimension::from_text(w.as_str(), h.as_str()))
}

/// A window size saved by `set_window_position` reads back as exactly the same width and
/// height, whatever the rows held before.
pub proof fn lemma_window_size_round_trip(
    t: Map<int, (Seq<char>, Seq<char>)>,
    width: i32,
    height: i32,
)
    ensures
        with_window_size(t, width, height).contains_key(WIDTH_ID as int),
        with_window_size(t, width, height).contains_key(HEIGHT_ID as int),
        i32_of_text(with_window_size(t, width, height)[WIDTH_ID as int].1) == Some(width),
        i32_of_text(with_window_size(t, width, height)[HEIGHT_ID as int].1) == Some(height),
{
    lemma_int_text_round_trip(width as int);
    lemma_int_text_round_trip(height as int);
}

} // verus!
