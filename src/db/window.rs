//! The window-geometry record and its single row in the store.

use vstd::prelude::*;
use crate::db::sqlite::{
    error_text, geometry_rows, geometry_stamps, geometry_values, read_geometry, same_tables,
    settings_rows, write_geometry, GeometryRow,
};
use crate::db::store::{init_db, is_seeded, StoreError, GEOMETRY_ID};
use crate::types::WindowInformation;

verus! {

/// The integers that the window-geometry row holds for `w`; a flag is 1 when set, else 0.
pub open spec fn row_of(w: WindowInformation) -> (int, int, int, int, int, int) {
    (
        w.x as int,
        w.y as int,
        w.width as int,
        w.height as int,
        if w.maximized {
            1int
        } else {
            0
        },
        if w.fullscreen {
            1int
        } else {
            0
        },
    )
}

/// The record that a stored row gives: the zero record where there is no row, `Malformed`
/// where a value lies outside its field's range; a flag is set when its value is not 0.
pub open spec fn window_from_row(row: Option<(int, int, int, int, int, int)>) -> Result<
    WindowInformation,
    StoreError,
> {
    match row {
        None => Ok(
            WindowInformation {
                x: 0,
                y: 0,
                width: 0,
                height: 0,
                maximized: false,
                fullscreen: false,
            },
        ),
        Some(g) => if i32::MIN <= g.0 <= i32::MAX && i32::MIN <= g.1 <= i32::MAX && 0 <= g.2
            <= u32::MAX && 0 <= g.3 <= u32::MAX {
            Ok(
                WindowInformation {
                    x: g.0 as i32,
                    y: g.1 as i32,
                    width: g.2 as u32,
                    height: g.3 as u32,
                    maximized: g.4 != 0,
                    fullscreen: g.5 != 0,
                },
            )
        } else {
            Err(StoreError::Malformed)
        },
    }
}

/// The single geometry row among `g`, where there is one.
pub open spec fn stored_geometry(g: Map<int, (int, int, int, int, int, int)>) -> Option<
    (int, int, int, int, int, int),
> {
    if g.contains_key(GEOMETRY_ID as int) {
        Some(g[GEOMETRY_ID as int])
    } else {
        None
    }
}

/// The geometry rows after `w` is saved: the single row inserted, or overwritten.
pub open spec fn with_window(
    g: Map<int, (int, int, int, int, int, int)>,
    w: WindowInformation,
) -> Map<int, (int, int, int, int, int, int)> {
    g.insert(GEOMETRY_ID as int, row_of(w))
}

/// The optional integers of an optional row.
pub open spec fn optional_values(row: Option<GeometryRow>) -> Option<
    (int, int, int, int, int, int),
> {
    match row {
        Some(g) => Some(geometry_values(g)),
        None => None,
    }
}

impl WindowInformation {
    pub fn get_x(&self) -> (r: &i32)
        ensures
            *r == self.x,
    {
        &self.x
    }

    pub fn get_y(&self) -> (r: &i32)
        ensures
            *r == self.y,
    {
        &self.y
    }

    pub fn get_width(&self) -> (r: &u32)
        ensures
            *r == self.width,
    {
        &self.width
    }

    pub fn get_height(&self) -> (r: &u32)
        ensures
            *r == self.height,
    {
        &self.height
    }

    pub fn get_maximized(&self) -> (r: &bool)
        ensures
            *r == self.maximized,
    {
        &self.maximized
    }

    pub fn get_fullscreen(&self) -> (r: &bool)
        ensures
            *r == self.fullscreen,
    {
        &self.fullscreen
    }

    pub fn get_all(&self) -> (r: &WindowInformation)
        ensures
            *r == *self,
    {
        self
    }

    pub fn set_x(&mut self, x: i32)
        ensures
            *final(self) == (WindowInformation { x, ..*old(self) }),
    {
        self.x = x
    }

    pub fn set_y(&mut self, y: i32)
        ensures
            *final(self) == (WindowInformation { y, ..*old(self) }),
    {
        self.y = y
    }

    pub fn set_width(&mut self, width: u32)
        ensures
            *final(self) == (WindowInformation { width, ..*old(self) }),
    {
        self.width = width
    }

    pub fn set_height(&mut self, height: u32)
        ensures
            *final(self) == (WindowInformation { height, ..*old(self) }),
    {
        self.height = height
    }

    pub fn set_maximized(&mut self, maximized: bool)
        ensures
            *final(self) == (WindowInformation { maximized, ..*old(self) }),
    {
        self.maximized = maximized
    }

    pub fn set_fullscreen(&mut self, fullscreen: bool)
        ensures
            *final(self) == (WindowInformation { fullscreen, ..*old(self) }),
    {
        self.fullscreen = fullscreen
    }

    pub fn set_all(
        &mut self,
        x: i32,
        y: i32,
        width: u32,
        height: u32,
        maximized: bool,
        fullscreen: bool,
    )
        ensures
            *final(self) == (WindowInformation { x, y, width, height, maximized, fullscreen }),
    {
        self.x = x;
        self.y = y;
        self.width = width;
        self.height = height;
        self.maximized = maximized;
        self.fullscreen = fullscreen;
    }

    /// Opens the store's file at `path` and prepares it, as `init_db` does.
    pub fn connect_to_db(path: &str) -> (r: Result<rusqlite::Connection, StoreError>)
        ensures
            r matches Ok(c) ==> is_seeded(c),
            r matches Err(e) ==> e is Open || e is Schema,
    {
        init_db(path)
    }

    /// The record that a stored geometry row gives (see `window_from_row`).
    pub fn from_row(row: Option<GeometryRow>) -> (r: Result<WindowInformation, StoreError>)
        ensures
            r == window_from_row(optional_values(row)),
    {
        match row {
            None => Ok(WindowInformation::default()),
            Some(g) => {
                if i32::MIN as i64 <= g.0 && g.0 <= i32::MAX as i64 && i32::MIN as i64 <= g.1
                    && g.1 <= i32::MAX as i64 && 0 <= g.2 && g.2 <= u32::MAX as i64 && 0 <= g.3
                    && g.3 <= u32::MAX as i64 {
                    Ok(
                        WindowInformation {
                            x: g.0 as i32,
                            y: g.1 as i32,
                            width: g.2 as u32,
                            height: g.3 as u32,
                            maximized: g.4 != 0,
                            fullscreen: g.5 != 0,
                        },
                    )
                } else {
                    Err(StoreError::Malformed)
                }
            },
        }
    }

    /// Saves this record as the single geometry row: inserted where absent, else all its fields
    /// and its time stamp overwritten. On an error nothing is changed.
    pub fn save_to_db(&self, c: &mut rusqlite::Connection) -> (r: Result<(), StoreError>)
        ensures
            r is Ok ==> geometry_rows(*final(c)) == with_window(geometry_rows(*old(c)), *self),
            r is Ok ==> settings_rows(*final(c)) == settings_rows(*old(c)),
            r is Ok ==> geometry_stamps(*final(c)).contains_key(GEOMETRY_ID as int),
            r is Ok ==> geometry_stamps(*final(c)).remove(GEOMETRY_ID as int) == geometry_stamps(
                *old(c),
            ).remove(GEOMETRY_ID as int),
            r is Ok && geometry_rows(*old(c)).dom().subset_of(set![GEOMETRY_ID as int])
                ==> geometry_rows(*final(c)).dom() == set![GEOMETRY_ID as int],
            r matches Err(e) ==> e is Query && same_tables(*final(c), *old(c)),
    {
        let row: GeometryRow = (
            self.x as i64,
            self.y as i64,
            self.width as i64,
            self.height as i64,
            if self.maximized {
                1
            } else {
                0
            },
            if self.fullscreen {
                1
            } else {
                0
            },
        );
        assert(geometry_values(row) == row_of(*self));
        proof {
            lemma_save_then_load(geometry_rows(*c), *self, *self);
        }
        match write_geometry(c, GEOMETRY_ID, row) {
            Ok(_) => Ok(()),
            Err(e) => Err(StoreError::Query(error_text(&e))),
        }
    }

    /// Loads the record from the single geometry row; the zero record where there is none.
    pub fn load_from_db(c: &rusqlite::Connection) -> (r: Result<WindowInformation, StoreError>)
        ensures
            r matches Err(StoreError::Query(_)) || r == window_from_row(
                stored_geometry(geometry_rows(*c)),
            ),
    {
        match read_geometry(c, GEOMETRY_ID) {
            Ok(row) => WindowInformation::from_row(row),
            Err(e) => Err(StoreError::Query(error_text(&e))),
        }
    }
}

/// Saving a record and loading it back gives the same record, whatever was saved before; saving
/// the same record again changes nothing, and no save adds a row besides the single one.
pub proof fn lemma_save_then_load(
    g: Map<int, (int, int, int, int, int, int)>,
    earlier: WindowInformation,
    w: WindowInformation,
)
    ensures
        window_from_row(stored_geometry(with_window(g, w))) == Ok::<WindowInformation, StoreError>(
            w,
        ),
        window_from_row(stored_geometry(with_window(with_window(g, earlier), w))) == Ok::<
            WindowInformation,
            StoreError,
        >(w),
        with_window(with_window(g, w), w) == with_window(g, w),
        with_window(g, w).dom() == g.dom().insert(GEOMETRY_ID as int),
        g.dom().subset_of(set![GEOMETRY_ID as int]) ==> with_window(g, w).dom() == set![
            GEOMETRY_ID as int,
        ],
        g.dom().subset_of(set![GEOMETRY_ID as int]) ==> with_window(with_window(g, w), w).dom()
            == set![GEOMETRY_ID as int],
{
    if g.dom().subset_of(set![GEOMETRY_ID as int]) {
        assert(with_window(g, w).dom() =~= set![GEOMETRY_ID as int]);
    }
    assert(with_window(with_window(g, w), w) =~= with_window(g, w));
    assert(with_window(g, w).dom() =~= g.dom().insert(GEOMETRY_ID as int));
}

} // verus!
