use machine_info::{
    get_saved_entry, get_window_position, get_window_size, init_db, prepare_store,
    set_saved_entry, set_window_position, StoreError, WindowInformation,
};

fn count(conn: &rusqlite::Connection, table: &str) -> i64 {
    conn.query_row(&format!("SELECT COUNT(*) FROM {table}"), [], |row| row.get(0))
        .unwrap()
}

fn window(x: i32, y: i32, width: u32, height: u32, maximized: bool, fullscreen: bool) -> WindowInformation {
    WindowInformation { x, y, width, height, maximized, fullscreen }
}

#[test]
fn fresh_store_note_round_trip() {
    let mut conn = init_db(":memory:").unwrap();
    assert_eq!(get_saved_entry(&conn).unwrap(), "Initial Setting");
    set_saved_entry(&mut conn, "hello").unwrap();
    assert_eq!(get_saved_entry(&conn).unwrap(), "hello");
}

#[test]
fn fresh_store_has_seeded_rows() {
    let conn = init_db(":memory:").unwrap();
    assert_eq!(count(&conn, "UserSettings"), 3);
    assert_eq!(count(&conn, "WindowSettings"), 1);
    let (w, h) = get_window_size(&conn).unwrap();
    assert_eq!(w, "600");
    assert_eq!(h, "300");
    let wi = WindowInformation::load_from_db(&conn).unwrap();
    assert_eq!(wi, window(600, 300, 1000, 600, false, false));
}

#[test]
fn window_size_round_trip() {
    let mut conn = init_db(":memory:").unwrap();
    set_window_position(&mut conn, 800, 600).unwrap();
    let d = get_window_position(&conn).unwrap();
    assert_eq!(d.x_position, Some(800));
    assert_eq!(d.y_position, Some(600));
    let (w, h) = get_window_size(&conn).unwrap();
    assert_eq!(w, "800");
    assert_eq!(h, "600");
    assert_eq!(count(&conn, "UserSettings"), 3);
}

#[test]
fn window_size_round_trip_extremes() {
    let mut conn = init_db(":memory:").unwrap();
    for (w, h) in [(0, -1), (i32::MAX, i32::MIN), (-1280, 1)] {
        set_window_position(&mut conn, w, h).unwrap();
        let d = get_window_position(&conn).unwrap();
        assert_eq!(d.x_position, Some(w));
        assert_eq!(d.y_position, Some(h));
    }
}

#[test]
fn window_size_text_that_is_no_number() {
    let conn = init_db(":memory:").unwrap();
    conn.execute("UPDATE UserSettings SET content = 'wide' WHERE id = 2", []).unwrap();
    let d = get_window_position(&conn).unwrap();
    assert_eq!(d.x_position, None);
    assert_eq!(d.y_position, Some(300));
}

#[test]
fn window_state_round_trip() {
    let mut conn = init_db(":memory:").unwrap();
    let wi = window(10, 20, 800, 600, false, false);
    wi.save_to_db(&mut conn).unwrap();
    assert_eq!(WindowInformation::load_from_db(&conn).unwrap(), wi);
}

#[test]
fn window_state_repeated_save_keeps_one_row() {
    let mut conn = init_db(":memory:").unwrap();
    let first = window(-5, 7, 1920, 1080, true, false);
    let second = window(1, 2, 3, 4, false, true);
    first.save_to_db(&mut conn).unwrap();
    first.save_to_db(&mut conn).unwrap();
    assert_eq!(count(&conn, "WindowSettings"), 1);
    assert_eq!(WindowInformation::load_from_db(&conn).unwrap(), first);
    second.save_to_db(&mut conn).unwrap();
    assert_eq!(count(&conn, "WindowSettings"), 1);
    assert_eq!(WindowInformation::load_from_db(&conn).unwrap(), second);
}

#[test]
fn window_state_absent_row_loads_zero_record() {
    let conn = init_db(":memory:").unwrap();
    conn.execute("DELETE FROM WindowSettings", []).unwrap();
    assert_eq!(WindowInformation::load_from_db(&conn).unwrap(), WindowInformation::default());
    assert_eq!(WindowInformation::default(), window(0, 0, 0, 0, false, false));
}

#[test]
fn window_state_out_of_range_is_malformed() {
    let conn = init_db(":memory:").unwrap();
    conn.execute("UPDATE WindowSettings SET width = -1 WHERE id = 1", []).unwrap();
    assert!(matches!(WindowInformation::load_from_db(&conn), Err(StoreError::Malformed)));
}

#[test]
fn window_from_row_cases() {
    assert_eq!(WindowInformation::from_row(None).unwrap(), WindowInformation::default());
    assert_eq!(
        WindowInformation::from_row(Some((1, 2, 3, 4, 5, 0))).unwrap(),
        window(1, 2, 3, 4, true, false)
    );
    assert!(matches!(
        WindowInformation::from_row(Some((1 << 31, 0, 0, 0, 0, 0))),
        Err(StoreError::Malformed)
    ));
    assert!(matches!(
        WindowInformation::from_row(Some((0, 0, 1 << 32, 0, 0, 0))),
        Err(StoreError::Malformed)
    ));
}

#[test]
fn missing_note_row_is_reported() {
    let conn = init_db(":memory:").unwrap();
    conn.execute("DELETE FROM UserSettings WHERE id = 1", []).unwrap();
    assert!(matches!(get_saved_entry(&conn), Err(StoreError::MissingRow(1))));
}

#[test]
fn missing_height_row_is_reported() {
    let conn = init_db(":memory:").unwrap();
    conn.execute("DELETE FROM UserSettings WHERE id = 3", []).unwrap();
    assert!(matches!(get_window_position(&conn), Err(StoreError::MissingRow(3))));
}

#[test]
fn query_without_tables_fails() {
    let conn = rusqlite::Connection::open(":memory:").unwrap();
    assert!(matches!(get_saved_entry(&conn), Err(StoreError::Query(_))));
    assert!(matches!(WindowInformation::load_from_db(&conn), Err(StoreError::Query(_))));
}

#[test]
fn open_failure_is_reported() {
    assert!(matches!(init_db("/nonexistent-dir/for/sure/app.db"), Err(StoreError::Open(_))));
}

#[test]
fn saving_note_keeps_its_label() {
    let mut conn = init_db(":memory:").unwrap();
    conn.execute("UPDATE UserSettings SET item_name = 'Memo' WHERE id = 1", []).unwrap();
    set_saved_entry(&mut conn, "hello").unwrap();
    let (label, content): (String, String) = conn
        .query_row("SELECT item_name, content FROM UserSettings WHERE id = 1", [], |row| {
            Ok((row.get(0)?, row.get(1)?))
        })
        .unwrap();
    assert_eq!(label, "Memo");
    assert_eq!(content, "hello");
    assert_eq!(count(&conn, "UserSettings"), 3);
}

#[test]
fn saving_note_without_its_row_writes_nothing() {
    let mut conn = init_db(":memory:").unwrap();
    conn.execute("DELETE FROM UserSettings WHERE id = 1", []).unwrap();
    set_saved_entry(&mut conn, "hello").unwrap();
    assert_eq!(count(&conn, "UserSettings"), 2);
    assert!(matches!(get_saved_entry(&conn), Err(StoreError::MissingRow(1))));
}

#[test]
fn failed_writes_report_query_errors() {
    let mut conn = rusqlite::Connection::open(":memory:").unwrap();
    assert!(matches!(set_saved_entry(&mut conn, "x"), Err(StoreError::Query(_))));
    assert!(matches!(set_window_position(&mut conn, 1, 2), Err(StoreError::Query(_))));
    let wi = window(1, 2, 3, 4, false, false);
    assert!(matches!(wi.save_to_db(&mut conn), Err(StoreError::Query(_))));
}

#[test]
fn preparing_again_keeps_time_stamp() {
    let mut conn = init_db(":memory:").unwrap();
    conn.execute("UPDATE WindowSettings SET modified_at = '2001-02-03 04:05:06' WHERE id = 1", [])
        .unwrap();
    prepare_store(&mut conn).unwrap();
    let stamp: String = conn
        .query_row("SELECT modified_at FROM WindowSettings WHERE id = 1", [], |row| row.get(0))
        .unwrap();
    assert_eq!(stamp, "2001-02-03 04:05:06");
}

#[test]
fn saving_window_refreshes_time_stamp() {
    let mut conn = init_db(":memory:").unwrap();
    conn.execute("UPDATE WindowSettings SET modified_at = '2001-02-03 04:05:06' WHERE id = 1", [])
        .unwrap();
    window(1, 2, 3, 4, false, false).save_to_db(&mut conn).unwrap();
    let stamp: String = conn
        .query_row("SELECT modified_at FROM WindowSettings WHERE id = 1", [], |row| row.get(0))
        .unwrap();
    assert_ne!(stamp, "2001-02-03 04:05:06");
}

#[test]
fn preparing_twice_keeps_rows() {
    let mut conn = init_db(":memory:").unwrap();
    set_saved_entry(&mut conn, "kept").unwrap();
    set_window_position(&mut conn, 1024, 768).unwrap();
    window(3, 4, 500, 400, true, true).save_to_db(&mut conn).unwrap();
    prepare_store(&mut conn).unwrap();
    prepare_store(&mut conn).unwrap();
    assert_eq!(count(&conn, "UserSettings"), 3);
    assert_eq!(count(&conn, "WindowSettings"), 1);
    assert_eq!(get_saved_entry(&conn).unwrap(), "kept");
    let d = get_window_position(&conn).unwrap();
    assert_eq!((d.x_position, d.y_position), (Some(1024), Some(768)));
    assert_eq!(
        WindowInformation::load_from_db(&conn).unwrap(),
        window(3, 4, 500, 400, true, true)
    );
}

#[test]
fn reopening_store_keeps_rows() {
    let path = "file:reopening_store_keeps_rows?mode=memory&cache=shared";
    let mut first = init_db(path).unwrap();
    set_saved_entry(&mut first, "from the first start").unwrap();
    let second = WindowInformation::connect_to_db(path).unwrap();
    assert_eq!(count(&second, "UserSettings"), 3);
    assert_eq!(count(&second, "WindowSettings"), 1);
    assert_eq!(get_saved_entry(&second).unwrap(), "from the first start");
}

#[test]
fn prepare_reseeds_only_missing_rows() {
    let mut conn = init_db(":memory:").unwrap();
    set_saved_entry(&mut conn, "note").unwrap();
    conn.execute("DELETE FROM UserSettings WHERE id = 2", []).unwrap();
    prepare_store(&mut conn).unwrap();
    assert_eq!(get_saved_entry(&conn).unwrap(), "note");
    assert_eq!(get_window_size(&conn).unwrap().0, "600");
}

#[test]
fn window_information_accessors() {
    let mut wi = WindowInformation::default();
    wi.set_x(-3);
    wi.set_y(4);
    wi.set_width(640);
    wi.set_height(480);
    wi.set_maximized(true);
    wi.set_fullscreen(true);
    assert_eq!(*wi.get_x(), -3);
    assert_eq!(*wi.get_y(), 4);
    assert_eq!(*wi.get_width(), 640);
    assert_eq!(*wi.get_height(), 480);
    assert!(*wi.get_maximized());
    assert!(*wi.get_fullscreen());
    wi.set_all(1, 2, 3, 4, false, false);
    assert_eq!(*wi.get_all(), window(1, 2, 3, 4, false, false));
}
