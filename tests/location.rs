use machine_info::{resolve_db_path, BuildMode, PathError};

fn path(parts: &[&str]) -> Vec<String> {
    parts.iter().map(|p| p.to_string()).collect()
}

#[test]
fn development_store_beside_executable() {
    let r = resolve_db_path(
        BuildMode::Development,
        Some(path(&["/", "home", "u", "target", "debug", "machine_info"])),
        Some(path(&["/", "home", "u", ".config"])),
        Some(path(&["/", "home", "u"])),
        "machine_info",
    );
    assert_eq!(r, Ok(path(&["/", "home", "u", "target", "debug", "app.db"])));
}

#[test]
fn production_store_in_configuration_directory() {
    let r = resolve_db_path(
        BuildMode::Production,
        Some(path(&["/", "usr", "local", "bin", "machine_info"])),
        Some(path(&["/", "home", "u", ".config"])),
        Some(path(&["/", "home", "u"])),
        "machine_info",
    );
    assert_eq!(r, Ok(path(&["/", "home", "u", ".config", "machine_info", "app.db"])));
}

#[test]
fn production_store_in_application_support() {
    let r = resolve_db_path(
        BuildMode::Production,
        None,
        Some(path(&["/", "Users", "u", "Library", "Application Support"])),
        None,
        "machine_info",
    );
    assert_eq!(
        r,
        Ok(path(&["/", "Users", "u", "Library", "Application Support", "machine_info", "app.db"]))
    );
}

#[test]
fn production_falls_back_to_home() {
    let r = resolve_db_path(
        BuildMode::Production,
        Some(path(&["/", "bin", "info"])),
        None,
        Some(path(&["/", "home", "u"])),
        "machine_info",
    );
    assert_eq!(r, Ok(path(&["/", "home", "u", ".config", "machine_info", "app.db"])));
}

#[test]
fn development_falls_back_to_home() {
    let r = resolve_db_path(
        BuildMode::Development,
        Some(Vec::new()),
        Some(path(&["/", "cfg"])),
        Some(path(&["/", "root"])),
        "app",
    );
    assert_eq!(r, Ok(path(&["/", "root", ".config", "app", "app.db"])));
}

#[test]
fn no_location_without_home() {
    assert_eq!(
        resolve_db_path(BuildMode::Production, Some(path(&["/", "x"])), None, None, "app"),
        Err(PathError::NoLocation)
    );
    assert_eq!(
        resolve_db_path(BuildMode::Development, None, Some(path(&["/", "cfg"])), None, "app"),
        Err(PathError::NoLocation)
    );
}
