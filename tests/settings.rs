use role_playing_guild::settings::{
    connections_from, default_db_path, default_key_path, default_listen, default_log, Field,
    Origin, RawValue, ResolutionError, Settings,
};

fn env(pairs: &[(&str, &str)]) -> Vec<(String, String)> {
    pairs.iter().map(|(k, v)| (k.to_string(), v.to_string())).collect()
}

fn file(pairs: &[(&str, &str)]) -> Vec<(String, RawValue)> {
    pairs
        .iter()
        .map(|(k, v)| (k.to_string(), RawValue::Scalar(v.to_string())))
        .collect()
}

#[test]
fn defaults_are_fixed() {
    assert_eq!(default_log(), "role_playing_guild=info");
    assert_eq!(default_listen(), "0.0.0.0:8080");
    assert_eq!(default_db_path(), "database.db");
    assert_eq!(default_key_path(), "jwt_signing_key.bin");
}

#[test]
fn environment_only_scenario() {
    let e = env(&[("RPG__DB_MAX_CONNECTIONS", "5"), ("RPG__API_ADDR", "127.0.0.1:9000")]);
    let s = Settings::new(&Vec::new(), &e).unwrap();
    assert_eq!(
        s,
        Settings {
            log: "role_playing_guild=info".to_string(),
            api_addr: "127.0.0.1:9000".to_string(),
            db_path: "database.db".to_string(),
            db_max_connections: 5,
            jwt_key_path: "jwt_signing_key.bin".to_string(),
        }
    );
}

#[test]
fn environment_overrides_file() {
    let f = file(&[
        ("api_addr", "10.0.0.1:1"),
        ("db_max_connections", "3"),
        ("db_path", "file.db"),
    ]);
    let e = env(&[("RPG__DB_MAX_CONNECTIONS", "7"), ("RPG__DB_PATH", "env.db")]);
    let s = Settings::new(&f, &e).unwrap();
    assert_eq!(s.db_max_connections, 7);
    assert_eq!(s.db_path, "env.db");
    assert_eq!(s.api_addr, "10.0.0.1:1");
    assert_eq!(s.log, "role_playing_guild=info");
}

#[test]
fn file_alone_is_used() {
    let f = file(&[("db_max_connections", "2"), ("log", "debug"), ("jwt_key_path", "k.bin")]);
    let s = Settings::new(&f, &Vec::new()).unwrap();
    assert_eq!(s.db_max_connections, 2);
    assert_eq!(s.log, "debug");
    assert_eq!(s.jwt_key_path, "k.bin");
}

#[test]
fn missing_connections_fails() {
    let f = file(&[("log", "debug")]);
    let e = env(&[("RPG__API_ADDR", "127.0.0.1:9000"), ("DB_MAX_CONNECTIONS", "4")]);
    assert_eq!(
        Settings::new(&f, &e),
        Err(ResolutionError::MissingField(Field::DbMaxConnections))
    );
    assert_eq!(
        Settings::new(&Vec::new(), &Vec::new()),
        Err(ResolutionError::MissingField(Field::DbMaxConnections))
    );
}

#[test]
fn non_numeric_connections_is_a_mismatch() {
    let e = env(&[("RPG__DB_MAX_CONNECTIONS", "many")]);
    assert_eq!(
        Settings::new(&Vec::new(), &e),
        Err(ResolutionError::TypeMismatch {
            field: Field::DbMaxConnections,
            origin: Origin::Environment
        })
    );
}

#[test]
fn too_large_connections_is_a_mismatch() {
    let f = file(&[("db_max_connections", "5000000000")]);
    assert_eq!(
        Settings::new(&f, &Vec::new()),
        Err(ResolutionError::TypeMismatch {
            field: Field::DbMaxConnections,
            origin: Origin::File
        })
    );
}

#[test]
fn composite_value_is_a_mismatch_before_missing() {
    let f = vec![("log".to_string(), RawValue::Composite)];
    assert_eq!(
        Settings::new(&f, &Vec::new()),
        Err(ResolutionError::TypeMismatch {
            field: Field::Log,
            origin: Origin::File
        })
    );
}

#[test]
fn environment_names_ignore_case() {
    let e = env(&[("rpg__db_max_connections", "9"), ("Rpg__Log", "trace")]);
    let s = Settings::new(&Vec::new(), &e).unwrap();
    assert_eq!(s.db_max_connections, 9);
    assert_eq!(s.log, "trace");
}

#[test]
fn later_environment_entry_wins() {
    let e = env(&[("RPG__DB_MAX_CONNECTIONS", "1"), ("rpg__db_max_connections", "2")]);
    assert_eq!(Settings::new(&Vec::new(), &e).unwrap().db_max_connections, 2);
}

#[test]
fn config_reads_words_as_numbers() {
    let e = env(&[("RPG__DB_MAX_CONNECTIONS", "yes")]);
    assert_eq!(Settings::new(&Vec::new(), &e).unwrap().db_max_connections, 1);
}

#[test]
fn connections_range() {
    assert_eq!(connections_from(Some(5), Origin::File), Ok(5));
    assert_eq!(connections_from(Some(u32::MAX as u64), Origin::File), Ok(u32::MAX));
    assert_eq!(
        connections_from(Some(u32::MAX as u64 + 1), Origin::Environment),
        Err(ResolutionError::TypeMismatch {
            field: Field::DbMaxConnections,
            origin: Origin::Environment
        })
    );
    assert_eq!(
        connections_from(None, Origin::File),
        Err(ResolutionError::TypeMismatch {
            field: Field::DbMaxConnections,
            origin: Origin::File
        })
    );
}

#[test]
fn field_keys() {
    assert_eq!(Field::Log.key(), "log");
    assert_eq!(Field::DbMaxConnections.key(), "db_max_connections");
}

#[test]
fn resolve_takes_lowered_names() {
    let lowered = env(&[("rpg__db_max_connections", "6"), ("rpg__jwt_key_path", "a.bin")]);
    let s = Settings::resolve(&Vec::new(), &lowered).unwrap();
    assert_eq!(s.db_max_connections, 6);
    assert_eq!(s.jwt_key_path, "a.bin");
    let upper = env(&[("RPG__DB_MAX_CONNECTIONS", "6")]);
    assert_eq!(
        Settings::resolve(&Vec::new(), &upper),
        Err(ResolutionError::MissingField(Field::DbMaxConnections))
    );
}

#[test]
fn nested_environment_key_is_not_a_field() {
    let e = env(&[("RPG__DB__PATH", "x.db"), ("RPG__DB_MAX_CONNECTIONS", "1")]);
    assert_eq!(Settings::new(&Vec::new(), &e).unwrap().db_path, "database.db");
}
