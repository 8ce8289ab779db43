use aide_rs::config::{config_from_toml, load_config, Config};
use aide_rs::error::Error;

#[test]
fn test_load_config_non_existent() {
    // No configuration file: the defaults.
    let config = load_config(None).unwrap();
    assert!(matches!(config, Config { .. }));
}

#[test]
fn test_load_config_empty_file() {
    let config = load_config(Some("\n")).unwrap();
    assert!(matches!(config, Config { .. }));
}

#[test]
fn test_load_config_invalid_toml() {
    let result = load_config(Some("this is not toml\n"));
    assert!(result.is_err());
    if let Err(Error::Config(_)) = result {
        // correct error type
    } else {
        panic!("Expected Config error");
    }
}

#[test]
fn config_error_carries_what_toml_reported() {
    match config_from_toml("this is not toml") {
        Err(Error::Config(m)) => {
            assert!(!m.is_empty());
            assert_ne!(m, "this is not toml");
        }
        other => panic!("unexpected {:?}", other),
    }
}

#[test]
fn config_accepts_tables_it_does_not_know() {
    assert!(config_from_toml("[section]\nkey = 1\n").is_ok());
    assert!(config_from_toml("a = 1\na = 2\n").is_err());
}
