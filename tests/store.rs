use postboy_sync::base::Error;
use postboy_sync::store::{ImportResult, StoreConfig};

#[test]
fn store_config_defaults_and_builders() {
    let config = StoreConfig::default();
    assert_eq!(config.db_path, "postboy.db");
    assert_eq!(config.max_connections, 5);
    assert!(config.enable_wal);
    assert!(config.enable_foreign_keys);
    let custom = config.with_db_path(":memory:".to_string()).with_max_connections(1).with_wal(false);
    assert_eq!(custom.db_path, ":memory:");
    assert_eq!(custom.max_connections, 1);
    assert!(!custom.enable_wal);
}

#[test]
fn import_result_starts_empty_and_errors_describe_themselves() {
    let r = ImportResult::default();
    assert_eq!(r.collections_imported + r.requests_imported + r.environments_imported + r.globals_imported, 0);
    assert!(r.errors.is_empty());
    assert_eq!(Error::NotFound("x".to_string()).message(), "Not found: x");
    assert_eq!(Error::Deserialization("y".to_string()).message(), "Deserialization error: y");
}
