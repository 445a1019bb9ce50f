//! Settings of the local database that stores the models.

use vstd::prelude::*;
use vstd::string::*;

verus! {

/// How the local database is opened.
#[derive(Clone, Debug)]
pub struct StoreConfig {
    /// Path of the database file.
    pub db_path: String,
    /// Size bound of the connection pool.
    pub max_connections: u32,
    /// Write-ahead logging, for better concurrent access.
    pub enable_wal: bool,
    pub enable_foreign_keys: bool,
}

impl Default for StoreConfig {
    fn default() -> (r: Self)
        ensures
            r.db_path@ == "postboy.db"@,
            r.max_connections == 5,
            r.enable_wal,
            r.enable_foreign_keys,
    {
        StoreConfig {
            db_path: String::from_str("postboy.db"),
            max_connections: 5,
            enable_wal: true,
            enable_foreign_keys: true,
        }
    }
}

impl StoreConfig {
    pub fn with_db_path(self, path: String) -> (r: Self)
        ensures
            r.db_path == path,
            r.max_connections == self.max_connections,
            r.enable_wal == self.enable_wal,
            r.enable_foreign_keys == self.enable_foreign_keys,
    {
        let mut c = self;
        c.db_path = path;
        c
    }

    pub fn with_max_connections(self, max: u32) -> (r: Self)
        ensures
            r.db_path == self.db_path,
            r.max_connections == max,
            r.enable_wal == self.enable_wal,
            r.enable_foreign_keys == self.enable_foreign_keys,
    {
        let mut c = self;
        c.max_connections = max;
        c
    }

    pub fn with_wal(self, enable: bool) -> (r: Self)
        ensures
            r.db_path == self.db_path,
            r.max_connections == self.max_connections,
            r.enable_wal == enable,
            r.enable_foreign_keys == self.enable_foreign_keys,
    {
        let mut c = self;
        c.enable_wal = enable;
        c
    }
}

/// Counts and size of the database.
#[derive(Clone, Debug)]
pub struct DbStats {
    pub collections_count: usize,
    pub requests_count: usize,
    pub environments_count: usize,
    pub history_count: usize,
    /// Change records not yet synced.
    pub pending_sync_changes: usize,
    pub db_size_bytes: i64,
}

/// What an import brought in.
#[derive(Clone, Debug)]
pub struct ImportResult {
    pub collections_imported: usize,
    pub requests_imported: usize,
    pub environments_imported: usize,
    pub globals_imported: usize,
    pub errors: Vec<String>,
}

impl Default for ImportResult {
    fn default() -> (r: Self)
        ensures
            r.collections_imported == 0,
            r.requests_imported == 0,
            r.environments_imported == 0,
            r.globals_imported == 0,
            r.errors@.len() == 0,
    {
        ImportResult {
            collections_imported: 0,
            requests_imported: 0,
            environments_imported: 0,
            globals_imported: 0,
            errors: Vec::new(),
        }
    }
}

} // verus!
