//! Passphrase-protected local persistence for named ClickHouse connection
//! profiles: resolves the platform data directory, opens (creating if
//! absent) the encrypted database file, ensures the single table schema,
//! and offers CRUD over profile records.

pub mod clickhouse_connection;
pub mod errors;
pub mod laws;
pub mod locate;
pub mod repository;
pub mod storage;

pub use clickhouse_connection::ClickhouseConnection;
pub use errors::{ControlledErrors, RepositoryError, StorageError};
pub use locate::{check_database_file, check_database_file_in};
pub use repository::Repository;
