//! The record type stored and retrieved: a named profile describing how to
//! reach and authenticate against a ClickHouse server.

use vstd::prelude::*;

verus! {

/// A connection profile. `id` is assigned by the storage engine on
/// creation: it is `None` before the first insert and always populated on
/// a record read back from storage.
#[derive(Clone, Debug, PartialEq, Eq)]
pub struct ClickhouseConnection {
    pub id: Option<i32>,
    pub name: Option<String>,
    pub host: String,
    pub port: u16,
    pub secure: bool,
    pub username: String,
    pub password: Option<String>,
    pub database: Option<String>,
}

/// The mathematical content of a stored row: every field the table holds
/// besides the engine-assigned id.
#[verifier::ext_equal]
pub struct StoredProfile {
    pub name: Option<Seq<char>>,
    pub host: Seq<char>,
    pub port: u16,
    pub secure: bool,
    pub username: Seq<char>,
    pub password: Option<Seq<char>>,
    pub database: Option<Seq<char>>,
}

impl ClickhouseConnection {
    /// The view of every field that the table stores besides the id.
    pub open spec fn stored(self) -> StoredProfile {
        StoredProfile {
            name: match self.name {
                Some(n) => Some(n@),
                None => None,
            },
            host: self.host@,
            port: self.port,
            secure: self.secure,
            username: self.username@,
            password: match self.password {
                Some(p) => Some(p@),
                None => None,
            },
            database: match self.database {
                Some(d) => Some(d@),
                None => None,
            },
        }
    }
}

} // verus!
