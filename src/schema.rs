use vstd::prelude::*;
use vstd::string::StringExecFns;

verus! {

/// The statement that creates the table of saved clippings.
pub const SNAPS_TABLE_SQL: &'static str = "
            CREATE TABLE IF NOT EXISTS snaps (
            id INTEGER PRIMARY KEY AUTOINCREMENT,
            title TEXT NOT NULL,
            content TEXT NOT NULL,
            content_type TEXT NOT NULL,
            tags TEXT,
            created_at TEXT NOT NULL,
            embedding TEXT
        );
            ";

/// A forward schema step: applied once, in increasing order of version.
pub struct Migration {
    pub version: i64,
    pub description: String,
    pub sql: String,
}

/// The schema steps of the clippings database, oldest first.
pub fn snaps_migrations() -> (r: Vec<Migration>)
    ensures
        r@.len() == 1,
        r@[0].version == 1,
        r@[0].description@ == "create snaps table"@,
        r@[0].sql@ == SNAPS_TABLE_SQL@,
{
    let mut r: Vec<Migration> = Vec::new();
    r.push(
        Migration {
            version: 1,
            description: String::from_str("create snaps table"),
            sql: String::from_str(SNAPS_TABLE_SQL),
        },
    );
    r
}

} // verus!
