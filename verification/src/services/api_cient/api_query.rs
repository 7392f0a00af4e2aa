#![allow(non_snake_case)]
use vstd::prelude::*;
use crate::maps::StrMap;

verus! {

/// The structure of an API query:
/// `{"authToken": .., "id": .., "keepAlive": .., "sql": {"database": .., "sql": ..}, "debug": ..}`
pub struct ApiQuery {
    pub authToken: String,
    pub id: String,
    pub keepAlive: bool,
    pub sql: StrMap<String>,
    pub debug: bool,
}

impl ApiQuery {
    /// Creates a new instance; `sql` maps "database" to the database and
    /// "sql" to the query text.
    pub fn new(authToken: String, id: String, keepAlive: bool, database: String, sql: String, debug: bool) -> (res: Self)
        ensures
            res.authToken@ == authToken@,
            res.id@ == id@,
            res.keepAlive == keepAlive,
            res.debug == debug,
            res.sql.wf(),
            res.sql.map() == map!["database"@ => database, "sql"@ => sql],
    {
        let mut fields: StrMap<String> = StrMap::new();
        fields.insert("database".to_owned(), database);
        fields.insert("sql".to_owned(), sql);
        proof {
            reveal_strlit("database");
            reveal_strlit("sql");
            assert(fields.map() =~= map!["database"@ => database, "sql"@ => sql]);
        }
        Self { authToken, id, keepAlive, sql: fields, debug }
    }
}

} // verus!
