//! Where the database is.

use vstd::prelude::*;

verus! {

/// The settings of the database.
pub struct DbConfig {
    pub(crate) database_url: String,
}

impl DbConfig {
    /// The address of the database.
    pub closed spec fn spec_database_url(&self) -> Seq<char> {
        self.database_url@
    }

    /// The settings for the database at `database_url`.
    pub fn new(database_url: String) -> (config: Self)
        ensures
            config.spec_database_url() == database_url@,
    {
        DbConfig { database_url }
    }

    /// The address of the database.
    pub fn database_url(&self) -> (url: &str)
        ensures
            url@ == self.spec_database_url(),
    {
        self.database_url.as_str()
    }
}

} // verus!
