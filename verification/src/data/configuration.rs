//! Settings of the data service and the database connection string.
use vstd::prelude::*;
use crate::text::{decimal, decimal_string};

verus! {

/// Settings of the data service, read from `config.yaml` and the
/// `FLIGHTS_*` environment variables.
pub struct Settings {
    pub database: DbConfig,
    pub kiwi_api_key: String,
}

/// Where and as whom to connect to the database.
pub struct DbConfig {
    pub username: String,
    pub password: String,
    pub port: u16,
    pub host: String,
    pub database_name: String,
}

/// `postgres://{username}:{password}@{host}:{port}/{database_name}`.
pub open spec fn connection_url(
    username: Seq<char>,
    password: Seq<char>,
    host: Seq<char>,
    port: u16,
    database_name: Seq<char>,
) -> Seq<char> {
    "postgres://"@ + username + ":"@ + password + "@"@ + host + ":"@ + decimal(port as nat) + "/"@
        + database_name
}

impl DbConfig {
    /// The PostgreSQL connection URL for these settings.
    pub fn conn_string(&self) -> (s: String)
        ensures
            s@ == connection_url(
                self.username@,
                self.password@,
                self.host@,
                self.port,
                self.database_name@,
            ),
    {
        let mut s = String::from_str("postgres://");
        s.append(self.username.as_str());
        s.append(":");
        s.append(self.password.as_str());
        s.append("@");
        s.append(self.host.as_str());
        s.append(":");
        let port = decimal_string(self.port as u64);
        s.append(port.as_str());
        s.append("/");
        s.append(self.database_name.as_str());
        s
    }
}

} // verus!
