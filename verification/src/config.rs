use vstd::prelude::*;

use crate::text::{decimal, decimal_string};

verus! {

/// Settings of the outgoing mail service.
#[derive(Debug, Clone)]
pub struct EmailSettings {
    pub code_expire_min: u16,
    pub smtp_host: String,
    pub smtp_port: u16,
    pub username: String,
    pub password: String,
    pub from: String,
}

/// Settings of the database connection pool.
#[derive(Debug, Clone)]
pub struct DatabaseSettings {
    pub user: String,
    pub password: String,
    pub host: String,
    pub port: u16,
    pub name: String,
    pub pool_size: u32,
    pub pool_timeout: u64,
    pub pool_recycle: u64,
}

/// Settings of token issuing.
#[derive(Debug, Clone)]
pub struct AuthSettings {
    pub secret_key: String,
    pub access_expire_min: i64,
    pub refresh_expire_min: i64,
}

/// All settings of the service.
#[derive(Debug, Clone)]
pub struct Settings {
    pub email: EmailSettings,
    pub database: DatabaseSettings,
    pub auth: AuthSettings,
}

impl DatabaseSettings {
    /// `postgres://{user}:{password}@{host}:{port}/{name}`.
    pub open spec fn connection_string_spec(&self) -> Seq<char> {
        "postgres://"@ + self.user@ + ":"@ + self.password@ + "@"@ + self.host@ + ":"@
            + decimal(self.port as nat) + "/"@ + self.name@
    }

    /// The PostgreSQL connection URL of these settings.
    pub fn connection_string(&self) -> (s: String)
        ensures
            s@ == self.connection_string_spec(),
    {
        let mut s = String::from_str("postgres://");
        s.append(self.user.as_str());
        s.append(":");
        s.append(self.password.as_str());
        s.append("@");
        s.append(self.host.as_str());
        s.append(":");
        let port = decimal_string(self.port as u64);
        s.append(port.as_str());
        s.append("/");
        s.append(self.name.as_str());
        s
    }
}

} // verus!
