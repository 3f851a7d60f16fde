//! Application settings and the defaults that stand in for missing ones.
use vstd::prelude::*;

verus! {

/// Database location used when the settings name none.
pub open spec fn default_database_uri_text() -> Seq<char> {
    "sqlite://database.db"@
}

/// Token-signing secret used when the settings name none.
pub open spec fn default_jwt_secret_text() -> Seq<char> {
    "debug"@
}

/// Database location used when the settings name none.
pub fn default_database_uri() -> (r: String)
    ensures
        r@ == default_database_uri_text(),
{
    "sqlite://database.db".to_owned()
}

/// Size of the connection pool used when the settings name none.
pub fn default_max_connections() -> (r: u32)
    ensures
        r == 1,
{
    1
}

/// Token-signing secret used when the settings name none.
pub fn default_jwt_secret() -> (r: String)
    ensures
        r@ == default_jwt_secret_text(),
{
    "debug".to_owned()
}

/// Settings of the application.
pub struct AppConfig {
    pub database_uri: String,
    pub max_connections: u32,
    pub jwt_secret: String,
}

impl AppConfig {
    /// Settings from the values that a settings file gives, each missing one
    /// replaced by its default.
    pub fn with_defaults(
        database_uri: Option<String>,
        max_connections: Option<u32>,
        jwt_secret: Option<String>,
    ) -> (r: AppConfig)
        ensures
            r.database_uri@ == match database_uri {
                Some(u) => u@,
                None => default_database_uri_text(),
            },
            r.max_connections == match max_connections {
                Some(m) => m,
                None => 1,
            },
            r.jwt_secret@ == match jwt_secret {
                Some(s) => s@,
                None => default_jwt_secret_text(),
            },
    {
        let database_uri = match database_uri {
            Some(u) => u,
            None => default_database_uri(),
        };
        let max_connections = match max_connections {
            Some(m) => m,
            None => default_max_connections(),
        };
        let jwt_secret = match jwt_secret {
            Some(s) => s,
            None => default_jwt_secret(),
        };
        AppConfig { database_uri, max_connections, jwt_secret }
    }

    /// The token-signing secret as bytes: its UTF-8 encoding.
    pub fn secret_as_bytes(&self) -> (r: Box<&[u8]>)
        ensures
            r@ == vstd::utf8::encode_utf8(self.jwt_secret@),
    {
        Box::new(self.jwt_secret.as_str().as_bytes())
    }
}

} // verus!
