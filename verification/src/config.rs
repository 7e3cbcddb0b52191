//! Layered configuration: the closed set of deployment environments, the
//! typed settings object, the overlay-over-base merge, and the connection
//! descriptors derived from the database settings.

use crate::text::{dec_str, lower_of, str_eq, to_lowercase_string, u16_to_decimal};
use vstd::prelude::*;
use vstd::string::*;

verus! {

/// A configuration value that must never reach a log or an error message in
/// plain form. Its string form is obtainable only through `expose_secret`,
/// called at the single point of use.
pub struct SecretString {
    value: String,
}

impl View for SecretString {
    type V = Seq<char>;

    closed spec fn view(&self) -> Seq<char> {
        self.value@
    }
}

impl SecretString {
    /// Wraps a secret value.
    pub fn new(value: String) -> (r: SecretString)
        ensures
            r@ == value@,
    {
        SecretString { value }
    }

    /// The wrapped value, for the point of use only.
    pub fn expose_secret(&self) -> (r: &str)
        ensures
            r@ == self@,
    {
        self.value.as_str()
    }
}

/// The closed set of deployment environments a configuration may target.
#[derive(Clone, Copy, PartialEq, Eq, Structural, Debug)]
pub enum Environment {
    Local,
    Production,
}

/// Why configuration resolution failed. Any of these is fatal at startup:
/// the process must not begin serving.
#[derive(Clone, PartialEq, Eq, Debug)]
pub enum ConfigError {
    /// The environment selector held a value outside the closed set.
    UnrecognizedEnvironment(String),
    /// A required settings field was absent after the merge.
    MissingField(String),
    /// A configuration file could not be read.
    UnreadableFile(String),
    /// A configuration file could not be understood.
    MalformedFile(String),
}

impl Environment {
    /// The canonical lower-case name of the environment, used to pick the
    /// configuration overlay file.
    pub fn as_str(&self) -> (r: &'static str)
        ensures
            self is Local ==> r@ == "local"@,
            self is Production ==> r@ == "production"@,
    {
        match self {
            Environment::Local => "local",
            Environment::Production => "production",
        }
    }

    /// Matches an environment selector case-insensitively against the
    /// closed set; anything else is a resolution failure, never a silent
    /// default.
    pub fn try_from(value: String) -> (r: Result<Environment, ConfigError>)
        ensures
            lower_of(value@) == "local"@ ==> r == Ok::<Environment, ConfigError>(
                Environment::Local,
            ),
            lower_of(value@) == "production"@ ==> r == Ok::<Environment, ConfigError>(
                Environment::Production,
            ),
            (lower_of(value@) != "local"@ && lower_of(value@) != "production"@) ==> (r matches Err(
                ConfigError::UnrecognizedEnvironment(s),
            ) && s@ == lower_of(value@)),
    {
        proof {
            reveal_strlit("local");
            reveal_strlit("production");
            assert("local"@ != "production"@) by {
                assert("local"@.len() != "production"@.len());
            }
        }
        let lowered = to_lowercase_string(value.as_str());
        if str_eq(lowered.as_str(), "local") {
            Ok(Environment::Local)
        } else if str_eq(lowered.as_str(), "production") {
            Ok(Environment::Production)
        } else {
            Err(ConfigError::UnrecognizedEnvironment(lowered))
        }
    }
}

/// Picks the environment from the selector variable: unset means local,
/// a set value must name an environment of the closed set.
pub fn select_environment(value: Option<String>) -> (r: Result<Environment, ConfigError>)
    ensures
        value is None ==> r == Ok::<Environment, ConfigError>(Environment::Local),
        value matches Some(v) ==> {
            &&& lower_of(v@) == "local"@ ==> r == Ok::<Environment, ConfigError>(
                Environment::Local,
            )
            &&& lower_of(v@) == "production"@ ==> r == Ok::<Environment, ConfigError>(
                Environment::Production,
            )
            &&& (lower_of(v@) != "local"@ && lower_of(v@) != "production"@) ==> (r matches Err(
                ConfigError::UnrecognizedEnvironment(s),
            ) && s@ == lower_of(v@))
        },
{
    match value {
        None => Ok(Environment::Local),
        Some(v) => Environment::try_from(v),
    }
}

/// The file that overlays the base configuration for an environment.
pub fn overlay_file_name(env: Environment) -> (r: String)
    ensures
        env is Local ==> r@ == "local"@ + ".yml"@,
        env is Production ==> r@ == "production"@ + ".yml"@,
{
    let mut name = String::from_str(env.as_str());
    name.append(".yml");
    name
}

/// Network binding for the HTTP listener.
pub struct AppSettings {
    pub host: String,
    pub port: u16,
}

/// Connection parameters for the relational store. The password is held
/// redacted and rendered only inside the connection descriptors.
pub struct DatabaseSettings {
    pub username: String,
    pub password: SecretString,
    pub port: u16,
    pub host: String,
    pub database_name: String,
}

/// The fully-typed settings object, resolved once at process start.
pub struct Settings {
    pub app: AppSettings,
    pub database: DatabaseSettings,
}

impl DatabaseSettings {
    /// The database-scoped connection descriptor.
    pub open spec fn connection_string_spec(&self) -> Seq<char> {
        "postgres://"@ + self.username@ + ":"@ + self.password@ + "@"@ + self.host@ + ":"@
            + dec_str(self.port as nat) + "/"@ + self.database_name@
    }

    /// The server-scoped connection descriptor, without a database name.
    pub open spec fn connection_string_no_db_spec(&self) -> Seq<char> {
        "postgres://"@ + self.username@ + ":"@ + self.password@ + "@"@ + self.host@ + ":"@
            + dec_str(self.port as nat)
    }

    /// Renders the database-scoped connection descriptor. The result still
    /// embeds the password, so it stays wrapped as a secret.
    pub fn connection_string(&self) -> (r: SecretString)
        ensures
            r@ == self.connection_string_spec(),
    {
        let mut s = self.connection_string_no_db_inner();
        s.append("/");
        s.append(self.database_name.as_str());
        SecretString::new(s)
    }

    /// Renders the server-scoped connection descriptor, for operations that
    /// precede the database's existence.
    pub fn connection_string_no_db(&self) -> (r: SecretString)
        ensures
            r@ == self.connection_string_no_db_spec(),
    {
        SecretString::new(self.connection_string_no_db_inner())
    }

    /// The shared prefix of both descriptors.
    fn connection_string_no_db_inner(&self) -> (r: String)
        ensures
            r@ == self.connection_string_no_db_spec(),
    {
        let mut s = String::from_str("postgres://");
        s.append(self.username.as_str());
        s.append(":");
        s.append(self.password.expose_secret());
        s.append("@");
        s.append(self.host.as_str());
        s.append(":");
        let port = u16_to_decimal(self.port);
        s.append(port.as_str());
        s
    }
}

/// Settings as they come out of one configuration source: every field
/// optional, to be merged and then completed.
pub struct PartialSettings {
    pub app_host: Option<String>,
    pub app_port: Option<u16>,
    pub db_username: Option<String>,
    pub db_password: Option<String>,
    pub db_port: Option<u16>,
    pub db_host: Option<String>,
    pub db_database_name: Option<String>,
}

impl PartialSettings {
    /// Whether every required field is present.
    pub open spec fn complete(&self) -> bool {
        &&& self.app_host is Some
        &&& self.app_port is Some
        &&& self.db_username is Some
        &&& self.db_password is Some
        &&& self.db_port is Some
        &&& self.db_host is Some
        &&& self.db_database_name is Some
    }

    /// The name of the first missing field, in declaration order.
    pub open spec fn first_missing_field(&self) -> Seq<char> {
        if self.app_host is None {
            "app.host"@
        } else if self.app_port is None {
            "app.port"@
        } else if self.db_username is None {
            "database.username"@
        } else if self.db_password is None {
            "database.password"@
        } else if self.db_port is None {
            "database.port"@
        } else if self.db_host is None {
            "database.host"@
        } else {
            "database.database_name"@
        }
    }
}

/// Merges an environment overlay over a base configuration: wherever the
/// overlay defines a key it wins, and wherever it is silent the base value
/// stands.
pub fn merge(base: PartialSettings, overlay: PartialSettings) -> (r: PartialSettings)
    ensures
        r.app_host == (if overlay.app_host is Some {
            overlay.app_host
        } else {
            base.app_host
        }),
        r.app_port == (if overlay.app_port is Some {
            overlay.app_port
        } else {
            base.app_port
        }),
        r.db_username == (if overlay.db_username is Some {
            overlay.db_username
        } else {
            base.db_username
        }),
        r.db_password == (if overlay.db_password is Some {
            overlay.db_password
        } else {
            base.db_password
        }),
        r.db_port == (if overlay.db_port is Some {
            overlay.db_port
        } else {
            base.db_port
        }),
        r.db_host == (if overlay.db_host is Some {
            overlay.db_host
        } else {
            base.db_host
        }),
        r.db_database_name == (if overlay.db_database_name is Some {
            overlay.db_database_name
        } else {
            base.db_database_name
        }),
{
    PartialSettings {
        app_host: first_some(overlay.app_host, base.app_host),
        app_port: first_some(overlay.app_port, base.app_port),
        db_username: first_some(overlay.db_username, base.db_username),
        db_password: first_some(overlay.db_password, base.db_password),
        db_port: first_some(overlay.db_port, base.db_port),
        db_host: first_some(overlay.db_host, base.db_host),
        db_database_name: first_some(overlay.db_database_name, base.db_database_name),
    }
}

/// The first of two optional values that is present, preferring the first.
fn first_some<T>(preferred: Option<T>, fallback: Option<T>) -> (r: Option<T>)
    ensures
        r == (if preferred is Some {
            preferred
        } else {
            fallback
        }),
{
    match preferred {
        Some(v) => Some(v),
        None => fallback,
    }
}

/// Completes merged settings into the typed settings object, or reports the
/// first missing field. The password is sealed into its redacted wrapper
/// here and never stored in plain form afterwards.
pub fn build_settings(p: PartialSettings) -> (r: Result<Settings, ConfigError>)
    ensures
        p.complete() ==> (r matches Ok(s) && {
            &&& s.app.host == p.app_host->0
            &&& s.app.port == p.app_port->0
            &&& s.database.username == p.db_username->0
            &&& s.database.password@ == p.db_password->0@
            &&& s.database.port == p.db_port->0
            &&& s.database.host == p.db_host->0
            &&& s.database.database_name == p.db_database_name->0
        }),
        !p.complete() ==> (r matches Err(ConfigError::MissingField(f)) && f@
            == p.first_missing_field()),
{
    let PartialSettings { app_host, app_port, db_username, db_password, db_port, db_host, db_database_name } = p;
    let app_host = match app_host {
        Some(v) => v,
        None => {
            return Err(ConfigError::MissingField(String::from_str("app.host")));
        },
    };
    let app_port = match app_port {
        Some(v) => v,
        None => {
            return Err(ConfigError::MissingField(String::from_str("app.port")));
        },
    };
    let db_username = match db_username {
        Some(v) => v,
        None => {
            return Err(ConfigError::MissingField(String::from_str("database.username")));
        },
    };
    let db_password = match db_password {
        Some(v) => v,
        None => {
            return Err(ConfigError::MissingField(String::from_str("database.password")));
        },
    };
    let db_port = match db_port {
        Some(v) => v,
        None => {
            return Err(ConfigError::MissingField(String::from_str("database.port")));
        },
    };
    let db_host = match db_host {
        Some(v) => v,
        None => {
            return Err(ConfigError::MissingField(String::from_str("database.host")));
        },
    };
    let db_database_name = match db_database_name {
        Some(v) => v,
        None => {
            return Err(ConfigError::MissingField(String::from_str("database.database_name")));
        },
    };
    Ok(
        Settings {
            app: AppSettings { host: app_host, port: app_port },
            database: DatabaseSettings {
                username: db_username,
                password: SecretString::new(db_password),
                port: db_port,
                host: db_host,
                database_name: db_database_name,
            },
        },
    )
}

/// Resolves merged sources into settings in one step: overlay over base,
/// then completion. The caller supplies the two sources already read for
/// the selected environment.
pub fn resolve(base: PartialSettings, overlay: PartialSettings) -> (r: Result<
    Settings,
    ConfigError,
>)
    ensures
        r is Ok <==> merged_spec(base, overlay).complete(),
        r matches Err(e) ==> (e matches ConfigError::MissingField(f) && f@ == merged_spec(
            base,
            overlay,
        ).first_missing_field()),
        r matches Ok(s) ==> {
            &&& s.app.host == merged_spec(base, overlay).app_host->0
            &&& s.app.port == merged_spec(base, overlay).app_port->0
            &&& s.database.username == merged_spec(base, overlay).db_username->0
            &&& s.database.password@ == merged_spec(base, overlay).db_password->0@
            &&& s.database.port == merged_spec(base, overlay).db_port->0
            &&& s.database.host == merged_spec(base, overlay).db_host->0
            &&& s.database.database_name == merged_spec(base, overlay).db_database_name->0
        },
{
    let merged = merge(base, overlay);
    build_settings(merged)
}

/// What `merge` returns, stated once so that `resolve` can speak of it.
pub open spec fn merged_spec(base: PartialSettings, overlay: PartialSettings) -> PartialSettings {
    PartialSettings {
        app_host: if overlay.app_host is Some {
            overlay.app_host
        } else {
            base.app_host
        },
        app_port: if overlay.app_port is Some {
            overlay.app_port
        } else {
            base.app_port
        },
        db_username: if overlay.db_username is Some {
            overlay.db_username
        } else {
            base.db_username
        },
        db_password: if overlay.db_password is Some {
            overlay.db_password
        } else {
            base.db_password
        },
        db_port: if overlay.db_port is Some {
            overlay.db_port
        } else {
            base.db_port
        },
        db_host: if overlay.db_host is Some {
            overlay.db_host
        } else {
            base.db_host
        },
        db_database_name: if overlay.db_database_name is Some {
            overlay.db_database_name
        } else {
            base.db_database_name
        },
    }
}

} // verus!
