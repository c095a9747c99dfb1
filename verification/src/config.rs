//! Configuration, read from the variables of the process environment.

use vstd::prelude::*;
use vstd::string::*;
use crate::text::{decimal, parse_bool, parse_decimal, str_eq, truth};

verus! {

/// The value of the first variable called `name`, if there is one.
pub open spec fn env_value(vars: Seq<(Seq<char>, Seq<char>)>, name: Seq<char>) -> Option<
    Seq<char>,
>
    decreases vars.len(),
{
    if vars.len() == 0 {
        None
    } else if vars[0].0 == name {
        Some(vars[0].1)
    } else {
        env_value(vars.drop_first(), name)
    }
}

/// The text of the variable `name`, or `default` where it is not set.
pub open spec fn text_setting(
    vars: Seq<(Seq<char>, Seq<char>)>,
    name: Seq<char>,
    default: Seq<char>,
) -> Seq<char> {
    match env_value(vars, name) {
        Some(v) => v,
        None => default,
    }
}

/// The number that the variable `name` writes, or `default` where it is not
/// set or does not write a number from `min` to `max`.
pub open spec fn int_setting(
    vars: Seq<(Seq<char>, Seq<char>)>,
    name: Seq<char>,
    min: int,
    max: int,
    default: int,
) -> int {
    match env_value(vars, name) {
        Some(v) => match decimal(v, min, max) {
            Some(n) => n,
            None => default,
        },
        None => default,
    }
}

/// The truth value that the variable `name` writes, or `default` where it is
/// not set or writes neither `true` nor `false`.
pub open spec fn bool_setting(
    vars: Seq<(Seq<char>, Seq<char>)>,
    name: Seq<char>,
    default: bool,
) -> bool {
    match env_value(vars, name) {
        Some(v) => match truth(v) {
            Some(b) => b,
            None => default,
        },
        None => default,
    }
}

/// A snapshot of the environment: names and values, in the order given.
#[derive(Debug, Clone)]
pub struct Environment {
    pub vars: Vec<(String, String)>,
}

impl View for Environment {
    type V = Seq<(Seq<char>, Seq<char>)>;

    open spec fn view(&self) -> Seq<(Seq<char>, Seq<char>)> {
        Seq::new(self.vars@.len(), |i: int| (self.vars@[i].0@, self.vars@[i].1@))
    }
}

impl Environment {
    pub fn new(vars: Vec<(String, String)>) -> (env: Environment)
        ensures
            env.vars == vars,
    {
        Environment { vars }
    }

    /// An environment without variables: every setting has its default.
    pub fn empty() -> (env: Environment)
        ensures
            env@ == Seq::<(Seq<char>, Seq<char>)>::empty(),
    {
        let env = Environment { vars: Vec::new() };
        env
    }

    pub fn get(&self, name: &str) -> (r: Option<&str>)
        ensures
            match r {
                Some(v) => env_value(self@, name@) == Some(v@),
                None => env_value(self@, name@) is None,
            },
    {
        let n: usize = self.vars.len();
        let mut i: usize = 0;
        assert(self@.skip(0) =~= self@);
        while i < n
            invariant
                i <= n,
                n == self.vars@.len(),
                env_value(self@, name@) == env_value(self@.skip(i as int), name@),
            decreases n - i,
        {
            let ghost rest = self@.skip(i as int);
            assert(rest.drop_first() =~= self@.skip(i + 1));
            if str_eq(self.vars[i].0.as_str(), name) {
                return Some(self.vars[i].1.as_str());
            }
            i += 1;
        }
        None
    }

    pub fn text_or(&self, name: &str, default: &str) -> (r: String)
        ensures
            r@ == text_setting(self@, name@, default@),
    {
        match self.get(name) {
            Some(v) => v.to_owned(),
            None => default.to_owned(),
        }
    }

    /// The number that `name` writes, between `min` and `max`, or `default`.
    fn int_or(&self, name: &str, min: i128, max: i128, default: i128) -> (r: i128)
        requires
            min <= default <= max,
        ensures
            r == int_setting(self@, name@, min as int, max as int, default as int),
            min <= r <= max,
    {
        match self.get(name) {
            Some(v) => match parse_decimal(v, min, max) {
                Some(n) => n,
                None => default,
            },
            None => default,
        }
    }

    pub fn u16_or(&self, name: &str, default: u16) -> (r: u16)
        ensures
            r == int_setting(self@, name@, 0, u16::MAX as int, default as int),
    {
        self.int_or(name, 0, u16::MAX as i128, default as i128) as u16
    }

    pub fn u32_or(&self, name: &str, default: u32) -> (r: u32)
        ensures
            r == int_setting(self@, name@, 0, u32::MAX as int, default as int),
    {
        self.int_or(name, 0, u32::MAX as i128, default as i128) as u32
    }

    pub fn u64_or(&self, name: &str, default: u64) -> (r: u64)
        ensures
            r == int_setting(self@, name@, 0, u64::MAX as int, default as int),
    {
        self.int_or(name, 0, u64::MAX as i128, default as i128) as u64
    }

    pub fn i64_or(&self, name: &str, default: i64) -> (r: i64)
        ensures
            r == int_setting(self@, name@, i64::MIN as int, i64::MAX as int, default as int),
    {
        self.int_or(name, i64::MIN as i128, i64::MAX as i128, default as i128) as i64
    }

    pub fn bool_or(&self, name: &str, default: bool) -> (r: bool)
        ensures
            r == bool_setting(self@, name@, default),
    {
        match self.get(name) {
            Some(v) => match parse_bool(v) {
                Some(b) => b,
                None => default,
            },
            None => default,
        }
    }
}

/// Settings of the connection pool.
#[derive(Debug, Clone)]
pub struct DatabaseConfig {
    pub url: String,
    pub max_connections: u32,
    pub min_connections: u32,
    pub connect_timeout_secs: u64,
    pub idle_timeout_secs: Option<u64>,
    pub max_lifetime_secs: Option<u64>,
}

/// Settings of the listener.
#[derive(Debug, Clone)]
pub struct ServerConfig {
    pub host: String,
    pub port: u16,
    pub reload_port: u16,
    pub allowed_origins: Vec<String>,
}

/// Settings of the abuse mitigation.
#[derive(Debug, Clone)]
pub struct SecurityConfig {
    pub rate_limit_requests: u32,
    pub rate_limit_window_secs: u64,
    pub csrf_enabled: bool,
    pub security_headers_enabled: bool,
}

/// Settings of the log: `format` is `json` or `pretty`.
#[derive(Debug, Clone)]
pub struct LoggingConfig {
    pub level: String,
    pub format: String,
}

/// All settings of the application.
#[derive(Debug, Clone)]
pub struct AppConfig {
    pub database: DatabaseConfig,
    pub server: ServerConfig,
    pub security: SecurityConfig,
    pub logging: LoggingConfig,
}

impl DatabaseConfig {
    /// What `env` says of the pool. `DATABASE_URL`, `DB_MAX_CONNECTIONS` and
    /// `DB_MIN_CONNECTIONS` are read; the timeouts are fixed.
    pub open spec fn configured(self, env: Seq<(Seq<char>, Seq<char>)>) -> bool {
        &&& self.url@ == text_setting(env, "DATABASE_URL"@, "postgresql://localhost/taleji_blog"@)
        &&& self.max_connections == int_setting(env, "DB_MAX_CONNECTIONS"@, 0, u32::MAX as int, 20)
        &&& self.min_connections == int_setting(env, "DB_MIN_CONNECTIONS"@, 0, u32::MAX as int, 5)
        &&& self.connect_timeout_secs == 10
        &&& self.idle_timeout_secs == Some(600u64)
        &&& self.max_lifetime_secs == Some(1800u64)
    }

    pub fn from_env(env: &Environment) -> (c: DatabaseConfig)
        ensures
            c.configured(env@),
    {
        DatabaseConfig {
            url: env.text_or("DATABASE_URL", "postgresql://localhost/taleji_blog"),
            max_connections: env.u32_or("DB_MAX_CONNECTIONS", 20),
            min_connections: env.u32_or("DB_MIN_CONNECTIONS", 5),
            connect_timeout_secs: 10,
            idle_timeout_secs: Some(600),
            max_lifetime_secs: Some(1800),
        }
    }
}

impl ServerConfig {
    /// What `env` says of the listener. `HOST`, `PORT` and `RELOAD_PORT` are
    /// read; the allowed origins are fixed.
    pub open spec fn configured(self, env: Seq<(Seq<char>, Seq<char>)>) -> bool {
        &&& self.host@ == text_setting(env, "HOST"@, "0.0.0.0"@)
        &&& self.port == int_setting(env, "PORT"@, 0, u16::MAX as int, 3000)
        &&& self.reload_port == int_setting(env, "RELOAD_PORT"@, 0, u16::MAX as int, 3001)
        &&& self.allowed_origins@.len() == 2
        &&& self.allowed_origins@[0]@ == "http://localhost:3000"@
        &&& self.allowed_origins@[1]@ == "http://127.0.0.1:3000"@
    }

    pub fn from_env(env: &Environment) -> (c: ServerConfig)
        ensures
            c.configured(env@),
    {
        let mut allowed_origins: Vec<String> = Vec::new();
        allowed_origins.push("http://localhost:3000".to_owned());
        allowed_origins.push("http://127.0.0.1:3000".to_owned());
        ServerConfig {
            host: env.text_or("HOST", "0.0.0.0"),
            port: env.u16_or("PORT", 3000),
            reload_port: env.u16_or("RELOAD_PORT", 3001),
            allowed_origins,
        }
    }
}

impl SecurityConfig {
    /// What `env` says of the abuse mitigation: `RATE_LIMIT_REQUESTS`,
    /// `RATE_LIMIT_WINDOW_SECS`, `CSRF_ENABLED`, `SECURITY_HEADERS_ENABLED`.
    pub open spec fn configured(self, env: Seq<(Seq<char>, Seq<char>)>) -> bool {
        &&& self.rate_limit_requests == int_setting(
            env,
            "RATE_LIMIT_REQUESTS"@,
            0,
            u32::MAX as int,
            100,
        )
        &&& self.rate_limit_window_secs == int_setting(
            env,
            "RATE_LIMIT_WINDOW_SECS"@,
            0,
            u64::MAX as int,
            60,
        )
        &&& self.csrf_enabled == bool_setting(env, "CSRF_ENABLED"@, true)
        &&& self.security_headers_enabled == bool_setting(env, "SECURITY_HEADERS_ENABLED"@, true)
    }

    pub fn from_env(env: &Environment) -> (c: SecurityConfig)
        ensures
            c.configured(env@),
    {
        SecurityConfig {
            rate_limit_requests: env.u32_or("RATE_LIMIT_REQUESTS", 100),
            rate_limit_window_secs: env.u64_or("RATE_LIMIT_WINDOW_SECS", 60),
            csrf_enabled: env.bool_or("CSRF_ENABLED", true),
            security_headers_enabled: env.bool_or("SECURITY_HEADERS_ENABLED", true),
        }
    }
}

impl LoggingConfig {
    /// What `env` says of the log: `RUST_LOG` and `LOG_FORMAT`.
    pub open spec fn configured(self, env: Seq<(Seq<char>, Seq<char>)>) -> bool {
        &&& self.level@ == text_setting(env, "RUST_LOG"@, "info"@)
        &&& self.format@ == text_setting(env, "LOG_FORMAT"@, "pretty"@)
    }

    pub fn from_env(env: &Environment) -> (c: LoggingConfig)
        ensures
            c.configured(env@),
    {
        LoggingConfig {
            level: env.text_or("RUST_LOG", "info"),
            format: env.text_or("LOG_FORMAT", "pretty"),
        }
    }
}

impl Default for DatabaseConfig {
    fn default() -> (c: DatabaseConfig)
        ensures
            c.configured(Seq::empty()),
    {
        DatabaseConfig::from_env(&Environment::empty())
    }
}

impl Default for ServerConfig {
    fn default() -> (c: ServerConfig)
        ensures
            c.configured(Seq::empty()),
    {
        ServerConfig::from_env(&Environment::empty())
    }
}

impl Default for SecurityConfig {
    fn default() -> (c: SecurityConfig)
        ensures
            c.configured(Seq::empty()),
    {
        SecurityConfig::from_env(&Environment::empty())
    }
}

impl Default for LoggingConfig {
    fn default() -> (c: LoggingConfig)
        ensures
            c.configured(Seq::empty()),
    {
        LoggingConfig::from_env(&Environment::empty())
    }
}

impl Default for AppConfig {
    fn default() -> (c: AppConfig)
        ensures
            c.configured(Seq::empty()),
    {
        AppConfig::from_env(&Environment::empty())
    }
}

/// Why a configuration is refused, if it is: the first of the three checks
/// that fails.
pub open spec fn config_fault(url: Seq<char>, max_connections: u32, port: u16) -> Option<
    Seq<char>,
> {
    if url.len() == 0 {
        Some("Database URL cannot be empty"@)
    } else if max_connections == 0 {
        Some("Database max connections must be greater than 0"@)
    } else if port == 0 {
        Some("Server port must be greater than 0"@)
    } else {
        None
    }
}

impl AppConfig {
    /// Every part is what `env` says of it.
    pub open spec fn configured(self, env: Seq<(Seq<char>, Seq<char>)>) -> bool {
        &&& self.database.configured(env)
        &&& self.server.configured(env)
        &&& self.security.configured(env)
        &&& self.logging.configured(env)
    }

    pub fn from_env(env: &Environment) -> (c: AppConfig)
        ensures
            c.configured(env@),
    {
        AppConfig {
            database: DatabaseConfig::from_env(env),
            server: ServerConfig::from_env(env),
            security: SecurityConfig::from_env(env),
            logging: LoggingConfig::from_env(env),
        }
    }

    /// Accepts the configuration unless the database URL is empty, the pool
    /// may hold no connection, or the port is 0.
    pub fn validate(&self) -> (r: Result<(), String>)
        ensures
            match r {
                Ok(_) => config_fault(
                    self.database.url@,
                    self.database.max_connections,
                    self.server.port,
                ) is None,
                Err(why) => config_fault(
                    self.database.url@,
                    self.database.max_connections,
                    self.server.port,
                ) == Some(why@),
            },
    {
        if self.database.url.as_str().is_empty() {
            return Err("Database URL cannot be empty".to_owned());
        }
        if self.database.max_connections == 0 {
            return Err("Database max connections must be greater than 0".to_owned());
        }
        if self.server.port == 0 {
            return Err("Server port must be greater than 0".to_owned());
        }
        Ok(())
    }
}

} // verus!
