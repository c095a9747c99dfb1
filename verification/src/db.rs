//! Settings and status of the connection pool. Durations are whole seconds.

use vstd::prelude::*;
use vstd::string::*;
use crate::config::{text_setting, Environment};
use crate::text::{digits_of, push_digits};

verus! {

/// Settings of the connection pool.
#[derive(Debug, Clone)]
pub struct DatabaseConfig {
    pub url: String,
    pub max_connections: u32,
    pub min_connections: u32,
    pub connect_timeout: u64,
    pub idle_timeout: Option<u64>,
    pub max_lifetime: Option<u64>,
}

impl DatabaseConfig {
    /// The sizes and durations that a pool has unless told otherwise: from 5
    /// to 20 connections, 10 seconds to connect, 10 minutes idle, 30 minutes
    /// of life.
    pub open spec fn has_default_limits(self) -> bool {
        &&& self.max_connections == 20
        &&& self.min_connections == 5
        &&& self.connect_timeout == 10
        &&& self.idle_timeout == Some(600u64)
        &&& self.max_lifetime == Some(1800u64)
    }

    /// The settings for the database at `database_url`.
    pub fn for_url(database_url: &str) -> (c: DatabaseConfig)
        ensures
            c.url@ == database_url@,
            c.has_default_limits(),
    {
        DatabaseConfig {
            url: database_url.to_owned(),
            max_connections: 20,
            min_connections: 5,
            connect_timeout: 10,
            idle_timeout: Some(600),
            max_lifetime: Some(1800),
        }
    }

    /// The settings for the database that `DATABASE_URL` names.
    pub fn from_env(env: &Environment) -> (c: DatabaseConfig)
        ensures
            c.url@ == text_setting(env@, "DATABASE_URL"@, "postgresql://localhost/taleji_blog"@),
            c.has_default_limits(),
    {
        let url = env.text_or("DATABASE_URL", "postgresql://localhost/taleji_blog");
        DatabaseConfig::for_url(url.as_str())
    }
}

impl Default for DatabaseConfig {
    fn default() -> (c: DatabaseConfig)
        ensures
            c.url@ == "postgresql://localhost/taleji_blog"@,
            c.has_default_limits(),
    {
        DatabaseConfig::from_env(&Environment::empty())
    }
}

/// The connections in use: those of the pool that are not idle.
pub open spec fn active_connections(size: u32, idle: usize) -> nat {
    if idle <= size {
        (size - idle) as nat
    } else {
        0
    }
}

/// One line on the state of a pool.
pub open spec fn pool_status_text(size: u32, idle: usize) -> Seq<char> {
    "Pool status - Size: "@ + digits_of(size as nat) + ", Idle: "@ + digits_of(idle as nat)
        + ", Active: "@ + digits_of(active_connections(size, idle))
}

/// One line on the state of a pool with `size` connections, `num_idle` of
/// them idle.
pub fn pool_status(size: u32, num_idle: usize) -> (line: String)
    ensures
        line@ == pool_status_text(size, num_idle),
{
    let active: u64 = if num_idle as u64 <= size as u64 {
        size as u64 - num_idle as u64
    } else {
        0
    };
    let mut line = "Pool status - Size: ".to_owned();
    push_digits(&mut line, size as u64);
    line.append(", Idle: ");
    push_digits(&mut line, num_idle as u64);
    line.append(", Active: ");
    push_digits(&mut line, active);
    line
}

} // verus!
