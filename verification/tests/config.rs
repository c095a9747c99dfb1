use leptos_blog::config::{AppConfig, DatabaseConfig, Environment, LoggingConfig, SecurityConfig, ServerConfig};

fn env(vars: &[(&str, &str)]) -> Environment {
    Environment::new(vars.iter().map(|(k, v)| (k.to_string(), v.to_string())).collect())
}

#[test]
fn defaults_without_environment() {
    let c = AppConfig::default();
    assert_eq!(c.database.url, "postgresql://localhost/taleji_blog");
    assert_eq!(c.database.max_connections, 20);
    assert_eq!(c.database.min_connections, 5);
    assert_eq!(c.database.connect_timeout_secs, 10);
    assert_eq!(c.database.idle_timeout_secs, Some(600));
    assert_eq!(c.database.max_lifetime_secs, Some(1800));
    assert_eq!(c.server.host, "0.0.0.0");
    assert_eq!(c.server.port, 3000);
    assert_eq!(c.server.reload_port, 3001);
    assert_eq!(c.server.allowed_origins, vec!["http://localhost:3000", "http://127.0.0.1:3000"]);
    assert_eq!(c.security.rate_limit_requests, 100);
    assert_eq!(c.security.rate_limit_window_secs, 60);
    assert!(c.security.csrf_enabled);
    assert!(c.security.security_headers_enabled);
    assert_eq!(c.logging.level, "info");
    assert_eq!(c.logging.format, "pretty");
}

#[test]
fn part_defaults_are_those_of_the_whole() {
    assert_eq!(DatabaseConfig::default().max_connections, 20);
    assert_eq!(ServerConfig::default().port, 3000);
    assert_eq!(SecurityConfig::default().rate_limit_requests, 100);
    assert_eq!(LoggingConfig::default().format, "pretty");
}

#[test]
fn environment_overrides_defaults() {
    let c = AppConfig::from_env(&env(&[
        ("DATABASE_URL", "postgresql://db/blog"),
        ("DB_MAX_CONNECTIONS", "50"),
        ("DB_MIN_CONNECTIONS", "0"),
        ("HOST", "127.0.0.1"),
        ("PORT", "8080"),
        ("RELOAD_PORT", "65535"),
        ("RATE_LIMIT_REQUESTS", "3"),
        ("RATE_LIMIT_WINDOW_SECS", "18446744073709551615"),
        ("CSRF_ENABLED", "false"),
        ("SECURITY_HEADERS_ENABLED", "false"),
        ("RUST_LOG", "debug"),
        ("LOG_FORMAT", "json"),
    ]));
    assert_eq!(c.database.url, "postgresql://db/blog");
    assert_eq!(c.database.max_connections, 50);
    assert_eq!(c.database.min_connections, 0);
    assert_eq!(c.server.host, "127.0.0.1");
    assert_eq!(c.server.port, 8080);
    assert_eq!(c.server.reload_port, 65535);
    assert_eq!(c.security.rate_limit_requests, 3);
    assert_eq!(c.security.rate_limit_window_secs, u64::MAX);
    assert!(!c.security.csrf_enabled);
    assert!(!c.security.security_headers_enabled);
    assert_eq!(c.logging.level, "debug");
    assert_eq!(c.logging.format, "json");
}

#[test]
fn unreadable_values_fall_back_to_defaults() {
    let c = AppConfig::from_env(&env(&[
        ("DB_MAX_CONNECTIONS", "many"),
        ("DB_MIN_CONNECTIONS", "-1"),
        ("PORT", "65536"),
        ("RELOAD_PORT", " 80"),
        ("RATE_LIMIT_REQUESTS", "4294967296"),
        ("RATE_LIMIT_WINDOW_SECS", "18446744073709551616"),
        ("CSRF_ENABLED", "no"),
        ("SECURITY_HEADERS_ENABLED", "TRUE"),
    ]));
    assert_eq!(c.database.max_connections, 20);
    assert_eq!(c.database.min_connections, 5);
    assert_eq!(c.server.port, 3000);
    assert_eq!(c.server.reload_port, 3001);
    assert_eq!(c.security.rate_limit_requests, 100);
    assert_eq!(c.security.rate_limit_window_secs, 60);
    assert!(c.security.csrf_enabled);
    assert!(c.security.security_headers_enabled);
}

#[test]
fn numbers_are_read_as_std_reads_them() {
    for text in ["0", "7", "+7", "007", "-0", "-7", "", "+", "-", "7 ", " 7", "7_0", "0x10", "٣", "4294967295", "4294967296", "1e3", "++1", "+-1", "00000000000000000000000000001"] {
        let expected = text.parse::<u32>().unwrap_or(100);
        let c = SecurityConfig::from_env(&env(&[("RATE_LIMIT_REQUESTS", text)]));
        assert_eq!(c.rate_limit_requests, expected);
    }
    for text in ["-9223372036854775808", "9223372036854775807", "-9223372036854775809", "9223372036854775808", "-1", "+0", "-"] {
        let expected = text.parse::<i64>().unwrap_or(5);
        assert_eq!(env(&[("N", text)]).i64_or("N", 5), expected);
    }
    for text in ["65535", "65536", "-1", "+1"] {
        assert_eq!(env(&[("N", text)]).u16_or("N", 1234), text.parse::<u16>().unwrap_or(1234));
    }
    for text in ["18446744073709551615", "18446744073709551616", "184467440737095516150"] {
        assert_eq!(env(&[("N", text)]).u64_or("N", 1234), text.parse::<u64>().unwrap_or(1234));
    }
}

#[test]
fn truth_values_are_read_as_std_reads_them() {
    for text in ["true", "false", "True", "1", "0", "", " true", "yes"] {
        let expected = text.parse::<bool>().unwrap_or(true);
        assert_eq!(env(&[("B", text)]).bool_or("B", true), expected);
    }
}

#[test]
fn first_variable_of_a_name_counts() {
    let e = env(&[("A", "1"), ("B", "2"), ("A", "3")]);
    assert_eq!(e.get("A"), Some("1"));
    assert_eq!(e.get("B"), Some("2"));
    assert_eq!(e.get("C"), None);
    assert_eq!(e.get("a"), None);
    assert_eq!(e.text_or("C", "d"), "d");
    assert_eq!(e.text_or("B", "d"), "2");
    assert_eq!(Environment::empty().get("A"), None);
}

#[test]
fn empty_value_is_a_value() {
    let c = AppConfig::from_env(&env(&[("DATABASE_URL", ""), ("HOST", "")]));
    assert_eq!(c.database.url, "");
    assert_eq!(c.server.host, "");
    assert_eq!(c.validate(), Err("Database URL cannot be empty".to_string()));
}

#[test]
fn configuration_is_checked_in_order() {
    assert_eq!(AppConfig::default().validate(), Ok(()));
    let mut c = AppConfig::default();
    c.server.port = 0;
    assert_eq!(c.validate(), Err("Server port must be greater than 0".to_string()));
    c.database.max_connections = 0;
    assert_eq!(c.validate(), Err("Database max connections must be greater than 0".to_string()));
    c.database.url = String::new();
    assert_eq!(c.validate(), Err("Database URL cannot be empty".to_string()));
    let from_env = AppConfig::from_env(&env(&[("PORT", "0")]));
    assert_eq!(from_env.validate(), Err("Server port must be greater than 0".to_string()));
}

#[test]
fn pool_settings_for_a_url() {
    let c = leptos_blog::db::DatabaseConfig::for_url("postgresql://db/x");
    assert_eq!(c.url, "postgresql://db/x");
    assert_eq!((c.max_connections, c.min_connections), (20, 5));
    assert_eq!(c.connect_timeout, 10);
    assert_eq!(c.idle_timeout, Some(600));
    assert_eq!(c.max_lifetime, Some(1800));
    let d = leptos_blog::db::DatabaseConfig::default();
    assert_eq!(d.url, "postgresql://localhost/taleji_blog");
    let e = leptos_blog::db::DatabaseConfig::from_env(&env(&[("DATABASE_URL", "u"), ("DB_MAX_CONNECTIONS", "9")]));
    assert_eq!(e.url, "u");
    assert_eq!(e.max_connections, 20);
}

#[test]
fn pool_status_line() {
    assert_eq!(leptos_blog::db::pool_status(20, 5), "Pool status - Size: 20, Idle: 5, Active: 15");
    assert_eq!(leptos_blog::db::pool_status(0, 0), "Pool status - Size: 0, Idle: 0, Active: 0");
    assert_eq!(leptos_blog::db::pool_status(3, 7), "Pool status - Size: 3, Idle: 7, Active: 0");
    assert_eq!(
        leptos_blog::db::pool_status(u32::MAX, 1),
        "Pool status - Size: 4294967295, Idle: 1, Active: 4294967294"
    );
}
