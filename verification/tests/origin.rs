use leptos_blog::error::AppError;
use leptos_blog::security::{
    check_request_origin, csrf_protection, read_origin, read_origin_values, read_referer,
    read_referer_values, HostRule, OriginGuard, SourceHost,
};

fn localhost_only() -> OriginGuard {
    OriginGuard::new(vec![HostRule::Exact("localhost".to_string())])
}

fn forbidden() -> Result<(), AppError> {
    Err(AppError::Forbidden("invalid origin/referer".to_string()))
}

fn host_of(source: SourceHost) -> Option<String> {
    match source {
        SourceHost::Host(h) => Some(h),
        _ => None,
    }
}

#[test]
fn post_from_a_foreign_origin_is_rejected() {
    let guard = localhost_only();
    assert_eq!(csrf_protection(&guard, "POST", Some("https://evil.example"), None), forbidden());
}

#[test]
fn post_without_origin_and_referer_is_rejected() {
    let guard = localhost_only();
    assert_eq!(csrf_protection(&guard, "POST", None, None), forbidden());
}

#[test]
fn safe_methods_are_never_rejected() {
    let guard = localhost_only();
    for method in ["GET", "HEAD", "OPTIONS"] {
        assert_eq!(csrf_protection(&guard, method, Some("https://evil.example"), None), Ok(()));
        assert_eq!(csrf_protection(&guard, method, None, None), Ok(()));
        assert_eq!(csrf_protection(&guard, method, Some("garbage"), Some("garbage")), Ok(()));
    }
}

#[test]
fn methods_are_matched_as_written() {
    let guard = localhost_only();
    for method in ["get", "Get", "PUT", "DELETE", "PATCH", "", "GET "] {
        assert_eq!(csrf_protection(&guard, method, None, None), forbidden());
    }
}

#[test]
fn post_from_a_trusted_origin_passes() {
    let guard = localhost_only();
    assert_eq!(csrf_protection(&guard, "POST", Some("http://localhost:3000"), None), Ok(()));
    assert_eq!(csrf_protection(&guard, "POST", Some("https://localhost"), None), Ok(()));
    assert_eq!(csrf_protection(&guard, "DELETE", Some("http://localhost/"), None), Ok(()));
}

#[test]
fn referer_counts_where_there_is_no_origin() {
    let guard = localhost_only();
    assert_eq!(csrf_protection(&guard, "POST", None, Some("http://localhost:3000/login?x=1")), Ok(()));
    assert_eq!(csrf_protection(&guard, "POST", None, Some("https://evil.example/localhost")), forbidden());
    assert_eq!(csrf_protection(&guard, "POST", None, Some("/relative/path")), forbidden());
}

#[test]
fn origin_decides_where_it_is_there() {
    let guard = localhost_only();
    assert_eq!(
        csrf_protection(&guard, "POST", Some("https://evil.example"), Some("http://localhost/")),
        forbidden()
    );
    assert_eq!(csrf_protection(&guard, "POST", Some("not an origin"), Some("http://localhost/")), forbidden());
    assert_eq!(csrf_protection(&guard, "POST", Some("null"), Some("http://localhost/")), forbidden());
    assert_eq!(csrf_protection(&guard, "POST", Some("http://localhost"), Some("https://evil.example/")), Ok(()));
}

#[test]
fn exact_rule_matches_the_whole_host() {
    let guard = localhost_only();
    assert!(guard.trusts("localhost"));
    assert!(!guard.trusts("localhost.evil.example"));
    assert!(!guard.trusts("notlocalhost"));
    assert!(!guard.trusts("LOCALHOST"));
    assert!(!guard.trusts(""));
}

#[test]
fn suffix_rule_matches_the_end_of_the_host() {
    let guard = OriginGuard::new(vec![HostRule::Suffix(".your-domain.com".to_string())]);
    assert!(guard.trusts("blog.your-domain.com"));
    assert!(guard.trusts("a.b.your-domain.com"));
    assert!(guard.trusts(".your-domain.com"));
    assert!(!guard.trusts("your-domain.com"));
    assert!(!guard.trusts("blog.your-domain.com.evil.example"));
    assert!(!guard.trusts("com"));
    assert!(HostRule::Suffix("é".to_string()).matches("café"));
    assert!(!HostRule::Suffix("é".to_string()).matches("cafe"));
    assert!(HostRule::Suffix("".to_string()).matches("anything"));
}

#[test]
fn default_guard_trusts_localhost_and_the_own_domain() {
    let guard = OriginGuard::default();
    assert!(guard.trusts("localhost"));
    assert!(guard.trusts("www.your-domain.com"));
    assert!(!guard.trusts("evil.example"));
    assert_eq!(csrf_protection(&guard, "POST", Some("https://www.your-domain.com"), None), Ok(()));
    assert_eq!(csrf_protection(&guard, "POST", Some("https://evil.example"), None), forbidden());
}

#[test]
fn empty_guard_trusts_nobody() {
    let guard = OriginGuard::new(Vec::new());
    assert!(!guard.trusts("localhost"));
    assert_eq!(csrf_protection(&guard, "POST", Some("http://localhost"), None), forbidden());
    assert_eq!(csrf_protection(&guard, "GET", None, None), Ok(()));
}

#[test]
fn origin_header_names_its_host() {
    assert_eq!(host_of(read_origin(Some("https://evil.example"))), Some("evil.example".to_string()));
    assert_eq!(host_of(read_origin(Some("http://web-platform.test:8000"))), Some("web-platform.test".to_string()));
    assert_eq!(host_of(read_origin(Some("null"))), Some("".to_string()));
    assert!(matches!(read_origin(Some("https://example.com/path")), SourceHost::Unreadable));
    assert!(matches!(read_origin(Some("example.com")), SourceHost::Unreadable));
    assert!(matches!(read_origin(Some("")), SourceHost::Unreadable));
    assert!(matches!(read_origin(None), SourceHost::Absent));
}

#[test]
fn referer_header_names_its_host() {
    assert_eq!(host_of(read_referer(Some("https://example.com/a/b?c=d"))), Some("example.com".to_string()));
    assert_eq!(host_of(read_referer(Some("http://localhost:3000/"))), Some("localhost".to_string()));
    assert!(matches!(read_referer(Some("/only/a/path")), SourceHost::Unreadable));
    assert!(matches!(read_referer(Some("line\nbreak")), SourceHost::Unreadable));
    assert!(matches!(read_referer(None), SourceHost::Absent));
}

#[test]
fn decision_on_what_the_headers_say() {
    let guard = localhost_only();
    let local = SourceHost::Host("localhost".to_string());
    let evil = SourceHost::Host("evil.example".to_string());
    assert_eq!(guard.decide("POST", &local, &SourceHost::Absent), Ok(()));
    assert_eq!(guard.decide("POST", &SourceHost::Absent, &local), Ok(()));
    assert_eq!(guard.decide("POST", &SourceHost::Unreadable, &local), forbidden());
    assert_eq!(guard.decide("POST", &evil, &local), forbidden());
    assert_eq!(guard.decide("POST", &SourceHost::Absent, &SourceHost::Unreadable), forbidden());
    assert_eq!(guard.decide("POST", &SourceHost::Absent, &SourceHost::Absent), forbidden());
    assert_eq!(guard.decide("HEAD", &evil, &evil), Ok(()));
}

fn values(texts: &[Option<&str>]) -> Vec<Option<String>> {
    texts.iter().map(|t| t.map(|s| s.to_string())).collect()
}

#[test]
fn header_that_stands_once_is_read() {
    assert!(matches!(read_origin_values(&values(&[])), SourceHost::Absent));
    assert_eq!(host_of(read_origin_values(&values(&[Some("http://localhost:3000")]))), Some("localhost".to_string()));
    assert!(matches!(read_origin_values(&values(&[Some("nonsense")])), SourceHost::Unreadable));
    assert!(matches!(read_referer_values(&values(&[])), SourceHost::Absent));
    assert_eq!(host_of(read_referer_values(&values(&[Some("http://localhost/x")]))), Some("localhost".to_string()));
}

#[test]
fn header_that_stands_twice_or_unreadably_names_no_host() {
    let twice = values(&[Some("http://localhost"), Some("http://localhost")]);
    assert!(matches!(read_origin_values(&twice), SourceHost::Unreadable));
    assert!(matches!(read_referer_values(&twice), SourceHost::Unreadable));
    assert!(matches!(read_origin_values(&values(&[None])), SourceHost::Unreadable));
    assert!(matches!(read_referer_values(&values(&[None])), SourceHost::Unreadable));
    assert!(matches!(read_origin_values(&values(&[None, Some("http://localhost")])), SourceHost::Unreadable));
}

#[test]
fn origin_check_on_all_values_of_the_headers() {
    let guard = localhost_only();
    let none = values(&[]);
    let local = values(&[Some("http://localhost:3000")]);
    let evil = values(&[Some("https://evil.example")]);
    let twice = values(&[Some("http://localhost"), Some("http://localhost")]);
    assert_eq!(check_request_origin(&guard, "POST", &local, &none), Ok(()));
    assert_eq!(check_request_origin(&guard, "POST", &none, &values(&[Some("http://localhost/a")])), Ok(()));
    assert_eq!(check_request_origin(&guard, "POST", &evil, &values(&[Some("http://localhost/a")])), forbidden());
    assert_eq!(check_request_origin(&guard, "POST", &twice, &values(&[Some("http://localhost/a")])), forbidden());
    assert_eq!(check_request_origin(&guard, "POST", &values(&[None]), &local), forbidden());
    assert_eq!(check_request_origin(&guard, "POST", &none, &twice), forbidden());
    assert_eq!(check_request_origin(&guard, "POST", &none, &none), forbidden());
    assert_eq!(check_request_origin(&guard, "GET", &twice, &twice), Ok(()));
}
