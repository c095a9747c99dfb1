use leptos_blog::error::{AppError, ErrorKind};

fn all() -> Vec<(AppError, ErrorKind, &'static str, &'static str)> {
    vec![
        (AppError::Database("pool closed".to_string()), ErrorKind::Internal, "Database error: pool closed", "Internal server error"),
        (AppError::Validation("bad".to_string()), ErrorKind::Validation, "Validation error: bad", "Validation error: bad"),
        (AppError::InvalidCredentials, ErrorKind::InvalidCredentials, "Invalid credentials", "Invalid credentials"),
        (AppError::Conflict("taken".to_string()), ErrorKind::Conflict, "Conflict: taken", "Conflict: taken"),
        (AppError::NotFound("x".to_string()), ErrorKind::NotFound, "Not found: x", "Not found: x"),
        (AppError::Unauthorized, ErrorKind::Unauthorized, "Unauthorized access", "Unauthorized access"),
        (AppError::Forbidden("origin".to_string()), ErrorKind::Forbidden, "Forbidden: origin", "Forbidden: origin"),
        (AppError::RateLimitExceeded, ErrorKind::RateLimitExceeded, "Rate limit exceeded", "Rate limit exceeded"),
        (AppError::Internal("hash".to_string()), ErrorKind::Internal, "Internal server error: hash", "Internal server error"),
        (AppError::Config("port".to_string()), ErrorKind::Internal, "Configuration error: port", "Internal server error"),
    ]
}

#[test]
fn every_error_has_its_kind() {
    for (error, kind, _, _) in all() {
        assert_eq!(error.kind(), kind);
    }
}

#[test]
fn every_error_has_its_text() {
    for (error, _, message, _) in all() {
        assert_eq!(error.message(), message);
    }
}

#[test]
fn internal_detail_is_not_shown_to_callers() {
    for (error, kind, _, public) in all() {
        assert_eq!(error.public_message(), public);
        if kind == ErrorKind::Internal {
            assert_eq!(error.public_message(), "Internal server error");
        }
    }
}

#[test]
fn empty_detail_keeps_the_prefix() {
    assert_eq!(AppError::NotFound(String::new()).message(), "Not found: ");
    assert_eq!(AppError::Validation(String::new()).public_message(), "Validation error: ");
}

#[test]
fn every_kind_has_its_status() {
    assert_eq!(ErrorKind::Validation.status_code(), 400);
    assert_eq!(ErrorKind::InvalidCredentials.status_code(), 401);
    assert_eq!(ErrorKind::Unauthorized.status_code(), 401);
    assert_eq!(ErrorKind::Forbidden.status_code(), 403);
    assert_eq!(ErrorKind::NotFound.status_code(), 404);
    assert_eq!(ErrorKind::Conflict.status_code(), 409);
    assert_eq!(ErrorKind::RateLimitExceeded.status_code(), 429);
    assert_eq!(ErrorKind::Internal.status_code(), 500);
    assert_eq!(AppError::RateLimitExceeded.kind().status_code(), 429);
}
