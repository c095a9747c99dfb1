use leptos_blog::auth::{AuthService, LoginEvent, LoginState};
use leptos_blog::config::Environment;
use leptos_blog::directory::{current_user, login, AccountDirectory};
use leptos_blog::auth::NewUser;
use leptos_blog::error::{AppError, ErrorKind};
use leptos_blog::models::{LoginInput, User, UserRole};

const DIGEST_OF_PASSWORD: &str = "$2a$04$UuTkLRZZ6QofpDOlMz32MuuxEHA43WOemOYHPz6.SjsVsyO1tDU96";

fn service() -> AuthService {
    AuthService::new(&Environment::new(vec![("JWT_SECRET".to_string(), "k".to_string())]))
}

fn account(active: bool) -> User {
    User {
        id: 42,
        username: "grace".to_string(),
        email: "grace@example.com".to_string(),
        password_hash: DIGEST_OF_PASSWORD.to_string(),
        display_name: "Grace".to_string(),
        bio: Some("compilers".to_string()),
        avatar_url: None,
        role: UserRole::Admin,
        email_verified: true,
        is_active: active,
        created_at: 100,
        updated_at: 200,
    }
}

fn input(identifier: &str, password: &str) -> LoginInput {
    LoginInput {
        email_or_username: identifier.to_string(),
        password: password.to_string(),
        remember_me: None,
    }
}

#[test]
fn login_by_username_gives_profile_and_token() {
    let s = service();
    let response = s.login_user_at(&input("grace", "password"), Some(account(true)), 1000, "j1").unwrap();
    assert_eq!(response.user.id, 42);
    assert_eq!(response.user.username, "grace");
    assert_eq!(response.user.display_name, "Grace");
    assert_eq!(response.user.bio, Some("compilers".to_string()));
    assert_eq!(response.user.avatar_url, None);
    assert_eq!(response.user.role, UserRole::Admin);
    assert_eq!(response.user.created_at, 100);
    assert_eq!(response.expires_at, 1000 + 86400);
    let claims = s.validate_token_at(&response.token, 1000).unwrap();
    assert_eq!(claims.sub, 42);
    assert_eq!(claims.role, UserRole::Admin);
    assert_eq!(claims.exp, response.expires_at);
    assert_eq!(claims.jti, "j1");
}

#[test]
fn login_by_email() {
    let s = service();
    assert!(s.login_user_at(&input("grace@example.com", "password"), Some(account(true)), 0, "j").is_ok());
}

#[test]
fn wrong_password_is_invalid_credentials() {
    let s = service();
    let failed = s.login_user_at(&input("grace", "passwore"), Some(account(true)), 0, "j").unwrap_err();
    assert_eq!(failed, AppError::InvalidCredentials);
}

#[test]
fn missing_account_is_invalid_credentials() {
    let s = service();
    let failed = s.login_user_at(&input("nobody", "password"), None, 0, "j").unwrap_err();
    assert_eq!(failed, AppError::InvalidCredentials);
}

#[test]
fn inactive_account_fails_like_a_wrong_password() {
    let s = service();
    let inactive = s.login_user_at(&input("grace", "password"), Some(account(false)), 0, "j").unwrap_err();
    let wrong = s.login_user_at(&input("grace", "nope"), Some(account(true)), 0, "j").unwrap_err();
    let absent = s.login_user_at(&input("grace", "password"), None, 0, "j").unwrap_err();
    assert_eq!(inactive, wrong);
    assert_eq!(inactive, absent);
    assert_eq!(inactive.kind(), ErrorKind::InvalidCredentials);
    assert_eq!(inactive.message(), wrong.message());
    assert_eq!(inactive.public_message(), absent.public_message());
}

#[test]
fn account_that_the_identifier_does_not_name_is_refused() {
    let s = service();
    let failed = s.login_user_at(&input("Grace", "password"), Some(account(true)), 0, "j").unwrap_err();
    assert_eq!(failed, AppError::InvalidCredentials);
    let failed = s.login_user_at(&input("", "password"), Some(account(true)), 0, "j").unwrap_err();
    assert_eq!(failed, AppError::InvalidCredentials);
}

#[test]
fn malformed_digest_in_the_directory_is_internal() {
    let s = service();
    let mut broken = account(true);
    broken.password_hash = "plain".to_string();
    let failed = s.login_user_at(&input("grace", "password"), Some(broken), 0, "j").unwrap_err();
    assert_eq!(failed, AppError::Internal("Password verification failed".to_string()));
    assert_eq!(failed.kind(), ErrorKind::Internal);
}

#[test]
fn fresh_login_issues_a_valid_token() {
    let s = service();
    let response = s.login_user(&input("grace", "password"), Some(account(true))).unwrap();
    let claims = s.validate_token(&response.token).unwrap();
    assert_eq!(claims.sub, 42);
    assert_eq!(claims.exp, response.expires_at);
    assert_eq!(claims.exp - claims.iat, 86400);
    let failed = s.login_user(&input("grace", "x"), Some(account(true))).unwrap_err();
    assert_eq!(failed, AppError::InvalidCredentials);
}

#[test]
fn get_user_by_id_wants_the_active_account() {
    let s = service();
    assert_eq!(s.get_user_by_id(42, Some(account(true))).unwrap().username, "grace");
    let missing = AppError::NotFound("User not found".to_string());
    assert_eq!(s.get_user_by_id(42, None).unwrap_err(), missing);
    assert_eq!(s.get_user_by_id(42, Some(account(false))).unwrap_err(), missing);
    assert_eq!(s.get_user_by_id(41, Some(account(true))).unwrap_err(), missing);
}

#[test]
fn login_against_a_directory() {
    let s = service();
    let mut directory = AccountDirectory::new();
    directory
        .insert(
            NewUser {
                username: "grace".to_string(),
                email: "grace@example.com".to_string(),
                password_hash: DIGEST_OF_PASSWORD.to_string(),
                display_name: "Grace".to_string(),
                role: UserRole::User,
            },
            5,
        )
        .unwrap();
    let response = login(&s, &directory, &input("grace", "password"), 10, "j").unwrap();
    assert_eq!(response.user.id, 1);
    assert_eq!(response.expires_at, 10 + 86400);
    let by_email = login(&s, &directory, &input("grace@example.com", "password"), 10, "j").unwrap();
    assert_eq!(by_email.user.username, "grace");
    let wrong = login(&s, &directory, &input("grace", "bad"), 10, "j").unwrap_err();
    assert_eq!(wrong, AppError::InvalidCredentials);
    let absent = login(&s, &directory, &input("ada", "password"), 10, "j").unwrap_err();
    assert_eq!(absent, AppError::InvalidCredentials);
    let empty = login(&s, &directory, &input("", ""), 10, "j").unwrap_err();
    assert_eq!(
        empty,
        AppError::Validation(
            "email_or_username: Email or username is required; password: Password is required".to_string()
        )
    );
}

const STATES: [LoginState; 6] = [
    LoginState::Received,
    LoginState::ResolvingAccount,
    LoginState::VerifyingPassword,
    LoginState::IssuingToken,
    LoginState::Completed,
    LoginState::Rejected,
];

const EVENTS: [LoginEvent; 6] = [
    LoginEvent::Submitted,
    LoginEvent::AccountFound,
    LoginEvent::AccountNotFound,
    LoginEvent::PasswordValid,
    LoginEvent::PasswordInvalid,
    LoginEvent::TokenIssued,
];

fn run(events: &[LoginEvent]) -> Option<LoginState> {
    let mut state = LoginState::Received;
    for event in events {
        state = state.next(*event)?;
    }
    Some(state)
}

#[test]
fn login_attempt_moves_through_its_states() {
    assert_eq!(LoginState::Received.next(LoginEvent::Submitted), Some(LoginState::ResolvingAccount));
    assert_eq!(LoginState::ResolvingAccount.next(LoginEvent::AccountFound), Some(LoginState::VerifyingPassword));
    assert_eq!(LoginState::ResolvingAccount.next(LoginEvent::AccountNotFound), Some(LoginState::Rejected));
    assert_eq!(LoginState::VerifyingPassword.next(LoginEvent::PasswordValid), Some(LoginState::IssuingToken));
    assert_eq!(LoginState::VerifyingPassword.next(LoginEvent::PasswordInvalid), Some(LoginState::Rejected));
    assert_eq!(LoginState::IssuingToken.next(LoginEvent::TokenIssued), Some(LoginState::Completed));
    let taken = STATES.iter().flat_map(|s| EVENTS.iter().map(move |e| s.next(*e))).filter(|n| n.is_some()).count();
    assert_eq!(taken, 6);
}

#[test]
fn ended_login_attempts_take_no_event() {
    for event in EVENTS.iter() {
        assert_eq!(LoginState::Completed.next(*event), None);
        assert_eq!(LoginState::Rejected.next(*event), None);
    }
}

#[test]
fn login_attempts_end_one_of_three_ways() {
    assert_eq!(run(&[LoginEvent::Submitted, LoginEvent::AccountNotFound]), Some(LoginState::Rejected));
    assert_eq!(
        run(&[LoginEvent::Submitted, LoginEvent::AccountFound, LoginEvent::PasswordInvalid]),
        Some(LoginState::Rejected)
    );
    assert_eq!(
        run(&[LoginEvent::Submitted, LoginEvent::AccountFound, LoginEvent::PasswordValid, LoginEvent::TokenIssued]),
        Some(LoginState::Completed)
    );
    assert_eq!(run(&[LoginEvent::Submitted, LoginEvent::PasswordValid]), None);
    assert_eq!(run(&[LoginEvent::AccountFound]), None);
    assert_eq!(run(&[]), Some(LoginState::Received));
}

#[test]
fn bearer_token_names_the_current_user() {
    let s = service();
    let mut directory = AccountDirectory::new();
    let stored = directory
        .insert(
            NewUser {
                username: "grace".to_string(),
                email: "grace@example.com".to_string(),
                password_hash: DIGEST_OF_PASSWORD.to_string(),
                display_name: "Grace".to_string(),
                role: UserRole::Author,
            },
            5,
        )
        .unwrap();
    let token = login(&s, &directory, &input("grace", "password"), 10, "j").unwrap().token;
    let user = current_user(&s, &directory, &token, 11).unwrap();
    assert_eq!(user.id, stored.id);
    assert_eq!(user.username, "grace");
    assert_eq!(user.role, UserRole::Author);
    assert_eq!(current_user(&s, &directory, &token, 10 + 86401).unwrap_err(), AppError::Unauthorized);
    assert_eq!(current_user(&s, &directory, "garbage", 11).unwrap_err(), AppError::Unauthorized);
    let elsewhere = AccountDirectory::new();
    assert_eq!(
        current_user(&s, &elsewhere, &token, 11).unwrap_err(),
        AppError::NotFound("User not found".to_string())
    );
}

#[test]
fn accepted_login_succeeds_now() {
    for hours in ["0", "24", "-1"] {
        let s = AuthService::new(&Environment::new(vec![
            ("JWT_SECRET".to_string(), "k".to_string()),
            ("JWT_EXPIRY_HOURS".to_string(), hours.to_string()),
        ]));
        let response = s.login_user(&input("grace", "password"), Some(account(true))).unwrap();
        assert_eq!(response.user.id, 42);
    }
}

#[test]
fn verification_fault_does_not_depend_on_the_password() {
    let s = service();
    let mut broken = account(true);
    broken.password_hash = "$2a$04$short".to_string();
    for password in ["", "password", "anything else"] {
        let failed = s.login_user_at(&input("grace", password), Some(broken.clone()), 0, "j").unwrap_err();
        assert_eq!(failed, AppError::Internal("Password verification failed".to_string()));
    }
    for password in ["", "passwore", "anything else"] {
        let failed = s.login_user_at(&input("grace", password), Some(account(true)), 0, "j").unwrap_err();
        assert_eq!(failed, AppError::InvalidCredentials);
    }
    let inactive = { let mut a = broken.clone(); a.is_active = false; a };
    let failed = s.login_user_at(&input("grace", "password"), Some(inactive), 0, "j").unwrap_err();
    assert_eq!(failed, AppError::InvalidCredentials);
}
