use leptos_blog::auth::{AuthService, NewUser};
use leptos_blog::config::Environment;
use leptos_blog::directory::{count_as_i64, register, AccountDirectory};
use leptos_blog::error::AppResult;
use leptos_blog::error::{AppError, ErrorKind};
use leptos_blog::models::{RegisterInput, User, UserProfile, UserRole};

fn service() -> AuthService {
    AuthService::new(&Environment::new(vec![("JWT_SECRET".to_string(), "k".to_string())]))
}

fn input(username: &str, email: &str) -> RegisterInput {
    RegisterInput {
        username: username.to_string(),
        email: email.to_string(),
        password: "longenough".to_string(),
        confirm_password: "longenough".to_string(),
        display_name: "Someone".to_string(),
    }
}

fn new_user(username: &str, email: &str) -> NewUser {
    NewUser {
        username: username.to_string(),
        email: email.to_string(),
        password_hash: "$2a$04$UuTkLRZZ6QofpDOlMz32MuuxEHA43WOemOYHPz6.SjsVsyO1tDU96".to_string(),
        display_name: username.to_string(),
        role: UserRole::User,
    }
}

#[test]
fn existing_username_or_email_is_a_conflict() {
    let s = service();
    for existing in [1, 2, i64::MAX] {
        let failed = s.register_user(&input("ada", "ada@example.com"), existing).unwrap_err();
        assert_eq!(failed, AppError::Conflict("Username or email already exists".to_string()));
        assert_eq!(failed.kind(), ErrorKind::Conflict);
    }
}

#[test]
fn free_name_gives_the_account_to_create() {
    let s = service();
    for existing in [0, -1] {
        let account = s.register_user(&input("ada", "ada@example.com"), existing).unwrap();
        assert_eq!(account.username, "ada");
        assert_eq!(account.email, "ada@example.com");
        assert_eq!(account.display_name, "Someone");
        assert_eq!(account.role, UserRole::User);
        assert_ne!(account.password_hash, "longenough");
        assert_eq!(s.verify_password("longenough", &account.password_hash), Ok(true));
    }
}

#[test]
fn response_carries_profile_and_token() {
    let s = service();
    let user = User {
        id: 3,
        username: "ada".to_string(),
        email: "ada@example.com".to_string(),
        password_hash: "secret digest".to_string(),
        display_name: "Ada".to_string(),
        bio: None,
        avatar_url: Some("https://example.com/a.png".to_string()),
        role: UserRole::User,
        email_verified: false,
        is_active: true,
        created_at: 77,
        updated_at: 78,
    };
    let response = s.respond_at(user.clone(), 100, "j").unwrap();
    assert_eq!(response.expires_at, 100 + 86400);
    assert_eq!(response.user.id, 3);
    assert_eq!(response.user.avatar_url, Some("https://example.com/a.png".to_string()));
    assert_eq!(response.user.created_at, 77);
    assert_eq!(s.validate_token_at(&response.token, 100).unwrap().sub, 3);
    let fresh = s.respond(user).unwrap();
    assert_eq!(s.validate_token(&fresh.token).unwrap().exp, fresh.expires_at);
}

#[test]
fn profile_leaves_out_the_digest() {
    let user = User {
        id: 3,
        username: "ada".to_string(),
        email: "ada@example.com".to_string(),
        password_hash: "secret digest".to_string(),
        display_name: "Ada".to_string(),
        bio: Some("b".to_string()),
        avatar_url: None,
        role: UserRole::Author,
        email_verified: false,
        is_active: true,
        created_at: 77,
        updated_at: 78,
    };
    let profile = UserProfile::from(user);
    assert!(!format!("{:?}", profile).contains("secret digest"));
    assert_eq!(profile.username, "ada");
    assert_eq!(profile.bio, Some("b".to_string()));
    assert_eq!(profile.role, UserRole::Author);
}

#[test]
fn directory_gives_rising_ids() {
    let mut directory = AccountDirectory::new();
    assert_eq!(directory.len(), 0);
    let a = directory.insert(new_user("ada", "ada@example.com"), 10).unwrap();
    let b = directory.insert(new_user("bob", "bob@example.com"), 11).unwrap();
    assert_eq!((a.id, b.id), (1, 2));
    assert!(a.is_active && !a.email_verified);
    assert_eq!((a.created_at, a.updated_at), (10, 10));
    assert_eq!(a.bio, None);
    assert_eq!(directory.len(), 2);
    assert_eq!(directory.find_active_by_id(2).unwrap().username, "bob");
    assert!(directory.find_active_by_id(3).is_none());
    assert_eq!(directory.find_active("bob@example.com").unwrap().id, 2);
    assert!(directory.find_active("BOB").is_none());
}

#[test]
fn directory_refuses_a_name_twice() {
    let mut directory = AccountDirectory::new();
    directory.insert(new_user("ada", "ada@example.com"), 10).unwrap();
    let conflict = AppError::Conflict("Username or email already exists".to_string());
    assert_eq!(directory.insert(new_user("ada", "other@example.com"), 11).unwrap_err(), conflict);
    assert_eq!(directory.insert(new_user("other", "ada@example.com"), 11).unwrap_err(), conflict);
    assert_eq!(directory.len(), 1);
    assert_eq!(directory.count_existing("ada", "ada@example.com"), 1);
    assert_eq!(directory.count_existing("ada", "x"), 1);
    assert_eq!(directory.count_existing("x", "ada@example.com"), 1);
    assert_eq!(directory.count_existing("Ada", "ADA@example.com"), 0);
    directory.insert(new_user("Ada", "ADA@example.com"), 12).unwrap();
    assert_eq!(directory.count_existing("ada", "ADA@example.com"), 2);
}

#[test]
fn registration_creates_the_account() {
    let s = service();
    let mut directory = AccountDirectory::new();
    let response = register(&s, &mut directory, &input("ada", "ada@example.com"), 50, "j").unwrap();
    assert_eq!(directory.len(), 1);
    assert_eq!(response.user.id, 1);
    assert_eq!(response.user.username, "ada");
    assert_eq!(response.user.role, UserRole::User);
    assert_eq!(response.expires_at, 50 + 86400);
    assert_eq!(s.validate_token_at(&response.token, 50).unwrap().sub, 1);
    let stored = directory.find_active("ada").unwrap();
    assert_eq!(stored.email, "ada@example.com");
    assert_eq!(s.verify_password("longenough", &stored.password_hash), Ok(true));
}

#[test]
fn registration_with_a_taken_username_changes_nothing() {
    let s = service();
    let mut directory = AccountDirectory::new();
    directory.insert(new_user("ada", "ada@example.com"), 10).unwrap();
    let failed = register(&s, &mut directory, &input("ada", "new@example.com"), 50, "j").unwrap_err();
    assert_eq!(failed, AppError::Conflict("Username or email already exists".to_string()));
    assert_eq!(directory.len(), 1);
    assert!(directory.find_active("new@example.com").is_none());
    assert_eq!(directory.find_active("ada").unwrap().email, "ada@example.com");
}

#[test]
fn registration_matches_names_letter_for_letter() {
    let s = service();
    let mut directory = AccountDirectory::new();
    directory.insert(new_user("ada", "ada@example.com"), 10).unwrap();
    assert!(register(&s, &mut directory, &input("Ada", "Ada@example.com"), 50, "j").is_ok());
    assert_eq!(directory.len(), 2);
}

#[test]
fn registration_of_a_wrong_shape_changes_nothing() {
    let s = service();
    let mut directory = AccountDirectory::new();
    let failed = register(&s, &mut directory, &input("a", "ada@example.com"), 50, "j").unwrap_err();
    assert_eq!(failed, AppError::Validation("username: Username must be 3-50 characters".to_string()));
    assert_eq!(directory.len(), 0);
}

#[test]
fn counts_are_reported_within_i64() {
    assert_eq!(count_as_i64(0), 0);
    assert_eq!(count_as_i64(2), 2);
    assert_eq!(count_as_i64(usize::MAX), i64::MAX);
}

#[test]
fn account_follows_the_answer_of_the_hashing() {
    let hashed: AppResult<String> = Ok("digest".to_string());
    let account = AuthService::account_or_fault(&input("ada", "ada@example.com"), hashed).unwrap();
    assert_eq!(account.username, "ada");
    assert_eq!(account.email, "ada@example.com");
    assert_eq!(account.display_name, "Someone");
    assert_eq!(account.password_hash, "digest");
    assert_eq!(account.role, UserRole::User);
    let fault = AppError::Internal("Password hashing failed".to_string());
    let failed = AuthService::account_or_fault(&input("ada", "ada@example.com"), Err(fault.clone()));
    assert_eq!(failed.unwrap_err(), fault);
}

#[test]
fn registration_whose_token_cannot_be_issued_leaves_the_account() {
    let s = AuthService::new(&Environment::new(vec![(
        "JWT_EXPIRY_HOURS".to_string(),
        "9223372036854775807".to_string(),
    )]));
    let mut directory = AccountDirectory::new();
    let failed = register(&s, &mut directory, &input("ada", "ada@example.com"), 50, "j").unwrap_err();
    assert_eq!(failed, AppError::Internal("Token generation failed".to_string()));
    assert_eq!(directory.len(), 1);
    assert_eq!(directory.find_active("ada").unwrap().id, 1);
}
