use leptos_blog::error::AppError;
use leptos_blog::models::{ChangePasswordInput, CreatePostInput, LoginInput, RegisterInput, UpdatePostInput, UpdateProfileInput};
use leptos_blog::error::validation::{check_length, check_min_length, check_slug, check_username, validate_input, FaultText, Validate};

fn register() -> RegisterInput {
    RegisterInput {
        username: "ada_1".to_string(),
        email: "ada@example.com".to_string(),
        password: "12345678".to_string(),
        confirm_password: "12345678".to_string(),
        display_name: "Ada".to_string(),
    }
}

fn refused(text: &str) -> Result<(), AppError> {
    Err(AppError::Validation(text.to_string()))
}

#[test]
fn well_shaped_registration_passes() {
    assert_eq!(validate_input(&register()), Ok(()));
    assert_eq!(register().validate(), Ok(()));
}

#[test]
fn username_rules() {
    let mut input = register();
    input.username = "ab".to_string();
    assert_eq!(validate_input(&input), refused("username: Username must be 3-50 characters"));
    input.username = "a".repeat(51);
    assert_eq!(validate_input(&input), refused("username: Username must be 3-50 characters"));
    input.username = "a".repeat(50);
    assert_eq!(validate_input(&input), Ok(()));
    input.username = "ada lovelace".to_string();
    assert_eq!(
        validate_input(&input),
        refused("username: Username can only contain letters, numbers, and underscores")
    );
    input.username = "é".to_string();
    assert_eq!(
        validate_input(&input),
        refused("username: Username must be 3-50 characters, Username can only contain letters, numbers, and underscores")
    );
    input.username = String::new();
    assert_eq!(
        validate_input(&input),
        refused("username: Username must be 3-50 characters, Username can only contain letters, numbers, and underscores")
    );
    input.username = "ééé".to_string();
    assert_eq!(
        validate_input(&input),
        refused("username: Username can only contain letters, numbers, and underscores")
    );
}

#[test]
fn email_rule() {
    let mut input = register();
    for bad in ["", "ada", "ada@", "@example.com", "a b@example.com", "ada@example..com"] {
        input.email = bad.to_string();
        assert_eq!(validate_input(&input), refused("email: Invalid email address"));
    }
    for good in ["email@here.com", "weirder-email@here.and.there.com", "email@[127.0.0.1]"] {
        input.email = good.to_string();
        assert_eq!(validate_input(&input), Ok(()));
    }
}

#[test]
fn password_rules() {
    let mut input = register();
    input.password = "1234567".to_string();
    input.confirm_password = "1234567".to_string();
    assert_eq!(validate_input(&input), refused("password: Password must be at least 8 characters"));
    input.password = "12345678".to_string();
    input.confirm_password = "12345679".to_string();
    assert_eq!(validate_input(&input), refused("confirm_password: Passwords do not match"));
    input.password = "éééééééé".to_string();
    input.confirm_password = "éééééééé".to_string();
    assert_eq!(validate_input(&input), Ok(()));
}

#[test]
fn faults_are_listed_field_by_field() {
    let input = RegisterInput {
        username: "a!".to_string(),
        email: "x".to_string(),
        password: "short".to_string(),
        confirm_password: "other".to_string(),
        display_name: String::new(),
    };
    assert_eq!(
        validate_input(&input),
        refused("username: Username must be 3-50 characters, Username can only contain letters, numbers, and underscores; email: Invalid email address; password: Password must be at least 8 characters; confirm_password: Passwords do not match; display_name: Display name must be 1-100 characters")
    );
}

#[test]
fn login_rules() {
    let ok = LoginInput { email_or_username: "a".to_string(), password: "b".to_string(), remember_me: Some(true) };
    assert_eq!(validate_input(&ok), Ok(()));
    let no_password = LoginInput { email_or_username: "a".to_string(), password: String::new(), remember_me: None };
    assert_eq!(validate_input(&no_password), refused("password: Password is required"));
    let no_name = LoginInput { email_or_username: String::new(), password: "b".to_string(), remember_me: None };
    assert_eq!(validate_input(&no_name), refused("email_or_username: Email or username is required"));
}

#[test]
fn profile_rules() {
    let none = UpdateProfileInput { display_name: None, bio: None, avatar_url: None };
    assert_eq!(validate_input(&none), Ok(()));
    let good = UpdateProfileInput {
        display_name: Some("Ada".to_string()),
        bio: Some(String::new()),
        avatar_url: Some("https://example.com/a.png".to_string()),
    };
    assert_eq!(validate_input(&good), Ok(()));
    let bad = UpdateProfileInput {
        display_name: Some(String::new()),
        bio: Some("b".repeat(501)),
        avatar_url: Some("http".to_string()),
    };
    assert_eq!(
        validate_input(&bad),
        refused("display_name: Display name must be 1-100 characters; bio: Bio must be less than 500 characters; avatar_url: Invalid avatar URL")
    );
    let edge = UpdateProfileInput { display_name: Some("d".repeat(100)), bio: Some("b".repeat(500)), avatar_url: Some("ftp://localhost:80".to_string()) };
    assert_eq!(validate_input(&edge), Ok(()));
}

#[test]
fn change_password_rules() {
    let good = ChangePasswordInput {
        current_password: "x".to_string(),
        new_password: "12345678".to_string(),
        confirm_password: "12345678".to_string(),
    };
    assert_eq!(validate_input(&good), Ok(()));
    let bad = ChangePasswordInput {
        current_password: String::new(),
        new_password: "1234".to_string(),
        confirm_password: "12345".to_string(),
    };
    assert_eq!(
        validate_input(&bad),
        refused("current_password: Current password is required; new_password: New password must be at least 8 characters; confirm_password: Passwords do not match")
    );
}

#[test]
fn create_post_rules() {
    let good = CreatePostInput {
        slug: "hello-world-2".to_string(),
        title: "Hello".to_string(),
        summary: "S".to_string(),
        body_markdown: "# Hi".to_string(),
        published: true,
    };
    assert_eq!(validate_input(&good), Ok(()));
    let bad = CreatePostInput {
        slug: "Hello World".to_string(),
        title: "t".repeat(201),
        summary: String::new(),
        body_markdown: "b".repeat(100001),
        published: false,
    };
    assert_eq!(
        validate_input(&bad),
        refused("slug: Slug can only contain lowercase letters, numbers, and hyphens; title: Title must be between 1 and 200 characters; summary: Summary must be between 1 and 500 characters; body_markdown: Body must be between 1 and 100000 characters")
    );
    let empty_slug = CreatePostInput { slug: String::new(), ..good.clone() };
    assert_eq!(
        validate_input(&empty_slug),
        refused("slug: Slug must be between 1 and 100 characters, Slug can only contain lowercase letters, numbers, and hyphens")
    );
    let long_slug = CreatePostInput { slug: "a".repeat(101), ..good };
    assert_eq!(validate_input(&long_slug), refused("slug: Slug must be between 1 and 100 characters"));
}

#[test]
fn update_post_rules() {
    let none = UpdatePostInput { title: None, summary: None, body_markdown: None, published: None };
    assert_eq!(validate_input(&none), Ok(()));
    let bad = UpdatePostInput {
        title: Some(String::new()),
        summary: Some("s".repeat(501)),
        body_markdown: Some(String::new()),
        published: Some(true),
    };
    assert_eq!(
        validate_input(&bad),
        refused("title: Title must be between 1 and 200 characters; summary: Summary must be between 1 and 500 characters; body_markdown: Body must be between 1 and 100000 characters")
    );
    let summary_only = UpdatePostInput { title: None, summary: Some(String::new()), body_markdown: None, published: None };
    assert_eq!(validate_input(&summary_only), refused("summary: Summary must be between 1 and 500 characters"));
}

#[test]
fn slugs_and_usernames() {
    for (text, slug, username) in [
        ("abc", true, true),
        ("a-b", true, false),
        ("a_b", false, true),
        ("ABC", false, true),
        ("a1", true, true),
        ("", false, false),
        ("a b", false, false),
        ("a\n", false, false),
        ("ß", false, false),
        ("-", true, false),
        ("_", false, true),
    ] {
        assert_eq!(check_slug(text), slug);
        assert_eq!(check_username(text), username);
    }
}

#[test]
fn lengths_count_characters() {
    assert!(check_length("äöü", 3, 3));
    assert!(!check_length("äöü", 4, 6));
    assert!(check_length("", 0, 0));
    assert!(!check_length("ab", 0, 1));
    assert!(check_min_length("ääää", 4));
    assert!(!check_min_length("ääää", 5));
}

#[test]
fn fault_text_joins_fields_and_messages() {
    let mut text = FaultText::new();
    text.field("a", &vec![]);
    text.field("b", &vec!["one", "two", "three"]);
    text.field("c", &vec![]);
    text.field("d", &vec!["four"]);
    assert_eq!(text.finish(), Err("b: one, two, three; d: four".to_string()));
    assert_eq!(FaultText::new().finish(), Ok(()));
}
