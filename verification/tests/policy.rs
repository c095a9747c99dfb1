use leptos_blog::auth::AuthService;
use leptos_blog::config::Environment;
use leptos_blog::models::UserRole;

fn service() -> AuthService {
    AuthService::new(&Environment::empty())
}

const ROLES: [UserRole; 3] = [UserRole::User, UserRole::Author, UserRole::Admin];

#[test]
fn check_permission_truth_table() {
    let s = service();
    let expected = [[true, false, false], [true, true, false], [true, true, true]];
    for (h, held) in ROLES.iter().enumerate() {
        for (r, required) in ROLES.iter().enumerate() {
            assert_eq!(s.check_permission(held, required), expected[h][r]);
        }
    }
}

#[test]
fn every_role_satisfies_the_user_requirement() {
    let s = service();
    for held in ROLES.iter() {
        assert!(s.check_permission(held, &UserRole::User));
    }
}

#[test]
fn only_admin_satisfies_the_admin_requirement() {
    let s = service();
    for held in ROLES.iter() {
        assert_eq!(s.check_permission(held, &UserRole::Admin), *held == UserRole::Admin);
    }
}

#[test]
fn author_requirement() {
    let s = service();
    assert!(s.check_permission(&UserRole::Author, &UserRole::Author));
    assert!(!s.check_permission(&UserRole::User, &UserRole::Author));
    assert!(s.check_permission(&UserRole::Admin, &UserRole::Author));
}

#[test]
fn role_names() {
    assert_eq!(UserRole::User.as_str(), "user");
    assert_eq!(UserRole::Author.as_str(), "author");
    assert_eq!(UserRole::Admin.as_str(), "admin");
    assert_eq!(UserRole::Admin.to_string(), "admin".to_string());
}

#[test]
fn role_names_are_read_back() {
    for role in ROLES.iter() {
        assert_eq!(UserRole::parse(role.as_str()), Some(*role));
    }
    assert_eq!(UserRole::parse("Admin"), None);
    assert_eq!(UserRole::parse(""), None);
    assert_eq!(UserRole::parse("admin "), None);
    assert_eq!(UserRole::parse("owner"), None);
}
