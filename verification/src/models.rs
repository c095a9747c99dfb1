//! Domain records: roles, accounts and the values exchanged with callers.
//!
//! Instants are whole seconds since the Unix epoch.

use vstd::prelude::*;
use vstd::string::*;
use vstd::std_specs::convert::{FromSpec, FromSpecImpl};
use crate::dates::{format_long_date, long_date};
use crate::markdown::{markdown_html, markdown_to_html};
use crate::text::str_eq;

verus! {

/// Role of an account. `User < Author < Admin`.
#[derive(Debug, Clone, Copy, PartialEq, Eq, Structural)]
pub enum UserRole {
    User,
    Author,
    Admin,
}

impl UserRole {
    /// Position of the role in the order `User < Author < Admin`.
    pub open spec fn rank(self) -> nat {
        match self {
            UserRole::User => 0,
            UserRole::Author => 1,
            UserRole::Admin => 2,
        }
    }

    /// Whether an account holding `self` may do what asks for `required`.
    pub open spec fn permits(self, required: UserRole) -> bool {
        match required {
            UserRole::User => true,
            UserRole::Author => self == UserRole::Author || self == UserRole::Admin,
            UserRole::Admin => self == UserRole::Admin,
        }
    }

    /// The name under which the role is stored and carried in tokens.
    pub open spec fn name(self) -> Seq<char> {
        match self {
            UserRole::User => "user"@,
            UserRole::Author => "author"@,
            UserRole::Admin => "admin"@,
        }
    }

    /// The role stored under `name`, if any.
    pub open spec fn named(name: Seq<char>) -> Option<UserRole> {
        if name == "user"@ {
            Some(UserRole::User)
        } else if name == "author"@ {
            Some(UserRole::Author)
        } else if name == "admin"@ {
            Some(UserRole::Admin)
        } else {
            None
        }
    }

    pub fn as_str(&self) -> (s: &'static str)
        ensures
            s@ == self.name(),
    {
        match self {
            UserRole::User => "user",
            UserRole::Author => "author",
            UserRole::Admin => "admin",
        }
    }

    pub fn to_string(&self) -> (s: String)
        ensures
            s@ == self.name(),
    {
        self.as_str().to_owned()
    }

    pub fn parse(name: &str) -> (r: Option<UserRole>)
        ensures
            r == UserRole::named(name@),
    {
        if str_eq(name, "user") {
            Some(UserRole::User)
        } else if str_eq(name, "author") {
            Some(UserRole::Author)
        } else if str_eq(name, "admin") {
            Some(UserRole::Admin)
        } else {
            None
        }
    }
}

/// The three role names differ, so a role is found again under its name.
pub proof fn role_name_round_trip(role: UserRole)
    ensures
        UserRole::named(role.name()) == Some(role),
{
    reveal_strlit("user");
    reveal_strlit("author");
    reveal_strlit("admin");
    assert("user"@.len() == 4 && "author"@.len() == 6 && "admin"@.len() == 5);
}

/// A name that stands for a role is that role's name.
pub proof fn role_named_is_exact(name: Seq<char>)
    ensures
        UserRole::named(name) matches Some(role) ==> role.name() == name,
{
}

/// The capability relation is the order on roles.
pub proof fn permits_is_rank_order(held: UserRole, required: UserRole)
    ensures
        held.permits(required) <==> held.rank() >= required.rank(),
{
}

/// Every role satisfies the `User` requirement.
pub proof fn every_role_permits_user(held: UserRole)
    ensures
        held.permits(UserRole::User),
{
}

/// Only `Admin` satisfies the `Admin` requirement.
pub proof fn only_admin_permits_admin(held: UserRole)
    ensures
        held.permits(UserRole::Admin) == (held == UserRole::Admin),
{
}

/// The view of an optional text.
pub open spec fn opt_text(o: Option<String>) -> Option<Seq<char>> {
    match o {
        Some(s) => Some(s@),
        None => None,
    }
}

/// A copy of an optional text.
pub fn clone_opt_text(o: &Option<String>) -> (r: Option<String>)
    ensures
        opt_text(r) == opt_text(*o),
{
    match o {
        Some(s) => Some(s.clone()),
        None => None,
    }
}

/// Account record as the account directory holds it.
#[derive(Debug, Clone)]
pub struct User {
    pub id: i64,
    pub username: String,
    pub email: String,
    pub password_hash: String,
    pub display_name: String,
    pub bio: Option<String>,
    pub avatar_url: Option<String>,
    pub role: UserRole,
    pub email_verified: bool,
    pub is_active: bool,
    pub created_at: i64,
    pub updated_at: i64,
}

/// Mathematical value of a [`User`].
pub struct UserView {
    pub id: i64,
    pub username: Seq<char>,
    pub email: Seq<char>,
    pub password_hash: Seq<char>,
    pub display_name: Seq<char>,
    pub bio: Option<Seq<char>>,
    pub avatar_url: Option<Seq<char>>,
    pub role: UserRole,
    pub email_verified: bool,
    pub is_active: bool,
    pub created_at: i64,
    pub updated_at: i64,
}

impl View for User {
    type V = UserView;

    open spec fn view(&self) -> UserView {
        UserView {
            id: self.id,
            username: self.username@,
            email: self.email@,
            password_hash: self.password_hash@,
            display_name: self.display_name@,
            bio: opt_text(self.bio),
            avatar_url: opt_text(self.avatar_url),
            role: self.role,
            email_verified: self.email_verified,
            is_active: self.is_active,
            created_at: self.created_at,
            updated_at: self.updated_at,
        }
    }
}

impl UserView {
    /// What of an account is shown to others: everything but the email, the
    /// password hash and the flags.
    pub open spec fn profile(self) -> UserProfileView {
        UserProfileView {
            id: self.id,
            username: self.username,
            display_name: self.display_name,
            bio: self.bio,
            avatar_url: self.avatar_url,
            role: self.role,
            created_at: self.created_at,
        }
    }
}

/// Public profile of an account, without sensitive data.
#[derive(Debug, Clone)]
pub struct UserProfile {
    pub id: i64,
    pub username: String,
    pub display_name: String,
    pub bio: Option<String>,
    pub avatar_url: Option<String>,
    pub role: UserRole,
    pub created_at: i64,
}

/// Mathematical value of a [`UserProfile`].
pub struct UserProfileView {
    pub id: i64,
    pub username: Seq<char>,
    pub display_name: Seq<char>,
    pub bio: Option<Seq<char>>,
    pub avatar_url: Option<Seq<char>>,
    pub role: UserRole,
    pub created_at: i64,
}

impl View for UserProfile {
    type V = UserProfileView;

    open spec fn view(&self) -> UserProfileView {
        UserProfileView {
            id: self.id,
            username: self.username@,
            display_name: self.display_name@,
            bio: opt_text(self.bio),
            avatar_url: opt_text(self.avatar_url),
            role: self.role,
            created_at: self.created_at,
        }
    }
}

impl From<User> for UserProfile {
    fn from(user: User) -> (profile: UserProfile) {
        UserProfile {
            id: user.id,
            username: user.username,
            display_name: user.display_name,
            bio: user.bio,
            avatar_url: user.avatar_url,
            role: user.role,
            created_at: user.created_at,
        }
    }
}

impl FromSpecImpl<User> for UserProfile {
    open spec fn obeys_from_spec() -> bool {
        true
    }

    open spec fn from_spec(user: User) -> UserProfile {
        UserProfile {
            id: user.id,
            username: user.username,
            display_name: user.display_name,
            bio: user.bio,
            avatar_url: user.avatar_url,
            role: user.role,
            created_at: user.created_at,
        }
    }
}

/// The profile made from an account is its public projection.
pub proof fn profile_from_user(user: User)
    ensures
        <UserProfile as FromSpec<User>>::from_spec(user)@ == user@.profile(),
{
}

/// Credentials presented at login.
#[derive(Debug, Clone)]
pub struct LoginInput {
    pub email_or_username: String,
    pub password: String,
    pub remember_me: Option<bool>,
}

/// Data presented at registration.
#[derive(Debug, Clone)]
pub struct RegisterInput {
    pub username: String,
    pub email: String,
    pub password: String,
    pub confirm_password: String,
    pub display_name: String,
}

/// Changes to the own profile.
#[derive(Debug, Clone)]
pub struct UpdateProfileInput {
    pub display_name: Option<String>,
    pub bio: Option<String>,
    pub avatar_url: Option<String>,
}

/// A password change.
#[derive(Debug, Clone)]
pub struct ChangePasswordInput {
    pub current_password: String,
    pub new_password: String,
    pub confirm_password: String,
}

/// A new post.
#[derive(Debug, Clone)]
pub struct CreatePostInput {
    pub slug: String,
    pub title: String,
    pub summary: String,
    pub body_markdown: String,
    pub published: bool,
}

/// Changes to a post.
#[derive(Debug, Clone)]
pub struct UpdatePostInput {
    pub title: Option<String>,
    pub summary: Option<String>,
    pub body_markdown: Option<String>,
    pub published: Option<bool>,
}

/// What a caller gets after a successful login or registration.
#[derive(Debug, Clone)]
pub struct AuthResponse {
    pub user: UserProfile,
    pub token: String,
    pub expires_at: i64,
}

/// A category of posts.
#[derive(Debug, Clone)]
pub struct Category {
    pub id: i64,
    pub name: String,
    pub slug: String,
    pub description: Option<String>,
    pub color: String,
    pub is_active: bool,
    pub created_at: i64,
    pub updated_at: i64,
}

/// A tag on posts.
#[derive(Debug, Clone)]
pub struct Tag {
    pub id: i64,
    pub name: String,
    pub slug: String,
    pub description: Option<String>,
    pub usage_count: i32,
    pub created_at: i64,
    pub updated_at: i64,
}

/// A post. It is published once `published_at` holds an instant.
#[derive(Debug, Clone)]
pub struct Post {
    pub id: i64,
    pub slug: String,
    pub title: String,
    pub summary: String,
    pub body_markdown: String,
    pub body_html: String,
    pub author_id: Option<i64>,
    pub category_id: Option<i64>,
    pub featured: bool,
    pub views_count: i32,
    pub likes_count: i32,
    pub meta_title: Option<String>,
    pub meta_description: Option<String>,
    pub reading_time_minutes: Option<i32>,
    pub published_at: Option<i64>,
    pub created_at: i64,
    pub updated_at: i64,
}

/// A post with what is shown beside it.
#[derive(Debug, Clone)]
pub struct PostWithMetadata {
    pub post: Post,
    pub author: Option<UserProfile>,
    pub category: Option<Category>,
    pub tags: Vec<Tag>,
}

/// An earlier state of a post.
#[derive(Debug, Clone)]
pub struct PostRevision {
    pub id: i64,
    pub post_id: i64,
    pub title: String,
    pub summary: String,
    pub body_markdown: String,
    pub body_html: String,
    pub revision_number: i32,
    pub change_summary: Option<String>,
    pub created_by: Option<i64>,
    pub created_at: i64,
}

impl Post {
    /// Writes the HTML of the markdown body; nothing else changes.
    pub fn generate_html(&mut self)
        ensures
            final(self).body_html@ == markdown_html(old(self).body_markdown@),
            *final(self) == (Post { body_html: final(self).body_html, ..*old(self) }),
    {
        self.body_html = markdown_to_html(self.body_markdown.as_str());
    }

    pub fn is_published(&self) -> (r: bool)
        ensures
            r == self.published_at.is_some(),
    {
        self.published_at.is_some()
    }

    /// The day of publication, for display.
    pub fn formatted_date(&self) -> (r: Option<String>)
        ensures
            opt_text(r) == (match self.published_at {
                Some(instant) => long_date(instant),
                None => None,
            }),
    {
        match self.published_at {
            Some(instant) => format_long_date(instant),
            None => None,
        }
    }
}

} // verus!
