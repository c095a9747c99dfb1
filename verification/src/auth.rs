//! Authentication: password digests, bearer tokens, login and registration.
//!
//! The account directory is a collaborator. Its answers are handed to the
//! functions here as plain values, and what is to be written to it is handed
//! back the same way.

use vstd::prelude::*;
use vstd::string::*;
use crate::ambient::{fresh_id, is_clock_instant, is_hyphenated_id, unix_now, CLOCK_MAX, CLOCK_MIN};
pub use crate::claims::Claims;
use crate::claims::{claims_members_decide, claims_read_back, ClaimsView};
use crate::config::{int_setting, text_setting, Environment};
use crate::error::{fails_with, AppError, AppErrorView, AppResult};
use crate::jwt::{sign_hs256, token_payload, verify_hs256};
use crate::models::{AuthResponse, LoginInput, RegisterInput, User, UserProfile, UserRole, UserView};
use crate::password::{bcrypt_hash, bcrypt_verify, digest_is_readable, digest_matches};
use crate::text::str_eq;

verus! {

/// Issues and validates tokens, and decides logins and registrations.
/// The signing secret and the lifetime of a token are fixed at construction.
#[derive(Debug, Clone)]
pub struct AuthService {
    jwt_secret: String,
    jwt_expiry_hours: i64,
}

/// Data of an account that is to be created.
#[derive(Debug, Clone)]
pub struct NewUser {
    pub username: String,
    pub email: String,
    pub password_hash: String,
    pub display_name: String,
    pub role: UserRole,
}

/// The instant at which a token issued at `now` expires.
pub open spec fn expiry(now: i64, hours: i64) -> int {
    now + hours * 3600
}

/// The expiry of a token issued at `now` is an instant that `i64` holds.
pub open spec fn expiry_fits(now: i64, hours: i64) -> bool {
    i64::MIN <= expiry(now, hours) <= i64::MAX
}

/// The lifetime is one with which the expiry is an instant that `i64` holds,
/// whatever the clock reads: it is so at the earliest and at the latest
/// instant of the clock, and so at every instant between.
pub open spec fn lifetime_fits(hours: i64) -> bool {
    expiry_fits(CLOCK_MIN, hours) && expiry_fits(CLOCK_MAX, hours)
}

/// Mathematical value of a [`NewUser`].
pub struct NewUserView {
    pub username: Seq<char>,
    pub email: Seq<char>,
    pub password_hash: Seq<char>,
    pub display_name: Seq<char>,
    pub role: UserRole,
}

impl View for NewUser {
    type V = NewUserView;

    open spec fn view(&self) -> NewUserView {
        NewUserView {
            username: self.username@,
            email: self.email@,
            password_hash: self.password_hash@,
            display_name: self.display_name@,
            role: self.role,
        }
    }
}

/// The account that a registration with `input` asks for, given the digest
/// of its password: what was put in, and the role `User`.
pub open spec fn new_account(input: &RegisterInput, digest: Seq<char>) -> NewUserView {
    NewUserView {
        username: input.username@,
        email: input.email@,
        password_hash: digest,
        display_name: input.display_name@,
        role: UserRole::User,
    }
}

/// The claims of the token issued for `user` at `now` under the identifier
/// `jti`, where the expiry is an instant that `i64` holds.
pub open spec fn issued_claims(user: UserView, hours: i64, now: i64, jti: Seq<char>) -> ClaimsView {
    ClaimsView {
        sub: user.id,
        username: user.username,
        role: user.role,
        exp: expiry(now, hours) as i64,
        iat: now,
        jti,
    }
}

/// The claims `c` are those of a token issued for `user` at an instant of
/// the clock under a fresh identifier: the id, the username and the role of
/// `user`, an expiry `hours` after the issue, and an identifier of the usual
/// shape.
pub open spec fn freshly_issued(c: ClaimsView, user: UserView, hours: i64) -> bool {
    &&& c.sub == user.id
    &&& c.username == user.username
    &&& c.role == user.role
    &&& is_clock_instant(c.iat)
    &&& c.exp == expiry(c.iat, hours)
    &&& is_hyphenated_id(c.jti)
}

/// `token` is signed with `secret` and carries exactly the claims `c`.
pub open spec fn carries(token: Seq<char>, secret: Seq<char>, c: ClaimsView) -> bool {
    token_payload(token, secret) == Some((c.ints(), c.texts()))
}

/// The claims that `token` is accepted with at the instant `now`: the token
/// is signed with `secret`, carries claims, and `now` is not after their
/// expiry. There is no leeway.
pub open spec fn validated(token: Seq<char>, secret: Seq<char>, now: i64) -> Option<ClaimsView> {
    match token_payload(token, secret) {
        Some((ints, texts)) => match ClaimsView::read(ints, texts) {
            Some(c) => if now > c.exp {
                None
            } else {
                Some(c)
            },
            None => None,
        },
        None => None,
    }
}

/// `account` is active and `identifier` is its email or its username.
pub open spec fn names_active_account(identifier: Seq<char>, account: UserView) -> bool {
    account.is_active && (account.email == identifier || account.username == identifier)
}

/// Whether a login is accepted: there is an account, it is the active account
/// that `identifier` names, and `password` is the one its digest was made
/// from. `None` where the digest cannot be read.
pub open spec fn credentials_accepted(
    identifier: Seq<char>,
    password: Seq<char>,
    account: Option<UserView>,
) -> Option<bool> {
    match account {
        None => Some(false),
        Some(a) => if names_active_account(identifier, a) {
            digest_matches(password, a.password_hash)
        } else {
            Some(false)
        },
    }
}

/// The digest of the account that a login names cannot be read. That is the
/// one thing that makes the check of a password fail, whatever the password.
pub open spec fn digest_blocks_login(identifier: Seq<char>, account: Option<UserView>) -> bool {
    match account {
        Some(a) => names_active_account(identifier, a) && !digest_is_readable(a.password_hash),
        None => false,
    }
}

/// The fault of the check of a password is none of the other errors of a
/// login.
proof fn verification_fault_is_no_other()
    ensures
        "Password verification failed"@ != "Token generation failed"@,
{
    reveal_strlit("Password verification failed");
    reveal_strlit("Token generation failed");
    assert("Password verification failed"@[0] == 'P' && "Token generation failed"@[0] == 'T');
}

/// The error of a login that does not end in a response. With accepted
/// credentials that is the token whose expiry no `i64` holds.
pub open spec fn login_error(accepted: Option<bool>) -> AppErrorView {
    match accepted {
        Some(false) => AppErrorView::InvalidCredentials,
        None => AppErrorView::Internal("Password verification failed"@),
        Some(true) => AppErrorView::Internal("Token generation failed"@),
    }
}

/// The view of an optional account.
pub open spec fn opt_user(account: Option<User>) -> Option<UserView> {
    match account {
        Some(a) => Some(a@),
        None => None,
    }
}

/// A digest in the format of `bcrypt`, at the cost that new digests are made
/// with. A login without an account is checked against it, so that a refusal
/// takes as long as one for a wrong password.
pub const DECOY_DIGEST: &'static str =
    "$2y$12$L6Bc/AlTQHyd9liGgGEZyOFLPHNgyxeEPfgYfBCVxJ7JIlwxyVU3u";

impl AuthService {
    /// The secret that tokens are signed with.
    pub closed spec fn secret(&self) -> Seq<char> {
        self.jwt_secret@
    }

    /// The lifetime of a token, in hours.
    pub closed spec fn expiry_hours(&self) -> i64 {
        self.jwt_expiry_hours
    }

    /// Reads `JWT_SECRET` and `JWT_EXPIRY_HOURS`. The default secret is not
    /// secret: a deployment has to set its own. The default lifetime is 24
    /// hours.
    pub fn new(env: &Environment) -> (service: AuthService)
        ensures
            service.secret() == text_setting(
                env@,
                "JWT_SECRET"@,
                "your-super-secret-jwt-key-change-in-production"@,
            ),
            service.expiry_hours() == int_setting(
                env@,
                "JWT_EXPIRY_HOURS"@,
                i64::MIN as int,
                i64::MAX as int,
                24,
            ),
    {
        AuthService {
            jwt_secret: env.text_or("JWT_SECRET", "your-super-secret-jwt-key-change-in-production"),
            jwt_expiry_hours: env.i64_or("JWT_EXPIRY_HOURS", 24),
        }
    }

    /// What is returned for an answer of the digest function.
    pub fn digest_or_fault(hashed: Result<String, bcrypt::BcryptError>) -> (r: AppResult<String>)
        ensures
            match hashed {
                Ok(digest) => r == Ok::<String, AppError>(digest),
                Err(_) => r matches Err(e) && e@ == AppErrorView::Internal(
                    "Password hashing failed"@,
                ),
            },
    {
        match hashed {
            Ok(digest) => Ok(digest),
            Err(_) => Err(AppError::Internal("Password hashing failed".to_owned())),
        }
    }

    /// What is returned for an answer of the digest check.
    pub fn match_or_fault(checked: Result<bool, bcrypt::BcryptError>) -> (r: AppResult<bool>)
        ensures
            match checked {
                Ok(same) => r == Ok::<bool, AppError>(same),
                Err(_) => r matches Err(e) && e@ == AppErrorView::Internal(
                    "Password verification failed"@,
                ),
            },
    {
        match checked {
            Ok(same) => Ok(same),
            Err(_) => Err(AppError::Internal("Password verification failed".to_owned())),
        }
    }

    /// A salted one-way digest of `password`. Each digest is well-formed and
    /// is one that `verify_password` accepts for `password`.
    pub fn hash_password(&self, password: &str) -> (r: AppResult<String>)
        ensures
            match r {
                Ok(digest) => digest_matches(password@, digest@) == Some(true)
                    && digest_is_readable(digest@),
                Err(e) => e@ == AppErrorView::Internal("Password hashing failed"@),
            },
    {
        AuthService::digest_or_fault(bcrypt_hash(password))
    }

    /// Whether `password` is the one that `hash` was made from. Fails on a
    /// malformed digest only, whatever the password.
    pub fn verify_password(&self, password: &str, hash: &str) -> (r: AppResult<bool>)
        ensures
            r is Ok <==> digest_is_readable(hash@),
            match digest_matches(password@, hash@) {
                Some(same) => r == Ok::<bool, AppError>(same),
                None => r matches Err(e) && e@ == AppErrorView::Internal(
                    "Password verification failed"@,
                ),
            },
    {
        AuthService::match_or_fault(bcrypt_verify(password, hash))
    }

    /// What is returned for an answer of the signing function.
    pub fn token_or_fault(signed: Result<String, jsonwebtoken::errors::Error>) -> (r: AppResult<
        String,
    >)
        ensures
            match signed {
                Ok(token) => r == Ok::<String, AppError>(token),
                Err(_) => r matches Err(e) && e@ == AppErrorView::Internal(
                    "Token generation failed"@,
                ),
            },
    {
        match signed {
            Ok(token) => Ok(token),
            Err(_) => Err(AppError::Internal("Token generation failed".to_owned())),
        }
    }

    /// The claims of a token for `user`, issued at `now` under the identifier
    /// `jti`; `None` where the expiry is no instant that `i64` holds.
    pub fn claims_for(&self, user: &User, now: i64, jti: &str) -> (r: Option<Claims>)
        ensures
            match r {
                Some(c) => expiry_fits(now, self.expiry_hours()) && c@ == issued_claims(
                    user@,
                    self.expiry_hours(),
                    now,
                    jti@,
                ),
                None => !expiry_fits(now, self.expiry_hours()),
            },
    {
        let exp: i128 = now as i128 + self.jwt_expiry_hours as i128 * 3600;
        if exp < i64::MIN as i128 || exp > i64::MAX as i128 {
            return None;
        }
        Some(
            Claims {
                sub: user.id,
                username: user.username.clone(),
                role: user.role,
                exp: exp as i64,
                iat: now,
                jti: jti.to_owned(),
            },
        )
    }

    /// The token for `user`, issued at `now` under the identifier `jti`, and
    /// its expiry. Fails where the expiry is no instant that `i64` holds, and
    /// there only.
    pub fn issue_at(&self, user: &User, now: i64, jti: &str) -> (r: AppResult<(String, i64)>)
        ensures
            r is Ok <==> expiry_fits(now, self.expiry_hours()),
            match r {
                Ok((token, expires_at)) => {
                    &&& expires_at == expiry(now, self.expiry_hours())
                    &&& carries(
                        token@,
                        self.secret(),
                        issued_claims(user@, self.expiry_hours(), now, jti@),
                    )
                },
                Err(e) => e@ == AppErrorView::Internal("Token generation failed"@),
            },
    {
        match self.claims_for(user, now, jti) {
            None => Err(AppError::Internal("Token generation failed".to_owned())),
            Some(claims) => {
                let object = claims.to_object();
                match AuthService::token_or_fault(sign_hs256(&object, self.jwt_secret.as_str())) {
                    Ok(token) => Ok((token, claims.exp)),
                    Err(e) => Err(e),
                }
            },
        }
    }

    /// The token for `user`, issued at `now` under the identifier `jti`.
    /// Fails where the expiry is no instant that `i64` holds, and there only.
    pub fn generate_token_at(&self, user: &User, now: i64, jti: &str) -> (r: AppResult<String>)
        ensures
            r is Ok <==> expiry_fits(now, self.expiry_hours()),
            match r {
                Ok(token) => carries(
                    token@,
                    self.secret(),
                    issued_claims(user@, self.expiry_hours(), now, jti@),
                ),
                Err(e) => e@ == AppErrorView::Internal("Token generation failed"@),
            },
    {
        match self.issue_at(user, now, jti) {
            Ok((token, _)) => Ok(token),
            Err(e) => Err(e),
        }
    }

    /// A token for `user`, issued now under a fresh identifier. Whatever the
    /// instant and the identifier, the token is signed with the secret and
    /// carries the id, the username and the role of `user` and an identifier
    /// of the usual shape, and it expires the configured number of hours
    /// after its issue. It fails only at an instant of the clock whose expiry
    /// no `i64` holds: with a lifetime that fits, never.
    pub fn generate_token(&self, user: &User) -> (r: AppResult<String>)
        ensures
            lifetime_fits(self.expiry_hours()) ==> r is Ok,
            match r {
                Ok(token) => exists|c: ClaimsView| #[trigger]
                    carries(token@, self.secret(), c) && freshly_issued(
                        c,
                        user@,
                        self.expiry_hours(),
                    ),
                Err(e) => e@ == AppErrorView::Internal("Token generation failed"@) && exists|
                    now: i64,
                | #[trigger] is_clock_instant(now) && !expiry_fits(now, self.expiry_hours()),
            },
    {
        let now = unix_now();
        let jti = fresh_id();
        let r = self.generate_token_at(user, now, jti.as_str());
        proof {
            if r is Ok {
                let c = issued_claims(user@, self.expiry_hours(), now, jti@);
                assert(carries(r->Ok_0@, self.secret(), c) && freshly_issued(
                    c,
                    user@,
                    self.expiry_hours(),
                ));
            } else {
                assert(is_clock_instant(now) && !expiry_fits(now, self.expiry_hours()));
            }
        }
        r
    }

    /// The claims that `token` is accepted with at the instant `now`.
    /// Refuses a token that is malformed, not signed with the secret, without
    /// claims, or expired. Neither revocation nor the state of the account
    /// is looked at.
    pub fn validate_token_at(&self, token: &str, now: i64) -> (r: AppResult<Claims>)
        ensures
            match r {
                Ok(c) => validated(token@, self.secret(), now) == Some(c@),
                Err(e) => e@ == AppErrorView::Unauthorized && validated(
                    token@,
                    self.secret(),
                    now,
                ) is None,
            },
    {
        match verify_hs256(token, self.jwt_secret.as_str()) {
            Err(_) => Err(AppError::Unauthorized),
            Ok(object) => match Claims::from_object(&object) {
                None => Err(AppError::Unauthorized),
                Some(c) => if now > c.exp {
                    Err(AppError::Unauthorized)
                } else {
                    Ok(c)
                },
            },
        }
    }

    /// The claims that `token` is accepted with now. Whatever the clock
    /// reads, a token that is accepted at the latest instant of the clock is
    /// accepted, and one that is refused at the earliest is refused: so is
    /// every token that is malformed, not signed with the secret or without
    /// claims.
    pub fn validate_token(&self, token: &str) -> (r: AppResult<Claims>)
        ensures
            validated(token@, self.secret(), CLOCK_MAX) is Some ==> r is Ok,
            validated(token@, self.secret(), CLOCK_MIN) is None ==> r is Err,
            match r {
                Ok(c) => exists|now: i64| #[trigger]
                    is_clock_instant(now) && validated(token@, self.secret(), now) == Some(c@),
                Err(e) => e@ == AppErrorView::Unauthorized && exists|now: i64| #[trigger]
                    is_clock_instant(now) && validated(token@, self.secret(), now) is None,
            },
    {
        let now = unix_now();
        let r = self.validate_token_at(token, now);
        proof {
            if r is Ok {
                assert(is_clock_instant(now) && validated(token@, self.secret(), now) == Some(
                    r->Ok_0@,
                ));
            } else {
                assert(is_clock_instant(now) && validated(token@, self.secret(), now) is None);
            }
        }
        r
    }

    /// The account to create for `input`, given what the hashing of its
    /// password came to: with a digest, the account with that digest and the
    /// role `User`; with a fault, that fault.
    pub fn account_or_fault(input: &RegisterInput, hashed: AppResult<String>) -> (r: AppResult<
        NewUser,
    >)
        ensures
            match hashed {
                Ok(digest) => r matches Ok(account) && account@ == new_account(input, digest@),
                Err(e) => r == Err::<NewUser, AppError>(e),
            },
    {
        match hashed {
            Err(e) => Err(e),
            Ok(password_hash) => Ok(
                NewUser {
                    username: input.username.clone(),
                    email: input.email.clone(),
                    password_hash,
                    display_name: input.display_name.clone(),
                    role: UserRole::User,
                },
            ),
        }
    }

    /// Decides a registration once the directory has said how many accounts
    /// hold the username or the email: with one or more it is a conflict and
    /// nothing is to be written; with none the account to create is handed
    /// back, with a digest of the password and the role `User`, unless the
    /// hashing fails.
    pub fn register_user(&self, input: &RegisterInput, existing: i64) -> (r: AppResult<NewUser>)
        ensures
            existing > 0 ==> fails_with(
                r,
                AppErrorView::Conflict("Username or email already exists"@),
            ),
            existing <= 0 ==> match r {
                Ok(account) => {
                    &&& account@ == new_account(input, account.password_hash@)
                    &&& digest_matches(input.password@, account.password_hash@) == Some(true)
                    &&& digest_is_readable(account.password_hash@)
                },
                Err(e) => e@ == AppErrorView::Internal("Password hashing failed"@),
            },
    {
        if existing > 0 {
            return Err(AppError::Conflict("Username or email already exists".to_owned()));
        }
        AuthService::account_or_fault(input, self.hash_password(input.password.as_str()))
    }

    /// The response for `user` with a token issued at `now` under the
    /// identifier `jti`. Fails where the expiry is no instant that `i64`
    /// holds, and there only.
    pub fn respond_at(&self, user: User, now: i64, jti: &str) -> (r: AppResult<AuthResponse>)
        ensures
            r is Ok <==> expiry_fits(now, self.expiry_hours()),
            match r {
                Ok(response) => {
                    &&& response.user@ == user@.profile()
                    &&& response.expires_at == expiry(now, self.expiry_hours())
                    &&& carries(
                        response.token@,
                        self.secret(),
                        issued_claims(user@, self.expiry_hours(), now, jti@),
                    )
                },
                Err(e) => e@ == AppErrorView::Internal("Token generation failed"@),
            },
    {
        match self.issue_at(&user, now, jti) {
            Err(e) => Err(e),
            Ok((token, expires_at)) => Ok(
                AuthResponse { user: UserProfile::from(user), token, expires_at },
            ),
        }
    }

    /// The response for an account that the directory has just created: its
    /// public profile and a token issued now under a fresh identifier. It
    /// fails only at an instant of the clock whose expiry no `i64` holds:
    /// with a lifetime that fits, never.
    pub fn respond(&self, user: User) -> (r: AppResult<AuthResponse>)
        ensures
            lifetime_fits(self.expiry_hours()) ==> r is Ok,
            match r {
                Ok(response) => {
                    &&& response.user@ == user@.profile()
                    &&& exists|c: ClaimsView| #[trigger]
                        carries(response.token@, self.secret(), c) && freshly_issued(
                            c,
                            user@,
                            self.expiry_hours(),
                        ) && c.exp == response.expires_at
                },
                Err(e) => e@ == AppErrorView::Internal("Token generation failed"@) && exists|
                    now: i64,
                | #[trigger] is_clock_instant(now) && !expiry_fits(now, self.expiry_hours()),
            },
    {
        let now = unix_now();
        let jti = fresh_id();
        let r = self.respond_at(user, now, jti.as_str());
        proof {
            if r is Ok {
                let c = issued_claims(user@, self.expiry_hours(), now, jti@);
                assert(carries(r->Ok_0.token@, self.secret(), c) && freshly_issued(
                    c,
                    user@,
                    self.expiry_hours(),
                ) && c.exp == r->Ok_0.expires_at);
            } else {
                assert(is_clock_instant(now) && !expiry_fits(now, self.expiry_hours()));
            }
        }
        r
    }

    /// Decides a login at the instant `now`. `account` is what the directory
    /// holds under the identifier, if anything. The login is refused with
    /// `InvalidCredentials` where there is no account, where the account is
    /// inactive or not the one that the identifier names, and where the
    /// password is wrong: the caller cannot tell which. With accepted
    /// credentials it succeeds, unless the expiry is no instant that `i64`
    /// holds.
    pub fn login_user_at(
        &self,
        input: &LoginInput,
        account: Option<User>,
        now: i64,
        jti: &str,
    ) -> (r: AppResult<AuthResponse>)
        ensures
            r is Ok <==> expiry_fits(now, self.expiry_hours()) && credentials_accepted(
                input.email_or_username@,
                input.password@,
                opt_user(account),
            ) == Some(true),
            fails_with(r, AppErrorView::Internal("Password verification failed"@))
                <==> digest_blocks_login(input.email_or_username@, opt_user(account)),
            match r {
                Ok(response) => {
                    &&& credentials_accepted(
                        input.email_or_username@,
                        input.password@,
                        opt_user(account),
                    ) == Some(true)
                    &&& account matches Some(user)
                    &&& response.user@ == user@.profile()
                    &&& response.expires_at == expiry(now, self.expiry_hours())
                    &&& carries(
                        response.token@,
                        self.secret(),
                        issued_claims(user@, self.expiry_hours(), now, jti@),
                    )
                },
                Err(e) => e@ == login_error(
                    credentials_accepted(
                        input.email_or_username@,
                        input.password@,
                        opt_user(account),
                    ),
                ),
            },
    {
        proof {
            verification_fault_is_no_other();
        }
        let password = input.password.as_str();
        let user = match account {
            None => {
                let _ = bcrypt_verify(password, DECOY_DIGEST);
                return Err(AppError::InvalidCredentials);
            },
            Some(user) => user,
        };
        let identifier = input.email_or_username.as_str();
        let named = user.is_active && (str_eq(user.email.as_str(), identifier) || str_eq(
            user.username.as_str(),
            identifier,
        ));
        if !named {
            let _ = bcrypt_verify(password, DECOY_DIGEST);
            return Err(AppError::InvalidCredentials);
        }
        match self.verify_password(password, user.password_hash.as_str()) {
            Err(e) => Err(e),
            Ok(false) => Err(AppError::InvalidCredentials),
            Ok(true) => self.respond_at(user, now, jti),
        }
    }

    /// Decides a login now, with a token under a fresh identifier. With
    /// accepted credentials it fails only at an instant of the clock whose
    /// expiry no `i64` holds: with a lifetime that fits, never.
    pub fn login_user(&self, input: &LoginInput, account: Option<User>) -> (r: AppResult<
        AuthResponse,
    >)
        ensures
            fails_with(r, AppErrorView::Internal("Password verification failed"@))
                <==> digest_blocks_login(input.email_or_username@, opt_user(account)),
            lifetime_fits(self.expiry_hours()) && credentials_accepted(
                input.email_or_username@,
                input.password@,
                opt_user(account),
            ) == Some(true) ==> r is Ok,
            r is Err && credentials_accepted(
                input.email_or_username@,
                input.password@,
                opt_user(account),
            ) == Some(true) ==> exists|now: i64| #[trigger]
                is_clock_instant(now) && !expiry_fits(now, self.expiry_hours()),
            match r {
                Ok(response) => {
                    &&& credentials_accepted(
                        input.email_or_username@,
                        input.password@,
                        opt_user(account),
                    ) == Some(true)
                    &&& account matches Some(user)
                    &&& response.user@ == user@.profile()
                    &&& exists|c: ClaimsView| #[trigger]
                        carries(response.token@, self.secret(), c) && freshly_issued(
                            c,
                            user@,
                            self.expiry_hours(),
                        ) && c.exp == response.expires_at
                },
                Err(e) => e@ == login_error(
                    credentials_accepted(
                        input.email_or_username@,
                        input.password@,
                        opt_user(account),
                    ),
                ),
            },
    {
        let now = unix_now();
        let jti = fresh_id();
        let ghost held = account;
        let r = self.login_user_at(input, account, now, jti.as_str());
        proof {
            if r is Ok {
                let c = issued_claims(held->Some_0@, self.expiry_hours(), now, jti@);
                assert(carries(r->Ok_0.token@, self.secret(), c) && freshly_issued(
                    c,
                    held->Some_0@,
                    self.expiry_hours(),
                ) && c.exp == r->Ok_0.expires_at);
            } else if credentials_accepted(
                input.email_or_username@,
                input.password@,
                opt_user(held),
            ) == Some(true) {
                assert(is_clock_instant(now) && !expiry_fits(now, self.expiry_hours()));
            }
        }
        r
    }

    /// The active account with the id `user_id`, where `account` is it.
    pub fn get_user_by_id(&self, user_id: i64, account: Option<User>) -> (r: AppResult<User>)
        ensures
            match r {
                Ok(user) => account == Some(user) && user.id == user_id && user.is_active,
                Err(e) => {
                    &&& e@ == AppErrorView::NotFound("User not found"@)
                    &&& account matches Some(user) ==> user.id != user_id || !user.is_active
                },
            },
    {
        match account {
            Some(user) => if user.id == user_id && user.is_active {
                Ok(user)
            } else {
                Err(AppError::NotFound("User not found".to_owned()))
            },
            None => Err(AppError::NotFound("User not found".to_owned())),
        }
    }

    /// Whether an account with the role `user_role` may do what asks for
    /// `required_role`.
    pub fn check_permission(&self, user_role: &UserRole, required_role: &UserRole) -> (r: bool)
        ensures
            r == user_role.permits(*required_role),
    {
        match required_role {
            UserRole::User => true,
            UserRole::Author => match user_role {
                UserRole::Author => true,
                UserRole::Admin => true,
                UserRole::User => false,
            },
            UserRole::Admin => match user_role {
                UserRole::Admin => true,
                _ => false,
            },
        }
    }
}

impl Default for AuthService {
    fn default() -> (service: AuthService)
        ensures
            service.secret() == "your-super-secret-jwt-key-change-in-production"@,
            service.expiry_hours() == 24,
    {
        AuthService::new(&Environment::empty())
    }
}

/// Where a login attempt stands.
#[derive(Debug, Clone, Copy, PartialEq, Eq, Structural)]
pub enum LoginState {
    Received,
    ResolvingAccount,
    VerifyingPassword,
    IssuingToken,
    Completed,
    Rejected,
}

/// What moves a login attempt on.
#[derive(Debug, Clone, Copy, PartialEq, Eq, Structural)]
pub enum LoginEvent {
    /// The credentials were handed to the directory.
    Submitted,
    /// The directory holds the active account that the identifier names.
    AccountFound,
    /// It holds no such account.
    AccountNotFound,
    /// The password is the one of the account.
    PasswordValid,
    /// It is another.
    PasswordInvalid,
    /// The token was signed.
    TokenIssued,
}

impl LoginState {
    /// The state after `event`; `None` where the state does not take the
    /// event.
    pub open spec fn after(self, event: LoginEvent) -> Option<LoginState> {
        match (self, event) {
            (LoginState::Received, LoginEvent::Submitted) => Some(LoginState::ResolvingAccount),
            (LoginState::ResolvingAccount, LoginEvent::AccountFound) => Some(
                LoginState::VerifyingPassword,
            ),
            (LoginState::ResolvingAccount, LoginEvent::AccountNotFound) => Some(
                LoginState::Rejected,
            ),
            (LoginState::VerifyingPassword, LoginEvent::PasswordValid) => Some(
                LoginState::IssuingToken,
            ),
            (LoginState::VerifyingPassword, LoginEvent::PasswordInvalid) => Some(
                LoginState::Rejected,
            ),
            (LoginState::IssuingToken, LoginEvent::TokenIssued) => Some(LoginState::Completed),
            _ => None,
        }
    }

    /// `Completed` and `Rejected` end an attempt.
    pub open spec fn is_terminal(self) -> bool {
        self == LoginState::Completed || self == LoginState::Rejected
    }

    /// The state after a run of events; `None` where one of them is not
    /// taken.
    pub open spec fn after_all(self, events: Seq<LoginEvent>) -> Option<LoginState>
        decreases events.len(),
    {
        if events.len() == 0 {
            Some(self)
        } else {
            match self.after(events[0]) {
                Some(next) => next.after_all(events.drop_first()),
                None => None,
            }
        }
    }

    pub fn next(self, event: LoginEvent) -> (r: Option<LoginState>)
        ensures
            r == self.after(event),
    {
        match (self, event) {
            (LoginState::Received, LoginEvent::Submitted) => Some(LoginState::ResolvingAccount),
            (LoginState::ResolvingAccount, LoginEvent::AccountFound) => Some(
                LoginState::VerifyingPassword,
            ),
            (LoginState::ResolvingAccount, LoginEvent::AccountNotFound) => Some(
                LoginState::Rejected,
            ),
            (LoginState::VerifyingPassword, LoginEvent::PasswordValid) => Some(
                LoginState::IssuingToken,
            ),
            (LoginState::VerifyingPassword, LoginEvent::PasswordInvalid) => Some(
                LoginState::Rejected,
            ),
            (LoginState::IssuingToken, LoginEvent::TokenIssued) => Some(LoginState::Completed),
            _ => None,
        }
    }
}

/// The events of a login whose credentials are accepted or refused, up to
/// the signing of the token.
pub open spec fn login_events(account: Option<UserView>, identifier: Seq<char>, accepted: bool) -> Seq<
    LoginEvent,
> {
    match account {
        Some(a) => if names_active_account(identifier, a) {
            if accepted {
                seq![
                    LoginEvent::Submitted,
                    LoginEvent::AccountFound,
                    LoginEvent::PasswordValid,
                    LoginEvent::TokenIssued,
                ]
            } else {
                seq![LoginEvent::Submitted, LoginEvent::AccountFound, LoginEvent::PasswordInvalid]
            }
        } else {
            seq![LoginEvent::Submitted, LoginEvent::AccountNotFound]
        },
        None => seq![LoginEvent::Submitted, LoginEvent::AccountNotFound],
    }
}

/// No event moves an attempt that has ended.
pub proof fn ended_attempts_stay(state: LoginState, event: LoginEvent)
    requires
        state.is_terminal(),
    ensures
        state.after(event) is None,
{
}

/// Every run of events that is taken from `Received` to `Rejected` is one of
/// the two refusals, and every such run to `Completed` is the one success.
pub proof fn attempts_end_one_of_three_ways(events: Seq<LoginEvent>)
    ensures
        LoginState::Received.after_all(events) == Some(LoginState::Rejected) ==> events
            == seq![LoginEvent::Submitted, LoginEvent::AccountNotFound] || events == seq![
            LoginEvent::Submitted,
            LoginEvent::AccountFound,
            LoginEvent::PasswordInvalid,
        ],
        LoginState::Received.after_all(events) == Some(LoginState::Completed) ==> events == seq![
            LoginEvent::Submitted,
            LoginEvent::AccountFound,
            LoginEvent::PasswordValid,
            LoginEvent::TokenIssued,
        ],
{
    reveal_with_fuel(LoginState::after_all, 6);
    let reached = LoginState::Received.after_all(events);
    if reached == Some(LoginState::Rejected) && events[1] != LoginEvent::AccountNotFound {
        assert(events =~= seq![
            LoginEvent::Submitted,
            LoginEvent::AccountFound,
            LoginEvent::PasswordInvalid,
        ]);
    }
    if reached == Some(LoginState::Completed) {
        assert(events =~= seq![
            LoginEvent::Submitted,
            LoginEvent::AccountFound,
            LoginEvent::PasswordValid,
            LoginEvent::TokenIssued,
        ]);
    }
}

/// The events of a login lead from `Received` to `Completed` where the
/// credentials are accepted and to `Rejected` where they are refused, and a
/// rejected attempt surfaces `InvalidCredentials` whatever led to it.
pub proof fn login_runs_to_its_end(
    identifier: Seq<char>,
    password: Seq<char>,
    account: Option<UserView>,
)
    ensures
        credentials_accepted(identifier, password, account) matches Some(accepted) ==> {
            &&& LoginState::Received.after_all(login_events(account, identifier, accepted))
                == Some(
                if accepted {
                    LoginState::Completed
                } else {
                    LoginState::Rejected
                },
            )
            &&& !accepted ==> login_error(credentials_accepted(identifier, password, account))
                == AppErrorView::InvalidCredentials
        },
{
    reveal_with_fuel(LoginState::after_all, 6);
}

/// A token that carries claims is accepted with exactly these claims at every
/// instant up to their expiry.
pub proof fn token_round_trip(token: Seq<char>, secret: Seq<char>, c: ClaimsView, now: i64)
    requires
        carries(token, secret, c),
        now <= c.exp,
    ensures
        validated(token, secret, now) == Some(c),
{
    claims_read_back(c);
}

/// A token issued for an account is accepted, up to its expiry, with the id
/// and the role of that account.
pub proof fn issued_token_names_its_account(
    token: Seq<char>,
    secret: Seq<char>,
    user: UserView,
    hours: i64,
    issued: i64,
    jti: Seq<char>,
    now: i64,
)
    requires
        i64::MIN <= expiry(issued, hours) <= i64::MAX,
        carries(token, secret, issued_claims(user, hours, issued, jti)),
        now <= expiry(issued, hours),
    ensures
        validated(token, secret, now) matches Some(c) && c.sub == user.id && c.role == user.role,
{
    token_round_trip(token, secret, issued_claims(user, hours, issued, jti), now);
}

/// After its expiry a token is refused, whatever it carries; up to the expiry
/// a token that carries claims is not.
pub proof fn expiry_is_strict(token: Seq<char>, secret: Seq<char>, c: ClaimsView, now: i64)
    requires
        carries(token, secret, c),
    ensures
        now > c.exp ==> validated(token, secret, now) is None,
        now <= c.exp ==> validated(token, secret, now) is Some,
{
    claims_read_back(c);
}

/// Two tokens signed with one secret that carry different claims differ.
pub proof fn tokens_differ_with_claims(
    first: Seq<char>,
    second: Seq<char>,
    secret: Seq<char>,
    a: ClaimsView,
    b: ClaimsView,
)
    requires
        carries(first, secret, a),
        carries(second, secret, b),
        a != b,
    ensures
        first != second,
{
    if first == second {
        claims_members_decide(a, b);
    }
}

/// Two tokens issued for one account at different instants, or under
/// different identifiers, differ.
pub proof fn reissued_token_differs(
    first: Seq<char>,
    second: Seq<char>,
    secret: Seq<char>,
    user: UserView,
    hours: i64,
    now_first: i64,
    jti_first: Seq<char>,
    now_second: i64,
    jti_second: Seq<char>,
)
    requires
        carries(first, secret, issued_claims(user, hours, now_first, jti_first)),
        carries(second, secret, issued_claims(user, hours, now_second, jti_second)),
        now_first != now_second || jti_first != jti_second,
    ensures
        first != second,
{
    tokens_differ_with_claims(
        first,
        second,
        secret,
        issued_claims(user, hours, now_first, jti_first),
        issued_claims(user, hours, now_second, jti_second),
    );
}

/// A login on an inactive account is refused as a login with a wrong
/// password on an active account is, and as one without an account is:
/// whatever the password given for the inactive account.
pub proof fn refusals_are_alike(
    identifier: Seq<char>,
    password: Seq<char>,
    inactive: UserView,
    other_identifier: Seq<char>,
    wrong_password: Seq<char>,
    active: UserView,
)
    requires
        !inactive.is_active,
        names_active_account(other_identifier, active),
        digest_matches(wrong_password, active.password_hash) == Some(false),
    ensures
        login_error(credentials_accepted(identifier, password, Some(inactive)))
            == AppErrorView::InvalidCredentials,
        login_error(credentials_accepted(other_identifier, wrong_password, Some(active)))
            == AppErrorView::InvalidCredentials,
        login_error(credentials_accepted(identifier, password, None))
            == AppErrorView::InvalidCredentials,
{
}

} // verus!
