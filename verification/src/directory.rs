//! The account directory as the core sees it: what its answers are, an
//! in-memory directory that gives these answers, and registration and login
//! carried out against it.
//!
//! A directory on a database is held to the same answers: `count_holding` is
//! what it counts before a registration, `active_by_identifier` what it finds
//! for a login, `active_by_id` what it finds for an id, and no username and no
//! email is held twice under any interleaving of requests.

use vstd::prelude::*;
use vstd::string::*;
use crate::auth::{carries, credentials_accepted, digest_blocks_login, expiry, expiry_fits,
    issued_claims, login_error, names_active_account, opt_user, validated, AuthService, NewUser,
    NewUserView};
use crate::error::{fails_with, AppError, AppErrorView, AppResult};
use crate::models::{clone_opt_text, AuthResponse, LoginInput, RegisterInput, User, UserRole,
    UserView};
use crate::text::str_eq;
use crate::error::validation::{validate_input, Validate};

verus! {

/// Number of accounts that hold `username` or `email`.
pub open spec fn count_holding(accounts: Seq<UserView>, username: Seq<char>, email: Seq<char>) -> nat
    decreases accounts.len(),
{
    if accounts.len() == 0 {
        0
    } else {
        count_holding(accounts.drop_last(), username, email) + (if accounts.last().username
            == username || accounts.last().email == email {
            1nat
        } else {
            0nat
        })
    }
}

/// The first active account whose email or username is `identifier`.
pub open spec fn active_by_identifier(accounts: Seq<UserView>, identifier: Seq<char>) -> Option<
    UserView,
>
    decreases accounts.len(),
{
    if accounts.len() == 0 {
        None
    } else if names_active_account(identifier, accounts[0]) {
        Some(accounts[0])
    } else {
        active_by_identifier(accounts.drop_first(), identifier)
    }
}

/// The first active account with the id `id`.
pub open spec fn active_by_id(accounts: Seq<UserView>, id: i64) -> Option<UserView>
    decreases accounts.len(),
{
    if accounts.len() == 0 {
        None
    } else if accounts[0].id == id && accounts[0].is_active {
        Some(accounts[0])
    } else {
        active_by_id(accounts.drop_first(), id)
    }
}

/// No id, no username and no email is held by two accounts, active or not.
pub open spec fn accounts_are_unique(accounts: Seq<UserView>) -> bool {
    forall|i: int, j: int|
        0 <= i < j < accounts.len() ==> {
            &&& (#[trigger] accounts[i]).id != (#[trigger] accounts[j]).id
            &&& accounts[i].username != accounts[j].username
            &&& accounts[i].email != accounts[j].email
        }
}

/// The account that is created from `account` under the id `id` at the
/// instant `now`: active, not verified, without bio and avatar.
pub open spec fn created(account: NewUserView, id: i64, now: i64) -> UserView {
    UserView {
        id,
        username: account.username,
        email: account.email,
        password_hash: account.password_hash,
        display_name: account.display_name,
        bio: None,
        avatar_url: None,
        role: account.role,
        email_verified: false,
        is_active: true,
        created_at: now,
        updated_at: now,
    }
}

/// Nobody holds the username or the email exactly where the count is zero.
pub proof fn none_holding(accounts: Seq<UserView>, username: Seq<char>, email: Seq<char>)
    ensures
        count_holding(accounts, username, email) == 0 <==> forall|i: int|
            0 <= i < accounts.len() ==> (#[trigger] accounts[i]).username != username
                && accounts[i].email != email,
    decreases accounts.len(),
{
    if accounts.len() > 0 {
        let rest = accounts.drop_last();
        none_holding(rest, username, email);
        if count_holding(accounts, username, email) == 0 {
            assert forall|i: int| 0 <= i < accounts.len() implies (#[trigger] accounts[i]).username
                != username && accounts[i].email != email by {
                if i < rest.len() {
                    assert(rest[i] == accounts[i]);
                }
            }
        } else if count_holding(rest, username, email) != 0 {
            let i = choose|i: int|
                0 <= i < rest.len() && !((#[trigger] rest[i]).username != username
                    && rest[i].email != email);
            assert(accounts[i] == rest[i]);
        }
    }
}

/// An account that is found for an identifier is active and is named by it.
pub proof fn found_account_is_named(accounts: Seq<UserView>, identifier: Seq<char>)
    ensures
        active_by_identifier(accounts, identifier) matches Some(a) ==> names_active_account(
            identifier,
            a,
        ) && accounts.contains(a),
        active_by_identifier(accounts, identifier) is None ==> forall|i: int|
            0 <= i < accounts.len() ==> !names_active_account(identifier, #[trigger] accounts[i]),
    decreases accounts.len(),
{
    if accounts.len() > 0 {
        let rest = accounts.drop_first();
        found_account_is_named(rest, identifier);
        if !names_active_account(identifier, accounts[0]) {
            if active_by_identifier(rest, identifier) is Some {
                let a = active_by_identifier(rest, identifier)->Some_0;
                let i = choose|i: int| 0 <= i < rest.len() && rest[i] == a;
                assert(accounts[i + 1] == a);
            } else {
                assert forall|i: int| 0 <= i < accounts.len() implies !names_active_account(
                    identifier,
                    #[trigger] accounts[i],
                ) by {
                    if i > 0 {
                        assert(rest[i - 1] == accounts[i]);
                    }
                }
            }
        }
    }
}

/// A copy of an account.
pub fn copy_user(user: &User) -> (copy: User)
    ensures
        copy@ == user@,
{
    User {
        id: user.id,
        username: user.username.clone(),
        email: user.email.clone(),
        password_hash: user.password_hash.clone(),
        display_name: user.display_name.clone(),
        bio: clone_opt_text(&user.bio),
        avatar_url: clone_opt_text(&user.avatar_url),
        role: user.role,
        email_verified: user.email_verified,
        is_active: user.is_active,
        created_at: user.created_at,
        updated_at: user.updated_at,
    }
}

/// The views of a list of accounts.
pub open spec fn users_view(accounts: Seq<User>) -> Seq<UserView> {
    Seq::new(accounts.len(), |i: int| accounts[i]@)
}

/// A directory that lives in memory. Ids are given in rising order from 1.
#[derive(Debug)]
pub struct AccountDirectory {
    accounts: Vec<User>,
    next_id: i64,
}

impl View for AccountDirectory {
    type V = Seq<UserView>;

    closed spec fn view(&self) -> Seq<UserView> {
        users_view(self.accounts@)
    }
}

impl AccountDirectory {
    #[verifier::type_invariant]
    spec fn consistent(&self) -> bool {
        &&& accounts_are_unique(self@)
        &&& forall|i: int| 0 <= i < self@.len() ==> (#[trigger] self@[i]).id < self.next_id
    }

    /// The id that the next account gets.
    pub closed spec fn next_id(&self) -> i64 {
        self.next_id
    }

    /// A directory without accounts, whose first account gets the id 1.
    pub fn new() -> (directory: AccountDirectory)
        ensures
            directory@ == Seq::<UserView>::empty(),
            directory.next_id() == 1,
    {
        let directory = AccountDirectory { accounts: Vec::new(), next_id: 1 };
        directory
    }

    /// Number of accounts.
    pub fn len(&self) -> (n: usize)
        ensures
            n == self@.len(),
            accounts_are_unique(self@),
    {
        proof {
            use_type_invariant(self);
        }
        self.accounts.len()
    }

    /// Number of accounts that hold `username` or `email`. The comparison is
    /// exact: letters in another case make another name.
    pub fn count_existing(&self, username: &str, email: &str) -> (n: usize)
        ensures
            n == count_holding(self@, username@, email@),
    {
        let total: usize = self.accounts.len();
        let mut n: usize = 0;
        let mut i: usize = 0;
        while i < total
            invariant
                i <= total,
                total == self.accounts@.len(),
                total == self@.len(),
                n <= i,
                n == count_holding(self@.take(i as int), username@, email@),
            decreases total - i,
        {
            let account = &self.accounts[i];
            proof {
                let next = self@.take(i + 1);
                assert(next.drop_last() =~= self@.take(i as int));
            }
            if str_eq(account.username.as_str(), username) || str_eq(
                account.email.as_str(),
                email,
            ) {
                n += 1;
            }
            i += 1;
        }
        assert(self@.take(total as int) =~= self@);
        n
    }

    /// The active account whose email or username is `identifier`.
    pub fn find_active(&self, identifier: &str) -> (r: Option<User>)
        ensures
            opt_user(r) == active_by_identifier(self@, identifier@),
    {
        let total: usize = self.accounts.len();
        let mut i: usize = 0;
        assert(self@.skip(0) =~= self@);
        while i < total
            invariant
                i <= total,
                total == self.accounts@.len(),
                total == self@.len(),
                active_by_identifier(self@, identifier@) == active_by_identifier(
                    self@.skip(i as int),
                    identifier@,
                ),
            decreases total - i,
        {
            let account = &self.accounts[i];
            proof {
                let rest = self@.skip(i as int);
                assert(rest.drop_first() =~= self@.skip(i + 1));
            }
            if account.is_active && (str_eq(account.email.as_str(), identifier) || str_eq(
                account.username.as_str(),
                identifier,
            )) {
                return Some(copy_user(account));
            }
            i += 1;
        }
        None
    }

    /// The active account with the id `id`.
    pub fn find_active_by_id(&self, id: i64) -> (r: Option<User>)
        ensures
            opt_user(r) == active_by_id(self@, id),
    {
        let total: usize = self.accounts.len();
        let mut i: usize = 0;
        assert(self@.skip(0) =~= self@);
        while i < total
            invariant
                i <= total,
                total == self.accounts@.len(),
                total == self@.len(),
                active_by_id(self@, id) == active_by_id(self@.skip(i as int), id),
            decreases total - i,
        {
            let account = &self.accounts[i];
            proof {
                let rest = self@.skip(i as int);
                assert(rest.drop_first() =~= self@.skip(i + 1));
            }
            if account.id == id && account.is_active {
                return Some(copy_user(account));
            }
            i += 1;
        }
        None
    }

    /// Creates an account at the instant `now` under the next id, unless its
    /// username or its email is held already, or the ids are used up: then
    /// nothing changes. This check stands whatever was counted before.
    pub fn insert(&mut self, account: NewUser, now: i64) -> (r: AppResult<User>)
        ensures
            accounts_are_unique(final(self)@),
            match r {
                Ok(user) => {
                    &&& count_holding(old(self)@, account.username@, account.email@) == 0
                    &&& old(self).next_id() < i64::MAX
                    &&& final(self)@ == old(self)@.push(user@)
                    &&& user@ == created(account@, old(self).next_id(), now)
                    &&& final(self).next_id() == old(self).next_id() + 1
                },
                Err(e) => {
                    &&& final(self)@ == old(self)@
                    &&& final(self).next_id() == old(self).next_id()
                    &&& if count_holding(old(self)@, account.username@, account.email@) > 0 {
                        e@ == AppErrorView::Conflict("Username or email already exists"@)
                    } else {
                        old(self).next_id() == i64::MAX && e@ == AppErrorView::Database(
                            "no id is left for a new account"@,
                        )
                    }
                },
            },
    {
        proof {
            use_type_invariant(&*self);
        }
        if self.count_existing(account.username.as_str(), account.email.as_str()) > 0 {
            return Err(AppError::Conflict("Username or email already exists".to_owned()));
        }
        if self.next_id == i64::MAX {
            return Err(AppError::Database("no id is left for a new account".to_owned()));
        }
        let id = self.next_id;
        let user = User {
            id,
            username: account.username,
            email: account.email,
            password_hash: account.password_hash,
            display_name: account.display_name,
            bio: None,
            avatar_url: None,
            role: account.role,
            email_verified: false,
            is_active: true,
            created_at: now,
            updated_at: now,
        };
        let copy = copy_user(&user);
        let ghost before = self@;
        proof {
            none_holding(before, account.username@, account.email@);
        }
        let mut accounts: Vec<User> = Vec::new();
        std::mem::swap(&mut self.accounts, &mut accounts);
        accounts.push(user);
        proof {
            let after = users_view(accounts@);
            assert forall|i: int, j: int| 0 <= i < j < after.len() implies {
                &&& (#[trigger] after[i]).id != (#[trigger] after[j]).id
                &&& after[i].username != after[j].username
                &&& after[i].email != after[j].email
            } by {
                assert(after[i] == before[i]);
                if j < before.len() {
                    assert(after[j] == before[j]);
                }
            }
            assert forall|i: int| 0 <= i < after.len() implies (#[trigger] after[i]).id < id
                + 1 by {
                if i < before.len() {
                    assert(after[i] == before[i]);
                }
            }
        }
        self.next_id = id + 1;
        self.accounts = accounts;
        Ok(copy)
    }
}

/// A count as the directory reports it; counts beyond `i64` are reported as
/// the largest.
pub fn count_as_i64(n: usize) -> (r: i64)
    ensures
        r == (if n <= i64::MAX {
            n as int
        } else {
            i64::MAX as int
        }),
{
    if n as u64 <= i64::MAX as u64 {
        n as i64
    } else {
        i64::MAX
    }
}

/// A registration against a directory, at the instant `now`, with a token
/// under the identifier `jti`. An input of the wrong shape and a username or
/// email that is held already end it before anything is written. Past these
/// two it fails in three ways only: the hashing of the password fails, no id
/// is left, or the expiry of the token is no instant that `i64` holds; in the
/// last case the account stands all the same.
pub fn register(
    service: &AuthService,
    directory: &mut AccountDirectory,
    input: &RegisterInput,
    now: i64,
    jti: &str,
) -> (r: AppResult<AuthResponse>)
    ensures
        accounts_are_unique(final(directory)@),
        final(directory).next_id() == old(directory).next_id() + final(directory)@.len() - old(
            directory,
        )@.len(),
        !input.is_valid() ==> final(directory)@ == old(directory)@ && fails_with(
            r,
            AppErrorView::Validation(input.fault_text()),
        ),
        input.is_valid() && count_holding(old(directory)@, input.username@, input.email@) > 0
            ==> final(directory)@ == old(directory)@ && fails_with(
            r,
            AppErrorView::Conflict("Username or email already exists"@),
        ),
        match r {
            Ok(response) => {
                &&& input.is_valid()
                &&& count_holding(old(directory)@, input.username@, input.email@) == 0
                &&& final(directory)@.len() == old(directory)@.len() + 1
                &&& final(directory)@.drop_last() == old(directory)@
                &&& final(directory)@.last().id == old(directory).next_id()
                &&& registered(final(directory)@.last(), input, now)
                &&& response.user@ == final(directory)@.last().profile()
                &&& response.expires_at == expiry(now, service.expiry_hours())
                &&& carries(
                    response.token@,
                    service.secret(),
                    issued_claims(final(directory)@.last(), service.expiry_hours(), now, jti@),
                )
            },
            Err(e) => input.is_valid() && count_holding(
                old(directory)@,
                input.username@,
                input.email@,
            ) == 0 ==> {
                ||| final(directory)@ == old(directory)@ && e@ == AppErrorView::Internal(
                    "Password hashing failed"@,
                )
                ||| final(directory)@ == old(directory)@ && old(directory).next_id() == i64::MAX
                    && e@ == AppErrorView::Database("no id is left for a new account"@)
                ||| final(directory)@.len() == old(directory)@.len() + 1 && !expiry_fits(
                    now,
                    service.expiry_hours(),
                ) && e@ == AppErrorView::Internal("Token generation failed"@)
            },
        },
        r is Ok ==> old(directory).next_id() < i64::MAX && expiry_fits(
            now,
            service.expiry_hours(),
        ),
{
    match validate_input(input) {
        Err(e) => {
            proof {
                use_type_invariant(&*directory);
            }
            return Err(e);
        },
        Ok(()) => {},
    }
    let existing = directory.count_existing(input.username.as_str(), input.email.as_str());
    let account = match service.register_user(input, count_as_i64(existing)) {
        Err(e) => {
            proof {
                use_type_invariant(&*directory);
            }
            return Err(e);
        },
        Ok(account) => account,
    };
    let user = match directory.insert(account, now) {
        Err(e) => {
            return Err(e);
        },
        Ok(user) => user,
    };
    service.respond_at(user, now, jti)
}

/// The account `account` is the one that a registration with `input` at the
/// instant `now` creates: it holds what was put in and a digest of the
/// password, has the role `User`, and is active.
pub open spec fn registered(account: UserView, input: &RegisterInput, now: i64) -> bool {
    &&& account.username == input.username@
    &&& account.email == input.email@
    &&& account.display_name == input.display_name@
    &&& crate::password::digest_matches(input.password@, account.password_hash) == Some(true)
    &&& crate::password::digest_is_readable(account.password_hash)
    &&& account.role == UserRole::User
    &&& account.is_active
    &&& !account.email_verified
    &&& account.bio is None
    &&& account.avatar_url is None
    &&& account.created_at == now
    &&& account.updated_at == now
}

/// A login against a directory, at the instant `now`, with a token under the
/// identifier `jti`. It succeeds where the input has the right shape, the
/// directory holds an active account under the identifier, the password is
/// the one of that account and the expiry is an instant that `i64` holds, and
/// there only.
pub fn login(
    service: &AuthService,
    directory: &AccountDirectory,
    input: &LoginInput,
    now: i64,
    jti: &str,
) -> (r: AppResult<AuthResponse>)
    ensures
        r is Ok <==> input.is_valid() && expiry_fits(now, service.expiry_hours())
            && credentials_accepted(
            input.email_or_username@,
            input.password@,
            active_by_identifier(directory@, input.email_or_username@),
        ) == Some(true),
        !input.is_valid() ==> fails_with(r, AppErrorView::Validation(input.fault_text())),
        input.is_valid() ==> (fails_with(
            r,
            AppErrorView::Internal("Password verification failed"@),
        ) <==> digest_blocks_login(
            input.email_or_username@,
            active_by_identifier(directory@, input.email_or_username@),
        )),
        input.is_valid() ==> match r {
            Ok(response) => {
                &&& active_by_identifier(directory@, input.email_or_username@) matches Some(
                    account,
                )
                &&& crate::password::digest_matches(input.password@, account.password_hash)
                    == Some(true)
                &&& response.user@ == account.profile()
                &&& response.expires_at == expiry(now, service.expiry_hours())
                &&& carries(
                    response.token@,
                    service.secret(),
                    issued_claims(account, service.expiry_hours(), now, jti@),
                )
            },
            Err(e) => e@ == login_error(
                credentials_accepted(
                    input.email_or_username@,
                    input.password@,
                    active_by_identifier(directory@, input.email_or_username@),
                ),
            ),
        },
{
    match validate_input(input) {
        Err(e) => {
            return Err(e);
        },
        Ok(()) => {},
    }
    let account = directory.find_active(input.email_or_username.as_str());
    proof {
        found_account_is_named(directory@, input.email_or_username@);
    }
    service.login_user_at(input, account, now, jti)
}

/// An account that is found for an id is active and has that id.
pub proof fn found_account_has_the_id(accounts: Seq<UserView>, id: i64)
    ensures
        active_by_id(accounts, id) matches Some(a) ==> a.id == id && a.is_active,
    decreases accounts.len(),
{
    if accounts.len() > 0 {
        found_account_has_the_id(accounts.drop_first(), id);
    }
}

/// The account that a request with the bearer token `token` is made for, at
/// the instant `now`: the active account that the token names.
pub fn current_user(service: &AuthService, directory: &AccountDirectory, token: &str, now: i64) -> (r:
    AppResult<User>)
    ensures
        match validated(token@, service.secret(), now) {
            None => fails_with(r, AppErrorView::Unauthorized),
            Some(claims) => match active_by_id(directory@, claims.sub) {
                None => fails_with(r, AppErrorView::NotFound("User not found"@)),
                Some(account) => r matches Ok(user) && user@ == account,
            },
        },
{
    let claims = match service.validate_token_at(token, now) {
        Err(e) => {
            return Err(e);
        },
        Ok(claims) => claims,
    };
    let account = directory.find_active_by_id(claims.sub);
    proof {
        found_account_has_the_id(directory@, claims.sub);
    }
    service.get_user_by_id(claims.sub, account)
}

/// A login that names only inactive accounts is refused as one with a wrong
/// password is: with `InvalidCredentials`, whatever the password.
pub proof fn inactive_accounts_cannot_log_in(
    accounts: Seq<UserView>,
    identifier: Seq<char>,
    password: Seq<char>,
)
    requires
        forall|i: int|
            0 <= i < accounts.len() && ((#[trigger] accounts[i]).email == identifier
                || accounts[i].username == identifier) ==> !accounts[i].is_active,
    ensures
        login_error(
            credentials_accepted(identifier, password, active_by_identifier(accounts, identifier)),
        ) == AppErrorView::InvalidCredentials,
{
    found_account_is_named(accounts, identifier);
    if active_by_identifier(accounts, identifier) is Some {
        let a = active_by_identifier(accounts, identifier)->Some_0;
        let i = choose|i: int| 0 <= i < accounts.len() && accounts[i] == a;
    }
}

/// A registration under a username that an account holds already, letter for
/// letter, counts at least that account.
pub proof fn held_username_is_counted(
    accounts: Seq<UserView>,
    holder: int,
    username: Seq<char>,
    email: Seq<char>,
)
    requires
        0 <= holder < accounts.len(),
        accounts[holder].username == username,
    ensures
        count_holding(accounts, username, email) > 0,
{
    none_holding(accounts, username, email);
}

} // verus!
