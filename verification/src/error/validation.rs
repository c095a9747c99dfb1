//! The shape that inputs must have, and the text that says what is wrong.
//!
//! The text lists the fields at fault in the order of their declaration, as
//! `field: message, message; field: message`.

use vstd::prelude::*;
use vstd::string::*;
use crate::error::{AppError, AppErrorView};
use crate::models::{ChangePasswordInput, CreatePostInput, LoginInput, RegisterInput,
    UpdatePostInput, UpdateProfileInput, opt_text};
use crate::text::{chars_of, str_eq};

verus! {

/// Whether `validator::validate_email` accepts the text as an email address.
pub uninterp spec fn email_is_valid(s: Seq<char>) -> bool;

/// Whether `validator::validate_url` accepts the text as a URL.
pub uninterp spec fn url_is_valid(s: Seq<char>) -> bool;

/// `validator::validate_email`: a function of the text alone.
#[verifier::external_body]
pub(crate) fn check_email(s: &str) -> (r: bool)
    ensures
        r == email_is_valid(s@),
{
    validator::validate_email(s)
}

/// `validator::validate_url`: a function of the text alone.
#[verifier::external_body]
pub(crate) fn check_url(s: &str) -> (r: bool)
    ensures
        r == url_is_valid(s@),
{
    validator::validate_url(s)
}

/// The text has from `min` to `max` characters.
pub open spec fn length_within(s: Seq<char>, min: nat, max: nat) -> bool {
    min <= s.len() <= max
}

/// Small letters, digits and the hyphen.
pub open spec fn is_slug_char(c: char) -> bool {
    ('a' <= c <= 'z') || ('0' <= c <= '9') || c == '-'
}

/// Letters, digits and the underscore.
pub open spec fn is_username_char(c: char) -> bool {
    ('a' <= c <= 'z') || ('A' <= c <= 'Z') || ('0' <= c <= '9') || c == '_'
}

/// One or more characters, all of them small letters, digits or hyphens.
pub open spec fn is_slug(s: Seq<char>) -> bool {
    s.len() > 0 && forall|i: int| 0 <= i < s.len() ==> is_slug_char(#[trigger] s[i])
}

/// One or more characters, all of them letters, digits or underscores.
pub open spec fn is_username(s: Seq<char>) -> bool {
    s.len() > 0 && forall|i: int| 0 <= i < s.len() ==> is_username_char(#[trigger] s[i])
}

pub fn check_length(s: &str, min: usize, max: usize) -> (r: bool)
    ensures
        r == length_within(s@, min as nat, max as nat),
{
    let n = s.unicode_len();
    min <= n && n <= max
}

pub fn check_min_length(s: &str, min: usize) -> (r: bool)
    ensures
        r == (s@.len() >= min),
{
    s.unicode_len() >= min
}

pub fn check_slug(s: &str) -> (r: bool)
    ensures
        r == is_slug(s@),
{
    let chars = chars_of(s);
    let n: usize = chars.len();
    if n == 0 {
        return false;
    }
    let mut i: usize = 0;
    while i < n
        invariant
            i <= n,
            n == chars@.len(),
            chars@ == s@,
            forall|j: int| 0 <= j < i ==> is_slug_char(#[trigger] chars@[j]),
        decreases n - i,
    {
        let c = chars[i];
        if !(('a' <= c && c <= 'z') || ('0' <= c && c <= '9') || c == '-') {
            return false;
        }
        i += 1;
    }
    true
}

pub fn check_username(s: &str) -> (r: bool)
    ensures
        r == is_username(s@),
{
    let chars = chars_of(s);
    let n: usize = chars.len();
    if n == 0 {
        return false;
    }
    let mut i: usize = 0;
    while i < n
        invariant
            i <= n,
            n == chars@.len(),
            chars@ == s@,
            forall|j: int| 0 <= j < i ==> is_username_char(#[trigger] chars@[j]),
        decreases n - i,
    {
        let c = chars[i];
        if !(('a' <= c && c <= 'z') || ('A' <= c && c <= 'Z') || ('0' <= c && c <= '9') || c
            == '_') {
            return false;
        }
        i += 1;
    }
    true
}

/// `parts` with `sep` between them.
pub open spec fn joined(parts: Seq<Seq<char>>, sep: Seq<char>) -> Seq<char>
    decreases parts.len(),
{
    if parts.len() == 0 {
        Seq::empty()
    } else if parts.len() == 1 {
        parts[0]
    } else {
        joined(parts.drop_last(), sep) + sep + parts.last()
    }
}

/// `message` if `failed`, else nothing.
pub open spec fn fault(failed: bool, message: Seq<char>) -> Seq<Seq<char>> {
    if failed {
        seq![message]
    } else {
        Seq::empty()
    }
}

/// `text` with what is wrong in `field`, if anything is.
pub open spec fn with_field(text: Seq<char>, field: Seq<char>, faults: Seq<Seq<char>>) -> Seq<
    char,
> {
    if faults.len() == 0 {
        text
    } else if text.len() == 0 {
        field + ": "@ + joined(faults, ", "@)
    } else {
        text + "; "@ + field + ": "@ + joined(faults, ", "@)
    }
}

/// The views of a list of texts.
pub open spec fn texts_view(v: Seq<&'static str>) -> Seq<Seq<char>> {
    Seq::new(v.len(), |i: int| v[i]@)
}

/// What is wrong with an input, field by field, as it is found.
pub struct FaultText {
    pub text: String,
}

impl FaultText {
    pub fn new() -> (t: FaultText)
        ensures
            t.text@ == Seq::<char>::empty(),
    {
        FaultText { text: String::new() }
    }

    /// Notes what is wrong in `field`.
    pub fn field(&mut self, field: &str, faults: &Vec<&'static str>)
        ensures
            final(self).text@ == with_field(old(self).text@, field@, texts_view(faults@)),
            old(self).text@.len() > 0 ==> final(self).text@.len() > 0,
            faults@.len() > 0 ==> final(self).text@.len() > 0,
    {
        let n: usize = faults.len();
        if n == 0 {
            return ;
        }
        let ghost all = texts_view(faults@);
        proof {
            reveal_strlit(": ");
        }
        if self.text.as_str().unicode_len() > 0 {
            self.text.append("; ");
        }
        self.text.append(field);
        self.text.append(": ");
        let ghost head = self.text@;
        self.text.append(faults[0]);
        let mut i: usize = 1;
        while i < n
            invariant
                1 <= i <= n,
                n == faults@.len(),
                all == texts_view(faults@),
                self.text@ == head + joined(all.take(i as int), ", "@),
            decreases n - i,
        {
            self.text.append(", ");
            self.text.append(faults[i]);
            proof {
                let next = all.take(i + 1);
                assert(next.drop_last() =~= all.take(i as int));
            }
            i += 1;
        }
        proof {
            assert(all.take(n as int) =~= all);
        }
    }

    /// `Ok` if nothing was noted, else the text.
    pub fn finish(self) -> (r: Result<(), String>)
        ensures
            match r {
                Ok(_) => self.text@.len() == 0,
                Err(text) => text@ == self.text@ && text@.len() > 0,
            },
    {
        if self.text.as_str().unicode_len() == 0 {
            Ok(())
        } else {
            Err(self.text)
        }
    }
}

/// An input whose shape can be checked.
pub trait Validate {
    /// Every rule holds.
    spec fn is_valid(&self) -> bool;

    /// The text that says which rules do not hold; empty if all do.
    spec fn fault_text(&self) -> Seq<char>;

    fn validate(&self) -> (r: Result<(), String>)
        ensures
            match r {
                Ok(_) => self.is_valid(),
                Err(text) => !self.is_valid() && text@ == self.fault_text(),
            },
    ;
}

/// Checks the shape of `input`.
pub fn validate_input<T: Validate>(input: &T) -> (r: Result<(), AppError>)
    ensures
        match r {
            Ok(_) => input.is_valid(),
            Err(e) => !input.is_valid() && e@ == AppErrorView::Validation(input.fault_text()),
        },
{
    match input.validate() {
        Ok(()) => Ok(()),
        Err(text) => Err(AppError::Validation(text)),
    }
}

/// The one fault of a field with one rule.
fn one_fault(failed: bool, message: &'static str) -> (v: Vec<&'static str>)
    ensures
        texts_view(v@) == fault(failed, message@),
{
    let mut v: Vec<&'static str> = Vec::new();
    if failed {
        v.push(message);
    }
    v
}

/// The faults of a field with two rules.
fn two_faults(
    first_failed: bool,
    first: &'static str,
    second_failed: bool,
    second: &'static str,
) -> (v: Vec<&'static str>)
    ensures
        texts_view(v@) == fault(first_failed, first@) + fault(second_failed, second@),
{
    let mut v: Vec<&'static str> = Vec::new();
    if first_failed {
        v.push(first);
    }
    if second_failed {
        v.push(second);
    }
    v
}

/// The length rule on an optional text: it holds where there is no text.
pub open spec fn opt_length_within(o: Option<Seq<char>>, min: nat, max: nat) -> bool {
    match o {
        Some(s) => length_within(s, min, max),
        None => true,
    }
}

fn check_opt_length(o: &Option<String>, min: usize, max: usize) -> (r: bool)
    ensures
        r == opt_length_within(opt_text(*o), min as nat, max as nat),
{
    match o {
        Some(s) => check_length(s.as_str(), min, max),
        None => true,
    }
}

impl Validate for LoginInput {
    open spec fn is_valid(&self) -> bool {
        self.email_or_username@.len() >= 1 && self.password@.len() >= 1
    }

    open spec fn fault_text(&self) -> Seq<char> {
        let t = Seq::<char>::empty();
        let t = with_field(
            t,
            "email_or_username"@,
            fault(self.email_or_username@.len() < 1, "Email or username is required"@),
        );
        with_field(t, "password"@, fault(self.password@.len() < 1, "Password is required"@))
    }

    fn validate(&self) -> (r: Result<(), String>) {
        let mut t = FaultText::new();
        t.field(
            "email_or_username",
            &one_fault(
                !check_min_length(self.email_or_username.as_str(), 1),
                "Email or username is required",
            ),
        );
        t.field(
            "password",
            &one_fault(!check_min_length(self.password.as_str(), 1), "Password is required"),
        );
        t.finish()
    }
}

impl Validate for RegisterInput {
    open spec fn is_valid(&self) -> bool {
        &&& length_within(self.username@, 3, 50)
        &&& is_username(self.username@)
        &&& email_is_valid(self.email@)
        &&& self.password@.len() >= 8
        &&& self.confirm_password@ == self.password@
        &&& length_within(self.display_name@, 1, 100)
    }

    open spec fn fault_text(&self) -> Seq<char> {
        let t = Seq::<char>::empty();
        let t = with_field(
            t,
            "username"@,
            fault(!length_within(self.username@, 3, 50), "Username must be 3-50 characters"@)
                + fault(
                !is_username(self.username@),
                "Username can only contain letters, numbers, and underscores"@,
            ),
        );
        let t = with_field(
            t,
            "email"@,
            fault(!email_is_valid(self.email@), "Invalid email address"@),
        );
        let t = with_field(
            t,
            "password"@,
            fault(self.password@.len() < 8, "Password must be at least 8 characters"@),
        );
        let t = with_field(
            t,
            "confirm_password"@,
            fault(self.confirm_password@ != self.password@, "Passwords do not match"@),
        );
        with_field(
            t,
            "display_name"@,
            fault(
                !length_within(self.display_name@, 1, 100),
                "Display name must be 1-100 characters"@,
            ),
        )
    }

    fn validate(&self) -> (r: Result<(), String>) {
        let mut t = FaultText::new();
        t.field(
            "username",
            &two_faults(
                !check_length(self.username.as_str(), 3, 50),
                "Username must be 3-50 characters",
                !check_username(self.username.as_str()),
                "Username can only contain letters, numbers, and underscores",
            ),
        );
        t.field("email", &one_fault(!check_email(self.email.as_str()), "Invalid email address"));
        t.field(
            "password",
            &one_fault(
                !check_min_length(self.password.as_str(), 8),
                "Password must be at least 8 characters",
            ),
        );
        t.field(
            "confirm_password",
            &one_fault(
                !str_eq(self.confirm_password.as_str(), self.password.as_str()),
                "Passwords do not match",
            ),
        );
        t.field(
            "display_name",
            &one_fault(
                !check_length(self.display_name.as_str(), 1, 100),
                "Display name must be 1-100 characters",
            ),
        );
        t.finish()
    }
}

/// The URL rule on an optional text: it holds where there is no text.
pub open spec fn opt_url_is_valid(o: Option<Seq<char>>) -> bool {
    match o {
        Some(s) => url_is_valid(s),
        None => true,
    }
}

fn check_opt_url(o: &Option<String>) -> (r: bool)
    ensures
        r == opt_url_is_valid(opt_text(*o)),
{
    match o {
        Some(s) => check_url(s.as_str()),
        None => true,
    }
}

impl Validate for UpdateProfileInput {
    open spec fn is_valid(&self) -> bool {
        &&& opt_length_within(opt_text(self.display_name), 1, 100)
        &&& opt_length_within(opt_text(self.bio), 0, 500)
        &&& opt_url_is_valid(opt_text(self.avatar_url))
    }

    open spec fn fault_text(&self) -> Seq<char> {
        let t = Seq::<char>::empty();
        let t = with_field(
            t,
            "display_name"@,
            fault(
                !opt_length_within(opt_text(self.display_name), 1, 100),
                "Display name must be 1-100 characters"@,
            ),
        );
        let t = with_field(
            t,
            "bio"@,
            fault(
                !opt_length_within(opt_text(self.bio), 0, 500),
                "Bio must be less than 500 characters"@,
            ),
        );
        with_field(
            t,
            "avatar_url"@,
            fault(!opt_url_is_valid(opt_text(self.avatar_url)), "Invalid avatar URL"@),
        )
    }

    fn validate(&self) -> (r: Result<(), String>) {
        let mut t = FaultText::new();
        t.field(
            "display_name",
            &one_fault(
                !check_opt_length(&self.display_name, 1, 100),
                "Display name must be 1-100 characters",
            ),
        );
        t.field(
            "bio",
            &one_fault(!check_opt_length(&self.bio, 0, 500), "Bio must be less than 500 characters"),
        );
        t.field("avatar_url", &one_fault(!check_opt_url(&self.avatar_url), "Invalid avatar URL"));
        t.finish()
    }
}

impl Validate for ChangePasswordInput {
    open spec fn is_valid(&self) -> bool {
        &&& self.current_password@.len() >= 1
        &&& self.new_password@.len() >= 8
        &&& self.confirm_password@ == self.new_password@
    }

    open spec fn fault_text(&self) -> Seq<char> {
        let t = Seq::<char>::empty();
        let t = with_field(
            t,
            "current_password"@,
            fault(self.current_password@.len() < 1, "Current password is required"@),
        );
        let t = with_field(
            t,
            "new_password"@,
            fault(self.new_password@.len() < 8, "New password must be at least 8 characters"@),
        );
        with_field(
            t,
            "confirm_password"@,
            fault(self.confirm_password@ != self.new_password@, "Passwords do not match"@),
        )
    }

    fn validate(&self) -> (r: Result<(), String>) {
        let mut t = FaultText::new();
        t.field(
            "current_password",
            &one_fault(
                !check_min_length(self.current_password.as_str(), 1),
                "Current password is required",
            ),
        );
        t.field(
            "new_password",
            &one_fault(
                !check_min_length(self.new_password.as_str(), 8),
                "New password must be at least 8 characters",
            ),
        );
        t.field(
            "confirm_password",
            &one_fault(
                !str_eq(self.confirm_password.as_str(), self.new_password.as_str()),
                "Passwords do not match",
            ),
        );
        t.finish()
    }
}

impl Validate for CreatePostInput {
    open spec fn is_valid(&self) -> bool {
        &&& length_within(self.slug@, 1, 100)
        &&& is_slug(self.slug@)
        &&& length_within(self.title@, 1, 200)
        &&& length_within(self.summary@, 1, 500)
        &&& length_within(self.body_markdown@, 1, 100000)
    }

    open spec fn fault_text(&self) -> Seq<char> {
        let t = Seq::<char>::empty();
        let t = with_field(
            t,
            "slug"@,
            fault(!length_within(self.slug@, 1, 100), "Slug must be between 1 and 100 characters"@)
                + fault(
                !is_slug(self.slug@),
                "Slug can only contain lowercase letters, numbers, and hyphens"@,
            ),
        );
        let t = with_field(
            t,
            "title"@,
            fault(
                !length_within(self.title@, 1, 200),
                "Title must be between 1 and 200 characters"@,
            ),
        );
        let t = with_field(
            t,
            "summary"@,
            fault(
                !length_within(self.summary@, 1, 500),
                "Summary must be between 1 and 500 characters"@,
            ),
        );
        with_field(
            t,
            "body_markdown"@,
            fault(
                !length_within(self.body_markdown@, 1, 100000),
                "Body must be between 1 and 100000 characters"@,
            ),
        )
    }

    fn validate(&self) -> (r: Result<(), String>) {
        let mut t = FaultText::new();
        t.field(
            "slug",
            &two_faults(
                !check_length(self.slug.as_str(), 1, 100),
                "Slug must be between 1 and 100 characters",
                !check_slug(self.slug.as_str()),
                "Slug can only contain lowercase letters, numbers, and hyphens",
            ),
        );
        t.field(
            "title",
            &one_fault(
                !check_length(self.title.as_str(), 1, 200),
                "Title must be between 1 and 200 characters",
            ),
        );
        t.field(
            "summary",
            &one_fault(
                !check_length(self.summary.as_str(), 1, 500),
                "Summary must be between 1 and 500 characters",
            ),
        );
        t.field(
            "body_markdown",
            &one_fault(
                !check_length(self.body_markdown.as_str(), 1, 100000),
                "Body must be between 1 and 100000 characters",
            ),
        );
        t.finish()
    }
}

impl Validate for UpdatePostInput {
    open spec fn is_valid(&self) -> bool {
        &&& opt_length_within(opt_text(self.title), 1, 200)
        &&& opt_length_within(opt_text(self.summary), 1, 500)
        &&& opt_length_within(opt_text(self.body_markdown), 1, 100000)
    }

    open spec fn fault_text(&self) -> Seq<char> {
        let t = Seq::<char>::empty();
        let t = with_field(
            t,
            "title"@,
            fault(
                !opt_length_within(opt_text(self.title), 1, 200),
                "Title must be between 1 and 200 characters"@,
            ),
        );
        let t = with_field(
            t,
            "summary"@,
            fault(
                !opt_length_within(opt_text(self.summary), 1, 500),
                "Summary must be between 1 and 500 characters"@,
            ),
        );
        with_field(
            t,
            "body_markdown"@,
            fault(
                !opt_length_within(opt_text(self.body_markdown), 1, 100000),
                "Body must be between 1 and 100000 characters"@,
            ),
        )
    }

    fn validate(&self) -> (r: Result<(), String>) {
        let mut t = FaultText::new();
        t.field(
            "title",
            &one_fault(
                !check_opt_length(&self.title, 1, 200),
                "Title must be between 1 and 200 characters",
            ),
        );
        t.field(
            "summary",
            &one_fault(
                !check_opt_length(&self.summary, 1, 500),
                "Summary must be between 1 and 500 characters",
            ),
        );
        t.field(
            "body_markdown",
            &one_fault(
                !check_opt_length(&self.body_markdown, 1, 100000),
                "Body must be between 1 and 100000 characters",
            ),
        );
        t.finish()
    }
}

} // verus!
