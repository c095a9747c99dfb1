//! Password digests: what is taken on trust from `bcrypt`.

use vstd::prelude::*;

verus! {

/// `bcrypt::BcryptError`. Opaque to the verifier.
#[verifier::external_type_specification]
#[verifier::external_body]
pub struct ExDigestError(bcrypt::BcryptError);

/// What `bcrypt::verify` answers for a password and a digest: whether the
/// password is the one the digest was made from, or `None` where the digest
/// is malformed.
pub uninterp spec fn digest_matches(password: Seq<char>, digest: Seq<char>) -> Option<bool>;

/// Whether `bcrypt::verify` can read the digest: it answers for the empty
/// password, and so for every password.
pub open spec fn digest_is_readable(digest: Seq<char>) -> bool {
    digest_matches(Seq::<char>::empty(), digest) is Some
}

/// `bcrypt::hash` at `bcrypt::DEFAULT_COST`, with a salt drawn from the
/// operating system. Two calls on one password give different digests; each
/// digest that comes back is well-formed, and is one that `bcrypt::verify`
/// accepts for that password.
#[verifier::external_body]
pub(crate) fn bcrypt_hash(password: &str) -> (r: Result<String, bcrypt::BcryptError>)
    ensures
        r matches Ok(digest) ==> digest_matches(password@, digest@) == Some(true),
        r matches Ok(digest) ==> digest_is_readable(digest@),
{
    bcrypt::hash(password, bcrypt::DEFAULT_COST)
}

/// `bcrypt::verify`: a function of the password and the digest alone. Every
/// failure comes from reading the digest (its parts, its cost, its salt),
/// none from the password: whether it answers does not depend on the
/// password.
#[verifier::external_body]
pub(crate) fn bcrypt_verify(password: &str, digest: &str) -> (r: Result<bool, bcrypt::BcryptError>)
    ensures
        match r {
            Ok(same) => digest_matches(password@, digest@) == Some(same),
            Err(_) => digest_matches(password@, digest@) is None,
        },
        r is Ok <==> digest_is_readable(digest@),
{
    bcrypt::verify(password, digest)
}

} // verus!
