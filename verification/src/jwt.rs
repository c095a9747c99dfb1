//! Signed tokens: what is taken on trust from `serde_json` and `jsonwebtoken`.
//!
//! A token carries a JSON object. Of such an object the library reads and
//! writes two kinds of members only: integers and texts. Members of any other
//! kind are known by their keys alone.

use vstd::prelude::*;

verus! {

/// `serde_json::Map`, the JSON object. Opaque to the verifier.
#[verifier::external_type_specification]
#[verifier::external_body]
#[verifier::reject_recursive_types(K)]
#[verifier::reject_recursive_types(V)]
pub struct ExJsonObject<K, V>(serde_json::Map<K, V>);

/// `serde_json::Value`, a JSON value. Opaque to the verifier.
#[verifier::external_type_specification]
#[verifier::external_body]
pub struct ExJsonValue(serde_json::Value);

/// `jsonwebtoken::errors::Error`. Opaque to the verifier.
#[verifier::external_type_specification]
#[verifier::external_body]
pub struct ExTokenError(jsonwebtoken::errors::Error);

/// The members of a JSON object that are integers within `i64`, by key.
pub uninterp spec fn object_ints(o: serde_json::Map<String, serde_json::Value>) -> Map<
    Seq<char>,
    i64,
>;

/// The members of a JSON object that are strings, by key.
pub uninterp spec fn object_texts(o: serde_json::Map<String, serde_json::Value>) -> Map<
    Seq<char>,
    Seq<char>,
>;

/// The keys of the members of a JSON object that are neither an integer within
/// `i64` nor a string.
pub uninterp spec fn object_others(o: serde_json::Map<String, serde_json::Value>) -> Set<Seq<char>>;

/// The integer and text members of the object that `token` carries, when
/// `token` is a well-formed HS256 token signed with `secret`; `None` for any
/// other text. Expiry plays no part in it.
pub uninterp spec fn token_payload(token: Seq<char>, secret: Seq<char>) -> Option<
    (Map<Seq<char>, i64>, Map<Seq<char>, Seq<char>>),
>;

/// `serde_json::Map::new`: an object without members.
#[verifier::external_body]
pub(crate) fn object_new() -> (o: serde_json::Map<String, serde_json::Value>)
    ensures
        object_ints(o).dom() == Set::<Seq<char>>::empty(),
        object_texts(o).dom() == Set::<Seq<char>>::empty(),
        object_others(o) == Set::<Seq<char>>::empty(),
{
    serde_json::Map::new()
}

/// `serde_json::Map::insert` with an integer: the member `key` becomes the
/// integer `n`, whatever it was; the other members stay.
#[verifier::external_body]
pub(crate) fn object_put_int(
    o: &mut serde_json::Map<String, serde_json::Value>,
    key: &str,
    n: i64,
)
    ensures
        object_ints(*final(o)) == object_ints(*old(o)).insert(key@, n),
        object_texts(*final(o)) == object_texts(*old(o)).remove(key@),
        object_others(*final(o)) == object_others(*old(o)).remove(key@),
{
    o.insert(key.to_owned(), serde_json::Value::from(n));
}

/// `serde_json::Map::insert` with a string: the member `key` becomes the
/// text `s`, whatever it was; the other members stay.
#[verifier::external_body]
pub(crate) fn object_put_text(
    o: &mut serde_json::Map<String, serde_json::Value>,
    key: &str,
    s: &str,
)
    ensures
        object_texts(*final(o)) == object_texts(*old(o)).insert(key@, s@),
        object_ints(*final(o)) == object_ints(*old(o)).remove(key@),
        object_others(*final(o)) == object_others(*old(o)).remove(key@),
{
    o.insert(key.to_owned(), serde_json::Value::from(s));
}

/// `serde_json::Map::get` followed by `Value::as_i64`: the member `key` if it
/// is an integer within `i64`.
#[verifier::external_body]
pub(crate) fn object_int(o: &serde_json::Map<String, serde_json::Value>, key: &str) -> (r: Option<
    i64,
>)
    ensures
        r == (if object_ints(*o).contains_key(key@) {
            Some(object_ints(*o)[key@])
        } else {
            None
        }),
{
    o.get(key).and_then(|v| v.as_i64())
}

/// `serde_json::Map::get` followed by `Value::as_str`: a copy of the member
/// `key` if it is a string.
#[verifier::external_body]
pub(crate) fn object_text(o: &serde_json::Map<String, serde_json::Value>, key: &str) -> (r:
    Option<String>)
    ensures
        match r {
            Some(s) => object_texts(*o).contains_key(key@) && s@ == object_texts(*o)[key@],
            None => !object_texts(*o).contains_key(key@),
        },
{
    o.get(key).and_then(|v| v.as_str()).map(|s| s.to_owned())
}

/// `jsonwebtoken::encode` with the default header (HS256) and `secret` as the
/// key, for an object whose members are integers and texts only. With a key
/// for HMAC and such an object nothing in it can fail: a token comes back. It
/// carries the members of `claims` and is accepted under the same secret.
///
/// An object with a list or an object among its members is left out: where
/// such a member stands under `sub`, `exp` or `nbf`, `jsonwebtoken::decode`
/// refuses the token that `encode` made of it.
#[verifier::external_body]
pub(crate) fn sign_hs256(claims: &serde_json::Map<String, serde_json::Value>, secret: &str) -> (r:
    Result<String, jsonwebtoken::errors::Error>)
    requires
        object_others(*claims) == Set::<Seq<char>>::empty(),
    ensures
        r is Ok,
        r matches Ok(token) ==> token_payload(token@, secret@) == Some(
            (object_ints(*claims), object_texts(*claims)),
        ),
{
    let key = jsonwebtoken::EncodingKey::from_secret(secret.as_bytes());
    jsonwebtoken::encode(&jsonwebtoken::Header::default(), claims, &key)
}

/// `jsonwebtoken::decode` for HS256 with `secret` as the key, with the checks
/// of expiry, audience and required claims switched off: what is left is the
/// check of format, algorithm and signature, and the parse of the payload as
/// a JSON object.
#[verifier::external_body]
pub(crate) fn verify_hs256(token: &str, secret: &str) -> (r: Result<
    serde_json::Map<String, serde_json::Value>,
    jsonwebtoken::errors::Error,
>)
    ensures
        match r {
            Ok(o) => token_payload(token@, secret@) == Some((object_ints(o), object_texts(o))),
            Err(_) => token_payload(token@, secret@) is None,
        },
{
    let key = jsonwebtoken::DecodingKey::from_secret(secret.as_bytes());
    let mut checks = jsonwebtoken::Validation::new(jsonwebtoken::Algorithm::HS256);
    checks.validate_exp = false;
    checks.validate_aud = false;
    checks.required_spec_claims.clear();
    jsonwebtoken::decode::<serde_json::Map<String, serde_json::Value>>(token, &key, &checks)
        .map(|data| data.claims)
}

} // verus!
