//! The payload of a token and its form as a JSON object.
//!
//! A token carries six members: the integers `sub`, `exp` and `iat`, and the
//! texts `username`, `role` and `jti`.

use vstd::prelude::*;
use vstd::string::*;
use crate::jwt::{object_int, object_ints, object_new, object_others, object_put_int,
    object_put_text, object_text, object_texts};
use crate::models::{role_name_round_trip, UserRole};

verus! {

/// What a token says: who it was issued for, when, and until when.
#[derive(Debug, Clone)]
pub struct Claims {
    /// Id of the account.
    pub sub: i64,
    pub username: String,
    pub role: UserRole,
    /// Instant after which the token is no longer accepted.
    pub exp: i64,
    /// Instant of issue.
    pub iat: i64,
    /// Identifier of this token, for the log.
    pub jti: String,
}

/// Mathematical value of [`Claims`].
pub struct ClaimsView {
    pub sub: i64,
    pub username: Seq<char>,
    pub role: UserRole,
    pub exp: i64,
    pub iat: i64,
    pub jti: Seq<char>,
}

impl View for Claims {
    type V = ClaimsView;

    open spec fn view(&self) -> ClaimsView {
        ClaimsView {
            sub: self.sub,
            username: self.username@,
            role: self.role,
            exp: self.exp,
            iat: self.iat,
            jti: self.jti@,
        }
    }
}

/// The view of optional claims.
pub open spec fn opt_claims(c: Option<Claims>) -> Option<ClaimsView> {
    match c {
        Some(c) => Some(c@),
        None => None,
    }
}

impl ClaimsView {
    /// The integer members of the object that carries these claims.
    pub open spec fn ints(self) -> Map<Seq<char>, i64> {
        Map::<Seq<char>, i64>::empty().insert("sub"@, self.sub).insert("exp"@, self.exp).insert(
            "iat"@,
            self.iat,
        )
    }

    /// The text members of the object that carries these claims.
    pub open spec fn texts(self) -> Map<Seq<char>, Seq<char>> {
        Map::<Seq<char>, Seq<char>>::empty().insert("username"@, self.username).insert(
            "role"@,
            self.role.name(),
        ).insert("jti"@, self.jti)
    }

    /// The claims that an object with these members carries: all six members
    /// are there and `role` is the name of a role. Other members are ignored.
    pub open spec fn read(ints: Map<Seq<char>, i64>, texts: Map<Seq<char>, Seq<char>>) -> Option<
        ClaimsView,
    > {
        if ints.contains_key("sub"@) && ints.contains_key("exp"@) && ints.contains_key("iat"@)
            && texts.contains_key("username"@) && texts.contains_key("role"@) && texts.contains_key(
            "jti"@,
        ) {
            match UserRole::named(texts["role"@]) {
                Some(role) => Some(
                    ClaimsView {
                        sub: ints["sub"@],
                        username: texts["username"@],
                        role,
                        exp: ints["exp"@],
                        iat: ints["iat"@],
                        jti: texts["jti"@],
                    },
                ),
                None => None,
            }
        } else {
            None
        }
    }
}

/// The six member names differ from each other.
proof fn member_names_differ()
    ensures
        "sub"@ != "exp"@,
        "sub"@ != "iat"@,
        "exp"@ != "iat"@,
        "username"@ != "role"@,
        "username"@ != "jti"@,
        "role"@ != "jti"@,
{
    reveal_strlit("sub");
    reveal_strlit("exp");
    reveal_strlit("iat");
    reveal_strlit("username");
    reveal_strlit("role");
    reveal_strlit("jti");
    assert("sub"@[0] == 's' && "exp"@[0] == 'e' && "iat"@[0] == 'i');
    assert("username"@.len() == 8 && "role"@.len() == 4 && "jti"@.len() == 3);
}

/// Claims written to an object are read back from it unchanged.
pub proof fn claims_read_back(c: ClaimsView)
    ensures
        ClaimsView::read(c.ints(), c.texts()) == Some(c),
{
    member_names_differ();
    role_name_round_trip(c.role);
}

/// Two claims with the same members are the same claims.
pub proof fn claims_members_decide(a: ClaimsView, b: ClaimsView)
    requires
        a.ints() == b.ints(),
        a.texts() == b.texts(),
    ensures
        a == b,
{
    claims_read_back(a);
    claims_read_back(b);
}

impl Claims {
    /// The JSON object that carries these claims: the six members and no
    /// other.
    pub fn to_object(&self) -> (o: serde_json::Map<String, serde_json::Value>)
        ensures
            object_ints(o) == self@.ints(),
            object_texts(o) == self@.texts(),
            object_others(o) == Set::<Seq<char>>::empty(),
    {
        let mut o = object_new();
        object_put_text(&mut o, "username", self.username.as_str());
        object_put_text(&mut o, "role", self.role.as_str());
        object_put_text(&mut o, "jti", self.jti.as_str());
        object_put_int(&mut o, "sub", self.sub);
        object_put_int(&mut o, "exp", self.exp);
        object_put_int(&mut o, "iat", self.iat);
        proof {
            member_names_differ();
            assert(object_texts(o) =~= self@.texts()) by {
                reveal_strlit("sub");
                reveal_strlit("exp");
                reveal_strlit("iat");
                reveal_strlit("username");
                reveal_strlit("role");
                reveal_strlit("jti");
                assert("jti"@[0] == 'j' && "sub"@[0] == 's' && "exp"@[0] == 'e' && "iat"@[0]
                    == 'i');
            }
        }
        o
    }

    /// The claims that a JSON object carries, if it carries any.
    pub fn from_object(o: &serde_json::Map<String, serde_json::Value>) -> (r: Option<Claims>)
        ensures
            opt_claims(r) == ClaimsView::read(object_ints(*o), object_texts(*o)),
    {
        let sub = object_int(o, "sub");
        let exp = object_int(o, "exp");
        let iat = object_int(o, "iat");
        let username = object_text(o, "username");
        let role_name = object_text(o, "role");
        let jti = object_text(o, "jti");
        match (sub, exp, iat, username, role_name, jti) {
            (Some(sub), Some(exp), Some(iat), Some(username), Some(role_name), Some(jti)) => {
                match UserRole::parse(role_name.as_str()) {
                    Some(role) => Some(Claims { sub, username, role, exp, iat, jti }),
                    None => None,
                }
            },
            _ => None,
        }
    }
}

} // verus!
