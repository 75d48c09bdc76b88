//! What the core holds of VRChat's own request and credential shapes.

use vstd::prelude::*;

verus! {

/// The credentials that open a VRChat session.
#[derive(Debug, PartialEq, Eq, Hash)]
pub struct Authenticating {
    /// The username to login with
    pub username: String,
    /// The password to login with
    pub password: String,
}

/// A VRChat session's cookies.
#[derive(Debug, PartialEq, Eq, Hash)]
pub struct Authentication {
    /// Normal auth cookie
    pub token: String,
    /// 2FA remember cookie
    pub second_factor_token: Option<String>,
}

/// Completes authentication with a 2FA code
#[derive(Debug, PartialEq, Eq, Hash)]
pub enum VerifySecondFactor {
    /// A normal 2FA
    Code(String),
    /// A recovery code
    Recovery(String),
    /// An email code
    Email(String),
}

/// A VRC login request portion
#[derive(Debug, PartialEq, Eq, Hash)]
pub enum LoginRequestPart {
    /// Login with credentials
    LoginRequest(Authenticating),
    /// Continuing authentication with second factor
    SecondFactor((String, VerifySecondFactor)),
}

/// The text of a VRChat user id: it either carries the `usr_` prefix or, for
/// legacy accounts, is exactly ten bytes long.
pub open spec fn is_user_id(text: Seq<char>) -> bool {
    seq!['u', 's', 'r', '_'].is_prefix_of(text) || vstd::utf8::encode_utf8(text).len() == 10
}

/// The message that a rejected user id comes with.
pub open spec fn invalid_id_message() -> Seq<char> {
    "ID doesn't match expected format"@
}

/// Parses the text as a `vrc::id::User` (its `FromStr`). The id is accepted
/// exactly when the text has the `usr_` prefix or is ten bytes long, and is
/// then the text unchanged; otherwise the crate's fixed message comes back.
#[verifier::external_body]
pub(crate) fn parse_user_id(text: &str) -> (parsed: Result<String, String>)
    ensures
        parsed is Ok <==> is_user_id(text@),
        parsed matches Ok(id) ==> id@ == text@,
        parsed matches Err(message) ==> message@ == invalid_id_message(),
{
    text.parse::<vrc::id::User>().map(String::from).map_err(str::to_owned)
}

impl Clone for Authenticating {
    fn clone(&self) -> (res: Self)
        ensures
            res == *self,
    {
        Authenticating { username: self.username.clone(), password: self.password.clone() }
    }
}

impl Clone for Authentication {
    fn clone(&self) -> (res: Self)
        ensures
            res == *self,
    {
        Authentication {
            token: self.token.clone(),
            second_factor_token: match &self.second_factor_token {
                Some(t) => Some(t.clone()),
                None => None,
            },
        }
    }
}

impl Clone for VerifySecondFactor {
    fn clone(&self) -> (res: Self)
        ensures
            res == *self,
    {
        match self {
            VerifySecondFactor::Code(c) => VerifySecondFactor::Code(c.clone()),
            VerifySecondFactor::Recovery(c) => VerifySecondFactor::Recovery(c.clone()),
            VerifySecondFactor::Email(c) => VerifySecondFactor::Email(c.clone()),
        }
    }
}

impl Clone for LoginRequestPart {
    fn clone(&self) -> (res: Self)
        ensures
            res == *self,
    {
        match self {
            LoginRequestPart::LoginRequest(a) => LoginRequestPart::LoginRequest(a.clone()),
            LoginRequestPart::SecondFactor((id, factor)) => LoginRequestPart::SecondFactor(
                (id.clone(), factor.clone()),
            ),
        }
    }
}

} // verus!
