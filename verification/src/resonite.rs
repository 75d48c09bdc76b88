//! What the core holds of Resonite's own request and credential shapes.

use vstd::prelude::*;

verus! {

/// Authentication using a password for an user session
#[derive(Debug, PartialEq, Eq, Hash)]
pub struct UserSessionPasswordAuthentication {
    /// The password
    pub password: String,
    /// An optional recovery code
    pub recovery_code: Option<String>,
}

/// Authentication using a session token for an user session
#[derive(Debug, PartialEq, Eq, Hash)]
pub struct UserSessionTokenAuthentication {
    /// The session token
    pub session_token: String,
}

/// Authentication for an user session query with any kind of auth
#[derive(Debug, PartialEq, Eq, Hash)]
pub enum UserSessionAuthentication {
    /// Authentication using a password
    Password(UserSessionPasswordAuthentication),
    /// Authentication using a pre-existing session token
    SessionToken(UserSessionTokenAuthentication),
}

/// An identifier to use when requesting a session.
#[derive(Debug, PartialEq, Eq, Hash)]
pub enum LoginCredentialsIdentifier {
    /// Identify using an email address
    Email(String),
    /// Identify using the user's ID
    OwnerID(String),
    /// Identify using the username
    Username(String),
}

/// A login request body's data.
#[derive(Debug, PartialEq, Eq, Hash)]
pub struct UserSession {
    /// The authentication for the request
    pub authentication: UserSessionAuthentication,
    /// The way to identify the user account the request is for
    pub identifier: LoginCredentialsIdentifier,
    /// If the session should be valid for 30 days
    pub remember_me: bool,
    /// Can be a random UUID
    pub secret_machine_id: String,
}

/// What travels in the headers of a login request.
#[derive(Debug, PartialEq, Eq, Hash)]
pub struct Authenticating {
    /// TOTP header.
    pub second_factor: Option<String>,
    /// Unique identifier header.
    pub unique_machine_identifier: String,
}

/// Data needed to actually request an user session.
#[derive(Debug, PartialEq, Eq, Hash)]
pub struct UserSessionQueryWithHeaders {
    /// The actual body of the request
    pub body: UserSession,
    /// Headers & so on needed for authentication requests
    pub data: Authenticating,
}

/// A Resonite session: the token and the user it was issued to.
#[derive(Debug, PartialEq, Eq, Hash)]
pub struct Authentication {
    /// The secret authentication token
    pub token: String,
    /// The user that the authentication token is for
    pub user_id: String,
}

/// The text of a Resonite user id: it starts with `U-`.
pub open spec fn is_user_id(text: Seq<char>) -> bool {
    seq!['U', '-'].is_prefix_of(text)
}

/// Tries the text as a `resonite::id::User` (its `TryFrom<String>`). The id is
/// accepted exactly when the text starts with `U-`, and is then the text
/// unchanged.
#[verifier::external_body]
pub(crate) fn parse_user_id(text: &String) -> (parsed: Option<String>)
    ensures
        parsed is Some <==> is_user_id(text@),
        parsed matches Some(id) ==> id@ == text@,
{
    resonite::id::User::try_from(text.clone()).ok().map(String::from)
}

impl Clone for Authentication {
    fn clone(&self) -> (res: Self)
        ensures
            res == *self,
    {
        Authentication { token: self.token.clone(), user_id: self.user_id.clone() }
    }
}

fn clone_text(text: &Option<String>) -> (res: Option<String>)
    ensures
        res == *text,
{
    match text {
        Some(t) => Some(t.clone()),
        None => None,
    }
}

impl Clone for UserSessionAuthentication {
    fn clone(&self) -> (res: Self)
        ensures
            res == *self,
    {
        match self {
            UserSessionAuthentication::Password(p) => UserSessionAuthentication::Password(
                UserSessionPasswordAuthentication {
                    password: p.password.clone(),
                    recovery_code: clone_text(&p.recovery_code),
                },
            ),
            UserSessionAuthentication::SessionToken(t) => UserSessionAuthentication::SessionToken(
                UserSessionTokenAuthentication { session_token: t.session_token.clone() },
            ),
        }
    }
}

impl Clone for LoginCredentialsIdentifier {
    fn clone(&self) -> (res: Self)
        ensures
            res == *self,
    {
        match self {
            LoginCredentialsIdentifier::Email(v) => LoginCredentialsIdentifier::Email(v.clone()),
            LoginCredentialsIdentifier::OwnerID(v) => LoginCredentialsIdentifier::OwnerID(
                v.clone(),
            ),
            LoginCredentialsIdentifier::Username(v) => LoginCredentialsIdentifier::Username(
                v.clone(),
            ),
        }
    }
}

impl Clone for UserSessionQueryWithHeaders {
    fn clone(&self) -> (res: Self)
        ensures
            res == *self,
    {
        UserSessionQueryWithHeaders {
            body: UserSession {
                authentication: self.body.authentication.clone(),
                identifier: self.body.identifier.clone(),
                remember_me: self.body.remember_me,
                secret_machine_id: self.body.secret_machine_id.clone(),
            },
            data: Authenticating {
                second_factor: clone_text(&self.data.second_factor),
                unique_machine_identifier: self.data.unique_machine_identifier.clone(),
            },
        }
    }
}

} // verus!
