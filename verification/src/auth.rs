//! Logging in: what a caller hands over, what is kept afterwards, and how a
//! login can fail.

use vstd::prelude::*;
use vstd::std_specs::convert::FromSpecImpl;
use vstd::string::*;
use crate::cvr;
use crate::ids::{PlatformAccountId, PlatformIdView};
use crate::metadata::{PlatformDataAndMetadata, PlatformDataMetadata, PlatformDataMetadataView};
use crate::platform::PlatformType;
use crate::resonite;
use crate::resonite::{LoginCredentialsIdentifier, UserSessionAuthentication};
use crate::storage::Keyed;
use crate::vrchat;
use crate::vrchat::{LoginRequestPart, VerifySecondFactor};

verus! {

/// An error that occurred with the login
#[derive(Debug, PartialEq, Eq, Hash)]
pub enum LoginError {
    /// An error occurred
    Message(String),
    /// The authentication was partially successful, but requires additional
    /// verification
    RequiresAdditionalFactor(PlatformAccountId),
}

impl LoginError {
    /// What the error says of itself.
    pub open spec fn spec_message(&self) -> Seq<char> {
        match self {
            LoginError::Message(v) => v@,
            LoginError::RequiresAdditionalFactor(id) => "2FA is required for account with ID '"@
                + id@.id + "'"@,
        }
    }

    /// The human readable form of the error.
    pub fn message(&self) -> (text: String)
        ensures
            text@ == self.spec_message(),
    {
        match self {
            LoginError::Message(v) => v.clone(),
            LoginError::RequiresAdditionalFactor(id) => {
                let id_text = id.id_as_string();
                String::from_str("2FA is required for account with ID '").concat(
                    id_text.as_str(),
                ).concat("'")
            },
        }
    }
}

/// Credentials for a platform: what is persisted to restore a session later.
#[derive(Debug, PartialEq, Eq)]
pub enum Authentication {
    /// VRChat variant
    VRChat(PlatformDataAndMetadata<vrchat::Authentication, String>),
    /// ChilloutVR variant
    ChilloutVR(PlatformDataAndMetadata<cvr::SavedLoginCredentials, String>),
    /// Resonite variant
    Resonite(PlatformDataAndMetadata<resonite::Authentication, String>),
}

impl Authentication {
    /// The platform of the variant.
    pub open spec fn spec_platform(&self) -> PlatformType {
        match self {
            Authentication::VRChat(_) => PlatformType::VRChat,
            Authentication::ChilloutVR(_) => PlatformType::ChilloutVR,
            Authentication::Resonite(_) => PlatformType::Resonite,
        }
    }

    /// The metadata of the variant.
    pub open spec fn spec_platform_metadata(&self) -> PlatformDataMetadata<String> {
        match self {
            Authentication::VRChat(v) => v.metadata,
            Authentication::ChilloutVR(v) => v.metadata,
            Authentication::Resonite(v) => v.metadata,
        }
    }

    /// The account that the authentication is for: the account that obtained
    /// it on VRChat and ChilloutVR, the user of the session on Resonite.
    pub open spec fn spec_id(&self) -> PlatformIdView {
        match self {
            Authentication::VRChat(v) => PlatformIdView {
                platform: PlatformType::VRChat,
                id: v.metadata.updated_by@,
            },
            Authentication::ChilloutVR(v) => PlatformIdView {
                platform: PlatformType::ChilloutVR,
                id: v.metadata.updated_by@,
            },
            Authentication::Resonite(v) => PlatformIdView {
                platform: PlatformType::Resonite,
                id: v.data.user_id@,
            },
        }
    }

    /// The metadata with the account tagged by the variant's platform.
    pub open spec fn spec_metadata(&self) -> PlatformDataMetadataView {
        self.spec_platform_metadata().on(self.spec_platform())
    }

    /// Gets the platform type
    pub fn platform(&self) -> (p: PlatformType)
        ensures
            p == self.spec_platform(),
    {
        match self {
            Authentication::VRChat(_) => PlatformType::VRChat,
            Authentication::ChilloutVR(_) => PlatformType::ChilloutVR,
            Authentication::Resonite(_) => PlatformType::Resonite,
        }
    }

    /// Gets the ID
    pub fn id(&self) -> (id: PlatformAccountId)
        ensures
            id@ == self.spec_id(),
            id@.platform == self.spec_platform(),
    {
        match self {
            Authentication::VRChat(v) => PlatformAccountId::VRChat(v.metadata.updated_by.clone()),
            Authentication::ChilloutVR(v) => PlatformAccountId::ChilloutVR(
                v.metadata.updated_by.clone(),
            ),
            Authentication::Resonite(v) => PlatformAccountId::Resonite(v.data.user_id.clone()),
        }
    }

    /// Copies the platform metadata into a more generic format
    pub fn metadata(&self) -> (general: PlatformDataMetadata<PlatformAccountId>)
        ensures
            general@ == self.spec_metadata(),
            general@.updated_by.platform == self.spec_platform(),
    {
        match self {
            Authentication::VRChat(v) => v.metadata.generalize(PlatformType::VRChat),
            Authentication::ChilloutVR(v) => v.metadata.generalize(PlatformType::ChilloutVR),
            Authentication::Resonite(v) => v.metadata.generalize(PlatformType::Resonite),
        }
    }

    /// When the authentication was obtained or last confirmed.
    pub fn updated_at(&self) -> (at: i128)
        ensures
            at == self.spec_platform_metadata().updated_at,
    {
        match self {
            Authentication::VRChat(v) => v.metadata.updated_at,
            Authentication::ChilloutVR(v) => v.metadata.updated_at,
            Authentication::Resonite(v) => v.metadata.updated_at,
        }
    }
}

impl Keyed for Authentication {
    type Id = PlatformAccountId;

    open spec fn key(&self) -> PlatformIdView {
        self.spec_id()
    }

    fn id(&self) -> (id: PlatformAccountId) {
        Authentication::id(self)
    }

    fn has_id(&self, id: &PlatformAccountId) -> (same: bool) {
        match (self, id) {
            (Authentication::VRChat(v), PlatformAccountId::VRChat(i)) => v.metadata.updated_by
                == *i,
            (Authentication::ChilloutVR(v), PlatformAccountId::ChilloutVR(i)) => v.metadata.updated_by
                == *i,
            (Authentication::Resonite(v), PlatformAccountId::Resonite(i)) => v.data.user_id == *i,
            _ => false,
        }
    }
}

impl Clone for Authentication {
    fn clone(&self) -> (res: Self)
        ensures
            res == *self,
    {
        match self {
            Authentication::VRChat(v) => Authentication::VRChat(v.clone()),
            Authentication::ChilloutVR(v) => Authentication::ChilloutVR(v.clone()),
            Authentication::Resonite(v) => Authentication::Resonite(v.clone()),
        }
    }
}

/// Why a part of the credentials could not be set.
#[derive(Debug, PartialEq, Eq, Hash)]
pub enum CredentialsError {
    /// The value is no valid identifier for the current credentials; the
    /// message says why.
    InvalidIdentifier(String),
    /// The second factor stage of VRChat has no primary secret.
    NoPrimarySecret,
    /// The first stage of VRChat has no secondary secret.
    NoSecondarySecret,
    /// The second factor stage of VRChat cannot go without its secret.
    SecondarySecretRequired,
    /// ChilloutVR knows no secondary secret.
    SecondarySecretUnsupported,
}

impl CredentialsError {
    /// What the error says of itself.
    pub open spec fn spec_message(&self) -> Seq<char> {
        match self {
            CredentialsError::InvalidIdentifier(m) => m@,
            CredentialsError::NoPrimarySecret => {
                "VRChat auth second factor stage doesn't have a primary secret"@
            },
            CredentialsError::NoSecondarySecret => {
                "VRChat auth first stage doesn't have a secondary secret"@
            },
            CredentialsError::SecondarySecretRequired => {
                "VRChat second factor stage requires a secondary secret"@
            },
            CredentialsError::SecondarySecretUnsupported => {
                "ChilloutVR doesn't support a secondary secret"@
            },
        }
    }

    /// The human readable form of the error.
    pub fn message(&self) -> (text: String)
        ensures
            text@ == self.spec_message(),
    {
        match self {
            CredentialsError::InvalidIdentifier(m) => m.clone(),
            CredentialsError::NoPrimarySecret => {
                "VRChat auth second factor stage doesn't have a primary secret".to_owned()
            },
            CredentialsError::NoSecondarySecret => {
                "VRChat auth first stage doesn't have a secondary secret".to_owned()
            },
            CredentialsError::SecondarySecretRequired => {
                "VRChat second factor stage requires a secondary secret".to_owned()
            },
            CredentialsError::SecondarySecretUnsupported => {
                "ChilloutVR doesn't support a secondary secret".to_owned()
            },
        }
    }
}

/// Required for trying to create a platform authentication
#[derive(Debug, PartialEq, Eq, Hash)]
pub enum LoginCredentials {
    /// VRC variant
    VRChat(LoginRequestPart),
    /// CVR variant
    ChilloutVR(cvr::LoginCredentials),
    /// Resonite variant
    Resonite(resonite::UserSessionQueryWithHeaders),
}

impl Clone for LoginCredentials {
    fn clone(&self) -> (res: Self)
        ensures
            res == *self,
    {
        match self {
            LoginCredentials::VRChat(part) => LoginCredentials::VRChat(part.clone()),
            LoginCredentials::ChilloutVR(credentials) => LoginCredentials::ChilloutVR(
                credentials.clone(),
            ),
            LoginCredentials::Resonite(query) => LoginCredentials::Resonite(query.clone()),
        }
    }
}

impl Clone for LoginError {
    fn clone(&self) -> (res: Self)
        ensures
            res == *self,
    {
        match self {
            LoginError::Message(message) => LoginError::Message(message.clone()),
            LoginError::RequiresAdditionalFactor(id) => LoginError::RequiresAdditionalFactor(
                id.clone(),
            ),
        }
    }
}

/// The code inside a second factor, whatever its kind.
pub open spec fn second_factor_code(factor: VerifySecondFactor) -> String {
    match factor {
        VerifySecondFactor::Code(c) => c,
        VerifySecondFactor::Recovery(c) => c,
        VerifySecondFactor::Email(c) => c,
    }
}

/// The second factor of the same kind with another code.
pub open spec fn second_factor_with_code(
    factor: VerifySecondFactor,
    code: String,
) -> VerifySecondFactor {
    match factor {
        VerifySecondFactor::Code(_) => VerifySecondFactor::Code(code),
        VerifySecondFactor::Recovery(_) => VerifySecondFactor::Recovery(code),
        VerifySecondFactor::Email(_) => VerifySecondFactor::Email(code),
    }
}

/// The Resonite identifier of the same kind with another text.
pub open spec fn resonite_identifier_with_text(
    identifier: LoginCredentialsIdentifier,
    text: String,
) -> LoginCredentialsIdentifier {
    match identifier {
        LoginCredentialsIdentifier::Email(_) => LoginCredentialsIdentifier::Email(text),
        LoginCredentialsIdentifier::OwnerID(_) => LoginCredentialsIdentifier::OwnerID(text),
        LoginCredentialsIdentifier::Username(_) => LoginCredentialsIdentifier::Username(text),
    }
}

impl LoginCredentials {
    /// The platform of the variant.
    pub open spec fn spec_platform(&self) -> PlatformType {
        match self {
            LoginCredentials::VRChat(_) => PlatformType::VRChat,
            LoginCredentials::ChilloutVR(_) => PlatformType::ChilloutVR,
            LoginCredentials::Resonite(_) => PlatformType::Resonite,
        }
    }

    /// Gets the platform type
    pub fn platform(&self) -> (p: PlatformType)
        ensures
            p == self.spec_platform(),
    {
        match self {
            LoginCredentials::VRChat(_) => PlatformType::VRChat,
            LoginCredentials::ChilloutVR(_) => PlatformType::ChilloutVR,
            LoginCredentials::Resonite(_) => PlatformType::Resonite,
        }
    }

    /// The username, email or user id that the credentials name.
    pub open spec fn spec_identifier(&self) -> Seq<char> {
        match self {
            LoginCredentials::VRChat(LoginRequestPart::LoginRequest(a)) => a.username@,
            LoginCredentials::VRChat(LoginRequestPart::SecondFactor((id, _))) => id@,
            LoginCredentials::ChilloutVR(c) => c.email@,
            LoginCredentials::Resonite(q) => match q.body.identifier {
                LoginCredentialsIdentifier::Email(v) => v@,
                LoginCredentialsIdentifier::OwnerID(v) => v@,
                LoginCredentialsIdentifier::Username(v) => v@,
            },
        }
    }

    /// The password or session token, where the stage has one.
    pub open spec fn spec_primary_secret(&self) -> Option<Seq<char>> {
        match self {
            LoginCredentials::VRChat(LoginRequestPart::LoginRequest(a)) => Some(
                a.password@,
            ),
            LoginCredentials::VRChat(LoginRequestPart::SecondFactor(_)) => None,
            LoginCredentials::ChilloutVR(c) => Some(c.password@),
            LoginCredentials::Resonite(q) => match q.body.authentication {
                UserSessionAuthentication::Password(v) => Some(v.password@),
                UserSessionAuthentication::SessionToken(v) => Some(v.session_token@),
            },
        }
    }

    /// The second factor code, where the stage has one.
    pub open spec fn spec_secondary_secret(&self) -> Option<Seq<char>> {
        match self {
            LoginCredentials::VRChat(LoginRequestPart::LoginRequest(_)) => None,
            LoginCredentials::VRChat(LoginRequestPart::SecondFactor((_, factor))) => Some(
                second_factor_code(*factor)@,
            ),
            LoginCredentials::ChilloutVR(_) => None,
            LoginCredentials::Resonite(q) => match q.data.second_factor {
                Some(code) => Some(code@),
                None => None,
            },
        }
    }

    /// Whether the value can name the account of these credentials: always,
    /// except that the second factor stage of VRChat takes a VRChat user id.
    pub open spec fn accepts_identifier(&self, value: Seq<char>) -> bool {
        self matches LoginCredentials::VRChat(LoginRequestPart::SecondFactor(_))
            ==> vrchat::is_user_id(value)
    }

    /// The same credentials naming another account.
    pub open spec fn with_identifier(self, value: String) -> Self {
        match self {
            LoginCredentials::VRChat(LoginRequestPart::LoginRequest(a)) => LoginCredentials::VRChat(
                LoginRequestPart::LoginRequest(
                    vrchat::Authenticating { username: value, password: a.password },
                ),
            ),
            LoginCredentials::VRChat(LoginRequestPart::SecondFactor((_, factor))) => LoginCredentials::VRChat(
                LoginRequestPart::SecondFactor((value, factor)),
            ),
            LoginCredentials::ChilloutVR(c) => LoginCredentials::ChilloutVR(
                cvr::LoginCredentials { email: value, password: c.password },
            ),
            LoginCredentials::Resonite(q) => LoginCredentials::Resonite(
                resonite::UserSessionQueryWithHeaders {
                    body: resonite::UserSession {
                        identifier: resonite_identifier_with_text(q.body.identifier, value),
                        ..q.body
                    },
                    data: q.data,
                },
            ),
        }
    }

    /// The same credentials with another password or session token. The
    /// second factor stage of VRChat has none and stays as it is.
    pub open spec fn with_primary_secret(self, value: String) -> Self {
        match self {
            LoginCredentials::VRChat(LoginRequestPart::LoginRequest(a)) => LoginCredentials::VRChat(
                LoginRequestPart::LoginRequest(
                    vrchat::Authenticating { username: a.username, password: value },
                ),
            ),
            LoginCredentials::VRChat(LoginRequestPart::SecondFactor(_)) => self,
            LoginCredentials::ChilloutVR(c) => LoginCredentials::ChilloutVR(
                cvr::LoginCredentials { email: c.email, password: value },
            ),
            LoginCredentials::Resonite(q) => LoginCredentials::Resonite(
                resonite::UserSessionQueryWithHeaders {
                    body: resonite::UserSession {
                        authentication: match q.body.authentication {
                            UserSessionAuthentication::Password(v) => UserSessionAuthentication::Password(
                                resonite::UserSessionPasswordAuthentication {
                                    password: value,
                                    recovery_code: v.recovery_code,
                                },
                            ),
                            UserSessionAuthentication::SessionToken(_) => UserSessionAuthentication::SessionToken(
                                resonite::UserSessionTokenAuthentication { session_token: value },
                            ),
                        },
                        ..q.body
                    },
                    data: q.data,
                },
            ),
        }
    }

    /// The error that setting this secondary secret meets, if any.
    pub open spec fn secondary_secret_refusal(&self, value: Option<String>) -> Option<
        CredentialsError,
    > {
        match self {
            LoginCredentials::VRChat(LoginRequestPart::LoginRequest(_)) => Some(
                CredentialsError::NoSecondarySecret,
            ),
            LoginCredentials::VRChat(LoginRequestPart::SecondFactor(_)) => if value is None {
                Some(CredentialsError::SecondarySecretRequired)
            } else {
                None
            },
            LoginCredentials::ChilloutVR(_) => Some(CredentialsError::SecondarySecretUnsupported),
            LoginCredentials::Resonite(_) => None,
        }
    }

    /// The same credentials with another second factor code, where that is
    /// accepted; unchanged where it is refused.
    pub open spec fn with_secondary_secret(self, value: Option<String>) -> Self {
        match self {
            LoginCredentials::VRChat(LoginRequestPart::SecondFactor((id, factor))) => match value {
                Some(code) => LoginCredentials::VRChat(
                    LoginRequestPart::SecondFactor(
                        (id, second_factor_with_code(factor, code)),
                    ),
                ),
                None => self,
            },
            LoginCredentials::Resonite(q) => LoginCredentials::Resonite(
                resonite::UserSessionQueryWithHeaders {
                    body: q.body,
                    data: resonite::Authenticating { second_factor: value, ..q.data },
                },
            ),
            _ => self,
        }
    }

    /// Sets the inner username/email/userid as a string
    ///
    /// Fails, and changes nothing, if the value is no valid identifier for
    /// the current login credentials.
    pub fn set_identifier(&mut self, value: String) -> (outcome: Result<(), CredentialsError>)
        ensures
            outcome is Ok <==> old(self).accepts_identifier(value@),
            outcome is Ok ==> *final(self) == old(self).with_identifier(value),
            outcome is Err ==> *final(self) == *old(self),
            outcome matches Err(e) ==> (e matches CredentialsError::InvalidIdentifier(m) && m@
                == vrchat::invalid_id_message()),
    {
        match self {
            LoginCredentials::VRChat(part) => match part {
                LoginRequestPart::LoginRequest(authenticating) => {
                    authenticating.username = value;
                    Ok(())
                },
                LoginRequestPart::SecondFactor((user_id, _)) => {
                    match vrchat::parse_user_id(value.as_str()) {
                        Ok(_) => {
                            *user_id = value;
                            Ok(())
                        },
                        Err(message) => Err(CredentialsError::InvalidIdentifier(message)),
                    }
                },
            },
            LoginCredentials::ChilloutVR(login_credentials) => {
                login_credentials.email = value;
                Ok(())
            },
            LoginCredentials::Resonite(query) => {
                match &mut query.body.identifier {
                    LoginCredentialsIdentifier::Username(v) => {
                        *v = value;
                    },
                    LoginCredentialsIdentifier::OwnerID(v) => {
                        *v = value;
                    },
                    LoginCredentialsIdentifier::Email(v) => {
                        *v = value;
                    },
                }
                Ok(())
            },
        }
    }

    /// Gets the inner username/email/userid as a string
    pub fn identifier(&self) -> (text: &str)
        ensures
            text@ == self.spec_identifier(),
    {
        match self {
            LoginCredentials::VRChat(part) => match part {
                LoginRequestPart::LoginRequest(authenticating) => authenticating.username.as_str(),
                LoginRequestPart::SecondFactor((user_id, _)) => user_id.as_str(),
            },
            LoginCredentials::ChilloutVR(login_credentials) => login_credentials.email.as_str(),
            LoginCredentials::Resonite(query) => match &query.body.identifier {
                LoginCredentialsIdentifier::Username(v) => v.as_str(),
                LoginCredentialsIdentifier::OwnerID(v) => v.as_str(),
                LoginCredentialsIdentifier::Email(v) => v.as_str(),
            },
        }
    }

    /// Sets the inner password/session token string
    ///
    /// Fails, and changes nothing, if not applicable to the current stage of
    /// authentication.
    pub fn set_primary_secret(&mut self, value: String) -> (outcome: Result<(), CredentialsError>)
        ensures
            outcome is Ok <==> old(self).spec_primary_secret() is Some,
            outcome matches Err(e) ==> e == CredentialsError::NoPrimarySecret,
            *final(self) == old(self).with_primary_secret(value),
    {
        match self {
            LoginCredentials::VRChat(part) => match part {
                LoginRequestPart::LoginRequest(authenticating) => {
                    authenticating.password = value;
                    Ok(())
                },
                LoginRequestPart::SecondFactor(_) => Err(CredentialsError::NoPrimarySecret),
            },
            LoginCredentials::ChilloutVR(login_credentials) => {
                login_credentials.password = value;
                Ok(())
            },
            LoginCredentials::Resonite(query) => {
                match &mut query.body.authentication {
                    UserSessionAuthentication::Password(v) => {
                        v.password = value;
                    },
                    UserSessionAuthentication::SessionToken(v) => {
                        v.session_token = value;
                    },
                }
                Ok(())
            },
        }
    }

    /// Gets the inner password/token as a string
    pub fn primary_secret(&self) -> (secret: Option<&str>)
        ensures
            secret is Some <==> self.spec_primary_secret() is Some,
            secret matches Some(text) ==> self.spec_primary_secret() == Some(text@),
    {
        match self {
            LoginCredentials::VRChat(part) => match part {
                LoginRequestPart::LoginRequest(authenticating) => Some(
                    authenticating.password.as_str(),
                ),
                LoginRequestPart::SecondFactor(_) => None,
            },
            LoginCredentials::ChilloutVR(login_credentials) => Some(
                login_credentials.password.as_str(),
            ),
            LoginCredentials::Resonite(query) => Some(
                match &query.body.authentication {
                    UserSessionAuthentication::Password(v) => v.password.as_str(),
                    UserSessionAuthentication::SessionToken(v) => v.session_token.as_str(),
                },
            ),
        }
    }

    /// Sets the inner 2FA/etc token string
    ///
    /// Fails, and changes nothing, if not applicable to the current stage of
    /// authentication.
    pub fn set_secondary_secret(&mut self, value: Option<String>) -> (outcome: Result<
        (),
        CredentialsError,
    >)
        ensures
            outcome == match old(self).secondary_secret_refusal(value) {
                Some(e) => Err::<(), CredentialsError>(e),
                None => Ok(()),
            },
            *final(self) == old(self).with_secondary_secret(value),
    {
        match self {
            LoginCredentials::VRChat(part) => match part {
                LoginRequestPart::LoginRequest(_) => Err(
                    CredentialsError::NoSecondarySecret,
                ),
                LoginRequestPart::SecondFactor((_, second_factor)) => match value {
                    None => Err(CredentialsError::SecondarySecretRequired),
                    Some(new_code) => {
                        match second_factor {
                            VerifySecondFactor::Email(code) => {
                                *code = new_code;
                            },
                            VerifySecondFactor::Code(code) => {
                                *code = new_code;
                            },
                            VerifySecondFactor::Recovery(code) => {
                                *code = new_code;
                            },
                        }
                        Ok(())
                    },
                },
            },
            LoginCredentials::ChilloutVR(_) => Err(CredentialsError::SecondarySecretUnsupported),
            LoginCredentials::Resonite(query) => {
                query.data.second_factor = value;
                Ok(())
            },
        }
    }

    /// Gets the inner 2FA/etc token as a string
    pub fn secondary_secret(&self) -> (secret: Option<&str>)
        ensures
            secret is Some <==> self.spec_secondary_secret() is Some,
            secret matches Some(text) ==> self.spec_secondary_secret() == Some(text@),
    {
        match self {
            LoginCredentials::VRChat(part) => match part {
                LoginRequestPart::LoginRequest(_) => None,
                LoginRequestPart::SecondFactor((_, second_factor)) => Some(
                    match second_factor {
                        VerifySecondFactor::Email(code) => code.as_str(),
                        VerifySecondFactor::Code(code) => code.as_str(),
                        VerifySecondFactor::Recovery(code) => code.as_str(),
                    },
                ),
            },
            LoginCredentials::ChilloutVR(_) => None,
            LoginCredentials::Resonite(query) => match &query.data.second_factor {
                Some(code) => Some(code.as_str()),
                None => None,
            },
        }
    }
}

impl From<&Authentication> for PlatformType {
    fn from(value: &Authentication) -> (platform: PlatformType) {
        value.platform()
    }
}

impl FromSpecImpl<&Authentication> for PlatformType {
    open spec fn obeys_from_spec() -> bool {
        true
    }

    open spec fn from_spec(value: &Authentication) -> PlatformType {
        value.spec_platform()
    }
}

impl From<Authentication> for PlatformType {
    fn from(value: Authentication) -> (platform: PlatformType) {
        value.platform()
    }
}

impl FromSpecImpl<Authentication> for PlatformType {
    open spec fn obeys_from_spec() -> bool {
        true
    }

    open spec fn from_spec(value: Authentication) -> PlatformType {
        value.spec_platform()
    }
}

impl From<&LoginCredentials> for PlatformType {
    fn from(value: &LoginCredentials) -> (platform: PlatformType) {
        value.platform()
    }
}

impl FromSpecImpl<&LoginCredentials> for PlatformType {
    open spec fn obeys_from_spec() -> bool {
        true
    }

    open spec fn from_spec(value: &LoginCredentials) -> PlatformType {
        value.spec_platform()
    }
}

impl From<LoginCredentials> for PlatformType {
    fn from(value: LoginCredentials) -> (platform: PlatformType) {
        value.platform()
    }
}

impl FromSpecImpl<LoginCredentials> for PlatformType {
    open spec fn obeys_from_spec() -> bool {
        true
    }

    open spec fn from_spec(value: LoginCredentials) -> PlatformType {
        value.spec_platform()
    }
}

} // verus!
