//! What the core holds of ChilloutVR's own request and credential shapes.

use vstd::prelude::*;

verus! {

/// The credentials that open a ChilloutVR session.
#[derive(Debug, PartialEq, Eq, Hash)]
pub struct LoginCredentials {
    /// The email address, which the API calls username
    pub email: String,
    /// The password of the account
    pub password: String,
}

/// Saved access key and username which can also be used to login
#[derive(Debug, PartialEq, Eq, Hash)]
pub struct SavedLoginCredentials {
    /// The username the access key is for
    pub username: String,
    /// The access key to authenticate API requests with
    pub access_key: String,
}

impl Clone for LoginCredentials {
    fn clone(&self) -> (res: Self)
        ensures
            res == *self,
    {
        LoginCredentials { email: self.email.clone(), password: self.password.clone() }
    }
}

impl Clone for SavedLoginCredentials {
    fn clone(&self) -> (res: Self)
        ensures
            res == *self,
    {
        SavedLoginCredentials {
            username: self.username.clone(),
            access_key: self.access_key.clone(),
        }
    }
}

} // verus!
