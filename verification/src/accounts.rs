//! Interface types of the collaborators around the pipeline: accounts and
//! authentication, object-store configuration, and the read/search request
//! shapes. The pipeline itself only consumes a resolved account identity.

use vstd::prelude::*;

verus! {

/// Credentials as a signup or login request carries them.
pub struct User {
    pub username: String,
    pub password: String,
}

/// Credentials as a login request against the account table carries them.
pub struct Account {
    pub username: String,
    pub password: String,
}

/// An account row as the user table stores it: the password is kept hashed.
pub struct DBUser {
    pub id: u64,
    pub password: String,
}

/// An account row as the account table stores it: the password is kept
/// hashed.
pub struct DBAccount {
    pub id: u128,
    pub username: String,
    pub password: String,
}

/// The resolved identity a request handler receives once its session token
/// has been checked; the coordinator assumes this is already available.
pub struct AuthenticatedUser {
    pub id: u64,
    pub username: String,
    pub config: Option<S3Data>,
}

/// The resolved account identity the coordinator consumes: it never performs
/// authentication itself.
pub struct AuthenticatedAccount {
    pub id: u128,
    pub username: String,
}

/// Connection settings for the object store.
pub struct S3Data {
    pub bucket: String,
    pub endpoint: String,
    pub region: String,
    pub access_key: String,
    pub secret_key: String,
}

/// Query parameters of the image read path: which quality tier to serve.
pub struct QueryParams {
    pub quality: String,
}

/// Body of a search request.
pub struct SearchBody {
    pub query: String,
}

} // verus!
