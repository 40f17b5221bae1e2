//! Request bodies, collaborator payloads and configuration.
use vstd::prelude::*;

verus! {

/// Body of every response: whether the request failed, and why.
pub struct Error {
    pub error: bool,
    pub message: String,
}

/// A report request: the reported subject (an account name, or a post id made
/// of digits), the platform it lives on and the reason code.
pub struct Signal {
    pub vanity: String,
    pub platform: String,
    pub reason: u8,
}

/// A profile as the federated platform returns it.
pub struct GravitaliaUser {
    pub followers: u32,
    pub following: u32,
    pub public: bool,
    pub suspended: bool,
    pub access_post: bool,
}

/// A post as the federated platform returns it.
pub struct GravitaliaPost {
    pub id: String,
    pub hash: Vec<String>,
    pub description: String,
    pub text: String,
    pub like: u32,
    pub author: String,
}

/// The caller's profile as the identity service returns it.
pub struct AuthaUser {
    pub username: String,
    pub vanity: String,
    pub avatar: Option<String>,
    pub bio: Option<String>,
    pub email: Option<String>,
    pub birthdate: Option<String>,
    pub verified: bool,
    pub deleted: bool,
    pub flags: u32,
}

/// Base URLs of the federated services that a platform-wide action reaches.
pub struct Config {
    pub services: Vec<String>,
}

/// A moderator's direct suspension request.
pub struct Suspend {
    pub vanity: String,
    pub platform: String,
}

/// Claims carried by a caller's signed token.
pub struct Claims {
    pub sub: String,
    pub exp: u64,
    pub iss: String,
    pub iat: u64,
}

} // verus!
