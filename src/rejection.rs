//! Why a request is refused, the message its caller sees, and the class of
//! response it maps to.
use vstd::prelude::*;
use vstd::string::*;
use crate::model::Error;

verus! {

/// The action that an actor may not take against themselves.
#[derive(Debug, Clone, Copy, PartialEq, Eq, Structural)]
pub enum SelfAction {
    /// Reporting one's own account.
    Report,
    /// Reporting one's own content.
    ReportOwnContent,
    /// Suspending one's own account.
    Suspend,
}

/// Reasons for refusing a request.
#[derive(Debug, Clone, Copy, PartialEq, Eq, Structural)]
pub enum Rejection {
    /// The caller's token is missing, malformed, forged or expired.
    AuthInvalid,
    /// The caller lacks the capability the action needs.
    PermissionDenied,
    /// The caller acts against themselves.
    SelfActionDenied(SelfAction),
    /// The caller already reported this subject within the current window.
    RateLimited,
    /// The subject does not exist or is already suspended.
    UnknownOrSuspendedSubject,
    /// The reason code is not one of the known reasons.
    InvalidReason,
    /// The platform is not supported.
    InvalidPlatform,
    /// The persistent store failed.
    StoreFailure,
    /// A remote collaborator (platform, identity service, notifier) failed.
    CollaboratorFailure,
}

/// Class of a response, as an HTTP status would express it.
#[derive(Debug, Clone, Copy, PartialEq, Eq, Structural)]
pub enum Status {
    Success,
    BadRequest,
    TooManyRequests,
    InternalError,
}

impl Rejection {
    pub open spec fn status_spec(&self) -> Status {
        match self {
            Rejection::RateLimited => Status::TooManyRequests,
            Rejection::StoreFailure | Rejection::CollaboratorFailure => Status::InternalError,
            _ => Status::BadRequest,
        }
    }

    pub open spec fn message_spec(&self) -> Seq<char> {
        match self {
            Rejection::AuthInvalid => "Invalid token"@,
            Rejection::PermissionDenied => "You haven't enough flags to perform this action"@,
            Rejection::SelfActionDenied(SelfAction::Report) => "You can't report yourself"@,
            Rejection::SelfActionDenied(SelfAction::ReportOwnContent) => "You can't report your own post"@,
            Rejection::SelfActionDenied(SelfAction::Suspend) => "You can't suspend yourself"@,
            Rejection::RateLimited => "Too many requests"@,
            Rejection::UnknownOrSuspendedSubject => "Invalid user"@,
            Rejection::InvalidReason => "Invalid reason"@,
            Rejection::InvalidPlatform => "Invalid platform"@,
            Rejection::StoreFailure | Rejection::CollaboratorFailure => "Internal server error"@,
        }
    }

    /// Class of the response that carries this rejection.
    pub fn status(&self) -> (r: Status)
        ensures
            r == self.status_spec(),
    {
        match self {
            Rejection::RateLimited => Status::TooManyRequests,
            Rejection::StoreFailure | Rejection::CollaboratorFailure => Status::InternalError,
            _ => Status::BadRequest,
        }
    }

    /// Message shown to the caller.
    pub fn message(&self) -> (r: String)
        ensures
            r@ == self.message_spec(),
    {
        match self {
            Rejection::AuthInvalid => String::from_str("Invalid token"),
            Rejection::PermissionDenied => String::from_str(
                "You haven't enough flags to perform this action",
            ),
            Rejection::SelfActionDenied(SelfAction::Report) => String::from_str(
                "You can't report yourself",
            ),
            Rejection::SelfActionDenied(SelfAction::ReportOwnContent) => String::from_str(
                "You can't report your own post",
            ),
            Rejection::SelfActionDenied(SelfAction::Suspend) => String::from_str(
                "You can't suspend yourself",
            ),
            Rejection::RateLimited => String::from_str("Too many requests"),
            Rejection::UnknownOrSuspendedSubject => String::from_str("Invalid user"),
            Rejection::InvalidReason => String::from_str("Invalid reason"),
            Rejection::InvalidPlatform => String::from_str("Invalid platform"),
            Rejection::StoreFailure | Rejection::CollaboratorFailure => String::from_str(
                "Internal server error",
            ),
        }
    }

    /// Response body that carries this rejection.
    pub fn reply(&self) -> (r: Error)
        ensures
            r.error,
            r.message@ == self.message_spec(),
    {
        Error { error: true, message: self.message() }
    }
}

/// Response body of a request that succeeded.
pub fn ok_reply() -> (r: Error)
    ensures
        !r.error,
        r.message@ == "OK"@,
{
    Error { error: false, message: String::from_str("OK") }
}

} // verus!
