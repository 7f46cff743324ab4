//! The request and reply types of the HTTP interface and the error replies.
use vstd::prelude::*;
use vstd::string::StringExecFns;

verus! {

/// Body of `/api/auth/register` and `/api/auth/login`.
#[derive(Debug, PartialEq, Eq)]
pub struct AuthPayload {
    pub username: String,
    pub password: String,
    pub invite_code: Option<String>,
}

/// An invite code of a user and whether it has been spent.
#[derive(Debug, PartialEq, Eq)]
pub struct InviteCodeInfo {
    pub code: String,
    pub used: bool,
}

/// A registration request that still waits for consensus.
#[derive(Debug, PartialEq, Eq)]
pub struct PendingRequestInfo {
    pub id: String,
    pub username: String,
    pub invite_code: String,
    pub status: String,
    pub locked_by: Option<String>,
    pub locked_at: Option<String>,
    /// Ids of the users who voted to approve.
    pub voted_by: Vec<String>,
}

/// Successful reply of the authentication and consensus handlers.
#[derive(Debug, PartialEq, Eq)]
pub struct AuthResponse {
    pub message: String,
    pub user_id: Option<String>,
    pub is_genesis: bool,
    pub invite_codes: Vec<InviteCodeInfo>,
    pub request_id: Option<String>,
}

/// Body of the vote handler.
#[derive(Debug, PartialEq, Eq)]
pub struct VotePayload {
    pub user_id: String,
    pub request_id: String,
    pub approve: bool,
}

/// Body of the lock and confirm handlers.
#[derive(Debug, PartialEq, Eq)]
pub struct ConsensusPayload {
    pub user_id: String,
    pub request_id: String,
}

/// Body of the invite generation handler.
#[derive(Debug, PartialEq, Eq)]
pub struct GenerateInvitePayload {
    pub user_id: String,
}

/// Body of every error reply.
#[derive(Debug, PartialEq, Eq)]
pub struct ErrorResponse {
    pub message: String,
}

/// The HTTP statuses that the handlers answer errors with.
#[derive(Debug, Clone, Copy, PartialEq, Eq)]
pub enum Status {
    BadRequest,
    Unauthorized,
    InternalServerError,
}

impl Status {
    /// The numeric HTTP status code.
    pub fn code(&self) -> (c: u16)
        ensures
            c == match *self {
                Status::BadRequest => 400u16,
                Status::Unauthorized => 401u16,
                Status::InternalServerError => 500u16,
            },
    {
        match self {
            Status::BadRequest => 400,
            Status::Unauthorized => 401,
            Status::InternalServerError => 500,
        }
    }
}

/// An error reply: a status and a message body.
#[derive(Debug, PartialEq, Eq)]
pub struct ApiError {
    pub status: Status,
    pub body: ErrorResponse,
}

/// Whether `e` is the error reply with this status and message.
pub open spec fn is_error(e: ApiError, status: Status, message: Seq<char>) -> bool {
    e.status == status && e.body.message@ == message
}

/// An error reply with a fixed message.
pub fn error_reply(status: Status, message: &str) -> (e: ApiError)
    ensures
        is_error(e, status, message@),
{
    ApiError { status, body: ErrorResponse { message: String::from_str(message) } }
}

/// An error reply whose message is `prefix` followed by a description of
/// a database failure.
pub fn error_with_detail(status: Status, prefix: &str, detail: &str) -> (e: ApiError)
    ensures
        is_error(e, status, prefix@ + detail@),
{
    let message = String::from_str(prefix).concat(detail);
    ApiError { status, body: ErrorResponse { message } }
}

/// The password hashing library refused: its random source failed while
/// hashing, or a stored hash could not be read while verifying. The
/// handlers have no reply for this case.
#[derive(Debug, Clone, Copy, PartialEq, Eq)]
pub struct PasswordError;

/// Whether a text equals a literal.
pub fn text_is(s: &String, literal: &str) -> (r: bool)
    ensures
        r == (s@ == literal@),
{
    *s == String::from_str(literal)
}

/// The reply of a handler that may answer with an error.
pub type Reply<T> = Result<T, ApiError>;

} // verus!
