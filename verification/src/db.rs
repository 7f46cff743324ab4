//! What the handlers ask of the graph database and what it answers.
use vstd::prelude::*;
use crate::api::Reply;

verus! {

/// A query of the graph database. The caller turns each variant into its
/// Cypher text and parameters and runs it.
#[derive(Debug, PartialEq, Eq)]
pub enum DbQuery {
    /// Number of users.
    CountUsers,
    /// An unused invite code with this text, generated by some user.
    FindUnusedInvite { code: String },
    /// Creates a pending registration request linked to the inviter.
    CreateRegistrationRequest {
        request_id: String,
        username: String,
        password_hash: String,
        invite_code: String,
    },
    /// Creates the first user and links it to the system node.
    CreateGenesisUser { user_id: String, username: String, password_hash: String, system_id: String },
    /// Id and password hash of the user with this name.
    FindCredentials { username: String },
    /// Invite codes generated by a user.
    ListInvites { user_id: String },
    /// Number of genesis edges leaving a user.
    CountGenesisEdges { user_id: String },
    /// Creates an invite code for a user and returns it.
    CreateInvite { user_id: String, code: String },
    /// Records or updates a vote and returns the request's status.
    RecordVote { user_id: String, request_id: String, approve: bool },
    /// Number of users and of approving votes for a request.
    TallyApprovals { request_id: String },
    /// Puts a request back to `PENDING` and clears its lock.
    ResetRequest { request_id: String },
    /// Deletes the confirmations of a request.
    DeleteConfirmations { request_id: String },
    /// Number of users, of approving votes, and the status of a request.
    ApprovalStatus { request_id: String },
    /// The approving vote of a user for a request, if any.
    FindApprovingVote { user_id: String, request_id: String },
    /// Locks a request on behalf of a user.
    LockRequest { request_id: String, user_id: String },
    /// Status and registration data of a request.
    RequestDetails { request_id: String },
    /// Whether the lock of a request is older than one day.
    CheckLockTimeout { request_id: String },
    /// Records the confirmation of a user for a request.
    RecordConfirmation { user_id: String, request_id: String },
    /// Number of users and of confirmations for a request.
    TallyConfirmations { request_id: String },
    /// Creates the user of an approved request and spends its invite code.
    FinalizeRegistration {
        request_id: String,
        invite_code: String,
        username: String,
        password_hash: String,
    },
    /// Registration requests that are `PENDING` or `LOCKED`.
    ListPendingRequests,
    /// The relationships one hop around a user.
    UserNeighborhood { user_id: String },
    /// The name of a user.
    UserName { user_id: String },
}

/// The answer to a query that looks for one row: the query failed (with
/// a description of the failure), found nothing, or found a row.
#[derive(Debug, PartialEq, Eq)]
pub enum Lookup<T> {
    Failed(String),
    Missing,
    Found(T),
}

/// The end of a handler: writes to run, in order, and then the reply.
#[derive(Debug, PartialEq, Eq)]
pub struct Outcome<T> {
    pub writes: Vec<DbQuery>,
    pub reply: Reply<T>,
}

/// An outcome with no writes.
pub fn reply_only<T>(reply: Reply<T>) -> (o: Outcome<T>)
    ensures
        o.writes@ == Seq::<DbQuery>::empty(),
        o.reply == reply,
{
    Outcome { writes: Vec::new(), reply }
}

} // verus!
