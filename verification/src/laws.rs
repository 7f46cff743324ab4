//! Properties that tie several handlers together.
use vstd::prelude::*;
use crate::consensus::{
    ApprovalTally, lemma_reset_status, reset_writes, status_after, tally_allows_lock,
    vote_tally_writes,
};
use crate::db::DbQuery;
use crate::login::{PasswordCheck, password_check};
use crate::outside::bcrypt_verify_outcome;

verus! {

/// A user logs in with the password they registered with: the hash that
/// registration stores (`register_begin` guarantees that bcrypt accepts
/// the registering password against it) passes the login's password
/// check for that same password.
pub proof fn law_login_accepts_registered_password(password: Seq<char>, stored_hash: Seq<char>)
    requires
        bcrypt_verify_outcome(password, stored_hash) == Some(true),
    ensures
        password_check(password, stored_hash) == PasswordCheck::Accepted,
{
}

/// A rejecting vote on a locked request undoes the lock exactly when the
/// approvals no longer pass the threshold that locking a pending request
/// requires: more than half of all users.
pub proof fn law_vote_reset_matches_lock_threshold(request_id: String, total_users: i64, total_approves: i64)
    ensures
        vote_tally_writes(request_id, total_users as int, total_approves as int).len() > 0 <==> !tally_allows_lock(
            ApprovalTally { total_users, total_approves, status: None },
        ),
        vote_tally_writes(request_id, total_users as int, total_approves as int).len() > 0 ==> vote_tally_writes(
            request_id,
            total_users as int,
            total_approves as int,
        ) == reset_writes(request_id),
{
    reveal_strlit("PENDING");
}

/// Whatever its status, a reset puts a request back to `PENDING`; in
/// particular a lock followed by a reset (an expired lock, or a rejecting
/// vote that ends the majority) leaves a pending request pending.
pub proof fn law_reset_undoes_lock(status: Seq<char>, request_id: String, user_id: String)
    ensures
        status_after(status, reset_writes(request_id)) == "PENDING"@,
        status_after(
            status_after("PENDING"@, seq![DbQuery::LockRequest { request_id, user_id }]),
            reset_writes(request_id),
        ) == "PENDING"@,
{
    lemma_reset_status(status, request_id);
    lemma_reset_status(status_after("PENDING"@, seq![DbQuery::LockRequest { request_id, user_id }]), request_id);
}

} // verus!
