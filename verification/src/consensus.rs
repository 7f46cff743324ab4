//! Consensus on registration requests: users vote on a request; once more
//! than half of all users approve, a voter may lock it; once more than
//! half of all users confirm a lock within a day, the user is created.
use vstd::prelude::*;
use vstd::string::StringExecFns;
use crate::api::{
    AuthResponse, ConsensusPayload, PendingRequestInfo, Reply, Status, VotePayload, error_reply,
    error_with_detail, is_error, text_is,
};
use crate::db::{DbQuery, Lookup, Outcome, reply_only};

verus! {

/// More than half of `total`.
pub open spec fn has_majority(count: int, total: int) -> bool {
    2 * count > total
}

/// A majority is more approvals than the rest of the total: it holds exactly
/// when `count` exceeds `total - count`; half of an even total is not enough,
/// one more is.
pub proof fn law_majority(count: int, total: int, k: int)
    ensures
        has_majority(count, total) <==> count > total - count,
        !has_majority(k, 2 * k),
        has_majority(k + 1, 2 * k),
        has_majority(k + 1, 2 * k + 1),
        !has_majority(k, 2 * k + 1),
{
}

/// Twice `count` fits in an `i64`.
pub open spec fn doubles_in_i64(count: i64) -> bool {
    i64::MIN <= 2 * count <= i64::MAX
}

/// Whether `count` is more than half of `total`.
pub fn majority(count: i64, total: i64) -> (r: bool)
    requires
        doubles_in_i64(count),
    ensures
        r == has_majority(count as int, total as int),
{
    !(count * 2 <= total)
}

/// The status of a request, `PENDING` when the database gave none.
pub open spec fn status_or_pending(status: Option<String>) -> Seq<char> {
    match status {
        Some(s) => s@,
        None => "PENDING"@,
    }
}

/// A status the database gives is used as it is, whatever its text; only an
/// absent status counts as `PENDING`.
pub proof fn law_stored_status_used_as_is(s: String)
    ensures
        status_or_pending(Some(s)) == s@,
        status_or_pending(None) == "PENDING"@,
{
}

/// The status of a request, `PENDING` when the database gave none.
fn effective_status(status: Option<String>) -> (r: String)
    ensures
        r@ == status_or_pending(status),
{
    match status {
        Some(s) => s,
        None => String::from_str("PENDING"),
    }
}

/// The writes that put a request back to `PENDING`: clear its lock, then
/// delete its confirmations.
pub open spec fn reset_writes(request_id: String) -> Seq<DbQuery> {
    seq![DbQuery::ResetRequest { request_id }, DbQuery::DeleteConfirmations { request_id }]
}

/// A reset is two writes on the same request: first the lock is cleared and
/// the status put back, then the confirmations are deleted.
pub proof fn law_reset_writes(request_id: String)
    ensures
        reset_writes(request_id).len() == 2,
        reset_writes(request_id)[0] == (DbQuery::ResetRequest { request_id }),
        reset_writes(request_id)[1] == (DbQuery::DeleteConfirmations { request_id }),
{
}

fn make_reset_writes(request_id: &String) -> (r: Vec<DbQuery>)
    ensures
        r@ == reset_writes(*request_id),
{
    let mut w: Vec<DbQuery> = Vec::new();
    w.push(DbQuery::ResetRequest { request_id: request_id.clone() });
    w.push(DbQuery::DeleteConfirmations { request_id: request_id.clone() });
    assert(w@ =~= reset_writes(*request_id));
    w
}

/// The status a request has after a write, as the write's query sets it:
/// a lock makes it `LOCKED`, a reset `PENDING`, a finalisation `APPROVED`;
/// other writes leave it.
pub open spec fn status_after_write(status: Seq<char>, w: DbQuery) -> Seq<char> {
    match w {
        DbQuery::LockRequest { .. } => "LOCKED"@,
        DbQuery::ResetRequest { .. } => "PENDING"@,
        DbQuery::FinalizeRegistration { .. } => "APPROVED"@,
        _ => status,
    }
}

/// The status a request has after a list of writes.
pub open spec fn status_after(status: Seq<char>, writes: Seq<DbQuery>) -> Seq<char>
    decreases writes.len(),
{
    if writes.len() == 0 {
        status
    } else {
        status_after_write(status_after(status, writes.drop_last()), writes.last())
    }
}

/// Resetting puts any request back to `PENDING`.
pub proof fn lemma_reset_status(status: Seq<char>, request_id: String)
    ensures
        status_after(status, reset_writes(request_id)) == "PENDING"@,
{
    let w = reset_writes(request_id);
    assert(w.drop_last().drop_last() =~= Seq::<DbQuery>::empty());
    assert(w.drop_last().last() == DbQuery::ResetRequest { request_id });
    assert(status_after(status, w.drop_last()) == "PENDING"@);
}

/// Prefix of the reply when a query fails.
pub open spec fn msg_db_error() -> Seq<char> {
    "Lỗi DB: "@
}

/// Reply when the voter or the request does not exist.
pub open spec fn msg_vote_target_missing() -> Seq<char> {
    "User hoặc Request không tồn tại"@
}

/// Reply to a recorded vote.
pub open spec fn msg_vote_recorded() -> Seq<char> {
    "Cập nhật phiếu bầu thành công"@
}

/// Reply when the request does not exist.
pub open spec fn msg_request_missing() -> Seq<char> {
    "Request không tồn tại"@
}

/// Reply when a request to lock is not pending.
pub open spec fn msg_not_pending() -> Seq<char> {
    "Request không ở trạng thái PENDING"@
}

/// Reply when the approvals are not more than half of the users.
pub open spec fn msg_no_majority() -> Seq<char> {
    "Số phiếu chưa vượt quá 50%"@
}

/// Reply when the user who locks has not approved.
pub open spec fn msg_not_approved_by_caller() -> Seq<char> {
    "Bạn chưa bỏ phiếu đồng ý, không thể chốt"@
}

/// Reply to a lock.
pub open spec fn msg_locked() -> Seq<char> {
    "Chốt đồng thuận thành công"@
}

/// Reply when a request to confirm is not locked.
pub open spec fn msg_not_locked() -> Seq<char> {
    "Request không ở trạng thái LOCKED"@
}

/// Reply when the lock is older than a day.
pub open spec fn msg_lock_expired() -> Seq<char> {
    "Đã quá hạn 1 ngày. Yêu cầu đã bị hủy chốt và quay lại trạng thái ban đầu."@
}

/// Reply when the confirmation completes the registration.
pub open spec fn msg_account_created() -> Seq<char> {
    "Tạo tài khoản thành công!"@
}

/// Reply when more confirmations are needed.
pub open spec fn msg_confirmation_recorded() -> Seq<char> {
    "Xác nhận thành công. Chờ thêm người xác nhận."@
}

// ---------------------------------------------------------------- vote

/// A vote being processed.
#[derive(Debug, PartialEq, Eq)]
pub struct VoteCast {
    pub user_id: String,
    pub request_id: String,
    pub approve: bool,
}

/// What the vote handler does after recording the vote.
#[derive(Debug, PartialEq, Eq)]
pub enum VoteNext {
    /// Count the users and approvals; answer with `vote_on_tally`.
    Tally(VoteCast, DbQuery),
    /// Finish.
    Finish(Outcome<AuthResponse>),
}

/// The reply to a processed vote.
pub open spec fn is_vote_reply(a: AuthResponse, st: VoteCast) -> bool {
    &&& a.message@ == msg_vote_recorded()
    &&& a.user_id == Some(st.user_id)
    &&& !a.is_genesis
    &&& a.invite_codes@.len() == 0
    &&& a.request_id == Some(st.request_id)
}

fn vote_reply(st: VoteCast) -> (a: AuthResponse)
    ensures
        is_vote_reply(a, st),
{
    AuthResponse {
        message: String::from_str("Cập nhật phiếu bầu thành công"),
        user_id: Some(st.user_id),
        is_genesis: false,
        invite_codes: Vec::new(),
        request_id: Some(st.request_id),
    }
}

/// Starts the vote handler: records (or changes) the vote.
pub fn vote_begin(payload: VotePayload) -> (r: (VoteCast, DbQuery))
    ensures
        r.0 == (VoteCast { user_id: payload.user_id, request_id: payload.request_id, approve: payload.approve }),
        r.1 == (DbQuery::RecordVote {
            user_id: payload.user_id,
            request_id: payload.request_id,
            approve: payload.approve,
        }),
{
    let q = DbQuery::RecordVote {
        user_id: payload.user_id.clone(),
        request_id: payload.request_id.clone(),
        approve: payload.approve,
    };
    (VoteCast { user_id: payload.user_id, request_id: payload.request_id, approve: payload.approve }, q)
}

/// After recording the vote, given the request's status: a rejection of a
/// `LOCKED` request leads to counting the approvals; otherwise the vote
/// is simply acknowledged.
pub fn vote_on_status(st: VoteCast, lookup: Lookup<Option<String>>) -> (r: VoteNext)
    ensures
        lookup matches Lookup::Found(Some(s)) ==> ((r is Tally) <==> (s@ == "LOCKED"@ && !st.approve)),
        lookup == Lookup::<Option<String>>::Found(None) ==> r is Finish,
        match lookup {
            Lookup::Failed(detail) => r matches VoteNext::Finish(o) && o.writes@.len() == 0 && (o.reply matches Err(
                e,
            ) && is_error(e, Status::InternalServerError, msg_db_error() + detail@)),
            Lookup::Missing => r matches VoteNext::Finish(o) && o.writes@.len() == 0 && (o.reply matches Err(e)
                && is_error(e, Status::BadRequest, msg_vote_target_missing())),
            Lookup::Found(status) => if status_or_pending(status) == "LOCKED"@ && !st.approve {
                r == VoteNext::Tally(st, DbQuery::TallyApprovals { request_id: st.request_id })
            } else {
                r matches VoteNext::Finish(o) && o.writes@.len() == 0 && (o.reply matches Ok(a)
                    && is_vote_reply(a, st))
            },
        },
{
    proof {
        reveal_strlit("PENDING");
        reveal_strlit("LOCKED");
        assert("PENDING"@.len() != "LOCKED"@.len());
    }
    match lookup {
        Lookup::Failed(detail) => VoteNext::Finish(
            reply_only(Err(error_with_detail(Status::InternalServerError, "Lỗi DB: ", detail.as_str()))),
        ),
        Lookup::Missing => VoteNext::Finish(
            reply_only(Err(error_reply(Status::BadRequest, "User hoặc Request không tồn tại"))),
        ),
        Lookup::Found(status) => {
            let status = effective_status(status);
            if text_is(&status, "LOCKED") && !st.approve {
                let q = DbQuery::TallyApprovals { request_id: st.request_id.clone() };
                VoteNext::Tally(st, q)
            } else {
                VoteNext::Finish(reply_only(Ok(vote_reply(st))))
            }
        },
    }
}

/// The writes after a rejection of a locked request: none while the
/// approvals are more than half of the users, else the reset.
pub open spec fn vote_tally_writes(request_id: String, total_users: int, total_approves: int) -> Seq<DbQuery> {
    if has_majority(total_approves, total_users) {
        Seq::empty()
    } else {
        reset_writes(request_id)
    }
}

/// After a rejection of a locked request, given the number of users and of
/// approvals: when the approvals are no longer more than half of the
/// users, the request is put back to `PENDING`. The vote is acknowledged.
pub fn vote_on_tally(st: VoteCast, total_users: i64, total_approves: i64) -> (r: Outcome<AuthResponse>)
    requires
        doubles_in_i64(total_approves),
    ensures
        r.writes@ == vote_tally_writes(st.request_id, total_users as int, total_approves as int),
        status_after("LOCKED"@, r.writes@) == if has_majority(total_approves as int, total_users as int) {
            "LOCKED"@
        } else {
            "PENDING"@
        },
        r.reply matches Ok(a) && is_vote_reply(a, st),
{
    proof {
        lemma_reset_status("LOCKED"@, st.request_id);
    }
    let writes = if majority(total_approves, total_users) {
        Vec::new()
    } else {
        make_reset_writes(&st.request_id)
    };
    Outcome { writes, reply: Ok(vote_reply(st)) }
}

// ---------------------------------------------------------------- lock

/// A lock attempt: the user who locks and the request.
#[derive(Debug, PartialEq, Eq)]
pub struct LockAttempt {
    pub user_id: String,
    pub request_id: String,
}

/// The users, approvals and status of a request.
#[derive(Debug, PartialEq, Eq)]
pub struct ApprovalTally {
    pub total_users: i64,
    pub total_approves: i64,
    pub status: Option<String>,
}

/// What the lock handler does after the tally.
#[derive(Debug, PartialEq, Eq)]
pub enum LockNext {
    /// Look for the caller's approving vote; answer with `lock_on_own_vote`.
    CheckOwnVote(LockAttempt, DbQuery),
    /// Finish.
    Finish(Outcome<AuthResponse>),
}

/// Starts the lock handler: counts users and approvals, reads the status.
pub fn lock_begin(payload: ConsensusPayload) -> (r: (LockAttempt, DbQuery))
    ensures
        r.0 == (LockAttempt { user_id: payload.user_id, request_id: payload.request_id }),
        r.1 == (DbQuery::ApprovalStatus { request_id: payload.request_id }),
{
    let q = DbQuery::ApprovalStatus { request_id: payload.request_id.clone() };
    (LockAttempt { user_id: payload.user_id, request_id: payload.request_id }, q)
}

/// Whether a tally allows a lock, as far as the tally can tell: the request
/// is `PENDING` and more than half of the users approve.
pub open spec fn tally_allows_lock(t: ApprovalTally) -> bool {
    status_or_pending(t.status) == "PENDING"@ && has_majority(t.total_approves as int, t.total_users as int)
}

/// A tally allows a lock exactly when the stored status is `PENDING` (or
/// absent) and the approvals are more than half of the users.
pub proof fn law_tally_allows_lock(t: ApprovalTally)
    ensures
        t.status matches Some(s) ==> (tally_allows_lock(t) <==> (s@ == "PENDING"@ && 2 * t.total_approves
            > t.total_users)),
        t.status is None ==> (tally_allows_lock(t) <==> 2 * t.total_approves > t.total_users),
{
}

/// After the tally: a missing request, a request that is not `PENDING`,
/// or approvals that are not more than half of the users are answered
/// with status 400, in that order; otherwise the caller's own approving
/// vote is looked for.
pub fn lock_on_tally(st: LockAttempt, row: Option<ApprovalTally>) -> (r: LockNext)
    requires
        row matches Some(t) ==> (status_or_pending(t.status) == "PENDING"@ ==> doubles_in_i64(t.total_approves)),
    ensures
        row matches Some(t) ==> (t.status matches Some(s) && s@ != "PENDING"@ ==> r is Finish),
        match row {
            None => r matches LockNext::Finish(o) && o.writes@.len() == 0 && (o.reply matches Err(e)
                && is_error(e, Status::BadRequest, msg_request_missing())),
            Some(t) => if status_or_pending(t.status) != "PENDING"@ {
                r matches LockNext::Finish(o) && o.writes@.len() == 0 && (o.reply matches Err(e)
                    && is_error(e, Status::BadRequest, msg_not_pending()))
            } else if !has_majority(t.total_approves as int, t.total_users as int) {
                r matches LockNext::Finish(o) && o.writes@.len() == 0 && (o.reply matches Err(e)
                    && is_error(e, Status::BadRequest, msg_no_majority()))
            } else {
                r == LockNext::CheckOwnVote(
                    st,
                    DbQuery::FindApprovingVote { user_id: st.user_id, request_id: st.request_id },
                )
            },
        },
{
    match row {
        None => LockNext::Finish(reply_only(Err(error_reply(Status::BadRequest, "Request không tồn tại")))),
        Some(t) => {
            let status = effective_status(t.status);
            if !text_is(&status, "PENDING") {
                LockNext::Finish(
                    reply_only(Err(error_reply(Status::BadRequest, "Request không ở trạng thái PENDING"))),
                )
            } else if !majority(t.total_approves, t.total_users) {
                LockNext::Finish(reply_only(Err(error_reply(Status::BadRequest, "Số phiếu chưa vượt quá 50%"))))
            } else {
                let q = DbQuery::FindApprovingVote {
                    user_id: st.user_id.clone(),
                    request_id: st.request_id.clone(),
                };
                LockNext::CheckOwnVote(st, q)
            }
        },
    }
}

/// After looking for the caller's approving vote: without one the answer is
/// status 400; with one the request is locked by the caller.
pub fn lock_on_own_vote(st: LockAttempt, approved: bool) -> (r: Outcome<AuthResponse>)
    ensures
        !approved ==> r.writes@.len() == 0 && (r.reply matches Err(e) && is_error(
            e,
            Status::BadRequest,
            msg_not_approved_by_caller(),
        )),
        approved ==> r.writes@ == seq![DbQuery::LockRequest { request_id: st.request_id, user_id: st.user_id }]
            && status_after("PENDING"@, r.writes@) == "LOCKED"@ && (r.reply matches Ok(a) && a.message@ == msg_locked() && a.user_id is None && !a.is_genesis
            && a.invite_codes@.len() == 0 && a.request_id == Some(st.request_id)),
{
    if !approved {
        reply_only(Err(error_reply(Status::BadRequest, "Bạn chưa bỏ phiếu đồng ý, không thể chốt")))
    } else {
        let mut writes: Vec<DbQuery> = Vec::new();
        writes.push(DbQuery::LockRequest { request_id: st.request_id.clone(), user_id: st.user_id });
        assert(writes@ =~= seq![DbQuery::LockRequest { request_id: st.request_id, user_id: st.user_id }]);
        assert(writes@.drop_last() =~= Seq::<DbQuery>::empty());
        Outcome {
            writes,
            reply: Ok(
                AuthResponse {
                    message: String::from_str("Chốt đồng thuận thành công"),
                    user_id: None,
                    is_genesis: false,
                    invite_codes: Vec::new(),
                    request_id: Some(st.request_id),
                },
            ),
        }
    }
}

// ---------------------------------------------------------------- confirm

/// A confirmation attempt: the user who confirms and the request.
#[derive(Debug, PartialEq, Eq)]
pub struct ConfirmAttempt {
    pub user_id: String,
    pub request_id: String,
}

/// The status and registration data of a request, each possibly absent.
#[derive(Debug, PartialEq, Eq)]
pub struct RequestDetailsRow {
    pub status: Option<String>,
    pub invite_code: Option<String>,
    pub username: Option<String>,
    pub password_hash: Option<String>,
}

/// A confirmation of a locked request.
#[derive(Debug, PartialEq, Eq)]
pub struct ConfirmLocked {
    pub user_id: String,
    pub request_id: String,
    pub details: RequestDetailsRow,
}

/// What the confirm handler does next.
#[derive(Debug, PartialEq, Eq)]
pub enum ConfirmNext {
    /// Ask whether the lock is older than a day; answer with
    /// `confirm_on_timeout`.
    CheckTimeout(ConfirmLocked, DbQuery),
    /// Run the writes, then count users and confirmations; answer with
    /// `confirm_on_tally`.
    Count(ConfirmLocked, Vec<DbQuery>, DbQuery),
    /// Finish.
    Finish(Outcome<AuthResponse>),
}

/// Starts the confirm handler: reads the request.
pub fn confirm_begin(payload: ConsensusPayload) -> (r: (ConfirmAttempt, DbQuery))
    ensures
        r.0 == (ConfirmAttempt { user_id: payload.user_id, request_id: payload.request_id }),
        r.1 == (DbQuery::RequestDetails { request_id: payload.request_id }),
{
    let q = DbQuery::RequestDetails { request_id: payload.request_id.clone() };
    (ConfirmAttempt { user_id: payload.user_id, request_id: payload.request_id }, q)
}

/// After reading the request: a missing request or one that is not
/// `LOCKED` is answered with status 400; otherwise the age of the lock is
/// asked for.
pub fn confirm_on_details(st: ConfirmAttempt, row: Option<RequestDetailsRow>) -> (r: ConfirmNext)
    ensures
        row matches Some(d) ==> (d.status matches Some(s) ==> ((r is CheckTimeout) <==> s@ == "LOCKED"@)),
        row is Some && row->0.status is None ==> r is Finish,
        match row {
            None => r matches ConfirmNext::Finish(o) && o.writes@.len() == 0 && (o.reply matches Err(e)
                && is_error(e, Status::BadRequest, msg_request_missing())),
            Some(d) => if status_or_pending(d.status) != "LOCKED"@ {
                r matches ConfirmNext::Finish(o) && o.writes@.len() == 0 && (o.reply matches Err(e)
                    && is_error(e, Status::BadRequest, msg_not_locked()))
            } else {
                r == ConfirmNext::CheckTimeout(
                    ConfirmLocked { user_id: st.user_id, request_id: st.request_id, details: d },
                    DbQuery::CheckLockTimeout { request_id: st.request_id },
                )
            },
        },
{
    proof {
        reveal_strlit("PENDING");
        reveal_strlit("LOCKED");
        assert("PENDING"@.len() != "LOCKED"@.len());
    }
    match row {
        None => ConfirmNext::Finish(reply_only(Err(error_reply(Status::BadRequest, "Request không tồn tại")))),
        Some(d) => {
            let status = effective_status(d.status.clone());
            if !text_is(&status, "LOCKED") {
                ConfirmNext::Finish(
                    reply_only(Err(error_reply(Status::BadRequest, "Request không ở trạng thái LOCKED"))),
                )
            } else {
                let q = DbQuery::CheckLockTimeout { request_id: st.request_id.clone() };
                ConfirmNext::CheckTimeout(
                    ConfirmLocked { user_id: st.user_id, request_id: st.request_id, details: d },
                    q,
                )
            }
        },
    }
}

/// After asking for the lock's age (absent counts as not expired): an
/// expired lock is undone and answered with status 400; otherwise the
/// caller's confirmation is recorded and the confirmations are counted.
pub fn confirm_on_timeout(st: ConfirmLocked, is_timeout: Option<bool>) -> (r: ConfirmNext)
    ensures
        is_timeout == Some(true) ==> (r matches ConfirmNext::Finish(o) && o.writes@ == reset_writes(
            st.request_id,
        ) && status_after("LOCKED"@, o.writes@) == "PENDING"@ && (o.reply matches Err(e) && is_error(e, Status::BadRequest, msg_lock_expired()))),
        is_timeout != Some(true) ==> (r matches ConfirmNext::Count(c, writes, q) && c == st && writes@
            == seq![DbQuery::RecordConfirmation { user_id: st.user_id, request_id: st.request_id }] && q
            == DbQuery::TallyConfirmations { request_id: st.request_id }),
{
    let expired = match is_timeout {
        Some(b) => b,
        None => false,
    };
    if expired {
        let writes = make_reset_writes(&st.request_id);
        proof {
            lemma_reset_status("LOCKED"@, st.request_id);
        }
        let o = Outcome {
            writes,
            reply: Err(
                error_reply(
                    Status::BadRequest,
                    "Đã quá hạn 1 ngày. Yêu cầu đã bị hủy chốt và quay lại trạng thái ban đầu.",
                ),
            ),
        };
        ConfirmNext::Finish(o)
    } else {
        let mut writes: Vec<DbQuery> = Vec::new();
        writes.push(DbQuery::RecordConfirmation { user_id: st.user_id.clone(), request_id: st.request_id.clone() });
        assert(writes@ =~= seq![DbQuery::RecordConfirmation { user_id: st.user_id, request_id: st.request_id }]);
        let q = DbQuery::TallyConfirmations { request_id: st.request_id.clone() };
        ConfirmNext::Count(st, writes, q)
    }
}

/// The registration data of a request is all there.
pub open spec fn details_complete(d: RequestDetailsRow) -> bool {
    d.invite_code is Some && d.username is Some && d.password_hash is Some
}

/// After recording the confirmation, given the number of users and of
/// confirmations: when the confirmations are more than half of the users
/// the registration is finalised and the new user's id (the request id) is
/// returned; otherwise the confirmation is acknowledged.
pub fn confirm_on_tally(st: ConfirmLocked, total_users: i64, total_confirms: i64) -> (r: Outcome<AuthResponse>)
    requires
        doubles_in_i64(total_confirms),
        has_majority(total_confirms as int, total_users as int) ==> details_complete(st.details),
    ensures
        has_majority(total_confirms as int, total_users as int) ==> r.writes@ == seq![
            DbQuery::FinalizeRegistration {
                request_id: st.request_id,
                invite_code: st.details.invite_code->0,
                username: st.details.username->0,
                password_hash: st.details.password_hash->0,
            },
        ] && status_after("LOCKED"@, r.writes@) == "APPROVED"@ && (r.reply matches Ok(a) && a.message@ == msg_account_created() && a.user_id == Some(
            st.request_id,
        ) && !a.is_genesis && a.invite_codes@.len() == 0 && a.request_id is None),
        !has_majority(total_confirms as int, total_users as int) ==> r.writes@.len() == 0 && (r.reply matches Ok(
            a,
        ) && a.message@ == msg_confirmation_recorded() && a.user_id is None && !a.is_genesis
            && a.invite_codes@.len() == 0 && a.request_id == Some(st.request_id)),
{
    if majority(total_confirms, total_users) {
        let invite_code = st.details.invite_code.unwrap();
        let username = st.details.username.unwrap();
        let password_hash = st.details.password_hash.unwrap();
        let ghost expected = DbQuery::FinalizeRegistration {
            request_id: st.request_id,
            invite_code,
            username,
            password_hash,
        };
        let mut writes: Vec<DbQuery> = Vec::new();
        writes.push(
            DbQuery::FinalizeRegistration { request_id: st.request_id.clone(), invite_code, username, password_hash },
        );
        assert(writes@ =~= seq![expected]);
        assert(writes@.drop_last() =~= Seq::<DbQuery>::empty());
        Outcome {
            writes,
            reply: Ok(
                AuthResponse {
                    message: String::from_str("Tạo tài khoản thành công!"),
                    user_id: Some(st.request_id),
                    is_genesis: false,
                    invite_codes: Vec::new(),
                    request_id: None,
                },
            ),
        }
    } else {
        reply_only(Ok(confirm_ack(st.request_id)))
    }
}

fn confirm_ack(request_id: String) -> (a: AuthResponse)
    ensures
        a.message@ == msg_confirmation_recorded(),
        a.user_id is None,
        !a.is_genesis,
        a.invite_codes@.len() == 0,
        a.request_id == Some(request_id),
{
    AuthResponse {
        message: String::from_str("Xác nhận thành công. Chờ thêm người xác nhận."),
        user_id: None,
        is_genesis: false,
        invite_codes: Vec::new(),
        request_id: Some(request_id),
    }
}

// ---------------------------------------------------------------- pending

/// A pending request as the database returns it.
#[derive(Debug, PartialEq, Eq)]
pub struct PendingRow {
    pub id: String,
    pub username: String,
    pub invite_code: String,
    pub status: String,
    pub locked_by: Option<String>,
    pub locked_at: Option<String>,
    /// Ids of the approving voters; absent when the column cannot be read.
    pub voted_by: Option<Vec<String>>,
}

/// The listing of a row: its fields, with no voters when the voters are
/// absent.
pub open spec fn lists_row(info: PendingRequestInfo, row: PendingRow) -> bool {
    &&& info.id == row.id
    &&& info.username == row.username
    &&& info.invite_code == row.invite_code
    &&& info.status == row.status
    &&& info.locked_by == row.locked_by
    &&& info.locked_at == row.locked_at
    &&& info.voted_by@ == match row.voted_by {
        Some(v) => v@,
        None => Seq::<String>::empty(),
    }
}

/// A listing carries its row's own fields: the same id, user name, invite
/// code, status, lock holder and lock time, and the row's voters (none when
/// the row has none).
pub proof fn law_listing_keeps_fields(info: PendingRequestInfo, row: PendingRow)
    requires
        lists_row(info, row),
    ensures
        info.id == row.id,
        info.username == row.username,
        info.invite_code == row.invite_code,
        info.status == row.status,
        info.locked_by == row.locked_by,
        info.locked_at == row.locked_at,
        row.voted_by matches Some(v) ==> info.voted_by@ == v@,
        row.voted_by is None ==> info.voted_by@.len() == 0,
{
}

/// The query that lists the pending requests.
pub fn pending_requests_query() -> (q: DbQuery)
    ensures
        q == DbQuery::ListPendingRequests,
{
    DbQuery::ListPendingRequests
}

fn list_row(row: PendingRow) -> (info: PendingRequestInfo)
    ensures
        lists_row(info, row),
{
    let voted_by = match row.voted_by {
        Some(v) => v,
        None => Vec::new(),
    };
    PendingRequestInfo {
        id: row.id,
        username: row.username,
        invite_code: row.invite_code,
        status: row.status,
        locked_by: row.locked_by,
        locked_at: row.locked_at,
        voted_by,
    }
}

/// The reply listing the pending requests, in the order of the rows; a
/// failed query is answered with status 500.
pub fn pending_requests_reply(result: Result<Vec<PendingRow>, String>) -> (r: Reply<Vec<PendingRequestInfo>>)
    ensures
        match result {
            Err(detail) => r matches Err(e) && is_error(e, Status::InternalServerError, msg_db_error() + detail@),
            Ok(rows) => r matches Ok(list) && list@.len() == rows@.len() && (forall|i: int|
                0 <= i < rows@.len() ==> lists_row(#[trigger] list@[i], rows@[i])) && (forall|i: int|
                0 <= i < rows@.len() ==> {
                    &&& (#[trigger] list@[i]).id == rows@[i].id
                    &&& list@[i].username == rows@[i].username
                    &&& list@[i].invite_code == rows@[i].invite_code
                    &&& list@[i].status == rows@[i].status
                    &&& list@[i].locked_by == rows@[i].locked_by
                    &&& list@[i].locked_at == rows@[i].locked_at
                }),
        },
{
    match result {
        Err(detail) => Err(error_with_detail(Status::InternalServerError, "Lỗi DB: ", detail.as_str())),
        Ok(rows) => {
            let mut list: Vec<PendingRequestInfo> = Vec::new();
            let mut rest = rows;
            let ghost all = rest@;
            while rest.len() > 0
                invariant
                    list@.len() <= all.len(),
                    rest@ == all.skip(list@.len() as int),
                    forall|j: int| 0 <= j < list@.len() ==> lists_row(#[trigger] list@[j], all[j]),
                decreases rest@.len(),
            {
                let row = rest.remove(0);
                proof {
                    assert(row == all[list@.len() as int]);
                }
                list.push(list_row(row));
                proof {
                    assert(rest@ =~= all.skip(list@.len() as int));
                }
            }
            Ok(list)
        },
    }
}

} // verus!
