use backend::api::{ConsensusPayload, Status, VotePayload};
use backend::consensus::{
    confirm_begin, confirm_on_details, confirm_on_tally, confirm_on_timeout, lock_begin,
    lock_on_own_vote, lock_on_tally, majority, pending_requests_query, pending_requests_reply,
    vote_begin, vote_on_status, vote_on_tally, ApprovalTally, ConfirmAttempt, ConfirmLocked,
    ConfirmNext, LockAttempt, LockNext, PendingRow, RequestDetailsRow, VoteCast, VoteNext,
};
use backend::db::{DbQuery, Lookup};

fn s(x: &str) -> String {
    x.to_string()
}

fn cast(approve: bool) -> VoteCast {
    VoteCast { user_id: s("u-1"), request_id: s("r-1"), approve }
}

fn reset(id: &str) -> Vec<DbQuery> {
    vec![DbQuery::ResetRequest { request_id: s(id) }, DbQuery::DeleteConfirmations { request_id: s(id) }]
}

#[test]
fn majority_is_strictly_more_than_half() {
    assert!(!majority(2, 4));
    assert!(majority(3, 4));
    assert!(majority(1, 1));
    assert!(!majority(0, 0));
    assert!(majority(2, 3));
    assert!(!majority(1, 3));
}

#[test]
fn vote_begin_records_vote() {
    let (st, q) = vote_begin(VotePayload { user_id: s("u-1"), request_id: s("r-1"), approve: true });
    assert_eq!(st, cast(true));
    assert_eq!(q, DbQuery::RecordVote { user_id: s("u-1"), request_id: s("r-1"), approve: true });
}

#[test]
fn vote_errors() {
    match vote_on_status(cast(true), Lookup::Failed(s("down"))) {
        VoteNext::Finish(o) => {
            assert!(o.writes.is_empty());
            let e = o.reply.unwrap_err();
            assert_eq!(e.status.code(), 500);
            assert_eq!(e.body.message, "Lỗi DB: down");
        }
        other => panic!("unexpected {:?}", other),
    }
    match vote_on_status(cast(true), Lookup::Missing) {
        VoteNext::Finish(o) => {
            let e = o.reply.unwrap_err();
            assert_eq!(e.status, Status::BadRequest);
            assert_eq!(e.body.message, "User hoặc Request không tồn tại");
        }
        other => panic!("unexpected {:?}", other),
    }
}

#[test]
fn vote_on_pending_or_approving_is_acknowledged() {
    for (approve, status) in [(false, Some(s("PENDING"))), (true, Some(s("LOCKED"))), (false, None)] {
        match vote_on_status(cast(approve), Lookup::Found(status)) {
            VoteNext::Finish(o) => {
                assert!(o.writes.is_empty());
                let a = o.reply.unwrap();
                assert_eq!(a.message, "Cập nhật phiếu bầu thành công");
                assert_eq!(a.user_id, Some(s("u-1")));
                assert_eq!(a.request_id, Some(s("r-1")));
                assert!(!a.is_genesis);
            }
            other => panic!("unexpected {:?}", other),
        }
    }
}

#[test]
fn rejecting_a_locked_request_counts_approvals() {
    match vote_on_status(cast(false), Lookup::Found(Some(s("LOCKED")))) {
        VoteNext::Tally(st, q) => {
            assert_eq!(st, cast(false));
            assert_eq!(q, DbQuery::TallyApprovals { request_id: s("r-1") });
        }
        other => panic!("unexpected {:?}", other),
    }
}

#[test]
fn rejection_resets_lock_when_majority_is_lost() {
    let o = vote_on_tally(cast(false), 4, 2);
    assert_eq!(o.writes, reset("r-1"));
    assert_eq!(o.reply.unwrap().message, "Cập nhật phiếu bầu thành công");
    let o = vote_on_tally(cast(false), 4, 3);
    assert!(o.writes.is_empty());
    assert!(o.reply.is_ok());
}

fn attempt() -> LockAttempt {
    LockAttempt { user_id: s("u-2"), request_id: s("r-2") }
}

#[test]
fn lock_begin_reads_tally() {
    let (st, q) = lock_begin(ConsensusPayload { user_id: s("u-2"), request_id: s("r-2") });
    assert_eq!(st, attempt());
    assert_eq!(q, DbQuery::ApprovalStatus { request_id: s("r-2") });
}

fn lock_error(next: LockNext) -> (u16, String) {
    match next {
        LockNext::Finish(o) => {
            assert!(o.writes.is_empty());
            let e = o.reply.unwrap_err();
            (e.status.code(), e.body.message)
        }
        other => panic!("unexpected {:?}", other),
    }
}

#[test]
fn lock_refusals_in_order() {
    assert_eq!(lock_error(lock_on_tally(attempt(), None)), (400, s("Request không tồn tại")));
    let t = ApprovalTally { total_users: 4, total_approves: 4, status: Some(s("LOCKED")) };
    assert_eq!(lock_error(lock_on_tally(attempt(), Some(t))), (400, s("Request không ở trạng thái PENDING")));
    let t = ApprovalTally { total_users: 4, total_approves: 2, status: Some(s("PENDING")) };
    assert_eq!(lock_error(lock_on_tally(attempt(), Some(t))), (400, s("Số phiếu chưa vượt quá 50%")));
}

#[test]
fn lock_with_majority_checks_own_vote() {
    for status in [Some(s("PENDING")), None] {
        let t = ApprovalTally { total_users: 4, total_approves: 3, status };
        match lock_on_tally(attempt(), Some(t)) {
            LockNext::CheckOwnVote(st, q) => {
                assert_eq!(st, attempt());
                assert_eq!(q, DbQuery::FindApprovingVote { user_id: s("u-2"), request_id: s("r-2") });
            }
            other => panic!("unexpected {:?}", other),
        }
    }
}

#[test]
fn lock_needs_callers_approval() {
    let o = lock_on_own_vote(attempt(), false);
    assert!(o.writes.is_empty());
    let e = o.reply.unwrap_err();
    assert_eq!(e.status.code(), 400);
    assert_eq!(e.body.message, "Bạn chưa bỏ phiếu đồng ý, không thể chốt");
    let o = lock_on_own_vote(attempt(), true);
    assert_eq!(o.writes, vec![DbQuery::LockRequest { request_id: s("r-2"), user_id: s("u-2") }]);
    let a = o.reply.unwrap();
    assert_eq!(a.message, "Chốt đồng thuận thành công");
    assert_eq!(a.user_id, None);
    assert_eq!(a.request_id, Some(s("r-2")));
}

fn details(status: Option<&str>) -> RequestDetailsRow {
    RequestDetailsRow {
        status: status.map(s),
        invite_code: Some(s("INA-1")),
        username: Some(s("frank")),
        password_hash: Some(s("$2b$12$hash")),
    }
}

fn locked() -> ConfirmLocked {
    ConfirmLocked { user_id: s("u-3"), request_id: s("r-3"), details: details(Some("LOCKED")) }
}

#[test]
fn confirm_begin_reads_request() {
    let (st, q) = confirm_begin(ConsensusPayload { user_id: s("u-3"), request_id: s("r-3") });
    assert_eq!(st, ConfirmAttempt { user_id: s("u-3"), request_id: s("r-3") });
    assert_eq!(q, DbQuery::RequestDetails { request_id: s("r-3") });
}

#[test]
fn confirm_refusals() {
    let at = || ConfirmAttempt { user_id: s("u-3"), request_id: s("r-3") };
    for (row, msg) in [
        (None, "Request không tồn tại"),
        (Some(details(Some("PENDING"))), "Request không ở trạng thái LOCKED"),
        (Some(details(None)), "Request không ở trạng thái LOCKED"),
    ] {
        match confirm_on_details(at(), row) {
            ConfirmNext::Finish(o) => {
                let e = o.reply.unwrap_err();
                assert_eq!(e.status.code(), 400);
                assert_eq!(e.body.message, msg);
            }
            other => panic!("unexpected {:?}", other),
        }
    }
    match confirm_on_details(at(), Some(details(Some("LOCKED")))) {
        ConfirmNext::CheckTimeout(st, q) => {
            assert_eq!(st, locked());
            assert_eq!(q, DbQuery::CheckLockTimeout { request_id: s("r-3") });
        }
        other => panic!("unexpected {:?}", other),
    }
}

#[test]
fn expired_lock_is_undone() {
    match confirm_on_timeout(locked(), Some(true)) {
        ConfirmNext::Finish(o) => {
            assert_eq!(o.writes, reset("r-3"));
            let e = o.reply.unwrap_err();
            assert_eq!(e.status.code(), 400);
            assert_eq!(
                e.body.message,
                "Đã quá hạn 1 ngày. Yêu cầu đã bị hủy chốt và quay lại trạng thái ban đầu."
            );
        }
        other => panic!("unexpected {:?}", other),
    }
}

#[test]
fn live_lock_records_confirmation() {
    for t in [Some(false), None] {
        match confirm_on_timeout(locked(), t) {
            ConfirmNext::Count(st, writes, q) => {
                assert_eq!(st, locked());
                assert_eq!(writes, vec![DbQuery::RecordConfirmation { user_id: s("u-3"), request_id: s("r-3") }]);
                assert_eq!(q, DbQuery::TallyConfirmations { request_id: s("r-3") });
            }
            other => panic!("unexpected {:?}", other),
        }
    }
}

#[test]
fn majority_of_confirmations_creates_account() {
    let o = confirm_on_tally(locked(), 5, 3);
    assert_eq!(
        o.writes,
        vec![DbQuery::FinalizeRegistration {
            request_id: s("r-3"),
            invite_code: s("INA-1"),
            username: s("frank"),
            password_hash: s("$2b$12$hash"),
        }]
    );
    let a = o.reply.unwrap();
    assert_eq!(a.message, "Tạo tài khoản thành công!");
    assert_eq!(a.user_id, Some(s("r-3")));
    assert_eq!(a.request_id, None);
    assert!(!a.is_genesis);
}

#[test]
fn confirmations_without_majority_wait() {
    let o = confirm_on_tally(locked(), 6, 3);
    assert!(o.writes.is_empty());
    let a = o.reply.unwrap();
    assert_eq!(a.message, "Xác nhận thành công. Chờ thêm người xác nhận.");
    assert_eq!(a.user_id, None);
    assert_eq!(a.request_id, Some(s("r-3")));
}

#[test]
fn pending_requests_listing() {
    assert_eq!(pending_requests_query(), DbQuery::ListPendingRequests);
    let rows = vec![
        PendingRow {
            id: s("r-1"),
            username: s("a"),
            invite_code: s("INA-1"),
            status: s("LOCKED"),
            locked_by: Some(s("u-1")),
            locked_at: None,
            voted_by: Some(vec![s("u-1"), s("u-2")]),
        },
        PendingRow {
            id: s("r-2"),
            username: s("b"),
            invite_code: s("INA-2"),
            status: s("PENDING"),
            locked_by: None,
            locked_at: None,
            voted_by: None,
        },
    ];
    let list = pending_requests_reply(Ok(rows)).unwrap();
    assert_eq!(list.len(), 2);
    assert_eq!(list[0].id, "r-1");
    assert_eq!(list[0].status, "LOCKED");
    assert_eq!(list[0].locked_by, Some(s("u-1")));
    assert_eq!(list[0].voted_by, vec![s("u-1"), s("u-2")]);
    assert_eq!(list[1].id, "r-2");
    assert_eq!(list[1].invite_code, "INA-2");
    assert!(list[1].voted_by.is_empty());
    let e = pending_requests_reply(Err(s("gone"))).unwrap_err();
    assert_eq!(e.status.code(), 500);
    assert_eq!(e.body.message, "Lỗi DB: gone");
    assert!(pending_requests_reply(Ok(Vec::new())).unwrap().is_empty());
}
