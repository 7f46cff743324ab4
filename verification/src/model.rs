//! A model of the graph database: the records the queries touch, what each
//! write does to them and what the reads answer. The Cypher text that
//! `DbQuery` stands for is written to match it; identifiers and invite codes
//! are fresh UUIDs, so the model files each record under its id or code.
use vstd::prelude::*;
use crate::db::DbQuery;
use crate::consensus::has_majority;
use crate::login::{PasswordCheck, password_check};
use crate::outside::bcrypt_verify_outcome;

verus! {

/// A user: name and bcrypt hash of the password.
pub struct UserRec {
    pub username: Seq<char>,
    pub password_hash: Seq<char>,
}

/// An invite code: the user who generated it and whether it is spent.
pub struct InviteRec {
    pub owner: Seq<char>,
    pub used: bool,
}

/// A registration request.
pub struct RequestRec {
    pub username: Seq<char>,
    pub password_hash: Seq<char>,
    pub invite_code: Seq<char>,
    pub status: Seq<char>,
    pub locked_by: Option<Seq<char>>,
    /// Whether `locked_at` is set.
    pub locked: bool,
}

/// The database: users by id, the ids with a genesis edge, invite codes by
/// code, requests by id, votes by (user, request) and confirmations as
/// (user, request) pairs.
pub struct Db {
    pub users: Map<Seq<char>, UserRec>,
    pub genesis: Set<Seq<char>>,
    pub invites: Map<Seq<char>, InviteRec>,
    pub requests: Map<Seq<char>, RequestRec>,
    pub votes: Map<(Seq<char>, Seq<char>), bool>,
    pub confirmations: Set<(Seq<char>, Seq<char>)>,
}

pub open spec fn pending() -> Seq<char> {
    "PENDING"@
}

pub open spec fn locked() -> Seq<char> {
    "LOCKED"@
}

pub open spec fn approved() -> Seq<char> {
    "APPROVED"@
}

/// The three status texts differ.
pub proof fn lemma_statuses_differ()
    ensures
        pending() != locked(),
        pending() != approved(),
        locked() != approved(),
{
    reveal_strlit("PENDING");
    reveal_strlit("LOCKED");
    reveal_strlit("APPROVED");
    assert(pending().len() != locked().len());
    assert(pending().len() != approved().len());
    assert(locked().len() != approved().len());
}

/// An invite code that a registration may use: it exists, is not spent,
/// and its owner is a user (what the invite lookup matches).
pub open spec fn invite_available(db: Db, code: Seq<char>) -> bool {
    &&& db.invites.contains_key(code)
    &&& !db.invites[code].used
    &&& db.users.contains_key(db.invites[code].owner)
}

/// The request with its lock set by a user.
pub open spec fn lock_rec(r: RequestRec, user: Seq<char>) -> RequestRec {
    RequestRec { status: locked(), locked_by: Some(user), locked: true, ..r }
}

/// The request put back to `PENDING` with its lock cleared.
pub open spec fn reset_rec(r: RequestRec) -> RequestRec {
    RequestRec { status: pending(), locked_by: None, locked: false, ..r }
}

/// What a query does to the database. Reads change nothing.
pub open spec fn apply(db: Db, q: DbQuery) -> Db {
    match q {
        DbQuery::CreateRegistrationRequest { request_id, username, password_hash, invite_code } => {
            if invite_available(db, invite_code@) {
                Db {
                    requests: db.requests.insert(
                        request_id@,
                        RequestRec {
                            username: username@,
                            password_hash: password_hash@,
                            invite_code: invite_code@,
                            status: pending(),
                            locked_by: None,
                            locked: false,
                        },
                    ),
                    ..db
                }
            } else {
                db
            }
        },
        DbQuery::CreateGenesisUser { user_id, username, password_hash, system_id } => Db {
            users: db.users.insert(user_id@, UserRec { username: username@, password_hash: password_hash@ }),
            genesis: db.genesis.insert(user_id@),
            ..db
        },
        DbQuery::CreateInvite { user_id, code } => {
            if db.users.contains_key(user_id@) {
                Db { invites: db.invites.insert(code@, InviteRec { owner: user_id@, used: false }), ..db }
            } else {
                db
            }
        },
        DbQuery::RecordVote { user_id, request_id, approve } => {
            if db.users.contains_key(user_id@) && db.requests.contains_key(request_id@) {
                Db { votes: db.votes.insert((user_id@, request_id@), approve), ..db }
            } else {
                db
            }
        },
        DbQuery::ResetRequest { request_id } => {
            if db.requests.contains_key(request_id@) {
                Db { requests: db.requests.insert(request_id@, reset_rec(db.requests[request_id@])), ..db }
            } else {
                db
            }
        },
        DbQuery::DeleteConfirmations { request_id } => Db {
            confirmations: db.confirmations.filter(|p: (Seq<char>, Seq<char>)| p.1 != request_id@),
            ..db
        },
        DbQuery::LockRequest { request_id, user_id } => {
            if db.requests.contains_key(request_id@) {
                Db {
                    requests: db.requests.insert(request_id@, lock_rec(db.requests[request_id@], user_id@)),
                    ..db
                }
            } else {
                db
            }
        },
        DbQuery::RecordConfirmation { user_id, request_id } => {
            if db.users.contains_key(user_id@) && db.requests.contains_key(request_id@) {
                Db { confirmations: db.confirmations.insert((user_id@, request_id@)), ..db }
            } else {
                db
            }
        },
        DbQuery::FinalizeRegistration { request_id, invite_code, username, password_hash } => {
            if db.requests.contains_key(request_id@) && invite_available(db, invite_code@) {
                Db {
                    users: db.users.insert(
                        request_id@,
                        UserRec { username: username@, password_hash: password_hash@ },
                    ),
                    invites: db.invites.insert(
                        invite_code@,
                        InviteRec { used: true, ..db.invites[invite_code@] },
                    ),
                    requests: db.requests.insert(
                        request_id@,
                        RequestRec { status: approved(), ..db.requests[request_id@] },
                    ),
                    ..db
                }
            } else {
                db
            }
        },
        _ => db,
    }
}

/// What a list of writes does, in order.
pub open spec fn apply_all(db: Db, writes: Seq<DbQuery>) -> Db
    decreases writes.len(),
{
    if writes.len() == 0 {
        db
    } else {
        apply(apply_all(db, writes.drop_last()), writes.last())
    }
}

/// The ids of the users with a given name (what the credentials lookup
/// searches).
pub open spec fn users_named(db: Db, username: Seq<char>) -> Set<Seq<char>> {
    db.users.dom().filter(|id: Seq<char>| db.users[id].username == username)
}

/// Whether a user generated a code, and whether it is spent (what the invite
/// list of the login returns, as pairs).
pub open spec fn lists_invite(db: Db, user_id: Seq<char>, code: Seq<char>, used: bool) -> bool {
    db.invites.contains_key(code) && db.invites[code].owner == user_id && db.invites[code].used == used
}

/// The invariant of a well-formed database: finitely many users; genesis ids and invite owners
/// are users; every request is `PENDING` with no lock, `LOCKED` with a lock
/// holder and time, or `APPROVED`; confirmations name existing requests
/// that are not `PENDING`.
pub open spec fn wf(db: Db) -> bool {
    &&& db.users.dom().finite()
    &&& forall|id: Seq<char>| #[trigger] db.genesis.contains(id) ==> db.users.contains_key(id)
    &&& forall|c: Seq<char>| #[trigger] db.invites.contains_key(c) ==> db.users.contains_key(db.invites[c].owner)
    &&& forall|r: Seq<char>| #[trigger] db.requests.contains_key(r) ==> request_ok(db.requests[r])
    &&& forall|p: (Seq<char>, Seq<char>)| #[trigger]
        db.confirmations.contains(p) ==> db.requests.contains_key(p.1) && db.requests[p.1].status != pending()
}

/// A request's status is one of the three, and its lock fields agree with it.
pub open spec fn request_ok(r: RequestRec) -> bool {
    ||| r.status == pending() && r.locked_by is None && !r.locked
    ||| r.status == locked() && r.locked_by is Some && r.locked
    ||| r.status == approved()
}

/// The status moves the consensus allows: none, creation as `PENDING`,
/// `PENDING` to `LOCKED`, `LOCKED` back to `PENDING`, `LOCKED` to `APPROVED`.
pub open spec fn status_move_allowed(before: Option<Seq<char>>, after: Option<Seq<char>>) -> bool {
    ||| before == after
    ||| before is None && after == Some(pending())
    ||| before == Some(pending()) && after == Some(locked())
    ||| before == Some(locked()) && after == Some(pending())
    ||| before == Some(locked()) && after == Some(approved())
}

/// The status of a request, if it exists.
pub open spec fn status_of(db: Db, r: Seq<char>) -> Option<Seq<char>> {
    if db.requests.contains_key(r) {
        Some(db.requests[r].status)
    } else {
        None
    }
}

} // verus!

verus! {

/// A single write, as the handlers issue it, with what the handler had seen
/// of the database when it issued it:
/// - a registration request: its invite code was found available and its
///   id is fresh;
/// - the genesis user: there were no users;
/// - an invite code: the code is fresh;
/// - a vote: always;
/// - a lock: the request was `PENDING`;
/// - a confirmation, or a finalisation with the request's own data: the
///   request was `LOCKED`.
pub open spec fn single_handler_write(db: Db, q: DbQuery) -> bool {
    match q {
        DbQuery::CreateRegistrationRequest { request_id, invite_code, .. } => invite_available(db, invite_code@)
            && !db.requests.contains_key(request_id@),
        DbQuery::CreateGenesisUser { .. } => db.users.dom().is_empty(),
        DbQuery::CreateInvite { code, .. } => !db.invites.contains_key(code@),
        DbQuery::RecordVote { .. } => true,
        DbQuery::LockRequest { request_id, .. } => status_of(db, request_id@) == Some(pending()),
        DbQuery::RecordConfirmation { request_id, .. } => status_of(db, request_id@) == Some(locked()),
        DbQuery::FinalizeRegistration { request_id, invite_code, username, password_hash } => {
            &&& status_of(db, request_id@) == Some(locked())
            &&& invite_code@ == db.requests[request_id@].invite_code
            &&& username@ == db.requests[request_id@].username
            &&& password_hash@ == db.requests[request_id@].password_hash
        },
        _ => false,
    }
}

/// A list of writes as the handlers issue it: one write as above, or the
/// reset of a request that was `LOCKED` (a rejecting vote that ends the
/// majority, or an expired lock).
pub open spec fn handler_writes(db: Db, writes: Seq<DbQuery>) -> bool {
    ||| writes.len() == 1 && single_handler_write(db, writes[0])
    ||| writes.len() == 2 && match (writes[0], writes[1]) {
        (DbQuery::ResetRequest { request_id: a }, DbQuery::DeleteConfirmations { request_id: b }) => a@ == b@
            && status_of(db, a@) == Some(locked()),
        _ => false,
    }
}

proof fn lemma_apply_all_one(db: Db, q: DbQuery)
    ensures
        apply_all(db, seq![q]) == apply(db, q),
{
    assert(seq![q].drop_last() =~= Seq::<DbQuery>::empty());
    assert(apply_all(db, Seq::<DbQuery>::empty()) == db);
    assert(seq![q].last() == q);
}

proof fn lemma_apply_all_two(db: Db, q1: DbQuery, q2: DbQuery)
    ensures
        apply_all(db, seq![q1, q2]) == apply(apply(db, q1), q2),
{
    assert(seq![q1, q2].drop_last() =~= seq![q1]);
    lemma_apply_all_one(db, q1);
}

/// Every write list the handlers issue keeps the database well formed and
/// moves each request's status only along the consensus: created
/// `PENDING`, `PENDING` to `LOCKED` by a lock, `LOCKED` back to `PENDING` by
/// a reset, `LOCKED` to `APPROVED` by a finalisation; an `APPROVED` request
/// never moves. A reset leaves the request without lock and without
/// confirmations.
pub proof fn law_request_lifecycle(db: Db, writes: Seq<DbQuery>)
    requires
        wf(db),
        handler_writes(db, writes),
    ensures
        wf(apply_all(db, writes)),
        forall|r: Seq<char>|
            status_move_allowed(status_of(db, r), #[trigger] status_of(apply_all(db, writes), r)),
        forall|r: Seq<char>|
            status_of(db, r) == Some(approved()) ==> #[trigger] status_of(apply_all(db, writes), r) == Some(
                approved(),
            ),
{
    lemma_statuses_differ();
    if writes.len() == 1 {
        let q = writes[0];
        assert(writes =~= seq![q]);
        lemma_apply_all_one(db, q);
        let db2 = apply(db, q);
        match q {
            DbQuery::CreateRegistrationRequest { request_id, username, password_hash, invite_code } => {
                assert forall|p: (Seq<char>, Seq<char>)| #[trigger] db2.confirmations.contains(p) implies db2.requests.contains_key(p.1)
                    && db2.requests[p.1].status != pending() by {
                    assert(db.requests.contains_key(p.1));
                }
                assert forall|r: Seq<char>| #[trigger] db2.requests.contains_key(r) implies request_ok(db2.requests[r]) by {
                    if r != request_id@ {
                        assert(db.requests.contains_key(r));
                    }
                }
            },
            DbQuery::CreateGenesisUser { user_id, username, password_hash, system_id } => {
                assert forall|c: Seq<char>| #[trigger] db2.invites.contains_key(c) implies db2.users.contains_key(
                    db2.invites[c].owner,
                ) by {
                    assert(db.users.contains_key(db.invites[c].owner));
                }
            },
            DbQuery::CreateInvite { user_id, code } => {},
            DbQuery::RecordVote { .. } => {},
            DbQuery::LockRequest { request_id, user_id } => {
                assert forall|r: Seq<char>| #[trigger] db2.requests.contains_key(r) implies request_ok(db2.requests[r]) by {
                    if r != request_id@ {
                        assert(db.requests.contains_key(r));
                    }
                }
                assert forall|p: (Seq<char>, Seq<char>)| #[trigger] db2.confirmations.contains(p) implies db2.requests.contains_key(p.1)
                    && db2.requests[p.1].status != pending() by {
                    assert(db.requests.contains_key(p.1));
                }
            },
            DbQuery::RecordConfirmation { user_id, request_id } => {
                assert forall|p: (Seq<char>, Seq<char>)| #[trigger] db2.confirmations.contains(p) implies db2.requests.contains_key(p.1)
                    && db2.requests[p.1].status != pending() by {
                    if p != (user_id@, request_id@) {
                        assert(db.confirmations.contains(p));
                    }
                }
            },
            DbQuery::FinalizeRegistration { request_id, invite_code, username, password_hash } => {
                if db.requests.contains_key(request_id@) && invite_available(db, invite_code@) {
                    assert forall|r: Seq<char>| #[trigger] db2.requests.contains_key(r) implies request_ok(db2.requests[r]) by {
                        if r != request_id@ {
                            assert(db.requests.contains_key(r));
                        }
                    }
                    assert forall|p: (Seq<char>, Seq<char>)| #[trigger] db2.confirmations.contains(p) implies db2.requests.contains_key(p.1)
                        && db2.requests[p.1].status != pending() by {
                        assert(db.requests.contains_key(p.1));
                    }
                    assert forall|c: Seq<char>| #[trigger] db2.invites.contains_key(c) implies db2.users.contains_key(
                        db2.invites[c].owner,
                    ) by {
                        if c != invite_code@ {
                            assert(db.invites.contains_key(c));
                        }
                    }
                    assert forall|id: Seq<char>| #[trigger] db2.genesis.contains(id) implies db2.users.contains_key(id) by {
                        assert(db.users.contains_key(id));
                    }
                }
            },
            _ => {},
        }
    } else {
        let q1 = writes[0];
        let q2 = writes[1];
        assert(writes =~= seq![q1, q2]);
        lemma_apply_all_two(db, q1, q2);
        match (q1, q2) {
            (DbQuery::ResetRequest { request_id: a }, DbQuery::DeleteConfirmations { request_id: b }) => {
                let db1 = apply(db, q1);
                let db2 = apply(db1, q2);
                assert forall|r: Seq<char>| #[trigger] db2.requests.contains_key(r) implies request_ok(db2.requests[r]) by {
                    if r != a@ {
                        assert(db.requests.contains_key(r));
                    }
                }
                assert forall|p: (Seq<char>, Seq<char>)| #[trigger] db2.confirmations.contains(p) implies db2.requests.contains_key(p.1)
                    && db2.requests[p.1].status != pending() by {
                    assert(db.confirmations.contains(p));
                    assert(p.1 != b@);
                }
            },
            _ => {},
        }
    }
}

} // verus!

verus! {

/// Whether a write list generates this invite code.
pub open spec fn creates_invite(writes: Seq<DbQuery>, code: Seq<char>) -> bool {
    exists|i: int|
        0 <= i < writes.len() && (#[trigger] writes[i] matches DbQuery::CreateInvite { code: c, .. } && c@ == code)
}

/// A spent invite code stays spent: in a well-formed database a code that
/// cannot be used (never generated, or spent) does not become usable by
/// any write list the handlers issue, except by generating that very code
/// afresh. So a registration that names it always finds it missing.
pub proof fn law_spent_code_stays_refused(db: Db, writes: Seq<DbQuery>, code: Seq<char>)
    requires
        wf(db),
        handler_writes(db, writes),
        !invite_available(db, code),
        db.invites.contains_key(code) || !creates_invite(writes, code),
    ensures
        !invite_available(apply_all(db, writes), code),
{
    if writes.len() == 1 {
        let q = writes[0];
        assert(writes =~= seq![q]);
        lemma_apply_all_one(db, q);
        match q {
            DbQuery::CreateInvite { user_id, code: c } => {
                if !db.invites.contains_key(code) {
                    assert(!creates_invite(writes, code));
                    assert(c@ != code);
                }
            },
            DbQuery::CreateGenesisUser { .. } => {
                if db.invites.contains_key(code) {
                    assert(db.users.contains_key(db.invites[code].owner));
                }
            },
            DbQuery::FinalizeRegistration { request_id, invite_code, .. } => {
                if db.invites.contains_key(code) {
                    assert(db.users.contains_key(db.invites[code].owner));
                }
            },
            _ => {},
        }
    } else {
        let q1 = writes[0];
        let q2 = writes[1];
        assert(writes =~= seq![q1, q2]);
        lemma_apply_all_two(db, q1, q2);
    }
}

/// Voting again replaces the earlier vote: after two votes of a user on a
/// request there is one vote record for the pair, the later one, and the
/// database is as if only the later vote had been cast.
pub proof fn law_vote_twice(db: Db, user_id: String, request_id: String, first: bool, second: bool)
    ensures
        apply(
            apply(db, DbQuery::RecordVote { user_id, request_id, approve: first }),
            DbQuery::RecordVote { user_id, request_id, approve: second },
        ) == apply(db, DbQuery::RecordVote { user_id, request_id, approve: second }),
        db.users.contains_key(user_id@) && db.requests.contains_key(request_id@) ==> apply(
            db,
            DbQuery::RecordVote { user_id, request_id, approve: second },
        ).votes[(user_id@, request_id@)] == second,
{
    let once = apply(db, DbQuery::RecordVote { user_id, request_id, approve: second });
    let twice = apply(
        apply(db, DbQuery::RecordVote { user_id, request_id, approve: first }),
        DbQuery::RecordVote { user_id, request_id, approve: second },
    );
    if db.users.contains_key(user_id@) && db.requests.contains_key(request_id@) {
        assert(twice.votes =~= once.votes);
    }
}

/// Confirming twice is confirming once.
pub proof fn law_confirm_twice(db: Db, user_id: String, request_id: String)
    ensures
        apply(
            apply(db, DbQuery::RecordConfirmation { user_id, request_id }),
            DbQuery::RecordConfirmation { user_id, request_id },
        ) == apply(db, DbQuery::RecordConfirmation { user_id, request_id }),
{
    let once = apply(db, DbQuery::RecordConfirmation { user_id, request_id });
    let twice = apply(once, DbQuery::RecordConfirmation { user_id, request_id });
    if db.users.contains_key(user_id@) && db.requests.contains_key(request_id@) {
        assert(twice.confirmations =~= once.confirmations);
    }
}

} // verus!

verus! {

/// What the user count returns.
pub open spec fn user_count_answer(db: Db) -> nat {
    db.users.dom().len()
}

/// Whether the invite lookup of a registration finds a row.
pub open spec fn invite_lookup_answer(db: Db, code: Seq<char>) -> bool {
    invite_available(db, code)
}

/// What the credentials lookup of a login returns: the id and stored hash
/// of a user with the name (one of them, when several share it).
pub open spec fn credentials_answer(db: Db, username: Seq<char>) -> Option<(Seq<char>, Seq<char>)> {
    if users_named(db, username).is_empty() {
        None
    } else {
        let id = users_named(db, username).choose();
        Some((id, db.users[id].password_hash))
    }
}

/// What the genesis-edge count of a login returns.
pub open spec fn genesis_edges_answer(db: Db, user_id: Seq<char>) -> int {
    if db.genesis.contains(user_id) {
        1
    } else {
        0
    }
}

/// The path a registration takes on a database, as `register_on_user_count`
/// and `register_on_invite_lookup` decide it from the answers above.
pub enum RegisterPath {
    /// No users yet: the genesis user is written.
    Genesis,
    /// 400, "invite code required".
    InviteRequired,
    /// 400, "invite code unknown or spent"; nothing is written.
    InviteRefused,
    /// The registration request is written.
    RequestCreated,
}

/// The registration's path for a payload's invite code.
pub open spec fn register_path(db: Db, invite: Option<Seq<char>>) -> RegisterPath {
    let code = match invite {
        Some(c) => c,
        None => Seq::empty(),
    };
    if user_count_answer(db) == 0 {
        RegisterPath::Genesis
    } else if code.len() == 0 {
        RegisterPath::InviteRequired
    } else if !invite_lookup_answer(db, code) {
        RegisterPath::InviteRefused
    } else {
        RegisterPath::RequestCreated
    }
}

/// The reply of a login on a database, as `login_on_credentials`,
/// `login_on_invites` and `login_on_genesis_count` decide it from the answers
/// above (the invite codes are those `lists_invite` holds for the user).
pub enum LoginResult {
    /// 401, "wrong user name or password".
    Refused,
    /// The stored hash cannot be read.
    Unreadable,
    LoggedIn { user_id: Seq<char>, is_genesis: bool },
}

/// The login's reply for a name and password.
pub open spec fn login_result(db: Db, username: Seq<char>, password: Seq<char>) -> LoginResult {
    match credentials_answer(db, username) {
        None => LoginResult::Refused,
        Some((id, hash)) => match password_check(password, hash) {
            PasswordCheck::Accepted => LoginResult::LoggedIn {
                user_id: id,
                is_genesis: genesis_edges_answer(db, id) > 0,
            },
            PasswordCheck::Refused => LoginResult::Refused,
            PasswordCheck::Unreadable => LoginResult::Unreadable,
        },
    }
}

proof fn lemma_single_named(db: Db, username: Seq<char>, id: Seq<char>)
    requires
        users_named(db, username) == Set::empty().insert(id),
    ensures
        credentials_answer(db, username) == Some((id, db.users[id].password_hash)),
{
    let s = users_named(db, username);
    assert(s.contains(id));
    assert(!s.is_empty());
    assert(s.contains(s.choose()));
}

/// A spent or never generated code is refused: on a well-formed database
/// with users, a registration naming an invite code that is spent, or that
/// was never generated, takes the refusal path (400, nothing written), and
/// by `law_spent_code_stays_refused` it stays refused after every later
/// handler write that does not generate that very code.
pub proof fn law_spent_code_refused(db: Db, code: Seq<char>)
    requires
        wf(db),
        !db.users.dom().is_empty(),
        code.len() > 0,
        !db.invites.contains_key(code) || db.invites[code].used,
    ensures
        register_path(db, Some(code)) == RegisterPath::InviteRefused,
{
    assert(db.users.dom().len() != 0) by {
        if db.users.dom().len() == 0 {
            db.users.dom().lemma_len0_is_empty();
        }
    }
}

/// The first user can log in: after the genesis write on a database with
/// no users, logging in with the registered name and password succeeds for
/// that user, as the genesis user, with no invite codes.
pub proof fn law_genesis_user_logs_in(
    db: Db,
    user_id: String,
    username: String,
    password_hash: String,
    system_id: String,
    password: Seq<char>,
)
    requires
        wf(db),
        db.users.dom().is_empty(),
        bcrypt_verify_outcome(password, password_hash@) == Some(true),
    ensures
        ({
            let db2 = apply(db, DbQuery::CreateGenesisUser { user_id, username, password_hash, system_id });
            &&& login_result(db2, username@, password) == LoginResult::LoggedIn {
                user_id: user_id@,
                is_genesis: true,
            }
            &&& forall|code: Seq<char>, used: bool| !lists_invite(db2, user_id@, code, used)
        }),
{
    let db2 = apply(db, DbQuery::CreateGenesisUser { user_id, username, password_hash, system_id });
    assert forall|id: Seq<char>| !db.users.contains_key(id) by {
        assert(!db.users.dom().contains(id));
    }
    assert(users_named(db2, username@) =~= Set::empty().insert(user_id@));
    lemma_single_named(db2, username@, user_id@);
    assert forall|code: Seq<char>, used: bool| !lists_invite(db2, user_id@, code, used) by {
        if db.invites.contains_key(code) {
            assert(db.users.contains_key(db.invites[code].owner));
        }
    }
}

/// A generated invite code shows in its owner's login: for the only user
/// with a name, whose password is accepted, the login after the invite
/// write still succeeds for that user and lists the code, unspent.
pub proof fn law_generated_invite_listed(
    db: Db,
    user_id: String,
    code: String,
    username: Seq<char>,
    password: Seq<char>,
)
    requires
        users_named(db, username) == Set::empty().insert(user_id@),
        password_check(password, db.users[user_id@].password_hash) == PasswordCheck::Accepted,
    ensures
        ({
            let db2 = apply(db, DbQuery::CreateInvite { user_id, code });
            &&& login_result(db2, username, password) == LoginResult::LoggedIn {
                user_id: user_id@,
                is_genesis: db.genesis.contains(user_id@),
            }
            &&& lists_invite(db2, user_id@, code@, false)
        }),
{
    assert(users_named(db, username).contains(user_id@));
    let db2 = apply(db, DbQuery::CreateInvite { user_id, code });
    assert(db2.users == db.users);
    assert(users_named(db2, username) == users_named(db, username));
    lemma_single_named(db2, username, user_id@);
}

/// A registration request keeps what the registration wrote: once written
/// with an available invite code, the request is `PENDING`, unlocked, and
/// holds the registering name, password hash and invite code.
pub proof fn law_request_keeps_registration(
    db: Db,
    request_id: String,
    username: String,
    password_hash: String,
    invite_code: String,
)
    requires
        invite_available(db, invite_code@),
    ensures
        ({
            let db2 = apply(
                db,
                DbQuery::CreateRegistrationRequest { request_id, username, password_hash, invite_code },
            );
            &&& status_of(db2, request_id@) == Some(pending())
            &&& db2.requests[request_id@].username == username@
            &&& db2.requests[request_id@].password_hash == password_hash@
            &&& db2.requests[request_id@].invite_code == invite_code@
            &&& db2.requests[request_id@].locked_by is None
        }),
{
}

/// An approved registrant can log in: finalising a locked request whose
/// invite code is still available, with the request's own data, when no
/// user has the request's name yet, makes the login with that name and any
/// password that the request's stored hash accepts succeed for the user
/// whose id is the request id, not as the genesis user; the request is
/// `APPROVED` and the invite code is spent.
pub proof fn law_approved_user_logs_in(
    db: Db,
    request_id: String,
    invite_code: String,
    username: String,
    password_hash: String,
    password: Seq<char>,
)
    requires
        wf(db),
        single_handler_write(
            db,
            DbQuery::FinalizeRegistration { request_id, invite_code, username, password_hash },
        ),
        invite_available(db, invite_code@),
        users_named(db, username@).is_empty(),
        !db.users.contains_key(request_id@),
        bcrypt_verify_outcome(password, db.requests[request_id@].password_hash) == Some(true),
    ensures
        ({
            let db2 = apply(
                db,
                DbQuery::FinalizeRegistration { request_id, invite_code, username, password_hash },
            );
            &&& login_result(db2, username@, password) == LoginResult::LoggedIn {
                user_id: request_id@,
                is_genesis: false,
            }
            &&& status_of(db2, request_id@) == Some(approved())
            &&& !invite_available(db2, invite_code@)
        }),
{
    let db2 = apply(db, DbQuery::FinalizeRegistration { request_id, invite_code, username, password_hash });
    assert forall|id: Seq<char>| #[trigger] users_named(db2, username@).contains(id) implies id == request_id@ by {
        if id != request_id@ {
            assert(users_named(db, username@).contains(id));
        }
    }
    assert(users_named(db2, username@) =~= Set::empty().insert(request_id@));
    lemma_single_named(db2, username@, request_id@);
    if db.genesis.contains(request_id@) {
        assert(db.users.contains_key(request_id@));
    }
}

/// The database before any handler ran.
pub open spec fn empty_db() -> Db {
    Db {
        users: Map::empty(),
        genesis: Set::empty(),
        invites: Map::empty(),
        requests: Map::empty(),
        votes: Map::empty(),
        confirmations: Set::empty(),
    }
}

/// The empty database is well formed.
pub proof fn lemma_empty_db_wf()
    ensures
        wf(empty_db()),
{
    assert(empty_db().users.dom() =~= Set::<Seq<char>>::empty());
}

/// The database after a run of handler write lists, in order.
pub open spec fn apply_steps(db: Db, steps: Seq<Seq<DbQuery>>) -> Db
    decreases steps.len(),
{
    if steps.len() == 0 {
        db
    } else {
        apply_all(apply_steps(db, steps.drop_last()), steps.last())
    }
}

/// Every write list of the run is one the handlers issue on the database it
/// meets.
pub open spec fn steps_issued(db: Db, steps: Seq<Seq<DbQuery>>) -> bool
    decreases steps.len(),
{
    if steps.len() == 0 {
        true
    } else {
        steps_issued(db, steps.drop_last()) && handler_writes(apply_steps(db, steps.drop_last()), steps.last())
    }
}

/// The request lifecycle over any run of the handlers from a well-formed
/// database (the empty one, for instance): the database stays well formed,
/// so every request is `PENDING` without lock, `LOCKED` with a lock holder
/// and time, or `APPROVED`, and no `PENDING` request has a confirmation;
/// every step moves each status only along the consensus
/// (`law_request_lifecycle`); and an `APPROVED` request stays `APPROVED` to
/// the end of the run.
pub proof fn law_lifecycle_of_runs(db: Db, steps: Seq<Seq<DbQuery>>)
    requires
        wf(db),
        steps_issued(db, steps),
    ensures
        wf(apply_steps(db, steps)),
        forall|r: Seq<char>|
            status_of(db, r) == Some(approved()) ==> #[trigger] status_of(apply_steps(db, steps), r) == Some(
                approved(),
            ),
    decreases steps.len(),
{
    if steps.len() > 0 {
        law_lifecycle_of_runs(db, steps.drop_last());
        law_request_lifecycle(apply_steps(db, steps.drop_last()), steps.last());
    }
}

/// A request's lock fields agree with its status: no lock while `PENDING`,
/// a lock holder and time while `LOCKED`.
pub open spec fn lock_fields_agree(r: RequestRec) -> bool {
    &&& r.status == pending() ==> r.locked_by is None && !r.locked
    &&& r.status == locked() ==> r.locked_by is Some && r.locked
}

/// Every write keeps the lock fields of every request in agreement with its
/// status, whatever the rest of the database holds.
pub proof fn law_lock_fields_kept(db: Db, q: DbQuery)
    requires
        forall|r: Seq<char>| #[trigger] db.requests.contains_key(r) ==> lock_fields_agree(db.requests[r]),
    ensures
        forall|r: Seq<char>| #[trigger]
            apply(db, q).requests.contains_key(r) ==> lock_fields_agree(apply(db, q).requests[r]),
{
    lemma_statuses_differ();
    let db2 = apply(db, q);
    assert forall|r: Seq<char>| #[trigger] db2.requests.contains_key(r) implies lock_fields_agree(db2.requests[r]) by {
        match q {
            DbQuery::CreateRegistrationRequest { request_id, .. } => {
                if r != request_id@ {
                    assert(db.requests.contains_key(r));
                }
            },
            DbQuery::ResetRequest { request_id } => {
                if r != request_id@ {
                    assert(db.requests.contains_key(r));
                }
            },
            DbQuery::LockRequest { request_id, .. } => {
                if r != request_id@ {
                    assert(db.requests.contains_key(r));
                }
            },
            DbQuery::FinalizeRegistration { request_id, .. } => {
                if r != request_id@ {
                    assert(db.requests.contains_key(r));
                }
            },
            _ => {
                assert(db.requests.contains_key(r));
            },
        }
    }
}

/// The users who approve a request.
pub open spec fn approvers(db: Db, request_id: Seq<char>) -> Set<Seq<char>> {
    db.users.dom().filter(
        |u: Seq<char>| db.votes.contains_key((u, request_id)) && db.votes[(u, request_id)],
    )
}

/// The users who confirmed a request.
pub open spec fn confirmers(db: Db, request_id: Seq<char>) -> Set<Seq<char>> {
    db.users.dom().filter(|u: Seq<char>| db.confirmations.contains((u, request_id)))
}

/// Whether a lock attempt by a user locks the request, as `lock_on_tally`
/// and `lock_on_own_vote` decide it from the database's answers: the request
/// is `PENDING`, its approvers are more than half of the users, and the user
/// approves it.
pub open spec fn lock_succeeds(db: Db, user_id: Seq<char>, request_id: Seq<char>) -> bool {
    &&& status_of(db, request_id) == Some(pending())
    &&& has_majority(approvers(db, request_id).len() as int, user_count_answer(db) as int)
    &&& db.votes.contains_key((user_id, request_id)) && db.votes[(user_id, request_id)]
}

/// Locking rests on the stored votes: a request is locked only when more
/// than half of all users have an approving vote on it, the locking user
/// among them; voting again with the same choice changes neither the
/// votes nor whether a lock succeeds.
pub proof fn law_lock_needs_stored_majority(
    db: Db,
    voter: String,
    user_id: Seq<char>,
    request_id: String,
    approve: bool,
)
    requires
        wf(db),
        lock_succeeds(db, user_id, request_id@),
    ensures
        2 * approvers(db, request_id@).len() > db.users.dom().len(),
        approvers(db, request_id@).contains(user_id) || !db.users.contains_key(user_id),
        ({
            let once = apply(db, DbQuery::RecordVote { user_id: voter, request_id, approve });
            apply(once, DbQuery::RecordVote { user_id: voter, request_id, approve }) == once
        }),
{
    law_vote_twice(db, voter, request_id, approve, approve);
}

/// Whether a confirmation completes the registration, as `confirm_on_tally`
/// decides it from the database's answers after recording the confirmation:
/// the confirmers are more than half of the users.
pub open spec fn confirmation_completes(db: Db, request_id: Seq<char>) -> bool {
    has_majority(confirmers(db, request_id).len() as int, user_count_answer(db) as int)
}

/// Confirming again does not change whether the registration completes:
/// the second confirmation of the same user leaves the confirmers as the
/// first one left them.
pub proof fn law_reconfirming_never_tips(db: Db, user_id: String, request_id: String)
    ensures
        ({
            let once = apply(db, DbQuery::RecordConfirmation { user_id, request_id });
            let twice = apply(once, DbQuery::RecordConfirmation { user_id, request_id });
            confirmers(twice, request_id@) == confirmers(once, request_id@) && confirmation_completes(
                twice,
                request_id@,
            ) == confirmation_completes(once, request_id@)
        }),
{
    law_confirm_twice(db, user_id, request_id);
}

} // verus!
