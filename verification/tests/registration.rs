use backend::api::{AuthPayload, PasswordError, Status};
use backend::db::{DbQuery, Lookup};
use backend::login::{
    login_after_check, login_begin, login_on_credentials, login_on_genesis_count, login_on_invites,
    Credentials, LoginInvites, LoginLookup, LoginNext,
};
use backend::register::{
    register_after_invite_lookup, register_begin, register_on_genesis_created,
    register_on_invite_lookup, register_on_request_created, register_on_user_count,
    register_prepare, GenesisCreation, InviteCheck, RegisterCounting, RegisterNext,
    RequestCreation,
};
use backend::api::InviteCodeInfo;

fn payload(username: &str, password: &str, invite: Option<&str>) -> AuthPayload {
    AuthPayload {
        username: username.to_string(),
        password: password.to_string(),
        invite_code: invite.map(|s| s.to_string()),
    }
}

fn counting(invite: Option<&str>) -> RegisterCounting {
    RegisterCounting {
        username: "alice".to_string(),
        password_hash: "HASH".to_string(),
        user_id: "u-1".to_string(),
        invite_code: invite.map(|s| s.to_string()),
    }
}

fn is_uuid_v4(s: &str) -> bool {
    s.len() == 36
        && s.chars().enumerate().all(|(i, c)| {
            if i == 8 || i == 13 || i == 18 || i == 23 {
                c == '-'
            } else {
                c.is_ascii_digit() || ('a'..='f').contains(&c)
            }
        })
        && s.as_bytes()[14] == b'4'
}

#[test]
fn register_begin_hashes_password_and_draws_id() {
    let (st, q) = register_begin(payload("alice", "secret", Some("INA-X")), [0x5a; 16]).unwrap();
    assert_eq!(q, DbQuery::CountUsers);
    assert_eq!(st.username, "alice");
    assert_eq!(st.invite_code, Some("INA-X".to_string()));
    assert_eq!(st.password_hash.len(), 60);
    assert!(st.password_hash.starts_with("$2b$12$"));
    assert_ne!(st.password_hash, "secret");
    assert!(bcrypt::verify("secret", &st.password_hash).unwrap());
    assert!(!bcrypt::verify("other", &st.password_hash).unwrap());
    assert!(is_uuid_v4(&st.user_id));
    assert_eq!(st.user_id, "5a5a5a5a-5a5a-4a5a-9a5a-5a5a5a5a5a5a");
}

#[test]
fn register_prepare_keeps_payload() {
    let (st, q) = register_prepare(payload("bob", "pw", None), "H".to_string(), "id".to_string());
    assert_eq!(q, DbQuery::CountUsers);
    assert_eq!(
        st,
        RegisterCounting {
            username: "bob".to_string(),
            password_hash: "H".to_string(),
            user_id: "id".to_string(),
            invite_code: None
        }
    );
}

#[test]
fn first_user_becomes_genesis() {
    match register_on_user_count(counting(None), 0) {
        RegisterNext::CreateGenesis(g, q) => {
            assert_eq!(g, GenesisCreation { user_id: "u-1".to_string(), username: "alice".to_string() });
            assert_eq!(
                q,
                DbQuery::CreateGenesisUser {
                    user_id: "u-1".to_string(),
                    username: "alice".to_string(),
                    password_hash: "HASH".to_string(),
                    system_id: "indra_core_genesis_node".to_string(),
                }
            );
        }
        other => panic!("unexpected {:?}", other),
    }
}

#[test]
fn first_user_needs_no_invite_even_if_given() {
    assert!(matches!(register_on_user_count(counting(Some("INA-1")), 0), RegisterNext::CreateGenesis(..)));
}

#[test]
fn later_user_without_invite_is_refused() {
    for st in [counting(None), counting(Some(""))] {
        match register_on_user_count(st, 3) {
            RegisterNext::Reply(Err(e)) => {
                assert_eq!(e.status, Status::BadRequest);
                assert_eq!(e.status.code(), 400);
                assert_eq!(e.body.message, "Mã mời là bắt buộc để tham gia mạng lưới!");
            }
            other => panic!("unexpected {:?}", other),
        }
    }
}

#[test]
fn later_user_with_invite_is_checked() {
    match register_on_user_count(counting(Some("INA-7")), 1) {
        RegisterNext::CheckInvite(c, q) => {
            assert_eq!(
                c,
                InviteCheck {
                    username: "alice".to_string(),
                    password_hash: "HASH".to_string(),
                    invite_code: "INA-7".to_string()
                }
            );
            assert_eq!(q, DbQuery::FindUnusedInvite { code: "INA-7".to_string() });
        }
        other => panic!("unexpected {:?}", other),
    }
}

fn check() -> InviteCheck {
    InviteCheck {
        username: "carol".to_string(),
        password_hash: "H2".to_string(),
        invite_code: "INA-9".to_string(),
    }
}

#[test]
fn invite_lookup_failure_is_500() {
    match register_on_invite_lookup(check(), Lookup::Failed("Timeout".to_string()), [0; 16]) {
        RegisterNext::Reply(Err(e)) => {
            assert_eq!(e.status.code(), 500);
            assert_eq!(e.body.message, "Lỗi DB: Timeout");
        }
        other => panic!("unexpected {:?}", other),
    }
}

#[test]
fn unknown_invite_is_400() {
    match register_on_invite_lookup(check(), Lookup::Missing, [0; 16]) {
        RegisterNext::Reply(Err(e)) => {
            assert_eq!(e.status, Status::BadRequest);
            assert_eq!(e.body.message, "Mã mời này không tồn tại hoặc đã được sử dụng!");
        }
        other => panic!("unexpected {:?}", other),
    }
}

#[test]
fn found_invite_creates_request() {
    match register_after_invite_lookup(check(), Lookup::Found(()), "r-1".to_string()) {
        RegisterNext::CreateRequest(c, q) => {
            assert_eq!(c, RequestCreation { request_id: "r-1".to_string() });
            assert_eq!(
                q,
                DbQuery::CreateRegistrationRequest {
                    request_id: "r-1".to_string(),
                    username: "carol".to_string(),
                    password_hash: "H2".to_string(),
                    invite_code: "INA-9".to_string(),
                }
            );
        }
        other => panic!("unexpected {:?}", other),
    }
    match register_on_invite_lookup(check(), Lookup::Found(()), [0; 16]) {
        RegisterNext::CreateRequest(c, DbQuery::CreateRegistrationRequest { request_id, .. }) => {
            assert_eq!(c.request_id, request_id);
            assert!(is_uuid_v4(&request_id));
            assert_eq!(request_id, "00000000-0000-4000-8000-000000000000");
        }
        other => panic!("unexpected {:?}", other),
    }
}

#[test]
fn request_created_reply() {
    let r = register_on_request_created(RequestCreation { request_id: "r-2".to_string() }, Ok(())).unwrap();
    assert_eq!(r.message, "Yêu cầu đăng ký đã được tạo. Vui lòng chờ đồng thuận từ mạng lưới.");
    assert_eq!(r.user_id, None);
    assert!(!r.is_genesis);
    assert!(r.invite_codes.is_empty());
    assert_eq!(r.request_id, Some("r-2".to_string()));
    let e = register_on_request_created(RequestCreation { request_id: "r-2".to_string() }, Err("boom".to_string()))
        .unwrap_err();
    assert_eq!(e.status.code(), 500);
    assert_eq!(e.body.message, "Lỗi tạo request: boom");
}

#[test]
fn genesis_created_reply() {
    let g = GenesisCreation { user_id: "u-9".to_string(), username: "root".to_string() };
    let r = register_on_genesis_created(g, Ok(())).unwrap();
    assert_eq!(r.message, "Đăng ký thành công - Bạn là Genesis Node!");
    assert_eq!(r.user_id, Some("u-9".to_string()));
    assert!(r.is_genesis);
    assert_eq!(r.request_id, None);
    let g = GenesisCreation { user_id: "u-9".to_string(), username: "root".to_string() };
    let e = register_on_genesis_created(g, Err("dup".to_string())).unwrap_err();
    assert_eq!(e.status.code(), 400);
    assert_eq!(e.body.message, "Không thể tạo Genesis User. Lỗi chi tiết: dup");
}

#[test]
fn login_begin_looks_up_by_name() {
    let (st, q) = login_begin(payload("dave", "pw", None));
    assert_eq!(st, LoginLookup { password: "pw".to_string() });
    assert_eq!(q, DbQuery::FindCredentials { username: "dave".to_string() });
}

#[test]
fn login_unknown_user_is_401() {
    let r = login_on_credentials(LoginLookup { password: "pw".to_string() }, None).unwrap();
    match r {
        LoginNext::Reply(Err(e)) => {
            assert_eq!(e.status, Status::Unauthorized);
            assert_eq!(e.status.code(), 401);
            assert_eq!(e.body.message, "Sai tên đăng nhập hoặc mật khẩu.");
        }
        other => panic!("unexpected {:?}", other),
    }
}

#[test]
fn registered_password_logs_in_and_wrong_one_does_not() {
    let (st, _) = register_begin(payload("erin", "hunter2", None), [7; 16]).unwrap();
    let creds = || Credentials { id: "u-erin".to_string(), password_hash: st.password_hash.clone() };
    match login_on_credentials(LoginLookup { password: "hunter2".to_string() }, Some(creds())).unwrap() {
        LoginNext::ListInvites(s, q) => {
            assert_eq!(s, LoginInvites { user_id: "u-erin".to_string() });
            assert_eq!(q, DbQuery::ListInvites { user_id: "u-erin".to_string() });
        }
        other => panic!("unexpected {:?}", other),
    }
    match login_on_credentials(LoginLookup { password: "hunter3".to_string() }, Some(creds())).unwrap() {
        LoginNext::Reply(Err(e)) => {
            assert_eq!(e.status.code(), 401);
            assert_eq!(e.body.message, "Sai tên đăng nhập hoặc mật khẩu.");
        }
        other => panic!("unexpected {:?}", other),
    }
}

#[test]
fn login_with_unreadable_hash_fails() {
    let creds = Credentials { id: "u".to_string(), password_hash: "plain".to_string() };
    assert_eq!(login_on_credentials(LoginLookup { password: "plain".to_string() }, Some(creds)), Err(PasswordError));
}

#[test]
fn login_after_check_branches() {
    let c = Credentials { id: "u-1".to_string(), password_hash: "h".to_string() };
    assert!(matches!(login_after_check(Some(c), true), LoginNext::ListInvites(..)));
    let c = Credentials { id: "u-1".to_string(), password_hash: "h".to_string() };
    assert!(matches!(login_after_check(Some(c), false), LoginNext::Reply(Err(_))));
    assert!(matches!(login_after_check(None, true), LoginNext::Reply(Err(_))));
}

#[test]
fn login_reply_reports_invites_and_genesis() {
    let invites = vec![
        InviteCodeInfo { code: "INA-A".to_string(), used: false },
        InviteCodeInfo { code: "INA-B".to_string(), used: true },
    ];
    let (st, q) = login_on_invites(LoginInvites { user_id: "u-1".to_string() }, invites.clone_list());
    assert_eq!(q, DbQuery::CountGenesisEdges { user_id: "u-1".to_string() });
    let r = login_on_genesis_count(st, 1);
    assert_eq!(r.message, "Đăng nhập thành công");
    assert_eq!(r.user_id, Some("u-1".to_string()));
    assert!(r.is_genesis);
    assert_eq!(r.invite_codes, invites);
    assert_eq!(r.request_id, None);
    let (st, _) = login_on_invites(LoginInvites { user_id: "u-2".to_string() }, Vec::new());
    let r = login_on_genesis_count(st, 0);
    assert!(!r.is_genesis);
    assert!(r.invite_codes.is_empty());
}

trait CloneList {
    fn clone_list(&self) -> Self;
}

impl CloneList for Vec<InviteCodeInfo> {
    fn clone_list(&self) -> Self {
        self.iter().map(|i| InviteCodeInfo { code: i.code.clone(), used: i.used }).collect()
    }
}
