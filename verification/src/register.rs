//! Registration: the first user becomes the genesis user; everyone else
//! needs an unused invite code and waits for the network's consensus.
use vstd::prelude::*;
use vstd::string::StringExecFns;
use crate::api::{AuthPayload, AuthResponse, PasswordError, Reply, Status, error_reply, error_with_detail, is_error};
use crate::db::{DbQuery, Lookup};
use crate::outside::{bcrypt_default_prefix, bcrypt_hash, bcrypt_verify_outcome, is_uuid_v4_text, lemma_uuid_text_shape, uuid_text, uuid_v4_text};

verus! {

/// Id of the system node that the genesis user is linked to.
pub open spec fn system_id() -> Seq<char> {
    "indra_core_genesis_node"@
}

/// Reply when a later user registers without an invite code.
pub open spec fn msg_invite_required() -> Seq<char> {
    "Mã mời là bắt buộc để tham gia mạng lưới!"@
}

/// Reply when the invite code is unknown or already spent.
pub open spec fn msg_invite_invalid() -> Seq<char> {
    "Mã mời này không tồn tại hoặc đã được sử dụng!"@
}

/// Prefix of the reply when the invite lookup fails.
pub open spec fn msg_db_error() -> Seq<char> {
    "Lỗi DB: "@
}

/// Prefix of the reply when the registration request cannot be written.
pub open spec fn msg_request_failed() -> Seq<char> {
    "Lỗi tạo request: "@
}

/// Reply when a registration request has been created.
pub open spec fn msg_request_created() -> Seq<char> {
    "Yêu cầu đăng ký đã được tạo. Vui lòng chờ đồng thuận từ mạng lưới."@
}

/// Prefix of the reply when the genesis user cannot be written.
pub open spec fn msg_genesis_failed() -> Seq<char> {
    "Không thể tạo Genesis User. Lỗi chi tiết: "@
}

/// Reply when the genesis user has been created.
pub open spec fn msg_genesis_created() -> Seq<char> {
    "Đăng ký thành công - Bạn là Genesis Node!"@
}

/// The invite code of the payload, or the empty text when there is none.
pub open spec fn invite_text(code: Option<String>) -> Seq<char> {
    match code {
        Some(c) => c@,
        None => Seq::empty(),
    }
}

/// The invite code looked up is the payload's code itself, unchanged; no
/// code is the empty text.
pub proof fn law_invite_text_is_the_code(c: String)
    ensures
        invite_text(Some(c)) == c@,
        invite_text(None) == Seq::<char>::empty(),
{
}

/// The registration once the user count has been asked for.
#[derive(Debug, PartialEq, Eq)]
pub struct RegisterCounting {
    pub username: String,
    pub password_hash: String,
    /// The id the user gets if it becomes the genesis user.
    pub user_id: String,
    pub invite_code: Option<String>,
}

/// The registration while its invite code is looked up.
#[derive(Debug, PartialEq, Eq)]
pub struct InviteCheck {
    pub username: String,
    pub password_hash: String,
    pub invite_code: String,
}

/// The registration while its request is written.
#[derive(Debug, PartialEq, Eq)]
pub struct RequestCreation {
    pub request_id: String,
}

/// The registration while the genesis user is written.
#[derive(Debug, PartialEq, Eq)]
pub struct GenesisCreation {
    pub user_id: String,
    pub username: String,
}

/// What the registration does next.
#[derive(Debug, PartialEq, Eq)]
pub enum RegisterNext {
    /// Look the invite code up; answer with `register_on_invite_lookup`.
    CheckInvite(InviteCheck, DbQuery),
    /// Write the request; answer with `register_on_request_created`.
    CreateRequest(RequestCreation, DbQuery),
    /// Write the genesis user; answer with `register_on_genesis_created`.
    CreateGenesis(GenesisCreation, DbQuery),
    /// Answer now.
    Reply(Reply<AuthResponse>),
}

/// Starts a registration from the password hash and the fresh user id:
/// asks for the number of users.
pub fn register_prepare(payload: AuthPayload, password_hash: String, user_id: String) -> (r: (
    RegisterCounting,
    DbQuery,
))
    ensures
        r.0 == (RegisterCounting {
            username: payload.username,
            password_hash,
            user_id,
            invite_code: payload.invite_code,
        }),
        r.1 == DbQuery::CountUsers,
{
    (
        RegisterCounting {
            username: payload.username,
            password_hash,
            user_id,
            invite_code: payload.invite_code,
        },
        DbQuery::CountUsers,
    )
}

/// Starts a registration: hashes the password, makes the user id from
/// sixteen random bytes and asks for the number of users. Fails only when
/// the password cannot be hashed.
pub fn register_begin(payload: AuthPayload, id_bytes: [u8; 16]) -> (r: Result<(RegisterCounting, DbQuery), PasswordError>)
    ensures
        r matches Ok((st, q)) ==> {
            &&& st.username == payload.username
            &&& st.invite_code == payload.invite_code
            &&& st.password_hash@.len() == 60
            &&& st.password_hash@.subrange(0, 7) == bcrypt_default_prefix()
            &&& bcrypt_verify_outcome(payload.password@, st.password_hash@) == Some(true)
            &&& st.user_id@ == uuid_text(id_bytes@)
            &&& is_uuid_v4_text(st.user_id@)
            &&& q == DbQuery::CountUsers
        },
{
    match bcrypt_hash(payload.password.as_str()) {
        Ok(hash) => {
            let user_id = uuid_v4_text(id_bytes);
            proof {
                lemma_uuid_text_shape(id_bytes@);
            }
            Ok(register_prepare(payload, hash, user_id))
        },
        Err(_) => Err(PasswordError),
    }
}

/// After the user count: with no user yet the registrant becomes the
/// genesis user; otherwise a non-empty invite code is required and is
/// looked up.
pub fn register_on_user_count(st: RegisterCounting, user_count: i64) -> (r: RegisterNext)
    ensures
        user_count != 0 ==> (st.invite_code matches Some(c) ==> (c@.len() > 0 ==> (r matches RegisterNext::CheckInvite(
            ch,
            DbQuery::FindUnusedInvite { code },
        ) && code@ == c@ && ch.invite_code@ == c@))),
        user_count == 0 ==> (r matches RegisterNext::CreateGenesis(
            g,
            DbQuery::CreateGenesisUser { user_id, username, password_hash, system_id: sys },
        ) && g == (GenesisCreation { user_id: st.user_id, username: st.username }) && user_id
            == st.user_id && username == st.username && password_hash == st.password_hash && sys@
            == system_id()),
        user_count != 0 && invite_text(st.invite_code).len() == 0 ==> (r matches RegisterNext::Reply(
            Err(e),
        ) && is_error(e, Status::BadRequest, msg_invite_required())),
        user_count != 0 && invite_text(st.invite_code).len() != 0 ==> (r matches RegisterNext::CheckInvite(
            c,
            DbQuery::FindUnusedInvite { code },
        ) && c.username == st.username && c.password_hash == st.password_hash && c.invite_code@
            == invite_text(st.invite_code) && code@ == invite_text(st.invite_code)),
{
    if user_count == 0 {
        let q = DbQuery::CreateGenesisUser {
            user_id: st.user_id.clone(),
            username: st.username.clone(),
            password_hash: st.password_hash,
            system_id: String::from_str("indra_core_genesis_node"),
        };
        RegisterNext::CreateGenesis(GenesisCreation { user_id: st.user_id, username: st.username }, q)
    } else {
        let code = match st.invite_code {
            Some(c) => c,
            None => String::new(),
        };
        if code.as_str().is_empty() {
            RegisterNext::Reply(Err(error_reply(Status::BadRequest, "Mã mời là bắt buộc để tham gia mạng lưới!")))
        } else {
            let q = DbQuery::FindUnusedInvite { code: code.clone() };
            RegisterNext::CheckInvite(
                InviteCheck { username: st.username, password_hash: st.password_hash, invite_code: code },
                q,
            )
        }
    }
}

/// After the invite lookup, given the id drawn for the request: a failed
/// lookup is answered with status 500, an unknown or spent code with 400;
/// a found code leads to writing the request.
pub fn register_after_invite_lookup(st: InviteCheck, lookup: Lookup<()>, request_id: String) -> (r: RegisterNext)
    ensures
        match lookup {
            Lookup::Failed(detail) => r matches RegisterNext::Reply(Err(e)) && is_error(
                e,
                Status::InternalServerError,
                msg_db_error() + detail@,
            ),
            Lookup::Missing => r matches RegisterNext::Reply(Err(e)) && is_error(
                e,
                Status::BadRequest,
                msg_invite_invalid(),
            ),
            Lookup::Found(()) => r == RegisterNext::CreateRequest(
                RequestCreation { request_id },
                DbQuery::CreateRegistrationRequest {
                    request_id,
                    username: st.username,
                    password_hash: st.password_hash,
                    invite_code: st.invite_code,
                },
            ),
        },
{
    match lookup {
        Lookup::Failed(detail) => RegisterNext::Reply(
            Err(error_with_detail(Status::InternalServerError, "Lỗi DB: ", detail.as_str())),
        ),
        Lookup::Missing => RegisterNext::Reply(
            Err(error_reply(Status::BadRequest, "Mã mời này không tồn tại hoặc đã được sử dụng!")),
        ),
        Lookup::Found(()) => {
            let q = DbQuery::CreateRegistrationRequest {
                request_id: request_id.clone(),
                username: st.username,
                password_hash: st.password_hash,
                invite_code: st.invite_code,
            };
            RegisterNext::CreateRequest(RequestCreation { request_id }, q)
        },
    }
}

/// After the invite lookup: when the code was found, makes the request id
/// from sixteen random bytes; continues as `register_after_invite_lookup`.
pub fn register_on_invite_lookup(st: InviteCheck, lookup: Lookup<()>, id_bytes: [u8; 16]) -> (r: RegisterNext)
    ensures
        match lookup {
            Lookup::Failed(detail) => r matches RegisterNext::Reply(Err(e)) && is_error(
                e,
                Status::InternalServerError,
                msg_db_error() + detail@,
            ),
            Lookup::Missing => r matches RegisterNext::Reply(Err(e)) && is_error(
                e,
                Status::BadRequest,
                msg_invite_invalid(),
            ),
            Lookup::Found(()) => r matches RegisterNext::CreateRequest(
                c,
                DbQuery::CreateRegistrationRequest { request_id, username, password_hash, invite_code },
            ) && c.request_id == request_id && request_id@ == uuid_text(id_bytes@) && is_uuid_v4_text(
                request_id@,
            ) && username == st.username
                && password_hash == st.password_hash && invite_code == st.invite_code,
        },
{
    let request_id = match lookup {
        Lookup::Found(()) => {
            proof {
                lemma_uuid_text_shape(id_bytes@);
            }
            uuid_v4_text(id_bytes)
        },
        _ => String::new(),
    };
    register_after_invite_lookup(st, lookup, request_id)
}

/// After writing the request: a failure is answered with status 500;
/// otherwise the reply names the request and no user yet.
pub fn register_on_request_created(st: RequestCreation, written: Result<(), String>) -> (r: Reply<AuthResponse>)
    ensures
        match written {
            Err(detail) => r matches Err(e) && is_error(
                e,
                Status::InternalServerError,
                msg_request_failed() + detail@,
            ),
            Ok(()) => r matches Ok(a) && a.message@ == msg_request_created() && a.user_id is None
                && !a.is_genesis && a.invite_codes@.len() == 0 && a.request_id == Some(st.request_id),
        },
{
    match written {
        Err(detail) => Err(error_with_detail(Status::InternalServerError, "Lỗi tạo request: ", detail.as_str())),
        Ok(()) => Ok(
            AuthResponse {
                message: String::from_str("Yêu cầu đăng ký đã được tạo. Vui lòng chờ đồng thuận từ mạng lưới."),
                user_id: None,
                is_genesis: false,
                invite_codes: Vec::new(),
                request_id: Some(st.request_id),
            },
        ),
    }
}

/// After writing the genesis user: a failure is answered with status 400;
/// otherwise the reply names the new genesis user.
pub fn register_on_genesis_created(st: GenesisCreation, written: Result<(), String>) -> (r: Reply<AuthResponse>)
    ensures
        match written {
            Err(detail) => r matches Err(e) && is_error(
                e,
                Status::BadRequest,
                msg_genesis_failed() + detail@,
            ),
            Ok(()) => r matches Ok(a) && a.message@ == msg_genesis_created() && a.user_id == Some(
                st.user_id,
            ) && a.is_genesis && a.invite_codes@.len() == 0 && a.request_id is None,
        },
{
    match written {
        Err(detail) => Err(
            error_with_detail(Status::BadRequest, "Không thể tạo Genesis User. Lỗi chi tiết: ", detail.as_str()),
        ),
        Ok(()) => Ok(
            AuthResponse {
                message: String::from_str("Đăng ký thành công - Bạn là Genesis Node!"),
                user_id: Some(st.user_id),
                is_genesis: true,
                invite_codes: Vec::new(),
                request_id: None,
            },
        ),
    }
}

} // verus!
