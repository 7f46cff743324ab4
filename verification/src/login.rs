//! Login: checks the password against the stored bcrypt hash and returns
//! the user's invite codes and whether the user is the genesis user.
use vstd::prelude::*;
use vstd::string::StringExecFns;
use crate::api::{AuthPayload, AuthResponse, InviteCodeInfo, PasswordError, Reply, Status, error_reply, is_error};
use crate::db::DbQuery;
use crate::outside::{bcrypt_verify, bcrypt_verify_outcome};

verus! {

/// Reply to an unknown user or a wrong password.
pub open spec fn msg_bad_credentials() -> Seq<char> {
    "Sai tên đăng nhập hoặc mật khẩu."@
}

/// Reply to a successful login.
pub open spec fn msg_logged_in() -> Seq<char> {
    "Đăng nhập thành công"@
}

/// How a password fares against a stored hash.
pub enum PasswordCheck {
    Accepted,
    Refused,
    /// The stored hash cannot be read.
    Unreadable,
}

/// What `bcrypt::verify` makes of the password and the stored hash.
pub open spec fn password_check(password: Seq<char>, hash: Seq<char>) -> PasswordCheck {
    match bcrypt_verify_outcome(password, hash) {
        Some(true) => PasswordCheck::Accepted,
        Some(false) => PasswordCheck::Refused,
        None => PasswordCheck::Unreadable,
    }
}

/// The check follows `bcrypt::verify`: accepted when it says yes, refused
/// when it says no, unreadable when it fails.
pub proof fn law_password_check(password: Seq<char>, hash: Seq<char>)
    ensures
        password_check(password, hash) == PasswordCheck::Accepted <==> bcrypt_verify_outcome(password, hash)
            == Some(true),
        password_check(password, hash) == PasswordCheck::Refused <==> bcrypt_verify_outcome(password, hash)
            == Some(false),
        password_check(password, hash) == PasswordCheck::Unreadable <==> bcrypt_verify_outcome(password, hash)
            is None,
{
}

/// The id and stored password hash of a user.
#[derive(Debug, PartialEq, Eq)]
pub struct Credentials {
    pub id: String,
    pub password_hash: String,
}

/// The login while the user is looked up.
#[derive(Debug, PartialEq, Eq)]
pub struct LoginLookup {
    pub password: String,
}

/// The login while the user's invite codes are read.
#[derive(Debug, PartialEq, Eq)]
pub struct LoginInvites {
    pub user_id: String,
}

/// The login while it is asked whether the user is the genesis user.
#[derive(Debug, PartialEq, Eq)]
pub struct LoginGenesisCheck {
    pub user_id: String,
    pub invites: Vec<InviteCodeInfo>,
}

/// What the login does after the password check.
#[derive(Debug, PartialEq, Eq)]
pub enum LoginNext {
    /// Read the user's invite codes; answer with `login_on_invites`.
    ListInvites(LoginInvites, DbQuery),
    /// Answer now.
    Reply(Reply<AuthResponse>),
}

/// Starts a login: looks the user up by name.
pub fn login_begin(payload: AuthPayload) -> (r: (LoginLookup, DbQuery))
    ensures
        r.0 == (LoginLookup { password: payload.password }),
        r.1 == (DbQuery::FindCredentials { username: payload.username }),
{
    (LoginLookup { password: payload.password }, DbQuery::FindCredentials { username: payload.username })
}

/// After the password check: an unknown user or a refused password is
/// answered with status 401; an accepted one leads to the invite codes.
pub fn login_after_check(row: Option<Credentials>, accepted: bool) -> (r: LoginNext)
    ensures
        match row {
            Some(c) if accepted => r == LoginNext::ListInvites(
                LoginInvites { user_id: c.id },
                DbQuery::ListInvites { user_id: c.id },
            ),
            _ => r matches LoginNext::Reply(Err(e)) && is_error(e, Status::Unauthorized, msg_bad_credentials()),
        },
{
    match row {
        Some(c) if accepted => {
            let q = DbQuery::ListInvites { user_id: c.id.clone() };
            LoginNext::ListInvites(LoginInvites { user_id: c.id }, q)
        },
        _ => LoginNext::Reply(Err(error_reply(Status::Unauthorized, "Sai tên đăng nhập hoặc mật khẩu."))),
    }
}

/// After the user lookup: checks the password against the stored hash and
/// continues as `login_after_check`. Fails when the stored hash cannot be
/// read.
pub fn login_on_credentials(st: LoginLookup, row: Option<Credentials>) -> (r: Result<LoginNext, PasswordError>)
    ensures
        match row {
            None => r matches Ok(LoginNext::Reply(Err(e))) && is_error(
                e,
                Status::Unauthorized,
                msg_bad_credentials(),
            ),
            Some(c) => match password_check(st.password@, c.password_hash@) {
                PasswordCheck::Accepted => r == Ok::<LoginNext, PasswordError>(
                    LoginNext::ListInvites(LoginInvites { user_id: c.id }, DbQuery::ListInvites { user_id: c.id }),
                ),
                PasswordCheck::Refused => r matches Ok(LoginNext::Reply(Err(e))) && is_error(
                    e,
                    Status::Unauthorized,
                    msg_bad_credentials(),
                ),
                PasswordCheck::Unreadable => r is Err,
            },
        },
{
    match row {
        None => Ok(login_after_check(None, false)),
        Some(c) => match bcrypt_verify(st.password.as_str(), c.password_hash.as_str()) {
            Ok(accepted) => Ok(login_after_check(Some(c), accepted)),
            Err(_) => Err(PasswordError),
        },
    }
}

/// After reading the invite codes: asks whether the user is the genesis user.
pub fn login_on_invites(st: LoginInvites, invites: Vec<InviteCodeInfo>) -> (r: (LoginGenesisCheck, DbQuery))
    ensures
        r.0 == (LoginGenesisCheck { user_id: st.user_id, invites }),
        r.1 == (DbQuery::CountGenesisEdges { user_id: st.user_id }),
{
    let q = DbQuery::CountGenesisEdges { user_id: st.user_id.clone() };
    (LoginGenesisCheck { user_id: st.user_id, invites }, q)
}

/// The login reply: the user's id and invite codes, and whether the user
/// has a genesis edge.
pub fn login_on_genesis_count(st: LoginGenesisCheck, genesis_edges: i64) -> (r: AuthResponse)
    ensures
        r.message@ == msg_logged_in(),
        r.user_id == Some(st.user_id),
        r.is_genesis == (genesis_edges > 0),
        r.invite_codes == st.invites,
        r.request_id is None,
{
    AuthResponse {
        message: String::from_str("Đăng nhập thành công"),
        user_id: Some(st.user_id),
        is_genesis: genesis_edges > 0,
        invite_codes: st.invites,
        request_id: None,
    }
}

} // verus!
