//! Invite codes: `INA-` followed by a fresh UUID in upper case.
use vstd::prelude::*;
use vstd::string::{StringExecFns, StrSliceExecFns};
use vstd::utf8::is_ascii_chars;
use crate::api::{GenerateInvitePayload, InviteCodeInfo, Reply, Status, error_reply, error_with_detail, is_error};
use crate::db::{DbQuery, Lookup};
use crate::outside::{ascii_upper, ascii_uppercase, is_lower_hex, is_uuid_v4_text, lemma_uuid_text_shape, to_uppercase, uuid_text, uuid_v4_text};

verus! {

/// The invite code made from a UUID text: `INA-` and the first 36
/// characters of the text, all in upper case.
pub open spec fn invite_code_text(uuid: Seq<char>) -> Seq<char> {
    ascii_uppercase("INA-"@ + uuid.subrange(0, 36))
}

/// An upper-case hexadecimal digit.
pub open spec fn is_upper_hex(c: char) -> bool {
    ('0' <= c <= '9') || ('A' <= c <= 'F')
}

/// The shape of every invite code this service generates: 40 characters,
/// `INA-`, then a version-4 UUID in upper case (hyphens at 12, 17, 22 and
/// 27, the version digit `4` at 18, the variant digit `8`, `9`, `A` or
/// `B` at 23).
pub open spec fn is_invite_code(code: Seq<char>) -> bool {
    &&& code.len() == 40
    &&& code[0] == 'I' && code[1] == 'N' && code[2] == 'A' && code[3] == '-'
    &&& forall|i: int|
        4 <= i < 40 ==> if i == 12 || i == 17 || i == 22 || i == 27 {
            #[trigger] code[i] == '-'
        } else {
            is_upper_hex(code[i])
        }
    &&& code[18] == '4'
    &&& (code[23] == '8' || code[23] == '9' || code[23] == 'A' || code[23] == 'B')
}

/// The invite code of a text is `INA-` and then the text's first 36
/// characters, each lower-case letter made upper case and every other
/// character kept.
pub proof fn law_invite_code_text(uuid: Seq<char>)
    requires
        uuid.len() >= 36,
    ensures
        invite_code_text(uuid).len() == 40,
        invite_code_text(uuid).subrange(0, 4) == "INA-"@,
        forall|i: int|
            0 <= i < 36 ==> #[trigger] invite_code_text(uuid)[i + 4] == if 'a' <= uuid[i] <= 'z' {
                ((uuid[i] as u32) - 32) as char
            } else {
                uuid[i]
            },
{
    reveal_strlit("INA-");
    let raw = "INA-"@ + uuid.subrange(0, 36);
    assert forall|i: int| 0 <= i < 4 implies #[trigger] invite_code_text(uuid)[i] == "INA-"@[i] by {
        assert(raw[i] == "INA-"@[i]);
    }
    assert(invite_code_text(uuid).subrange(0, 4) =~= "INA-"@);
    assert forall|i: int| 0 <= i < 36 implies #[trigger] invite_code_text(uuid)[i + 4] == if 'a' <= uuid[i]
        <= 'z' {
        ((uuid[i] as u32) - 32) as char
    } else {
        uuid[i]
    } by {
        assert(raw[i + 4] == uuid[i]);
    }
}

/// Prefix of the reply when the invite code cannot be written.
pub open spec fn msg_invite_failed() -> Seq<char> {
    "Không thể tạo mã mời: "@
}

/// Reply when the user does not exist.
pub open spec fn msg_user_missing() -> Seq<char> {
    "User không tồn tại."@
}

/// A UUID text is ASCII.
pub proof fn lemma_uuid_is_ascii(s: Seq<char>)
    requires
        is_uuid_v4_text(s),
    ensures
        is_ascii_chars(s),
{
    assert forall|i: int| 0 <= i < s.len() implies '\0' <= #[trigger] s[i] <= '\u{7f}' by {
        if !(i == 8 || i == 13 || i == 18 || i == 23) {
            assert(is_lower_hex(s[i]));
        }
    }
}

/// Every code made from a version-4 UUID text has the invite code shape.
pub proof fn law_invite_code_shape(uuid: Seq<char>)
    requires
        is_uuid_v4_text(uuid),
    ensures
        is_invite_code(invite_code_text(uuid)),
{
    reveal_strlit("INA-");
    let raw = "INA-"@ + uuid.subrange(0, 36);
    let code = invite_code_text(uuid);
    assert(raw.len() == 40);
    assert forall|i: int| 0 <= i < 40 implies #[trigger] code[i] == ascii_upper(raw[i]) by {}
    assert forall|i: int| 4 <= i < 40 implies if i == 12 || i == 17 || i == 22 || i == 27 {
        #[trigger] code[i] == '-'
    } else {
        is_upper_hex(code[i])
    } by {
        assert(raw[i] == uuid[i - 4]);
        if !(i == 12 || i == 17 || i == 22 || i == 27) {
            assert(is_lower_hex(uuid[i - 4]));
        }
    }
    assert(code[0] == ascii_upper(raw[0]));
    assert(code[1] == ascii_upper(raw[1]));
    assert(code[2] == ascii_upper(raw[2]));
    assert(code[3] == ascii_upper(raw[3]));
    assert(code[18] == ascii_upper(raw[18]));
    assert(code[23] == ascii_upper(raw[23]));
    assert(raw[23] == uuid[19]);
}

/// The invite code made from the first 36 characters of a UUID text.
pub fn invite_code_from_uuid(uuid: &str) -> (r: String)
    requires
        uuid@.len() >= 36,
        is_ascii_chars(uuid@.subrange(0, 36)),
    ensures
        r@ == invite_code_text(uuid@),
{
    let part = uuid.substring_char(0, 36);
    let raw = String::from_str("INA-").concat(part);
    proof {
        reveal_strlit("INA-");
        assert(is_ascii_chars(raw@));
    }
    to_uppercase(raw.as_str())
}

/// The invite query for a given UUID text: creates the code made from it
/// for the user.
pub fn generate_invite_query(payload: GenerateInvitePayload, uuid: &str) -> (r: DbQuery)
    requires
        uuid@.len() >= 36,
        is_ascii_chars(uuid@.subrange(0, 36)),
    ensures
        r matches DbQuery::CreateInvite { user_id, code } && user_id == payload.user_id && code@
            == invite_code_text(uuid@),
{
    DbQuery::CreateInvite { user_id: payload.user_id, code: invite_code_from_uuid(uuid) }
}

/// Starts the invite generation: makes a UUID from sixteen random bytes
/// and asks to create the code made from it for the user.
pub fn generate_invite_begin(payload: GenerateInvitePayload, bytes: [u8; 16]) -> (r: DbQuery)
    ensures
        r matches DbQuery::CreateInvite { user_id, code } && user_id == payload.user_id && code@
            == invite_code_text(uuid_text(bytes@)) && is_invite_code(code@),
{
    let uuid = uuid_v4_text(bytes);
    proof {
        lemma_uuid_text_shape(bytes@);
        lemma_uuid_is_ascii(uuid@);
        assert(uuid@.subrange(0, 36) =~= uuid@);
        law_invite_code_shape(uuid@);
    }
    generate_invite_query(payload, uuid.as_str())
}

/// The reply to the invite generation: the created code, status 500 when
/// the query failed, status 400 when the user does not exist.
pub fn generate_invite_on_result(result: Lookup<InviteCodeInfo>) -> (r: Reply<InviteCodeInfo>)
    ensures
        match result {
            Lookup::Failed(detail) => r matches Err(e) && is_error(
                e,
                Status::InternalServerError,
                msg_invite_failed() + detail@,
            ),
            Lookup::Missing => r matches Err(e) && is_error(e, Status::BadRequest, msg_user_missing()),
            Lookup::Found(info) => r == Ok::<InviteCodeInfo, crate::api::ApiError>(info),
        },
{
    match result {
        Lookup::Failed(detail) => Err(
            error_with_detail(Status::InternalServerError, "Không thể tạo mã mời: ", detail.as_str()),
        ),
        Lookup::Missing => Err(error_reply(Status::BadRequest, "User không tồn tại.")),
        Lookup::Found(info) => Ok(info),
    }
}

} // verus!
