//! Trusted items: the calls into `bcrypt`, `uuid` and `str::to_uppercase`.
use vstd::prelude::*;

verus! {

/// Declaration of `bcrypt::BcryptError`, the error of the bcrypt calls.
#[verifier::external_type_specification]
#[verifier::external_body]
pub struct ExBcryptError(bcrypt::BcryptError);

/// What `bcrypt::verify(password, hash)` returns: `Some(b)` for `Ok(b)`,
/// `None` for an error. It depends on the password and the hash alone.
pub uninterp spec fn bcrypt_verify_outcome(password: Seq<char>, hash: Seq<char>) -> Option<bool>;

/// The cost-12, version `2b` prefix that `bcrypt::hash` with
/// `DEFAULT_COST` writes in front of the salt.
pub open spec fn bcrypt_default_prefix() -> Seq<char> {
    seq!['$', '2', 'b', '$', '1', '2', '$']
}

/// Calls `bcrypt::hash(password, DEFAULT_COST)`.
///
/// The salt comes from the operating system's random source, so the hash
/// itself is not determined by the password; the only error the crate can
/// return for this cost is a failure of that random source. Claimed of a
/// success: the hash has 60 characters, begins with `$2b$12$`, and
/// `bcrypt::verify` accepts the same password against it.
#[verifier::external_body]
pub(crate) fn bcrypt_hash(password: &str) -> (r: Result<String, bcrypt::BcryptError>)
    ensures
        r matches Ok(h) ==> {
            &&& h@.len() == 60
            &&& h@.subrange(0, 7) == bcrypt_default_prefix()
            &&& bcrypt_verify_outcome(password@, h@) == Some(true)
        },
{
    bcrypt::hash(password, bcrypt::DEFAULT_COST)
}

/// Calls `bcrypt::verify(password, hash)`.
///
/// Claimed: the result is `bcrypt_verify_outcome(password, hash)`, and a
/// hash that is not 60 ASCII characters is refused with an error.
#[verifier::external_body]
pub(crate) fn bcrypt_verify(password: &str, hash: &str) -> (r: Result<bool, bcrypt::BcryptError>)
    ensures
        r is Ok <==> bcrypt_verify_outcome(password@, hash@) is Some,
        r matches Ok(b) ==> bcrypt_verify_outcome(password@, hash@) == Some(b),
        !(hash@.len() == 60 && vstd::utf8::is_ascii_chars(hash@)) ==> r is Err,
{
    bcrypt::verify(password, hash)
}

/// A lower-case hexadecimal digit.
pub open spec fn is_lower_hex(c: char) -> bool {
    ('0' <= c <= '9') || ('a' <= c <= 'f')
}

/// The text of a version-4 UUID in the hyphenated lower-case form:
/// 36 characters, hyphens at 8, 13, 18 and 23, hexadecimal digits
/// elsewhere, the version digit `4` at 14 and a variant digit of
/// `8`, `9`, `a` or `b` at 19.
pub open spec fn is_uuid_v4_text(s: Seq<char>) -> bool {
    &&& s.len() == 36
    &&& forall|i: int|
        0 <= i < 36 ==> if i == 8 || i == 13 || i == 18 || i == 23 {
            #[trigger] s[i] == '-'
        } else {
            is_lower_hex(s[i])
        }
    &&& s[14] == '4'
    &&& (s[19] == '8' || s[19] == '9' || s[19] == 'a' || s[19] == 'b')
}

/// The lower-case hexadecimal digit of a value below 16.
pub open spec fn hex_digit(n: u8) -> char {
    seq!['0', '1', '2', '3', '4', '5', '6', '7', '8', '9', 'a', 'b', 'c', 'd', 'e', 'f'][n as int]
}

/// The sixteen bytes with the version-4 and RFC 4122 variant bits set:
/// the high half of byte 6 becomes `4`, the two top bits of byte 8 become
/// `10`.
pub open spec fn uuid_v4_bytes(bytes: Seq<u8>) -> Seq<u8> {
    bytes.update(6, (bytes[6] & 0x0f) | 0x40).update(8, (bytes[8] & 0x3f) | 0x80)
}

/// The hexadecimal digit at position `d` (0 to 31) of sixteen bytes, high
/// half of each byte first.
pub open spec fn nibble(bytes: Seq<u8>, d: int) -> u8 {
    if d % 2 == 0 {
        bytes[d / 2] >> 4
    } else {
        bytes[d / 2] & 0x0f
    }
}

/// The digit position shown at text position `i` of a hyphenated UUID.
pub open spec fn uuid_digit_index(i: int) -> int {
    if i < 8 {
        i
    } else if i < 13 {
        i - 1
    } else if i < 18 {
        i - 2
    } else if i < 23 {
        i - 3
    } else {
        i - 4
    }
}

/// The hyphenated lower-case text of the version-4 UUID made from sixteen
/// random bytes: the 32 digits of `uuid_v4_bytes(bytes)`, in groups of 8,
/// 4, 4, 4 and 12 joined by hyphens.
pub open spec fn uuid_text(bytes: Seq<u8>) -> Seq<char> {
    Seq::new(
        36,
        |i: int|
            if i == 8 || i == 13 || i == 18 || i == 23 {
                '-'
            } else {
                hex_digit(nibble(uuid_v4_bytes(bytes), uuid_digit_index(i)))
            },
    )
}

/// Calls `uuid::Builder::from_random_bytes(bytes)` and turns the UUID into
/// text with `to_string`.
///
/// Claimed: the text is `uuid_text(bytes)`, which sets the version and
/// variant bits and writes the hyphenated lower-case form. Neither call
/// can fail or panic; the random bytes come from the caller.
#[verifier::external_body]
pub(crate) fn uuid_v4_text(bytes: [u8; 16]) -> (s: String)
    ensures
        s@ == uuid_text(bytes@),
{
    uuid::Builder::from_random_bytes(bytes).into_uuid().to_string()
}

proof fn lemma_halves_below_16(x: u8)
    by (bit_vector)
    ensures
        (x >> 4u8) < 16,
        (x & 0x0fu8) < 16,
{
}

/// The text made from any sixteen bytes has the version-4 UUID shape.
pub proof fn lemma_uuid_text_shape(bytes: Seq<u8>)
    requires
        bytes.len() == 16,
    ensures
        is_uuid_v4_text(uuid_text(bytes)),
{
    let t = uuid_text(bytes);
    let v = uuid_v4_bytes(bytes);
    assert forall|i: int|
        0 <= i < 36 ==> if i == 8 || i == 13 || i == 18 || i == 23 {
            #[trigger] t[i] == '-'
        } else {
            is_lower_hex(t[i])
        } by {
        if 0 <= i < 36 && !(i == 8 || i == 13 || i == 18 || i == 23) {
            let d = uuid_digit_index(i);
            lemma_halves_below_16(v[d / 2]);
            assert(nibble(v, d) < 16);
        }
    }
    let b6 = bytes[6];
    let b8 = bytes[8];
    assert(((b6 & 0x0fu8) | 0x40u8) >> 4u8 == 4u8) by (bit_vector);
    assert(8u8 <= ((b8 & 0x3fu8) | 0x80u8) >> 4u8 <= 11u8) by (bit_vector);
    assert(v[6] == (b6 & 0x0f) | 0x40);
    assert(v[8] == (b8 & 0x3f) | 0x80);
    assert(t[14] == hex_digit(nibble(v, 12)));
    assert(t[19] == hex_digit(nibble(v, 16)));
}

/// The upper-case form of an ASCII character.
pub open spec fn ascii_upper(c: char) -> char {
    if 'a' <= c <= 'z' {
        ((c as u32) - 32) as char
    } else {
        c
    }
}

/// A lower-case ASCII letter becomes the upper-case letter 32 below it, in
/// `A` to `Z`; every other character stays.
pub proof fn law_ascii_upper(c: char)
    ensures
        'a' <= c <= 'z' ==> 'A' <= ascii_upper(c) <= 'Z' && ascii_upper(c) as u32 + 32 == c as u32,
        !('a' <= c <= 'z') ==> ascii_upper(c) == c,
{
}

/// The upper-case form of an ASCII text, character by character.
pub open spec fn ascii_uppercase(s: Seq<char>) -> Seq<char> {
    s.map_values(|c: char| ascii_upper(c))
}

/// Calls `str::to_uppercase`.
///
/// Claimed only for ASCII text: each lower-case letter becomes its
/// upper-case letter and every other character stays. Left unsaid: what
/// the Unicode rules do to other text.
#[verifier::external_body]
pub(crate) fn to_uppercase(s: &str) -> (r: String)
    ensures
        vstd::utf8::is_ascii_chars(s@) ==> r@ == ascii_uppercase(s@),
{
    s.to_uppercase()
}

} // verus!
