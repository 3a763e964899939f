//! Random session, CSRF, refresh and remember tokens: a fixed prefix followed
//! by the text of a fresh version-4 UUID.
use vstd::prelude::*;
use vstd::string::*;

verus! {

/// A lowercase hexadecimal digit.
pub open spec fn is_lower_hex(c: char) -> bool {
    let u: u32 = c as u32;
    (0x30 <= u <= 0x39) || (0x61 <= u <= 0x66)
}

/// The positions of the four hyphens in the hyphenated form of a UUID.
pub open spec fn is_hyphen_position(i: int) -> bool {
    i == 8 || i == 13 || i == 18 || i == 23
}

/// The hyphenated lowercase text of a version-4, RFC-variant UUID:
/// `xxxxxxxx-xxxx-4xxx-yxxx-xxxxxxxxxxxx` with `y` one of `8`, `9`, `a`, `b`.
pub open spec fn is_uuid_v4_text(s: Seq<char>) -> bool {
    &&& s.len() == 36
    &&& forall|i: int|
        0 <= i < 36 ==> if is_hyphen_position(i) {
            #[trigger] s[i] == '-'
        } else {
            is_lower_hex(s[i])
        }
    &&& s[14] == '4'
    &&& (s[19] == '8' || s[19] == '9' || s[19] == 'a' || s[19] == 'b')
}

/// `s` is `prefix` followed by the text of a version-4 UUID.
pub open spec fn is_prefixed_token(s: Seq<char>, prefix: Seq<char>) -> bool {
    &&& s.len() == prefix.len() + 36
    &&& s.take(prefix.len() as int) == prefix
    &&& is_uuid_v4_text(s.skip(prefix.len() as int))
}

/// Text of a fresh random UUID: calls `uuid::Uuid::new_v4` and formats it with
/// its `Display` impl. The uuid crate's source formats a `Uuid` through
/// `LowerHex` of its hyphenated form (36 characters, lowercase hex, hyphens at
/// 8, 13, 18, 23), and `new_v4` sets the version nibble to 4 and the variant
/// bits to `10`; this is what the contract claims. Which UUID comes out is
/// chance and is not stated.
#[verifier::external_body]
fn new_v4_text() -> (s: String)
    ensures
        is_uuid_v4_text(s@),
{
    uuid::Uuid::new_v4().to_string()
}

/// `prefix` followed by the text of a fresh random UUID.
pub fn prefixed_token(prefix: &str) -> (s: String)
    ensures
        is_prefixed_token(s@, prefix@),
{
    let mut s = String::from_str(prefix);
    let u = new_v4_text();
    s.append(u.as_str());
    assert(s@.take(prefix@.len() as int) =~= prefix@);
    assert(s@.skip(prefix@.len() as int) =~= u@);
    s
}

/// A new session id: `session_` and a random UUID.
pub fn generate_random_session() -> (s: String)
    ensures
        is_prefixed_token(s@, "session_"@),
{
    prefixed_token("session_")
}

/// A new CSRF token: `csrf_` and a random UUID.
pub fn generate_random_csrf() -> (s: String)
    ensures
        is_prefixed_token(s@, "csrf_"@),
{
    prefixed_token("csrf_")
}

/// A new remember-me token: `remember_` and a random UUID.
pub fn generate_remember_token() -> (s: String)
    ensures
        is_prefixed_token(s@, "remember_"@),
{
    prefixed_token("remember_")
}

/// A new refresh token: `refresh_` and a random UUID.
pub fn generate_refresh_token() -> (s: String)
    ensures
        is_prefixed_token(s@, "refresh_"@),
{
    prefixed_token("refresh_")
}

} // verus!
