//! The forgot-password flow: the reset token, how long it lives, and the
//! answer that does not reveal whether an account exists.
use vstd::prelude::*;
use crate::timestamp::{rendered_timestamp, Timestamp};

verus! {

/// Seconds a reset token stays valid.
pub const RESET_TOKEN_LIFETIME_SECS: i64 = 3600;

/// Whether a string has the shape of a hyphenated lowercase UUID:
/// 36 characters, hyphens at positions 8, 13, 18 and 23, lowercase
/// hexadecimal digits elsewhere.
pub open spec fn is_hyphenated_uuid(s: Seq<char>) -> bool {
    &&& s.len() == 36
    &&& forall|i: int|
        0 <= i < 36 ==> if i == 8 || i == 13 || i == 18 || i == 23 {
            #[trigger] s[i] == '-'
        } else {
            ('0' <= s[i] && s[i] <= '9') || ('a' <= s[i] && s[i] <= 'f')
        }
}

/// Whether a string is the hyphenated text of a version-4 UUID: the
/// version digit (position 14) is `4`, the variant digit (position 19) is one
/// of `8`, `9`, `a`, `b`.
pub open spec fn is_v4_uuid_text(s: Seq<char>) -> bool {
    &&& is_hyphenated_uuid(s)
    &&& s[14] == '4'
    &&& (s[19] == '8' || s[19] == '9' || s[19] == 'a' || s[19] == 'b')
}

/// Calls `uuid::Uuid::new_v4` and renders it with `to_string`. The contract
/// claims the hyphenated lowercase form that uuid's `Display` writes (its
/// `fmt.rs`), with the version and variant bits that `new_v4` sets by its
/// mask (its `v4.rs`); the other digits are random and not claimed.
#[verifier::external_body]
fn new_uuid_text() -> (r: String)
    ensures
        is_v4_uuid_text(r@),
{
    uuid::Uuid::new_v4().to_string()
}

/// A fresh reset token: a random version-4 UUID in hyphenated form.
pub fn new_reset_token() -> (r: String)
    ensures
        is_v4_uuid_text(r@),
{
    new_uuid_text()
}

/// When a token issued at `now` expires: one hour later, at the same
/// offset; `None` where chrono has no such date-time. Adding the hour to the
/// seconds overflows, in the service as here, only past `i64::MAX`.
pub fn reset_expiry(now: &Timestamp) -> (r: Option<Timestamp>)
    requires
        now.secs_spec() + RESET_TOKEN_LIFETIME_SECS <= i64::MAX,
    ensures
        r is Some <==> rendered_timestamp(
            (now.secs_spec() + RESET_TOKEN_LIFETIME_SECS) as i64,
            now.nanos_spec(),
            now.offset_spec(),
        ) is Some,
        r matches Some(t) ==> t.secs_spec() == now.secs_spec() + RESET_TOKEN_LIFETIME_SECS
            && t.nanos_spec() == now.nanos_spec() && t.offset_spec() == now.offset_spec(),
{
    Timestamp::from_parts(now.secs() + RESET_TOKEN_LIFETIME_SECS, now.nanos(), now.offset_secs())
}

/// What a forgot-password request does: a reset mail goes out only when an
/// account has the address, and the answer is the same either way, so the
/// answer does not tell whether the account exists.
pub fn forgot_password_outcome(account_found: bool) -> (r: (bool, &'static str))
    ensures
        r.0 == account_found,
        r.1@ == "If an account with that email exists, a password reset link has been sent."@,
{
    (account_found, "If an account with that email exists, a password reset link has been sent.")
}

} // verus!
