//! Field validation of request payloads: which rule a field breaks, in the
//! order the payload declares its fields.
use vstd::prelude::*;
use validator::ValidateEmail;
use vstd::utf8::encode_utf8;

verus! {

/// Whether validator's `ValidateEmail::validate_email` accepts a string as an
/// e-mail address (HTML5 rules: a local part and a domain or address literal
/// around the last `@`).
pub uninterp spec fn valid_email(s: Seq<char>) -> bool;

/// Calls `validator::ValidateEmail::validate_email` on the string. The
/// contract names the result `valid_email` and claims, as the source's first
/// test shows, that a string that is empty or holds no `@` is refused.
#[verifier::external_body]
pub(crate) fn validate_email(s: &str) -> (r: bool)
    ensures
        r == valid_email(s@),
        (s@.len() == 0 || !s@.contains('@')) ==> !r,
{
    s.validate_email()
}

/// One broken rule: the field, the rule's code, and the message shown for it.
pub struct FieldError {
    pub field: String,
    pub code: String,
    pub message: Option<String>,
}

/// The error that a failed e-mail rule on `field` produces.
pub open spec fn email_error(e: FieldError, field: Seq<char>) -> bool {
    &&& e.field@ == field
    &&& e.code@ == "email"@
    &&& e.message is None
}

/// The error that the phone rule on `field` produces.
pub open spec fn phone_error(e: FieldError, field: Seq<char>, message: Seq<char>) -> bool {
    &&& e.field@ == field
    &&& e.code@ == "Validation"@
    &&& e.message matches Some(m) && m@ == message
}

/// The error for an invalid e-mail address in `field`.
pub fn invalid_email(field: &str) -> (e: FieldError)
    ensures
        email_error(e, field@),
{
    FieldError { field: field.to_owned(), code: "email".to_owned(), message: None }
}

/// A phone number is accepted when its UTF-8 encoding is at least nine bytes
/// long.
pub open spec fn phone_ok(phone: Seq<char>) -> bool {
    encode_utf8(phone).len() >= 9
}

/// The phone rule has a lower bound only: every number of at least nine
/// bytes is accepted however long it is, and every shorter one is refused.
pub proof fn lemma_phone_rule_is_minimum_length(phone: Seq<char>, longer: Seq<char>)
    ensures
        encode_utf8(phone).len() >= 9 ==> phone_ok(phone),
        encode_utf8(phone).len() < 9 ==> !phone_ok(phone),
        phone_ok(phone) && encode_utf8(longer).len() >= encode_utf8(phone).len() ==> phone_ok(
            longer,
        ),
{
}

/// Checks a phone number as the user payloads do.
pub fn validate_phone(phone: &str) -> (r: Result<(), FieldError>)
    ensures
        r is Ok <==> phone_ok(phone@),
        r is Ok <==> encode_utf8(phone@).len() >= 9,
        r matches Err(e) ==> phone_error(e, "phone"@, "Invalid phone number"@),
{
    if phone.as_bytes().len() < 9 {
        return Err(
            FieldError {
                field: "phone".to_owned(),
                code: "Validation".to_owned(),
                message: Some("Invalid phone number".to_owned()),
            },
        );
    }
    Ok(())
}

} // verus!
