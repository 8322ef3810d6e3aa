//! The checks made on the details typed in when the first administrator is
//! set up from the command line.
use vstd::prelude::*;
use crate::text::str_eq;
use vstd::string::StrSliceExecFns;
use vstd::utf8::encode_utf8;

verus! {

/// Why the typed-in details were refused.
pub enum AdminInputError {
    NameRequired,
    EmailInvalid,
    PasswordTooShort,
    PasswordMismatch,
}

impl AdminInputError {
    /// The message printed before the tool exits.
    pub fn message(&self) -> (r: &'static str)
        ensures
            self is NameRequired ==> r@ == "Error: Name is required"@,
            self is EmailInvalid ==> r@ == "Error: Valid email is required"@,
            self is PasswordTooShort ==> r@ == "Error: Password must be at least 6 characters"@,
            self is PasswordMismatch ==> r@ == "Error: Passwords do not match"@,
    {
        match self {
            AdminInputError::NameRequired => "Error: Name is required",
            AdminInputError::EmailInvalid => "Error: Valid email is required",
            AdminInputError::PasswordTooShort => "Error: Password must be at least 6 characters",
            AdminInputError::PasswordMismatch => "Error: Passwords do not match",
        }
    }
}

/// Checks the typed-in details in the order the tool asks about them: a
/// name, an e-mail with an `@`, a password of at least six bytes, and the
/// same password twice.
pub fn check_admin_input(name: &str, email: &str, password: &str, confirm: &str) -> (r: Result<
    (),
    AdminInputError,
>)
    ensures
        name@.len() == 0 ==> r matches Err(AdminInputError::NameRequired),
        name@.len() != 0 && (email@.len() == 0 || !email@.contains('@')) ==> r matches Err(
            AdminInputError::EmailInvalid,
        ),
        name@.len() != 0 && email@.len() != 0 && email@.contains('@') && (encode_utf8(
            password@,
        ).len() as usize) < 6 ==> r matches Err(AdminInputError::PasswordTooShort),
        name@.len() != 0 && email@.len() != 0 && email@.contains('@') && (encode_utf8(
            password@,
        ).len() as usize) >= 6 && password@ != confirm@ ==> r matches Err(
            AdminInputError::PasswordMismatch,
        ),
        r is Ok <==> (name@.len() != 0 && email@.len() != 0 && email@.contains('@') && (encode_utf8(
            password@,
        ).len() as usize) >= 6 && password@ == confirm@),
{
    if name.is_empty() {
        return Err(AdminInputError::NameRequired);
    }
    if email.is_empty() || !contains_char(email, '@') {
        return Err(AdminInputError::EmailInvalid);
    }
    if password.len() < 6 {
        return Err(AdminInputError::PasswordTooShort);
    }
    if !str_eq(password, confirm) {
        return Err(AdminInputError::PasswordMismatch);
    }
    Ok(())
}

/// Whether `c` occurs in `s`.
pub fn contains_char(s: &str, c: char) -> (r: bool)
    ensures
        r == s@.contains(c),
{
    let n = s.unicode_len();
    let mut i: usize = 0;
    while i < n
        invariant
            n == s@.len(),
            i <= n,
            forall|j: int| 0 <= j < i ==> s@[j] != c,
        decreases n - i,
    {
        if s.get_char(i) == c {
            return true;
        }
        i = i + 1;
    }
    false
}

/// The phone number to store: none when the answer was left empty.
pub fn optional_phone(phone: String) -> (r: Option<String>)
    ensures
        phone@.len() == 0 ==> r is None,
        phone@.len() != 0 ==> r == Some(phone),
{
    if phone.as_str().is_empty() {
        None
    } else {
        Some(phone)
    }
}

} // verus!
