//! The text of the mails the service sends: the approval of a listing and
//! the password-reset link.
use vstd::prelude::*;
use crate::text::string_push_str;

verus! {

/// Pieces of the mail templates, between the values set into them.
pub const NEW_OWNER_BODY_0: &'static str = "<!DOCTYPE html>\n<html>\n<head><meta charset=\"UTF-8\"></head>\n<body style=\"font-family: Arial, sans-serif; padding: 20px;\">\n    <h2>Your Retreat Has Been Listed!</h2>\n    <p>Dear ";
pub const NEW_OWNER_BODY_1: &'static str = ",</p>\n    <p>Congratulations! Your retreat <strong>";
pub const NEW_OWNER_BODY_2: &'static str = "</strong> has been reviewed and approved. It is now live on My Retreat Nest.</p>\n    <p>An owner account has been created for you:</p>\n    <table style=\"background: #f9f9f9; padding: 16px; border-radius: 8px; margin: 16px 0;\">\n        <tr><td><strong>Email:</strong></td><td>";
pub const NEW_OWNER_BODY_3: &'static str = "</td></tr>\n        <tr><td><strong>Temp Password:</strong></td><td><code>";
pub const NEW_OWNER_BODY_4: &'static str = "</code></td></tr>\n    </table>\n    <p>Please log in and change your password as soon as possible.</p>\n    <a href=\"";
pub const NEW_OWNER_BODY_5: &'static str = "\" style=\"display: inline-block; padding: 12px 24px; background-color: #16a34a; color: white; text-decoration: none; border-radius: 6px; font-size: 16px; margin-top: 8px;\">Log In to Your Account</a>\n    <p style=\"margin-top: 24px;\">You can manage your retreat from your owner dashboard.</p>\n</body>\n</html>";
pub const EXISTING_OWNER_BODY_0: &'static str = "<!DOCTYPE html>\n<html>\n<head><meta charset=\"UTF-8\"></head>\n<body style=\"font-family: Arial, sans-serif; padding: 20px;\">\n    <h2>Your Retreat Has Been Listed!</h2>\n    <p>Dear ";
pub const EXISTING_OWNER_BODY_1: &'static str = ",</p>\n    <p>Congratulations! Your retreat <strong>";
pub const EXISTING_OWNER_BODY_2: &'static str = "</strong> has been reviewed and approved. It is now live on My Retreat Nest.</p>\n    <p>You can view and manage your retreat from your account dashboard.</p>\n    <a href=\"";
pub const EXISTING_OWNER_BODY_3: &'static str = "/login\" style=\"display: inline-block; padding: 12px 24px; background-color: #16a34a; color: white; text-decoration: none; border-radius: 6px; font-size: 16px; margin-top: 8px;\">Log In to Your Account</a>\n    <p style=\"margin-top: 24px;\">You have been added as an owner of this retreat.</p>\n</body>\n</html>";
pub const RESET_BODY_0: &'static str = "<!DOCTYPE html>\n<html>\n<head><meta charset=\"UTF-8\"></head>\n<body style=\"font-family: Arial, sans-serif; padding: 20px;\">\n    <h2>Password Reset</h2>\n    <p>You requested a password reset. Click the button below to reset your password:</p>\n    <a href=\"";
pub const RESET_BODY_1: &'static str = "\" style=\"display: inline-block; padding: 12px 24px; background-color: #4F46E5; color: white; text-decoration: none; border-radius: 6px; font-size: 16px;\">Reset Password</a>\n    <p style=\"margin-top: 20px;\">If you did not request this, please ignore this email.</p>\n    <p>This link expires in 1 hour.</p>\n</body>\n</html>";

/// The approval mail to an owner whose account was just created: the
/// owner's name, the retreat, the login e-mail, the temporary password and
/// the application's address, set into the mail's HTML.
pub open spec fn new_owner_body(
    owner_name: Seq<char>,
    retreat_name: Seq<char>,
    to_email: Seq<char>,
    password: Seq<char>,
    app_url: Seq<char>,
) -> Seq<char> {
    NEW_OWNER_BODY_0@
        + owner_name
        + NEW_OWNER_BODY_1@
        + retreat_name
        + NEW_OWNER_BODY_2@
        + to_email
        + NEW_OWNER_BODY_3@
        + password
        + NEW_OWNER_BODY_4@
        + app_url
        + NEW_OWNER_BODY_5@
}

/// The approval mail to an owner who already had an account.
pub open spec fn existing_owner_body(
    owner_name: Seq<char>,
    retreat_name: Seq<char>,
    app_url: Seq<char>,
) -> Seq<char> {
    EXISTING_OWNER_BODY_0@
        + owner_name
        + EXISTING_OWNER_BODY_1@
        + retreat_name
        + EXISTING_OWNER_BODY_2@
        + app_url
        + EXISTING_OWNER_BODY_3@
}

/// The password-reset mail around the reset link.
pub open spec fn reset_body(reset_url: Seq<char>) -> Seq<char> {
    RESET_BODY_0@
        + reset_url
        + RESET_BODY_1@
}

/// The subject of an approval mail.
pub open spec fn approved_subject(retreat_name: Seq<char>) -> Seq<char> {
    "Your Retreat '"@ + retreat_name + "' Has Been Approved! \u{2013} My Retreat Nest"@
}

/// The link a password-reset mail carries.
pub open spec fn reset_link(app_url: Seq<char>, token: Seq<char>) -> Seq<char> {
    app_url + "/reset-password?token="@ + token
}

/// A mail ready to be sent.
pub struct MailContent {
    pub subject: String,
    pub html_body: String,
}

/// Subject of an approval mail.
pub fn listing_approved_subject(retreat_name: &str) -> (r: String)
    ensures
        r@ == approved_subject(retreat_name@),
{
    let mut s = String::new();
    string_push_str(&mut s, "Your Retreat '");
    string_push_str(&mut s, retreat_name);
    string_push_str(&mut s, "' Has Been Approved! \u{2013} My Retreat Nest");
    assert(s@ =~= approved_subject(retreat_name@));
    s
}

fn new_owner_html(
    owner_name: &str,
    retreat_name: &str,
    to_email: &str,
    password: &str,
    app_url: &str,
) -> (r: String)
    ensures
        r@ == new_owner_body(owner_name@, retreat_name@, to_email@, password@, app_url@),
{
    let mut s = String::new();
    string_push_str(&mut s, NEW_OWNER_BODY_0);
    string_push_str(&mut s, owner_name);
    string_push_str(&mut s, NEW_OWNER_BODY_1);
    string_push_str(&mut s, retreat_name);
    string_push_str(&mut s, NEW_OWNER_BODY_2);
    string_push_str(&mut s, to_email);
    string_push_str(&mut s, NEW_OWNER_BODY_3);
    string_push_str(&mut s, password);
    string_push_str(&mut s, NEW_OWNER_BODY_4);
    string_push_str(&mut s, app_url);
    string_push_str(&mut s, NEW_OWNER_BODY_5);
    assert(s@ =~= new_owner_body(owner_name@, retreat_name@, to_email@, password@, app_url@));
    s
}

fn existing_owner_html(owner_name: &str, retreat_name: &str, app_url: &str) -> (r: String)
    ensures
        r@ == existing_owner_body(owner_name@, retreat_name@, app_url@),
{
    let mut s = String::new();
    string_push_str(&mut s, EXISTING_OWNER_BODY_0);
    string_push_str(&mut s, owner_name);
    string_push_str(&mut s, EXISTING_OWNER_BODY_1);
    string_push_str(&mut s, retreat_name);
    string_push_str(&mut s, EXISTING_OWNER_BODY_2);
    string_push_str(&mut s, app_url);
    string_push_str(&mut s, EXISTING_OWNER_BODY_3);
    assert(s@ =~= existing_owner_body(owner_name@, retreat_name@, app_url@));
    s
}

/// The approval mail: with the login details when the approval created the
/// owner's account (a temporary password is given), else the plain notice.
pub fn listing_approved_mail(
    to_email: &str,
    owner_name: &str,
    retreat_name: &str,
    temp_password: Option<&str>,
    app_url: &str,
) -> (r: MailContent)
    ensures
        r.subject@ == approved_subject(retreat_name@),
        match temp_password {
            Some(p) => r.html_body@ == new_owner_body(
                owner_name@,
                retreat_name@,
                to_email@,
                p@,
                app_url@,
            ),
            None => r.html_body@ == existing_owner_body(owner_name@, retreat_name@, app_url@),
        },
{
    let html_body = match temp_password {
        Some(p) => new_owner_html(owner_name, retreat_name, to_email, p, app_url),
        None => existing_owner_html(owner_name, retreat_name, app_url),
    };
    MailContent { subject: listing_approved_subject(retreat_name), html_body }
}

/// The link to the password-reset page for a token.
pub fn reset_password_link(app_url: &str, token: &str) -> (r: String)
    ensures
        r@ == reset_link(app_url@, token@),
{
    let mut s = String::new();
    string_push_str(&mut s, app_url);
    string_push_str(&mut s, "/reset-password?token=");
    string_push_str(&mut s, token);
    assert(s@ =~= reset_link(app_url@, token@));
    s
}

/// The password-reset mail for a token.
pub fn reset_mail(app_url: &str, token: &str) -> (r: MailContent)
    ensures
        r.subject@ == "Password Reset - My Retreat Nest"@,
        r.html_body@ == reset_body(reset_link(app_url@, token@)),
{
    let reset_url = reset_password_link(app_url, token);
    let mut s = String::new();
    string_push_str(&mut s, RESET_BODY_0);
    string_push_str(&mut s, reset_url.as_str());
    string_push_str(&mut s, RESET_BODY_1);
    assert(s@ =~= reset_body(reset_link(app_url@, token@)));
    MailContent { subject: "Password Reset - My Retreat Nest".to_owned(), html_body: s }
}

} // verus!
