//! Payloads and views of user accounts.
use vstd::prelude::*;
use crate::models::User;
use crate::text::{param_equals, param_is, SortOrder};
use crate::serializers::pagination::Paginate;
use crate::serializers::validation::{
    email_error, invalid_email, phone_error, phone_ok, valid_email, validate_email,
    validate_phone, FieldError,
};

verus! {

/// Sign-up payload.
pub struct CreateUserSerializer {
    pub name: String,
    pub email: String,
    pub password: String,
    pub phone: Option<String>,
}

impl CreateUserSerializer {
    /// Checks the e-mail address and, when given, the phone number; reports
    /// the broken rules in field order.
    pub fn validate(&self) -> (r: Result<(), Vec<FieldError>>)
        ensures
            r is Ok <==> (valid_email(self.email@) && (self.phone matches Some(p) ==> phone_ok(p@))),
            r matches Err(errs) ==> {
                let email_bad = !valid_email(self.email@);
                let phone_bad = self.phone matches Some(p) && !phone_ok(p@);
                &&& errs.len() == (if email_bad { 1int } else { 0 }) + (if phone_bad { 1int } else { 0 })
                &&& email_bad ==> email_error(errs[0], "email"@)
                &&& phone_bad ==> phone_error(errs[errs.len() - 1], "phone"@, "Invalid phone number"@)
            },
    {
        let mut errors: Vec<FieldError> = Vec::new();
        if !validate_email(self.email.as_str()) {
            errors.push(invalid_email("email"));
        }
        match &self.phone {
            Some(p) => {
                match validate_phone(p.as_str()) {
                    Ok(()) => {},
                    Err(e) => {
                        errors.push(e);
                    },
                }
            },
            None => {},
        }
        if errors.len() == 0 {
            Ok(())
        } else {
            Err(errors)
        }
    }
}

/// Public view of a user.
pub struct ReadUserSerializer {
    pub user_id: i64,
    pub name: String,
    pub email: String,
    pub phone: Option<String>,
    /// Names of the retreats the user works at (filled by the user list).
    pub retreats: Vec<String>,
}

impl ReadUserSerializer {
    /// The view of a user row; the password is left out.
    pub fn from(value: User) -> (r: ReadUserSerializer)
        ensures
            r.user_id == value.user_id,
            r.name == value.name,
            r.email == value.email,
            r.phone == value.phone,
            r.retreats@.len() == 0,
    {
        ReadUserSerializer {
            user_id: value.user_id,
            name: value.name,
            email: value.email,
            phone: value.phone,
            retreats: Vec::new(),
        }
    }
}

/// Query of the user list.
pub struct UserFilter {
    pub page: Option<u64>,
    pub page_size: Option<u64>,
    pub search: Option<String>,
    /// Keep only users who work at a retreat whose name matches.
    pub retreat_name: Option<String>,
    pub sort_by: Option<String>,
    pub sort_order: Option<String>,
}

/// How the user list is ordered.
pub enum UserOrder {
    /// By name, in the given direction.
    ByName(SortOrder),
    /// By id, newest first.
    NewestFirst,
}

impl UserFilter {
    /// `sort_by=name` orders by name, descending only with `sort_order=desc`;
    /// anything else lists the newest users first.
    pub fn order(&self) -> (r: UserOrder)
        ensures
            param_is(self.sort_by, "name"@) ==> (r matches UserOrder::ByName(d) && (d is Desc
                <==> param_is(self.sort_order, "desc"@))),
            !param_is(self.sort_by, "name"@) ==> r is NewestFirst,
    {
        if param_equals(&self.sort_by, "name") {
            if param_equals(&self.sort_order, "desc") {
                UserOrder::ByName(SortOrder::Desc)
            } else {
                UserOrder::ByName(SortOrder::Asc)
            }
        } else {
            UserOrder::NewestFirst
        }
    }
}

impl Paginate for UserFilter {
    open spec fn page_param(&self) -> Option<u64> {
        self.page
    }

    open spec fn page_size_param(&self) -> Option<u64> {
        self.page_size
    }

    fn limit(&self) -> (r: u64) {
        self.page_size.unwrap_or(10)
    }

    fn page(&self) -> (r: u64) {
        self.page.unwrap_or(1)
    }

    fn offset(&self) -> (r: u64) {
        let page = self.page();
        if page == 0 {
            return 0;
        }
        (page - 1) * self.limit()
    }
}

/// Profile update: each field given replaces the stored one; `phone` given
/// as `null` clears the number.
pub struct UpdateUserSerializer {
    pub name: Option<String>,
    pub email: Option<String>,
    pub phone: Option<Option<String>>,
}

/// The user after an update: each field the update names replaces the
/// stored one.
pub open spec fn updated_user(before: User, upd: UpdateUserSerializer) -> User {
    User {
        user_id: before.user_id,
        name: match upd.name {
            Some(v) => v,
            None => before.name,
        },
        email: match upd.email {
            Some(v) => v,
            None => before.email,
        },
        password: before.password,
        phone: match upd.phone {
            Some(v) => v,
            None => before.phone,
        },
    }
}

/// What a profile update does, field by field: a field the update names
/// replaces the stored one, a field it leaves out is kept, and the id and the
/// password hash are never touched.
pub open spec fn update_takes_given_fields(before: User, upd: UpdateUserSerializer, after: User) -> bool {
    &&& (upd.name matches Some(v) ==> after.name == v)
    &&& (upd.name is None ==> after.name == before.name)
    &&& (upd.email matches Some(v) ==> after.email == v)
    &&& (upd.email is None ==> after.email == before.email)
    &&& (upd.phone matches Some(v) ==> after.phone == v)
    &&& (upd.phone is None ==> after.phone == before.phone)
    &&& after.user_id == before.user_id
    &&& after.password == before.password
}

/// A profile update stores every field it names and nothing else: for every
/// user and update, the updated user is related to them as
/// `update_takes_given_fields` says.
pub proof fn lemma_user_update_takes_given_fields(before: User, upd: UpdateUserSerializer)
    ensures
        update_takes_given_fields(before, upd, updated_user(before, upd)),
{
}

impl UpdateUserSerializer {
    /// Checks the new e-mail address and phone number where they are given.
    pub fn validate(&self) -> (r: Result<(), Vec<FieldError>>)
        ensures
            r is Ok <==> ((self.email matches Some(e) ==> valid_email(e@)) && (self.phone matches Some(
                Some(p),
            ) ==> phone_ok(p@))),
            r matches Err(errs) ==> {
                let email_bad = self.email matches Some(e) && !valid_email(e@);
                let phone_bad = self.phone matches Some(Some(p)) && !phone_ok(p@);
                &&& errs.len() == (if email_bad { 1int } else { 0 }) + (if phone_bad { 1int } else { 0 })
                &&& email_bad ==> email_error(errs[0], "email"@)
                &&& phone_bad ==> phone_error(errs[errs.len() - 1], "phone"@, "Invalid phone number"@)
            },
    {
        let mut errors: Vec<FieldError> = Vec::new();
        match &self.email {
            Some(e) => {
                if !validate_email(e.as_str()) {
                    errors.push(invalid_email("email"));
                }
            },
            None => {},
        }
        match &self.phone {
            Some(Some(p)) => {
                match validate_phone(p.as_str()) {
                    Ok(()) => {},
                    Err(e) => {
                        errors.push(e);
                    },
                }
            },
            _ => {},
        }
        if errors.len() == 0 {
            Ok(())
        } else {
            Err(errors)
        }
    }

    /// Applies the update to a stored user.
    pub fn apply_to(self, before: User) -> (r: User)
        ensures
            r == updated_user(before, self),
            update_takes_given_fields(before, self, r),
    {
        let User { user_id, name, email, password, phone } = before;
        User {
            user_id,
            name: match self.name {
                Some(v) => v,
                None => name,
            },
            email: match self.email {
                Some(v) => v,
                None => email,
            },
            password,
            phone: match self.phone {
                Some(v) => v,
                None => phone,
            },
        }
    }
}

/// An update that names no field leaves a user as it was.
pub proof fn lemma_empty_user_update_is_identity(before: User)
    ensures
        updated_user(before, UpdateUserSerializer { name: None, email: None, phone: None })
            == before,
{
}

/// Applying the same update twice gives what applying it once gives.
pub proof fn lemma_user_update_idempotent(before: User, upd: UpdateUserSerializer)
    ensures
        updated_user(updated_user(before, upd), upd) == updated_user(before, upd),
{
}

} // verus!
