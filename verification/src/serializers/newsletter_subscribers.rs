//! Payloads and views of newsletter subscriptions.
use vstd::prelude::*;
use crate::models::NewsletterSubscriberModel;
use crate::serializers::validation::{email_error, invalid_email, valid_email, validate_email, FieldError};

verus! {

/// Payload that subscribes an address.
pub struct CreateNewsletterSubscriptionSerializer {
    pub email: String,
}

impl CreateNewsletterSubscriptionSerializer {
    /// Checks the address.
    pub fn validate(&self) -> (r: Result<(), Vec<FieldError>>)
        ensures
            r is Ok <==> valid_email(self.email@),
            r matches Err(errs) ==> errs.len() == 1 && email_error(errs[0], "email"@),
    {
        if validate_email(self.email.as_str()) {
            Ok(())
        } else {
            let mut errors: Vec<FieldError> = Vec::new();
            errors.push(invalid_email("email"));
            Err(errors)
        }
    }
}

/// Public view of a subscription.
pub struct ReadNewsletterSubscriptionSerializer {
    pub id: i64,
    pub email: String,
    pub user_id: Option<i64>,
    pub created_at: String,
    pub updated_at: String,
}

impl ReadNewsletterSubscriptionSerializer {
    /// The view of a subscription row, with its timestamps rendered as text.
    pub fn from(value: NewsletterSubscriberModel) -> (r: ReadNewsletterSubscriptionSerializer)
        ensures
            r.id == value.id,
            r.email == value.email,
            r.user_id == value.user_id,
            r.created_at@ == value.created_at.text(),
            r.updated_at@ == value.updated_at.text(),
    {
        let created_at = value.created_at.to_text();
        let updated_at = value.updated_at.to_text();
        ReadNewsletterSubscriptionSerializer {
            id: value.id,
            email: value.email,
            user_id: value.user_id,
            created_at,
            updated_at,
        }
    }
}

/// Whether the signed-in user is subscribed, and under which address.
pub struct NewsletterSubscriptionStatusSerializer {
    pub subscribed: bool,
    pub email: Option<String>,
    pub user_id: Option<i64>,
}

} // verus!
