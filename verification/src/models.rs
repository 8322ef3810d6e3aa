//! Rows of the service's tables, as the logic reads them.
use vstd::prelude::*;
use crate::timestamp::Timestamp;
use sea_orm::prelude::Decimal;
use serde_json::Value as JsonValue;

verus! {

/// A fixed-point decimal number (money, coordinates), carried through
/// unchanged.
#[verifier::external_type_specification]
#[verifier::external_body]
pub struct ExDecimal(sea_orm::prelude::Decimal);

/// The decimal `Decimal::from(n)` gives for an integer (`0` gives
/// `Decimal::ZERO`, the default decimal).
pub uninterp spec fn decimal_of_int(n: i64) -> Decimal;

/// Calls `<Decimal as From<i64>>::from`, which cannot fail for an `i64`; the
/// contract names its result `decimal_of_int`.
#[verifier::external_body]
pub(crate) fn decimal_from_int(n: i64) -> (r: Decimal)
    ensures
        r == decimal_of_int(n),
{
    Decimal::from(n)
}

/// A JSON document (social links), carried through unchanged.
#[verifier::external_type_specification]
#[verifier::external_body]
pub struct ExJsonValue(serde_json::Value);

/// Calls `<serde_json::Value as Clone>::clone`; the contract claims the copy
/// is the same document.
#[verifier::external_body]
pub(crate) fn clone_json(v: &JsonValue) -> (r: JsonValue)
    ensures
        r == *v,
{
    v.clone()
}

/// A row of `users`.
pub struct User {
    pub user_id: i64,
    pub name: String,
    pub email: String,
    pub password: String,
    pub phone: Option<String>,
}

/// A row of `amenities`.
pub struct AmenityModel {
    pub amenity_id: i64,
    pub label: String,
    pub created_at: Timestamp,
    pub updated_at: Timestamp,
    pub created_by: Option<i64>,
    pub updated_by: Option<i64>,
}

/// A row of `categories`.
pub struct CategoryModel {
    pub category_id: i64,
    pub name: String,
    pub description: Option<String>,
    pub thumbnail_image: Option<String>,
}

/// A row of `newsletter_subscribers`.
pub struct NewsletterSubscriberModel {
    pub id: i64,
    pub email: String,
    pub user_id: Option<i64>,
    pub created_at: Timestamp,
    pub updated_at: Timestamp,
}

/// A row of `listing_requests`.
pub struct ListingRequestModel {
    pub listing_request_id: i64,
    pub owner_name: String,
    pub owner_email: String,
    pub owner_phone: Option<String>,
    pub retreat_name: String,
    pub retreat_description: Option<String>,
    pub category_id: i64,
    pub retreat_email: Option<String>,
    pub retreat_phone: Option<String>,
    pub latitude: Option<Decimal>,
    pub longitude: Option<Decimal>,
    pub address: Option<String>,
    pub budget_min: Option<Decimal>,
    pub budget_max: Option<Decimal>,
    pub social_links: JsonValue,
    pub status: String,
    pub reviewed_by: Option<i64>,
    pub reviewed_at: Option<Timestamp>,
    pub rejection_reason: Option<String>,
    pub retreat_id: Option<i64>,
    pub created_at: Timestamp,
    pub updated_at: Timestamp,
}

/// A row of `retreats`.
pub struct RetreatModel {
    pub retreat_id: i64,
    pub name: String,
    pub description: Option<String>,
    pub category_id: i64,
    pub slug: String,
    pub social_links: JsonValue,
    pub email: Option<String>,
    pub phone: Option<String>,
    pub latitude: Option<Decimal>,
    pub longitude: Option<Decimal>,
    pub address: Option<String>,
    pub budget_min: Option<Decimal>,
    pub budget_max: Option<Decimal>,
    pub is_published: bool,
    pub thumbnail_image: Option<String>,
    pub banner_image: Option<String>,
    pub created_by: Option<i64>,
    pub updated_by: Option<i64>,
}

/// A row of `retreat_users`: a user's role at a retreat.
pub struct RetreatUserModel {
    pub retreat_user_id: i64,
    pub retreat_id: i64,
    pub user_id: i64,
    pub role: Option<String>,
}

} // verus!
