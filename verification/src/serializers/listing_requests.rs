//! Payloads and views of requests to list a retreat.
use vstd::prelude::*;
use crate::models::ListingRequestModel;
use crate::serializers::pagination::Paginate;
use crate::serializers::retreats::patched;
use crate::serializers::validation::{email_error, invalid_email, valid_email, validate_email, FieldError};
use crate::text::{param_equals, param_is, SortOrder};
use sea_orm::prelude::Decimal;
use serde_json::Value as JsonValue;

verus! {

/// Payload of a listing request sent by a prospective owner.
pub struct CreateListingRequestSerializer {
    pub owner_name: String,
    pub owner_email: String,
    pub owner_phone: Option<String>,
    pub retreat_name: String,
    pub retreat_description: Option<String>,
    pub category_id: i64,
    pub retreat_email: Option<String>,
    pub retreat_phone: Option<String>,
    pub latitude: Option<Decimal>,
    pub longitude: Option<Decimal>,
    pub address: Option<String>,
    pub budget_min: Option<Decimal>,
    pub budget_max: Option<Decimal>,
    pub social_links: JsonValue,
}

impl CreateListingRequestSerializer {
    /// Checks the owner's e-mail address.
    pub fn validate(&self) -> (r: Result<(), Vec<FieldError>>)
        ensures
            r is Ok <==> valid_email(self.owner_email@),
            r matches Err(errs) ==> errs.len() == 1 && email_error(errs[0], "owner_email"@),
    {
        if validate_email(self.owner_email.as_str()) {
            Ok(())
        } else {
            let mut errors: Vec<FieldError> = Vec::new();
            errors.push(invalid_email("owner_email"));
            Err(errors)
        }
    }
}

/// Public view of a listing request.
pub struct ReadListingRequestSerializer {
    pub listing_request_id: i64,
    pub owner_name: String,
    pub owner_email: String,
    pub owner_phone: Option<String>,
    pub retreat_name: String,
    pub retreat_description: Option<String>,
    pub category_id: i64,
    pub retreat_email: Option<String>,
    pub retreat_phone: Option<String>,
    pub latitude: Option<Decimal>,
    pub longitude: Option<Decimal>,
    pub address: Option<String>,
    pub budget_min: Option<Decimal>,
    pub budget_max: Option<Decimal>,
    pub social_links: JsonValue,
    pub status: String,
    pub reviewed_by: Option<i64>,
    pub reviewed_at: Option<String>,
    pub rejection_reason: Option<String>,
    pub retreat_id: Option<i64>,
    pub created_at: String,
    pub updated_at: String,
}

impl ReadListingRequestSerializer {
    /// The view of a listing request row, with its timestamps rendered as
    /// text.
    pub fn from(value: ListingRequestModel) -> (r: ReadListingRequestSerializer)
        ensures
            r.listing_request_id == value.listing_request_id,
            r.owner_name == value.owner_name,
            r.owner_email == value.owner_email,
            r.owner_phone == value.owner_phone,
            r.retreat_name == value.retreat_name,
            r.retreat_description == value.retreat_description,
            r.category_id == value.category_id,
            r.retreat_email == value.retreat_email,
            r.retreat_phone == value.retreat_phone,
            r.latitude == value.latitude,
            r.longitude == value.longitude,
            r.address == value.address,
            r.budget_min == value.budget_min,
            r.budget_max == value.budget_max,
            r.social_links == value.social_links,
            r.status == value.status,
            r.reviewed_by == value.reviewed_by,
            r.reviewed_at is Some <==> value.reviewed_at is Some,
            r.reviewed_at matches Some(t) ==> t@ == value.reviewed_at->0.text(),
            r.rejection_reason == value.rejection_reason,
            r.retreat_id == value.retreat_id,
            r.created_at@ == value.created_at.text(),
            r.updated_at@ == value.updated_at.text(),
    {
        let reviewed_at = match &value.reviewed_at {
            Some(d) => Some(d.to_text()),
            None => None,
        };
        let created_at = value.created_at.to_text();
        let updated_at = value.updated_at.to_text();
        ReadListingRequestSerializer {
            listing_request_id: value.listing_request_id,
            owner_name: value.owner_name,
            owner_email: value.owner_email,
            owner_phone: value.owner_phone,
            retreat_name: value.retreat_name,
            retreat_description: value.retreat_description,
            category_id: value.category_id,
            retreat_email: value.retreat_email,
            retreat_phone: value.retreat_phone,
            latitude: value.latitude,
            longitude: value.longitude,
            address: value.address,
            budget_min: value.budget_min,
            budget_max: value.budget_max,
            social_links: value.social_links,
            status: value.status,
            reviewed_by: value.reviewed_by,
            reviewed_at,
            rejection_reason: value.rejection_reason,
            retreat_id: value.retreat_id,
            created_at,
            updated_at,
        }
    }
}

/// Query of the listing-request list.
pub struct ListingRequestFilter {
    pub page: Option<u64>,
    pub page_size: Option<u64>,
    pub status: Option<String>,
    pub search: Option<String>,
    pub sort_by: Option<String>,
    pub sort_order: Option<String>,
}

impl ListingRequestFilter {
    /// Requests are listed by id, oldest first only when `sort_by=oldest`,
    /// newest first otherwise.
    pub fn order(&self) -> (r: SortOrder)
        ensures
            r is Asc <==> param_is(self.sort_by, "oldest"@),
    {
        if param_equals(&self.sort_by, "oldest") {
            SortOrder::Asc
        } else {
            SortOrder::Desc
        }
    }
}

impl Paginate for ListingRequestFilter {
    open spec fn page_param(&self) -> Option<u64> {
        self.page
    }

    open spec fn page_size_param(&self) -> Option<u64> {
        self.page_size
    }

    fn limit(&self) -> (r: u64) {
        self.page_size.unwrap_or(10)
    }

    fn page(&self) -> (r: u64) {
        self.page.unwrap_or(1)
    }

    fn offset(&self) -> (r: u64) {
        let page = self.page();
        if page == 0 {
            return 0;
        }
        (page - 1) * self.limit()
    }
}

/// Payload that approves a request, optionally naming the retreat's slug.
pub struct ApproveListingRequestSerializer {
    pub slug: Option<String>,
}

/// Payload that rejects a request, optionally with a reason.
pub struct RejectListingRequestSerializer {
    pub rejection_reason: Option<String>,
}

/// Payload that edits a pending request; each field given replaces the
/// stored one.
pub struct UpdateListingRequestSerializer {
    pub owner_name: Option<String>,
    pub owner_email: Option<String>,
    pub owner_phone: Option<String>,
    pub retreat_name: Option<String>,
    pub retreat_description: Option<String>,
    pub category_id: Option<i64>,
    pub retreat_email: Option<String>,
    pub retreat_phone: Option<String>,
    pub latitude: Option<Decimal>,
    pub longitude: Option<Decimal>,
    pub address: Option<String>,
    pub budget_min: Option<Decimal>,
    pub budget_max: Option<Decimal>,
    pub social_links: Option<JsonValue>,
}

/// The value of an optional column after an edit: a given value is stored
/// (an edit cannot clear the column), else the column keeps its value.
pub open spec fn set_if_given<T>(given: Option<T>, stored: Option<T>) -> Option<T> {
    match given {
        Some(v) => Some(v),
        None => stored,
    }
}

fn set_if<T>(given: Option<T>, stored: Option<T>) -> (r: Option<T>)
    ensures
        r == set_if_given(given, stored),
{
    match given {
        Some(v) => Some(v),
        None => stored,
    }
}

fn keep_or<T>(given: Option<T>, stored: T) -> (r: T)
    ensures
        r == patched(given, stored),
{
    match given {
        Some(v) => v,
        None => stored,
    }
}

/// The request after an edit.
pub open spec fn edited_request(
    before: ListingRequestModel,
    upd: UpdateListingRequestSerializer,
) -> ListingRequestModel {
    ListingRequestModel {
        owner_name: patched(upd.owner_name, before.owner_name),
        owner_email: patched(upd.owner_email, before.owner_email),
        owner_phone: set_if_given(upd.owner_phone, before.owner_phone),
        retreat_name: patched(upd.retreat_name, before.retreat_name),
        retreat_description: set_if_given(upd.retreat_description, before.retreat_description),
        category_id: patched(upd.category_id, before.category_id),
        retreat_email: set_if_given(upd.retreat_email, before.retreat_email),
        retreat_phone: set_if_given(upd.retreat_phone, before.retreat_phone),
        latitude: set_if_given(upd.latitude, before.latitude),
        longitude: set_if_given(upd.longitude, before.longitude),
        address: set_if_given(upd.address, before.address),
        budget_min: set_if_given(upd.budget_min, before.budget_min),
        budget_max: set_if_given(upd.budget_max, before.budget_max),
        social_links: patched(upd.social_links, before.social_links),
        ..before
    }
}

/// What an edit does to a request, column by column: each column the
/// payload gives takes the given value, each it leaves out keeps the stored
/// one, and the review columns, the ids and the times are never touched.
pub open spec fn edit_takes_given_fields(
    before: ListingRequestModel,
    upd: UpdateListingRequestSerializer,
    after: ListingRequestModel,
) -> bool {
    &&& (upd.owner_name matches Some(v) ==> after.owner_name == v)
    &&& (upd.owner_name is None ==> after.owner_name == before.owner_name)
    &&& (upd.owner_email matches Some(v) ==> after.owner_email == v)
    &&& (upd.owner_email is None ==> after.owner_email == before.owner_email)
    &&& (upd.retreat_name matches Some(v) ==> after.retreat_name == v)
    &&& (upd.retreat_name is None ==> after.retreat_name == before.retreat_name)
    &&& (upd.category_id matches Some(v) ==> after.category_id == v)
    &&& (upd.category_id is None ==> after.category_id == before.category_id)
    &&& (upd.social_links matches Some(v) ==> after.social_links == v)
    &&& (upd.social_links is None ==> after.social_links == before.social_links)
    &&& (upd.owner_phone matches Some(v) ==> after.owner_phone == Some(v))
    &&& (upd.owner_phone is None ==> after.owner_phone == before.owner_phone)
    &&& (upd.retreat_description matches Some(v) ==> after.retreat_description == Some(v))
    &&& (upd.retreat_description is None ==> after.retreat_description == before.retreat_description)
    &&& (upd.retreat_email matches Some(v) ==> after.retreat_email == Some(v))
    &&& (upd.retreat_email is None ==> after.retreat_email == before.retreat_email)
    &&& (upd.retreat_phone matches Some(v) ==> after.retreat_phone == Some(v))
    &&& (upd.retreat_phone is None ==> after.retreat_phone == before.retreat_phone)
    &&& (upd.latitude matches Some(v) ==> after.latitude == Some(v))
    &&& (upd.latitude is None ==> after.latitude == before.latitude)
    &&& (upd.longitude matches Some(v) ==> after.longitude == Some(v))
    &&& (upd.longitude is None ==> after.longitude == before.longitude)
    &&& (upd.address matches Some(v) ==> after.address == Some(v))
    &&& (upd.address is None ==> after.address == before.address)
    &&& (upd.budget_min matches Some(v) ==> after.budget_min == Some(v))
    &&& (upd.budget_min is None ==> after.budget_min == before.budget_min)
    &&& (upd.budget_max matches Some(v) ==> after.budget_max == Some(v))
    &&& (upd.budget_max is None ==> after.budget_max == before.budget_max)
    &&& after.listing_request_id == before.listing_request_id
    &&& after.status == before.status
    &&& after.reviewed_by == before.reviewed_by
    &&& after.reviewed_at == before.reviewed_at
    &&& after.rejection_reason == before.rejection_reason
    &&& after.retreat_id == before.retreat_id
    &&& after.created_at == before.created_at
    &&& after.updated_at == before.updated_at
}

/// An edit stores every column its payload gives and nothing else: for every
/// stored request and payload, the edited request is related to them as
/// `edit_takes_given_fields` says.
pub proof fn lemma_edit_takes_given_fields(
    before: ListingRequestModel,
    upd: UpdateListingRequestSerializer,
)
    ensures
        edit_takes_given_fields(before, upd, edited_request(before, upd)),
{
}

impl UpdateListingRequestSerializer {
    /// Applies the edit to a stored request (whether the request may still
    /// be edited is decided by the review workflow).
    pub fn apply_to(self, before: ListingRequestModel) -> (r: ListingRequestModel)
        ensures
            r == edited_request(before, self),
            edit_takes_given_fields(before, self, r),
    {
        ListingRequestModel {
            listing_request_id: before.listing_request_id,
            owner_name: keep_or(self.owner_name, before.owner_name),
            owner_email: keep_or(self.owner_email, before.owner_email),
            owner_phone: set_if(self.owner_phone, before.owner_phone),
            retreat_name: keep_or(self.retreat_name, before.retreat_name),
            retreat_description: set_if(self.retreat_description, before.retreat_description),
            category_id: keep_or(self.category_id, before.category_id),
            retreat_email: set_if(self.retreat_email, before.retreat_email),
            retreat_phone: set_if(self.retreat_phone, before.retreat_phone),
            latitude: set_if(self.latitude, before.latitude),
            longitude: set_if(self.longitude, before.longitude),
            address: set_if(self.address, before.address),
            budget_min: set_if(self.budget_min, before.budget_min),
            budget_max: set_if(self.budget_max, before.budget_max),
            social_links: keep_or(self.social_links, before.social_links),
            status: before.status,
            reviewed_by: before.reviewed_by,
            reviewed_at: before.reviewed_at,
            rejection_reason: before.rejection_reason,
            retreat_id: before.retreat_id,
            created_at: before.created_at,
            updated_at: before.updated_at,
        }
    }
}

/// Editing a request with the same payload twice gives what editing it once
/// gives.
pub proof fn lemma_request_edit_idempotent(
    before: ListingRequestModel,
    upd: UpdateListingRequestSerializer,
)
    ensures
        edited_request(edited_request(before, upd), upd) == edited_request(before, upd),
{
}

/// An edit that names no field leaves a request as it was.
pub proof fn lemma_empty_request_edit_is_identity(before: ListingRequestModel)
    ensures
        edited_request(
            before,
            UpdateListingRequestSerializer {
                owner_name: None,
                owner_email: None,
                owner_phone: None,
                retreat_name: None,
                retreat_description: None,
                category_id: None,
                retreat_email: None,
                retreat_phone: None,
                latitude: None,
                longitude: None,
                address: None,
                budget_min: None,
                budget_max: None,
                social_links: None,
            },
        ) == before,
{
}

} // verus!
