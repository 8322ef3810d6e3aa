//! Payloads and views of retreats and of the staff who run them.
use vstd::prelude::*;
use crate::models::{RetreatModel, RetreatUserModel};
use crate::serializers::pagination::Paginate;
use crate::text::{push_signed_decimal, signed_decimal, string_push_str};
use sea_orm::prelude::Decimal;
use serde_json::Value as JsonValue;

verus! {

/// Payload that creates a retreat.
pub struct CreateRetreatSerializer {
    pub name: String,
    pub description: Option<String>,
    pub category_id: i64,
    pub slug: String,
    pub social_links: JsonValue,
    pub email: Option<String>,
    pub phone: Option<String>,
    pub latitude: Option<Decimal>,
    pub longitude: Option<Decimal>,
    pub address: Option<String>,
}

/// Public view of a retreat. The average rating that the lists show beside
/// it is computed in floating point by the service and is not part of this
/// view.
pub struct ReadRetreatSerializer {
    pub retreat_id: i64,
    pub name: String,
    pub description: Option<String>,
    pub category_id: i64,
    pub slug: String,
    pub social_links: JsonValue,
    pub email: Option<String>,
    pub phone: Option<String>,
    pub latitude: Option<Decimal>,
    pub longitude: Option<Decimal>,
    pub address: Option<String>,
    pub budget_min: Option<Decimal>,
    pub budget_max: Option<Decimal>,
    pub is_published: bool,
    pub thumbnail_image: Option<String>,
    pub banner_image: Option<String>,
}

/// The address at which a retreat's image of the given kind
/// (`thumbnail` or `banner`) is served.
pub open spec fn retreat_image_url(retreat_id: i64, kind: Seq<char>) -> Seq<char> {
    "/retreats/"@ + signed_decimal(retreat_id as int) + "/"@ + kind + "/image/"@
}

fn image_url(retreat_id: i64, kind: &str) -> (r: String)
    ensures
        r@ == retreat_image_url(retreat_id, kind@),
{
    let mut url = String::new();
    string_push_str(&mut url, "/retreats/");
    push_signed_decimal(&mut url, retreat_id);
    string_push_str(&mut url, "/");
    string_push_str(&mut url, kind);
    string_push_str(&mut url, "/image/");
    assert(url@ =~= retreat_image_url(retreat_id, kind@));
    url
}

impl ReadRetreatSerializer {
    /// The view of a retreat row: stored images show as the addresses that
    /// serve them.
    pub fn from(value: RetreatModel) -> (r: ReadRetreatSerializer)
        ensures
            r.retreat_id == value.retreat_id,
            r.name == value.name,
            r.description == value.description,
            r.category_id == value.category_id,
            r.slug == value.slug,
            r.social_links == value.social_links,
            r.email == value.email,
            r.phone == value.phone,
            r.latitude == value.latitude,
            r.longitude == value.longitude,
            r.address == value.address,
            r.budget_min == value.budget_min,
            r.budget_max == value.budget_max,
            r.is_published == value.is_published,
            r.thumbnail_image is Some <==> value.thumbnail_image is Some,
            r.thumbnail_image matches Some(u) ==> u@ == retreat_image_url(
                value.retreat_id,
                "thumbnail"@,
            ),
            r.banner_image is Some <==> value.banner_image is Some,
            r.banner_image matches Some(u) ==> u@ == retreat_image_url(
                value.retreat_id,
                "banner"@,
            ),
    {
        let thumbnail_image = match value.thumbnail_image {
            Some(_) => Some(image_url(value.retreat_id, "thumbnail")),
            None => None,
        };
        let banner_image = match value.banner_image {
            Some(_) => Some(image_url(value.retreat_id, "banner")),
            None => None,
        };
        ReadRetreatSerializer {
            retreat_id: value.retreat_id,
            name: value.name,
            description: value.description,
            category_id: value.category_id,
            slug: value.slug,
            social_links: value.social_links,
            email: value.email,
            phone: value.phone,
            latitude: value.latitude,
            longitude: value.longitude,
            address: value.address,
            budget_min: value.budget_min,
            budget_max: value.budget_max,
            is_published: value.is_published,
            thumbnail_image,
            banner_image,
        }
    }
}

/// Payload that edits a retreat; the doubly optional fields given as `null`
/// clear the stored value.
pub struct UpdateRetreatSerializer {
    pub name: Option<String>,
    pub description: Option<Option<String>>,
    pub category_id: Option<i64>,
    pub slug: Option<String>,
    pub social_links: Option<JsonValue>,
    pub email: Option<Option<String>>,
    pub phone: Option<Option<String>>,
    pub latitude: Option<Option<Decimal>>,
    pub longitude: Option<Option<Decimal>>,
    pub address: Option<Option<String>>,
    pub budget_min: Option<Option<Decimal>>,
    pub budget_max: Option<Option<Decimal>>,
    pub is_published: Option<bool>,
}

/// The value after a patch: the given one, else the stored one.
pub open spec fn patched<T>(given: Option<T>, stored: T) -> T {
    match given {
        Some(v) => v,
        None => stored,
    }
}

/// Patching is idempotent, and an absent value keeps the stored one: every
/// update payload of the service (retreats, categories, amenities, staff
/// roles, users) edits its row field by field in this way.
pub proof fn lemma_patch_laws<T>(given: Option<T>, stored: T)
    ensures
        patched(given, patched(given, stored)) == patched(given, stored),
        patched(None::<T>, stored) == stored,
{
}

fn patch<T>(given: Option<T>, stored: T) -> (r: T)
    ensures
        r == patched(given, stored),
{
    match given {
        Some(v) => v,
        None => stored,
    }
}

impl UpdateRetreatSerializer {
    /// Applies the update to a stored retreat.
    pub fn apply_to(self, before: RetreatModel) -> (r: RetreatModel)
        ensures
            r.retreat_id == before.retreat_id,
            r.name == patched(self.name, before.name),
            r.description == patched(self.description, before.description),
            r.category_id == patched(self.category_id, before.category_id),
            r.slug == patched(self.slug, before.slug),
            r.social_links == patched(self.social_links, before.social_links),
            r.email == patched(self.email, before.email),
            r.phone == patched(self.phone, before.phone),
            r.latitude == patched(self.latitude, before.latitude),
            r.longitude == patched(self.longitude, before.longitude),
            r.address == patched(self.address, before.address),
            r.budget_min == patched(self.budget_min, before.budget_min),
            r.budget_max == patched(self.budget_max, before.budget_max),
            r.is_published == patched(self.is_published, before.is_published),
            r.thumbnail_image == before.thumbnail_image,
            r.banner_image == before.banner_image,
            r.created_by == before.created_by,
            r.updated_by == before.updated_by,
    {
        RetreatModel {
            retreat_id: before.retreat_id,
            name: patch(self.name, before.name),
            description: patch(self.description, before.description),
            category_id: patch(self.category_id, before.category_id),
            slug: patch(self.slug, before.slug),
            social_links: patch(self.social_links, before.social_links),
            email: patch(self.email, before.email),
            phone: patch(self.phone, before.phone),
            latitude: patch(self.latitude, before.latitude),
            longitude: patch(self.longitude, before.longitude),
            address: patch(self.address, before.address),
            budget_min: patch(self.budget_min, before.budget_min),
            budget_max: patch(self.budget_max, before.budget_max),
            is_published: patch(self.is_published, before.is_published),
            thumbnail_image: before.thumbnail_image,
            banner_image: before.banner_image,
            created_by: before.created_by,
            updated_by: before.updated_by,
        }
    }
}

/// Payload that adds a staff member to a retreat.
pub struct CreateRetreatUserSerializer {
    pub name: String,
    pub email: String,
    pub role: String,
}

/// Payload that changes a staff member's role; `null` clears it.
pub struct UpdateRetreatUserSerializer {
    pub role: Option<Option<String>>,
}

impl UpdateRetreatUserSerializer {
    /// Applies the update to a staff membership.
    pub fn apply_to(self, before: RetreatUserModel) -> (r: RetreatUserModel)
        ensures
            r.retreat_user_id == before.retreat_user_id,
            r.retreat_id == before.retreat_id,
            r.user_id == before.user_id,
            r.role == patched(self.role, before.role),
    {
        RetreatUserModel {
            retreat_user_id: before.retreat_user_id,
            retreat_id: before.retreat_id,
            user_id: before.user_id,
            role: patch(self.role, before.role),
        }
    }
}

/// Public view of a staff member of a retreat.
pub struct ReadRetreatUserSerializer {
    pub retreat_user_id: i64,
    pub retreat_id: i64,
    pub user_id: i64,
    pub name: String,
    pub email: String,
    pub role: Option<String>,
}

/// Query of the retreat list.
pub struct RetreatFilter {
    pub page: Option<u64>,
    pub page_size: Option<u64>,
    pub is_published: Option<bool>,
    pub search: Option<String>,
    pub category_id: Option<i64>,
    pub sort_by: Option<String>,
    pub sort_order: Option<String>,
}

impl RetreatFilter {
    /// Whether the list keeps only published retreats: only when the query
    /// asks for `is_published=true`.
    pub fn published_only(&self) -> (r: bool)
        ensures
            r == (self.is_published == Some(true)),
    {
        match self.is_published {
            Some(b) => b,
            None => false,
        }
    }
}

impl Paginate for RetreatFilter {
    open spec fn page_param(&self) -> Option<u64> {
        self.page
    }

    open spec fn page_size_param(&self) -> Option<u64> {
        self.page_size
    }

    fn limit(&self) -> (r: u64) {
        self.page_size.unwrap_or(10)
    }

    fn page(&self) -> (r: u64) {
        self.page.unwrap_or(1)
    }

    fn offset(&self) -> (r: u64) {
        let page: u64 = self.page();
        if page == 0 {
            return 0;
        }
        (page - 1) * self.limit()
    }
}

} // verus!
