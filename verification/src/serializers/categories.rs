//! Payloads and views of retreat categories.
use vstd::prelude::*;
use crate::models::CategoryModel;
use crate::serializers::pagination::Paginate;
use crate::serializers::validation::{phone_error, FieldError};
use crate::text::{push_signed_decimal, signed_decimal, string_push_str};
use vstd::utf8::encode_utf8;

verus! {

/// Checks a phone number with the category module's message. No category
/// field uses this rule.
pub fn validate_phone(phone: &str) -> (r: Result<(), FieldError>)
    ensures
        r is Ok <==> (encode_utf8(phone@).len() as usize) >= 9,
        r matches Err(e) ==> phone_error(e, "phone"@, "Invalid name"@),
{
    if phone.len() < 9 {
        return Err(
            FieldError {
                field: "phone".to_owned(),
                code: "Validation".to_owned(),
                message: Some("Invalid name".to_owned()),
            },
        );
    }
    Ok(())
}

/// Payload that creates a category.
pub struct CreateCategorySerializer {
    pub name: String,
    pub description: Option<String>,
}

/// Public view of a category.
pub struct ReadCategorySerializer {
    pub category_id: i64,
    pub name: String,
    pub description: Option<String>,
    pub thumbnail_image: Option<String>,
}

/// The address at which a category's thumbnail is served.
pub open spec fn category_thumbnail_url(category_id: i64) -> Seq<char> {
    "/categories/"@ + signed_decimal(category_id as int) + "/thumbnail/image/"@
}

impl ReadCategorySerializer {
    /// The view of a category row: a stored thumbnail shows as the address
    /// that serves it.
    pub fn from(value: CategoryModel) -> (r: ReadCategorySerializer)
        ensures
            r.category_id == value.category_id,
            r.name == value.name,
            r.description == value.description,
            r.thumbnail_image is Some <==> value.thumbnail_image is Some,
            r.thumbnail_image matches Some(u) ==> u@ == category_thumbnail_url(value.category_id),
    {
        let thumbnail_image = match value.thumbnail_image {
            Some(_) => {
                let mut url = String::new();
                string_push_str(&mut url, "/categories/");
                push_signed_decimal(&mut url, value.category_id);
                string_push_str(&mut url, "/thumbnail/image/");
                assert(url@ =~= category_thumbnail_url(value.category_id));
                Some(url)
            },
            None => None,
        };
        ReadCategorySerializer {
            category_id: value.category_id,
            name: value.name,
            description: value.description,
            thumbnail_image,
        }
    }
}

/// Payload that edits a category; `description` given as `null` clears it.
pub struct UpdateCategorySerializer {
    pub name: Option<String>,
    pub description: Option<Option<String>>,
}

impl UpdateCategorySerializer {
    /// Applies the update to a stored category.
    pub fn apply_to(self, before: CategoryModel) -> (r: CategoryModel)
        ensures
            r.category_id == before.category_id,
            r.name == (match self.name {
                Some(v) => v,
                None => before.name,
            }),
            r.description == (match self.description {
                Some(v) => v,
                None => before.description,
            }),
            r.thumbnail_image == before.thumbnail_image,
    {
        CategoryModel {
            category_id: before.category_id,
            name: match self.name {
                Some(v) => v,
                None => before.name,
            },
            description: match self.description {
                Some(v) => v,
                None => before.description,
            },
            thumbnail_image: before.thumbnail_image,
        }
    }
}

/// Query of the category list.
pub struct CategoryFilter {
    pub page: Option<u64>,
    pub page_size: Option<u64>,
    pub search: Option<String>,
}

impl Paginate for CategoryFilter {
    open spec fn page_param(&self) -> Option<u64> {
        self.page
    }

    open spec fn page_size_param(&self) -> Option<u64> {
        self.page_size
    }

    fn limit(&self) -> (r: u64) {
        self.page_size.unwrap_or(10)
    }

    fn page(&self) -> (r: u64) {
        self.page.unwrap_or(1)
    }

    fn offset(&self) -> (r: u64) {
        let page = self.page();
        if page == 0 {
            return 0;
        }
        (page - 1) * self.limit()
    }
}

} // verus!
