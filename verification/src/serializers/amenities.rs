//! Payloads and views of amenities.
use vstd::prelude::*;
use crate::models::AmenityModel;
use crate::serializers::pagination::Paginate;

verus! {

/// Payload that creates an amenity.
pub struct CreateAmenitySerializer {
    pub label: String,
}

/// Public view of an amenity.
pub struct ReadAmenitySerializer {
    pub amenity_id: i64,
    pub label: String,
    pub created_at: String,
    pub updated_at: String,
    pub created_by: Option<i64>,
    pub updated_by: Option<i64>,
}

/// Payload that renames an amenity.
pub struct UpdateAmenitySerializer {
    pub label: Option<String>,
}

/// Query of the amenity list.
pub struct AmenityFilter {
    pub page: Option<u64>,
    pub page_size: Option<u64>,
    pub search: Option<String>,
}

impl Paginate for AmenityFilter {
    open spec fn page_param(&self) -> Option<u64> {
        self.page
    }

    open spec fn page_size_param(&self) -> Option<u64> {
        self.page_size
    }

    fn limit(&self) -> (r: u64) {
        self.page_size.unwrap_or(10)
    }

    fn page(&self) -> (r: u64) {
        self.page.unwrap_or(1)
    }

    fn offset(&self) -> (r: u64) {
        let page = self.page();
        if page == 0 {
            return 0;
        }
        (page - 1) * self.limit()
    }
}

impl ReadAmenitySerializer {
    /// The view of an amenity row, with its timestamps rendered as text.
    pub fn from(value: AmenityModel) -> (r: ReadAmenitySerializer)
        ensures
            r.amenity_id == value.amenity_id,
            r.label == value.label,
            r.created_at@ == value.created_at.text(),
            r.updated_at@ == value.updated_at.text(),
            r.created_by == value.created_by,
            r.updated_by == value.updated_by,
    {
        let created_at = value.created_at.to_text();
        let updated_at = value.updated_at.to_text();
        ReadAmenitySerializer {
            amenity_id: value.amenity_id,
            label: value.label,
            created_at,
            updated_at,
            created_by: value.created_by,
            updated_by: value.updated_by,
        }
    }
}

impl UpdateAmenitySerializer {
    /// Applies the update to a stored amenity, recording who changed it.
    pub fn apply_to(self, before: AmenityModel, editor_id: i64) -> (r: AmenityModel)
        ensures
            r.amenity_id == before.amenity_id,
            r.label == (match self.label {
                Some(v) => v,
                None => before.label,
            }),
            r.created_at == before.created_at,
            r.updated_at == before.updated_at,
            r.created_by == before.created_by,
            r.updated_by == Some(editor_id),
    {
        AmenityModel {
            amenity_id: before.amenity_id,
            label: match self.label {
                Some(v) => v,
                None => before.label,
            },
            created_at: before.created_at,
            updated_at: before.updated_at,
            created_by: before.created_by,
            updated_by: Some(editor_id),
        }
    }
}

} // verus!
