use my_retreat_nest::models::{AmenityModel, CategoryModel, RetreatModel, RetreatUserModel, User};
use my_retreat_nest::serializers::amenities::{ReadAmenitySerializer, UpdateAmenitySerializer};
use my_retreat_nest::serializers::categories::{
    validate_phone as category_phone, ReadCategorySerializer, UpdateCategorySerializer,
};
use my_retreat_nest::serializers::listing_requests::CreateListingRequestSerializer;
use my_retreat_nest::serializers::retreats::{
    ReadRetreatSerializer, RetreatFilter, UpdateRetreatSerializer, UpdateRetreatUserSerializer,
};
use my_retreat_nest::serializers::users::{
    CreateUserSerializer, ReadUserSerializer, UpdateUserSerializer, UserFilter, UserOrder,
};
use my_retreat_nest::text::SortOrder;
use my_retreat_nest::timestamp::Timestamp;
use sea_orm::prelude::Decimal;
use serde_json::Value;

fn user() -> User {
    User {
        user_id: 1,
        name: "Lena".to_string(),
        email: "lena@example.com".to_string(),
        password: "hash".to_string(),
        phone: Some("555123456".to_string()),
    }
}

fn retreat(thumb: Option<&str>, banner: Option<&str>) -> RetreatModel {
    RetreatModel {
        retreat_id: 17,
        name: "Lakeside".to_string(),
        description: None,
        category_id: 2,
        slug: "lakeside".to_string(),
        social_links: Value::Null,
        email: Some("desk@lakeside.io".to_string()),
        phone: None,
        latitude: Some(Decimal::new(1, 0)),
        longitude: None,
        address: None,
        budget_min: None,
        budget_max: None,
        is_published: true,
        thumbnail_image: thumb.map(|s| s.to_string()),
        banner_image: banner.map(|s| s.to_string()),
        created_by: None,
        updated_by: Some(3),
    }
}

fn create_user(email: &str, phone: Option<&str>) -> CreateUserSerializer {
    CreateUserSerializer {
        name: "N".to_string(),
        email: email.to_string(),
        password: "pw".to_string(),
        phone: phone.map(|s| s.to_string()),
    }
}

#[test]
fn create_user_validation() {
    assert!(create_user("n@example.com", None).validate().is_ok());
    assert!(create_user("n@example.com", Some("123456789")).validate().is_ok());
    let errs = create_user("n@example.com", Some("12345678")).validate().err().unwrap();
    assert_eq!(errs.len(), 1);
    assert_eq!((errs[0].field.as_str(), errs[0].code.as_str()), ("phone", "Validation"));
    assert_eq!(errs[0].message.as_deref(), Some("Invalid phone number"));
    let errs = create_user("", Some("1")).validate().err().unwrap();
    assert_eq!(errs.len(), 2);
    assert_eq!(errs[0].field, "email");
    assert_eq!(errs[1].field, "phone");
    assert!(create_user("no-at-sign", None).validate().is_err());
}

#[test]
fn phone_rule_counts_bytes() {
    assert!(create_user("n@example.com", Some("ééééé")).validate().is_ok());
    assert!(category_phone("12345678").is_err());
    assert_eq!(category_phone("1").err().unwrap().message.as_deref(), Some("Invalid name"));
    assert!(category_phone("123456789").is_ok());
}

#[test]
fn update_user_validation_and_apply() {
    let upd = UpdateUserSerializer { name: None, email: Some("bad".to_string()), phone: Some(Some("1".to_string())) };
    assert_eq!(upd.validate().err().unwrap().len(), 2);
    let upd = UpdateUserSerializer { name: None, email: None, phone: Some(None) };
    assert!(upd.validate().is_ok());
    let u = upd.apply_to(user());
    assert_eq!(u.phone, None);
    assert_eq!(u.name, "Lena");
    let upd = UpdateUserSerializer { name: Some("L".to_string()), email: None, phone: None };
    let u = upd.apply_to(user());
    assert_eq!((u.name.as_str(), u.email.as_str(), u.password.as_str()), ("L", "lena@example.com", "hash"));
    assert_eq!(u.phone, Some("555123456".to_string()));
}

#[test]
fn user_update_laws() {
    let empty = UpdateUserSerializer { name: None, email: None, phone: None };
    let u = empty.apply_to(user());
    let v = user();
    assert_eq!((u.user_id, u.name, u.email, u.password, u.phone), (v.user_id, v.name, v.email, v.password, v.phone));
    let make = || UpdateUserSerializer { name: Some("Q".to_string()), email: None, phone: Some(None) };
    let once = make().apply_to(user());
    let twice = make().apply_to(make().apply_to(user()));
    assert_eq!((once.name, once.email, once.phone), (twice.name, twice.email, twice.phone));
}

#[test]
fn read_user_hides_password() {
    let r = ReadUserSerializer::from(user());
    assert_eq!((r.user_id, r.name.as_str(), r.email.as_str()), (1, "Lena", "lena@example.com"));
    assert!(r.retreats.is_empty());
}

#[test]
fn user_list_order() {
    let f = |by: Option<&str>, ord: Option<&str>| UserFilter {
        page: None,
        page_size: None,
        search: None,
        retreat_name: None,
        sort_by: by.map(|s| s.to_string()),
        sort_order: ord.map(|s| s.to_string()),
    };
    assert!(matches!(f(Some("name"), None).order(), UserOrder::ByName(SortOrder::Asc)));
    assert!(matches!(f(Some("name"), Some("desc")).order(), UserOrder::ByName(SortOrder::Desc)));
    assert!(matches!(f(Some("name"), Some("DESC")).order(), UserOrder::ByName(SortOrder::Asc)));
    assert!(matches!(f(Some("email"), Some("desc")).order(), UserOrder::NewestFirst));
    assert!(matches!(f(None, None).order(), UserOrder::NewestFirst));
}

#[test]
fn amenity_view_and_update() {
    let m = AmenityModel {
        amenity_id: 3,
        label: "Pool".to_string(),
        created_at: Timestamp::from_parts(0, 0, 0).unwrap(),
        updated_at: Timestamp::from_parts(3600, 0, 0).unwrap(),
        created_by: Some(1),
        updated_by: None,
    };
    let upd = UpdateAmenitySerializer { label: Some("Heated pool".to_string()) };
    let m = upd.apply_to(m, 8);
    assert_eq!((m.label.as_str(), m.updated_by, m.created_by), ("Heated pool", Some(8), Some(1)));
    let r = ReadAmenitySerializer::from(m);
    assert_eq!(r.created_at, "1970-01-01 00:00:00 +00:00");
    assert_eq!(r.updated_at, "1970-01-01 01:00:00 +00:00");
    assert_eq!((r.amenity_id, r.label.as_str()), (3, "Heated pool"));
}

#[test]
fn category_thumbnail_address() {
    let c = CategoryModel { category_id: 12, name: "Spa".to_string(), description: None, thumbnail_image: Some("x/y.png".to_string()) };
    let r = ReadCategorySerializer::from(c);
    assert_eq!(r.thumbnail_image.as_deref(), Some("/categories/12/thumbnail/image/"));
    let c = CategoryModel { category_id: -5, name: "Odd".to_string(), description: None, thumbnail_image: Some(String::new()) };
    assert_eq!(ReadCategorySerializer::from(c).thumbnail_image.as_deref(), Some("/categories/-5/thumbnail/image/"));
    let c = CategoryModel { category_id: 1, name: "A".to_string(), description: Some("d".to_string()), thumbnail_image: None };
    let upd = UpdateCategorySerializer { name: None, description: Some(None) };
    let c = upd.apply_to(c);
    assert_eq!(c.description, None);
    assert!(ReadCategorySerializer::from(c).thumbnail_image.is_none());
}

#[test]
fn retreat_image_addresses() {
    let r = ReadRetreatSerializer::from(retreat(Some("t.png"), None));
    assert_eq!(r.thumbnail_image.as_deref(), Some("/retreats/17/thumbnail/image/"));
    assert!(r.banner_image.is_none());
    let r = ReadRetreatSerializer::from(retreat(None, Some("b.png")));
    assert_eq!(r.banner_image.as_deref(), Some("/retreats/17/banner/image/"));
    assert_eq!(r.email.as_deref(), Some("desk@lakeside.io"));
}

#[test]
fn retreat_update_patches() {
    let upd = UpdateRetreatSerializer {
        name: Some("Lakeside Inn".to_string()),
        description: None,
        category_id: None,
        slug: None,
        social_links: None,
        email: Some(None),
        phone: None,
        latitude: Some(Some(Decimal::new(5, 0))),
        longitude: None,
        address: None,
        budget_min: None,
        budget_max: None,
        is_published: Some(false),
    };
    let r = upd.apply_to(retreat(None, None));
    assert_eq!(r.name, "Lakeside Inn");
    assert_eq!(r.email, None);
    assert_eq!(r.latitude, Some(Decimal::new(5, 0)));
    assert!(!r.is_published);
    assert_eq!(r.slug, "lakeside");
    let m = RetreatUserModel { retreat_user_id: 1, retreat_id: 2, user_id: 3, role: Some("chef".to_string()) };
    let m = UpdateRetreatUserSerializer { role: Some(Some("manager".to_string())) }.apply_to(m);
    assert_eq!(m.role.as_deref(), Some("manager"));
    let m = UpdateRetreatUserSerializer { role: None }.apply_to(m);
    assert_eq!(m.role.as_deref(), Some("manager"));
}

#[test]
fn retreat_filter_published_only() {
    let f = |p: Option<bool>| RetreatFilter {
        page: None,
        page_size: None,
        is_published: p,
        search: None,
        category_id: None,
        sort_by: None,
        sort_order: None,
    };
    assert!(f(Some(true)).published_only());
    assert!(!f(Some(false)).published_only());
    assert!(!f(None).published_only());
}

#[test]
fn listing_request_payload_validation() {
    let mut p = CreateListingRequestSerializer {
        owner_name: "O".to_string(),
        owner_email: "owner@example.com".to_string(),
        owner_phone: None,
        retreat_name: "R".to_string(),
        retreat_description: None,
        category_id: 1,
        retreat_email: None,
        retreat_phone: None,
        latitude: None,
        longitude: None,
        address: None,
        budget_min: None,
        budget_max: None,
        social_links: Value::Null,
    };
    assert!(p.validate().is_ok());
    p.owner_email = "owner@".to_string();
    let errs = p.validate().err().unwrap();
    assert_eq!(errs[0].field, "owner_email");
}
