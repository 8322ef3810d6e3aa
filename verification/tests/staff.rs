use my_retreat_nest::gallery::check_gallery_category_deletable;
use my_retreat_nest::mail::{listing_approved_mail, listing_approved_subject, reset_mail, reset_password_link};
use my_retreat_nest::models::{RetreatModel, RetreatUserModel, User};
use my_retreat_nest::response::{error_response, CustomResponse};
use my_retreat_nest::retreat_staff::{
    attach_retreat_names, check_staff_name, retreat_names_for_user, staff_account,
    staff_initial_password, staff_list, staff_membership,
};
use my_retreat_nest::serializers::retreats::CreateRetreatUserSerializer;
use my_retreat_nest::serializers::users::ReadUserSerializer;
use serde_json::Value;

fn retreat(id: i64, name: &str) -> RetreatModel {
    RetreatModel {
        retreat_id: id,
        name: name.to_string(),
        description: None,
        category_id: 1,
        slug: name.to_lowercase(),
        social_links: Value::Null,
        email: None,
        phone: None,
        latitude: None,
        longitude: None,
        address: None,
        budget_min: None,
        budget_max: None,
        is_published: true,
        thumbnail_image: None,
        banner_image: None,
        created_by: None,
        updated_by: None,
    }
}

fn member(id: i64, retreat_id: i64, user_id: i64) -> RetreatUserModel {
    RetreatUserModel { retreat_user_id: id, retreat_id, user_id, role: Some("staff".to_string()) }
}

fn user(id: i64, name: &str) -> User {
    User { user_id: id, name: name.to_string(), email: format!("{}@x.io", name), password: "h".to_string(), phone: None }
}

#[test]
fn retreat_names_follow_membership_order() {
    let retreats = vec![retreat(1, "Alpha"), retreat(2, "Beta"), retreat(3, "Gamma")];
    let rows = vec![member(1, 3, 10), member(2, 1, 11), member(3, 1, 10), member(4, 9, 10)];
    assert_eq!(retreat_names_for_user(10, &rows, &retreats), vec!["Gamma".to_string(), "Alpha".to_string()]);
    assert_eq!(retreat_names_for_user(11, &rows, &retreats), vec!["Alpha".to_string()]);
    assert!(retreat_names_for_user(12, &rows, &retreats).is_empty());
}

#[test]
fn duplicate_retreat_ids_take_the_last_row() {
    let retreats = vec![retreat(1, "Old"), retreat(1, "New")];
    let rows = vec![member(1, 1, 10)];
    assert_eq!(retreat_names_for_user(10, &rows, &retreats), vec!["New".to_string()]);
}

#[test]
fn attach_names_to_user_page() {
    let retreats = vec![retreat(1, "Alpha")];
    let rows = vec![member(1, 1, 2)];
    let users = vec![ReadUserSerializer::from(user(2, "b")), ReadUserSerializer::from(user(3, "c"))];
    let out = attach_retreat_names(users, &rows, &retreats);
    assert_eq!(out.len(), 2);
    assert_eq!(out[0].user_id, 2);
    assert_eq!(out[0].retreats, vec!["Alpha".to_string()]);
    assert_eq!(out[1].user_id, 3);
    assert!(out[1].retreats.is_empty());
}

#[test]
fn staff_list_joins_users() {
    let users = vec![user(10, "ann"), user(11, "bo")];
    let out = staff_list(vec![member(5, 1, 11), member(6, 1, 10)], &users);
    assert_eq!(out.len(), 2);
    assert_eq!((out[0].retreat_user_id, out[0].name.as_str(), out[0].email.as_str()), (5, "bo", "bo@x.io"));
    assert_eq!((out[1].user_id, out[1].name.as_str()), (10, "ann"));
    assert_eq!(out[1].role.as_deref(), Some("staff"));
}

#[test]
fn staff_name_must_match_existing_account() {
    let p = CreateRetreatUserSerializer { name: "ann".to_string(), email: "ann@x.io".to_string(), role: "chef".to_string() };
    assert!(check_staff_name(&user(10, "ann"), &p).is_ok());
    let e = check_staff_name(&user(10, "Ann"), &p).err().unwrap();
    assert_eq!(e.status, 202);
    assert_eq!(e.message, "User exists with a different name <strong>Ann</strong>.");
    let a = staff_account(&p, "hash".to_string());
    assert_eq!((a.name.as_str(), a.email.as_str(), a.password.as_str()), ("ann", "ann@x.io", "hash"));
    assert!(a.phone.is_none());
    let m = staff_membership(4, 10, &p);
    assert_eq!((m.retreat_id, m.user_id, m.role.as_deref(), m.created_by), (4, 10, Some("chef"), None));
    assert_eq!(staff_initial_password(), "tempPassword");
}

#[test]
fn gallery_category_with_images_is_kept() {
    assert!(check_gallery_category_deletable(0).is_ok());
    let e = check_gallery_category_deletable(3).err().unwrap();
    assert_eq!(e.status, 400);
    assert_eq!(e.message, "Cannot delete category with 3 associated image(s). Reassign them first.");
}

#[test]
fn mail_texts() {
    assert_eq!(reset_password_link("https://nest.io", "tok"), "https://nest.io/reset-password?token=tok");
    assert_eq!(listing_approved_subject("Pines"), "Your Retreat 'Pines' Has Been Approved! \u{2013} My Retreat Nest");
    let m = listing_approved_mail("o@x.io", "Olga", "Pines", Some("Temp1234abcd"), "https://nest.io");
    assert!(m.html_body.contains("<p>Dear Olga,</p>"));
    assert!(m.html_body.contains("<td><code>Temp1234abcd</code></td>"));
    assert!(m.html_body.contains("<a href=\"https://nest.io\""));
    assert!(m.html_body.starts_with("<!DOCTYPE html>"));
    let m = listing_approved_mail("o@x.io", "Olga", "Pines", None, "https://nest.io");
    assert!(m.html_body.contains("<a href=\"https://nest.io/login\""));
    assert!(!m.html_body.contains("Temp Password"));
    let r = reset_mail("https://nest.io", "abc");
    assert_eq!(r.subject, "Password Reset - My Retreat Nest");
    assert!(r.html_body.contains("<a href=\"https://nest.io/reset-password?token=abc\""));
    assert!(r.html_body.ends_with("</html>"));
}

#[test]
fn response_builder() {
    let r: CustomResponse<u32, ()> = CustomResponse::builder(5);
    assert_eq!((r.status_code, r.data, r.message.as_str()), (200, 5, ""));
    assert!(r.meta.is_none());
    let r = r.message("done").status_code(201).meta(());
    assert_eq!((r.status_code, r.data, r.message.as_str()), (201, 5, "done"));
    assert!(r.meta.is_some());
    let e = error_response("User not found.", 404);
    assert_eq!((e.status_code, e.message.as_str()), (404, "User not found."));
}
