use my_retreat_nest::listing_review::{
    approval_message, base_slug, check_pending, check_reviewable, created_owner, edit,
    existing_owner, generate_temp_password, mailed_password, mark_approved, mark_approved_now,
    owner_account, owner_membership, password_from_indices, reject, reject_now,
    retreat_from_request, slug_from_lowercase, slugify, ReviewError, SlugSearch,
    PASSWORD_CHARSET_LEN, TEMP_PASSWORD_LEN,
};
use my_retreat_nest::listing_review::{
    approval_step, ApprovalAction as A, ApprovalEvent as E, ApprovalStage as S,
};
use my_retreat_nest::models::{ListingRequestModel, User};
use my_retreat_nest::serializers::listing_requests::{
    ListingRequestFilter, ReadListingRequestSerializer, UpdateListingRequestSerializer,
};
use my_retreat_nest::text::SortOrder;
use my_retreat_nest::timestamp::Timestamp;
use sea_orm::prelude::Decimal;
use serde_json::Value;

fn ts(secs: i64) -> Timestamp {
    Timestamp::from_parts(secs, 0, 0).unwrap()
}

fn request(status: &str) -> ListingRequestModel {
    ListingRequestModel {
        listing_request_id: 7,
        owner_name: "Asha Rao".to_string(),
        owner_email: "asha@example.com".to_string(),
        owner_phone: Some("9876543210".to_string()),
        retreat_name: "Quiet Pines Lodge".to_string(),
        retreat_description: Some("Cabins".to_string()),
        category_id: 3,
        retreat_email: None,
        retreat_phone: Some("0123456789".to_string()),
        latitude: Some(Decimal::new(125, 1)),
        longitude: None,
        address: None,
        budget_min: Some(Decimal::new(100, 0)),
        budget_max: None,
        social_links: Value::String("links".to_string()),
        status: status.to_string(),
        reviewed_by: None,
        reviewed_at: None,
        rejection_reason: None,
        retreat_id: None,
        created_at: ts(1_000),
        updated_at: ts(2_000),
    }
}

fn empty_update() -> UpdateListingRequestSerializer {
    UpdateListingRequestSerializer {
        owner_name: None,
        owner_email: None,
        owner_phone: None,
        retreat_name: None,
        retreat_description: None,
        category_id: None,
        retreat_email: None,
        retreat_phone: None,
        latitude: None,
        longitude: None,
        address: None,
        budget_min: None,
        budget_max: None,
        social_links: None,
    }
}

fn view(m: ListingRequestModel) -> ReadListingRequestSerializer {
    ReadListingRequestSerializer::from(m)
}

#[test]
fn slugify_lowercases_and_hyphenates() {
    assert_eq!(slugify("Quiet Pines Lodge"), "quiet-pines-lodge");
    assert_eq!(slugify("Café & Spa, Goa!"), "café--spa-goa");
    assert_eq!(slugify("  "), "--");
    assert_eq!(slugify(""), "");
    assert_eq!(slug_from_lowercase("a_b c"), "ab-c");
}

#[test]
fn slug_hyphens_match_spaces() {
    for text in ["Sea - Side  Retreat", "a-b-c", "Über Haus am See", " lead and trail "] {
        let slug = slugify(text);
        assert_eq!(slug.matches('-').count(), text.matches(' ').count());
        assert!(!slug.contains(' '));
    }
}

#[test]
fn ascii_slug_is_filtered_lowercase_and_joins() {
    let ascii = |t: &str| -> String {
        t.chars()
            .filter(|c| c.is_ascii_alphanumeric() || *c == ' ')
            .map(|c| if c == ' ' { '-' } else { c.to_ascii_lowercase() })
            .collect()
    };
    for text in ["Quiet Pines #2", "A_B-C d!", "  Yoga & Zen 42 "] {
        assert_eq!(slugify(text), ascii(text));
    }
    let (a, b) = ("Forest Camp ", "& Lake-View 7");
    assert_eq!(slugify(&format!("{}{}", a, b)), format!("{}{}", slugify(a), slugify(b)));
}

#[test]
fn base_slug_prefers_requested() {
    assert_eq!(base_slug(Some("my-slug".to_string()), "Quiet Pines"), "my-slug");
    assert_eq!(base_slug(None, "Quiet Pines"), "quiet-pines");
}

#[test]
fn slug_search_tries_numbered_candidates() {
    let mut s = SlugSearch::new("lodge");
    assert_eq!(s.candidate(), "lodge");
    assert_eq!(s.record_uses(1), None);
    assert_eq!(s.candidate(), "lodge-1");
    assert_eq!(s.record_uses(3), None);
    assert_eq!(s.candidate(), "lodge-2");
    assert_eq!(s.record_uses(0), Some("lodge-2".to_string()));
    assert_eq!(s.candidate(), "lodge-2");
}

#[test]
fn slug_candidates_never_repeat() {
    let mut s = SlugSearch::new("a");
    let mut seen: Vec<String> = Vec::new();
    for _ in 0..200 {
        let c = s.candidate();
        assert!(!seen.contains(&c));
        seen.push(c);
        s.record_uses(1);
    }
}

#[test]
fn temp_password_is_twelve_ascii_alnum() {
    for _ in 0..20 {
        let p = generate_temp_password();
        assert_eq!(p.chars().count(), TEMP_PASSWORD_LEN);
        assert!(p.chars().all(|c| c.is_ascii_alphanumeric()));
    }
}

#[test]
fn password_charset_order() {
    assert_eq!(PASSWORD_CHARSET_LEN, 62);
    assert_eq!(password_from_indices(&vec![0, 25, 26, 51, 52, 61]), "AZaz09");
    assert_eq!(password_from_indices(&vec![]), "");
}

#[test]
fn pending_requests_can_be_reviewed() {
    assert!(check_pending(&request("pending")));
    assert!(check_reviewable(&request("pending")).is_ok());
    assert!(!check_pending(&request("Pending")));
}

#[test]
fn reject_records_reviewer_and_reason() {
    let r = reject(request("pending"), 11, Some("Incomplete".to_string()), ts(5_000)).ok().unwrap();
    assert_eq!(r.status, "rejected");
    assert_eq!(r.reviewed_by, Some(11));
    assert_eq!(r.reviewed_at.as_ref().unwrap().secs(), 5_000);
    assert_eq!(r.rejection_reason, Some("Incomplete".to_string()));
    assert_eq!(r.owner_email, "asha@example.com");
    assert_eq!(r.retreat_id, None);
}

#[test]
fn already_processed_request_is_refused() {
    for status in ["approved", "rejected"] {
        let e = reject(request(status), 1, None, ts(0)).err().unwrap();
        assert!(matches!(e, ReviewError::AlreadyProcessed));
        assert_eq!(e.message(), "Listing request has already been processed.");
        let e = mark_approved(request(status), 9, 1, ts(0)).err().unwrap();
        assert!(matches!(e, ReviewError::AlreadyProcessed));
        let e = edit(request(status), empty_update()).err().unwrap();
        assert!(matches!(e, ReviewError::NotEditable));
        assert_eq!(e.message(), "Only pending requests can be edited.");
    }
}

#[test]
fn review_is_final() {
    let rejected = reject_now(request("pending"), 1, None).ok().unwrap();
    let at = rejected.reviewed_at.as_ref().unwrap();
    assert_eq!(at.offset_secs(), 0);
    assert!(at.to_text().ends_with(" +00:00"));
    assert!(check_reviewable(&rejected).is_err());
    let approved = mark_approved_now(request("pending"), 42, 1).ok().unwrap();
    assert_eq!(approved.status, "approved");
    assert_eq!(approved.retreat_id, Some(42));
    assert!(approved.reviewed_at.is_some());
    assert!(check_reviewable(&approved).is_err());
    assert!(edit(approved, empty_update()).is_err());
}

#[test]
fn review_now_keeps_other_columns() {
    let before = request("pending");
    let rejected = reject_now(request("pending"), 1, Some("Incomplete".to_string())).ok().unwrap();
    assert_eq!(rejected.owner_name, before.owner_name);
    assert_eq!(rejected.owner_email, before.owner_email);
    assert_eq!(rejected.address, before.address);
    assert_eq!(rejected.retreat_name, before.retreat_name);
    assert_eq!(rejected.reviewed_by, Some(1));
    assert_eq!(rejected.rejection_reason.as_deref(), Some("Incomplete"));
    assert_eq!(rejected.status, "rejected");
    let approved = mark_approved_now(request("pending"), 42, 1).ok().unwrap();
    assert_eq!(approved.owner_name, before.owner_name);
    assert_eq!(approved.owner_email, before.owner_email);
    assert_eq!(approved.address, before.address);
    assert_eq!(approved.rejection_reason, before.rejection_reason);
    assert_eq!(approved.reviewed_by, Some(1));
}

#[test]
fn edit_sets_given_fields_only() {
    let mut upd = empty_update();
    upd.owner_name = Some("Asha R.".to_string());
    upd.address = Some("Hill Road".to_string());
    upd.category_id = Some(5);
    let r = view(edit(request("pending"), upd).ok().unwrap());
    assert_eq!(r.owner_name, "Asha R.");
    assert_eq!(r.address, Some("Hill Road".to_string()));
    assert_eq!(r.category_id, 5);
    assert_eq!(r.owner_phone, Some("9876543210".to_string()));
    assert_eq!(r.status, "pending");
}

#[test]
fn empty_edit_changes_nothing_and_edits_are_idempotent() {
    let before = view(request("pending"));
    let after = view(edit(request("pending"), empty_update()).ok().unwrap());
    assert_eq!(format!("{:?}", (&before.owner_name, &before.address, before.category_id)),
        format!("{:?}", (&after.owner_name, &after.address, after.category_id)));
    let make = || {
        let mut u = empty_update();
        u.retreat_name = Some("Pines".to_string());
        u.budget_max = Some(Decimal::new(900, 0));
        u
    };
    let once = view(edit(request("pending"), make()).ok().unwrap());
    let twice = view(edit(edit(request("pending"), make()).ok().unwrap(), make()).ok().unwrap());
    assert_eq!(once.retreat_name, twice.retreat_name);
    assert_eq!(once.budget_max, twice.budget_max);
    assert_eq!(once.budget_min, twice.budget_min);
}

#[test]
fn approved_retreat_takes_request_details_with_defaults() {
    let req = request("pending");
    let r = retreat_from_request(&req, "quiet-pines-lodge".to_string(), 4);
    assert_eq!(r.name, "Quiet Pines Lodge");
    assert_eq!(r.slug, "quiet-pines-lodge");
    assert_eq!(r.email, Some(String::new()));
    assert_eq!(r.phone, Some("0123456789".to_string()));
    assert_eq!(r.latitude, Some(Decimal::new(125, 1)));
    assert_eq!(r.longitude, Some(Decimal::ZERO));
    assert_eq!(r.budget_min, Some(Decimal::new(100, 0)));
    assert_eq!(r.social_links, Value::String("links".to_string()));
    assert!(r.is_published);
    assert_eq!((r.created_by, r.updated_by), (Some(4), Some(4)));
}

#[test]
fn owner_account_and_membership() {
    let req = request("pending");
    let u = owner_account(&req, "hash".to_string());
    assert_eq!((u.name.as_str(), u.email.as_str(), u.password.as_str()), ("Asha Rao", "asha@example.com", "hash"));
    assert_eq!(u.phone, Some("9876543210".to_string()));
    let m = owner_membership(12, 34, 5);
    assert_eq!((m.retreat_id, m.user_id, m.role.as_deref(), m.created_by), (12, 34, Some("owner"), Some(5)));
}

#[test]
fn approval_message_and_mailed_password() {
    let user = User {
        user_id: 3,
        name: "A".to_string(),
        email: "a@x.io".to_string(),
        password: "h".to_string(),
        phone: None,
    };
    let old = existing_owner(&user);
    let new = created_owner(&user);
    assert!(!old.is_new_user && new.is_new_user);
    assert_eq!(mailed_password(&new, &"Temp1234abcd".to_string()), Some("Temp1234abcd".to_string()));
    assert_eq!(mailed_password(&old, &"Temp1234abcd".to_string()), None);
    assert_eq!(approval_message(true), "Listing approved. Retreat created. Email sent with credentials.");
    assert_eq!(approval_message(false), "Listing approved. Owner added to existing account.");
}

#[test]
fn listing_filter_order() {
    let mut f = ListingRequestFilter {
        page: None,
        page_size: None,
        status: None,
        search: None,
        sort_by: Some("oldest".to_string()),
        sort_order: None,
    };
    assert!(matches!(f.order(), SortOrder::Asc));
    f.sort_by = Some("newest".to_string());
    assert!(matches!(f.order(), SortOrder::Desc));
    f.sort_by = None;
    assert!(matches!(f.order(), SortOrder::Desc));
}

#[test]
fn read_listing_request_renders_times() {
    let mut req = request("rejected");
    req.reviewed_at = Some(ts(86_400));
    let r = view(req);
    assert_eq!(r.created_at, "1970-01-01 00:16:40 +00:00");
    assert_eq!(r.updated_at, "1970-01-01 00:33:20 +00:00");
    assert_eq!(r.reviewed_at, Some("1970-01-02 00:00:00 +00:00".to_string()));
    assert_eq!(r.status, "rejected");
    assert_eq!(r.listing_request_id, 7);
}

#[test]
fn approval_runs_in_order() {
    let mut stage = S::Loading;
    let mut actions = Vec::new();
    for event in [
        E::RequestLoaded(true),
        E::OwnerLookedUp(false),
        E::OwnerCreated,
        E::SlugFound,
        E::RetreatCreated,
        E::MembershipAdded,
        E::RequestMarked,
    ] {
        let (next, action) = approval_step(stage, event).unwrap();
        stage = next;
        actions.push(action);
    }
    assert!(actions
        == vec![A::LookUpOwner, A::CreateOwner, A::FindSlug, A::CreateRetreat, A::AddMembership, A::MarkApproved, A::Answer]);
    assert!(stage == S::Finished);

    let (next, action) = approval_step(S::FindingOwner, E::OwnerLookedUp(true)).unwrap();
    assert!(next == S::FindingSlug && action == A::FindSlug);

    let (next, action) = approval_step(S::Loading, E::RequestLoaded(false)).unwrap();
    assert!(next == S::Refused && action == A::Refuse);
    assert!(approval_step(S::Refused, E::OwnerLookedUp(false)).is_none());
    assert!(approval_step(S::Loading, E::SlugFound).is_none());
}
