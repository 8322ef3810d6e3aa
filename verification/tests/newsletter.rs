use my_retreat_nest::models::{NewsletterSubscriberModel, User};
use my_retreat_nest::newsletter::{
    already_subscribed_message, decide_subscription, is_unique_violation,
    message_is_unique_violation, subscribed_message, subscriber_identity, subscription_status,
    unsubscribe_message, SubscribeDecision,
};
use my_retreat_nest::serializers::newsletter_subscribers::{
    CreateNewsletterSubscriptionSerializer, ReadNewsletterSubscriptionSerializer,
};
use my_retreat_nest::timestamp::Timestamp;
use sea_orm::DbErr;

fn sub(user_id: Option<i64>) -> NewsletterSubscriberModel {
    NewsletterSubscriberModel {
        id: 9,
        email: "reader@example.com".to_string(),
        user_id,
        created_at: Timestamp::from_parts(60, 0, 0).unwrap(),
        updated_at: Timestamp::from_parts(120, 0, -3600).unwrap(),
    }
}

fn user() -> User {
    User {
        user_id: 4,
        name: "Mia".to_string(),
        email: "mia@example.com".to_string(),
        password: "h".to_string(),
        phone: None,
    }
}

#[test]
fn unique_violation_detection() {
    assert!(message_is_unique_violation("duplicate key value violates UNIQUE constraint"));
    assert!(message_is_unique_violation("ERROR: 23505"));
    assert!(message_is_unique_violation("Duplicate entry"));
    assert!(!message_is_unique_violation("connection refused"));
    let (hit, text) = is_unique_violation(&DbErr::Custom("duplicate key".to_string()));
    assert!(hit);
    assert_eq!(text, "Custom Error: duplicate key");
    let (hit, text) = is_unique_violation(&DbErr::Custom("timeout".to_string()));
    assert!(!hit);
    assert_eq!(text, "Custom Error: timeout");
}

#[test]
fn identity_prefers_signed_in_user() {
    let u = user();
    assert_eq!(subscriber_identity(Some(&u), "x@y.z".to_string()), ("mia@example.com".to_string(), Some(4)));
    assert_eq!(subscriber_identity(None, "x@y.z".to_string()), ("x@y.z".to_string(), None));
}

#[test]
fn existing_anonymous_subscription_is_linked() {
    match decide_subscription(Some(sub(None)), Some(4)) {
        SubscribeDecision::LinkToUser(m) => assert_eq!((m.id, m.user_id), (9, Some(4))),
        _ => panic!("expected a link"),
    }
    match decide_subscription(Some(sub(Some(2))), Some(4)) {
        SubscribeDecision::AlreadySubscribed(m) => assert_eq!(m.user_id, Some(2)),
        _ => panic!("expected the row as it is"),
    }
    match decide_subscription(Some(sub(None)), None) {
        SubscribeDecision::AlreadySubscribed(m) => assert_eq!(m.user_id, None),
        _ => panic!("expected the row as it is"),
    }
    assert!(matches!(decide_subscription(None, Some(4)), SubscribeDecision::Create));
}

#[test]
fn status_report() {
    let u = user();
    let s = sub(Some(4));
    let st = subscription_status(Some(&s), &u);
    assert!(st.subscribed);
    assert_eq!(st.email, Some("reader@example.com".to_string()));
    assert_eq!(st.user_id, Some(4));
    let st = subscription_status(None, &u);
    assert!(!st.subscribed);
    assert_eq!(st.email, Some("mia@example.com".to_string()));
}

#[test]
fn messages() {
    assert_eq!(already_subscribed_message(), "You're already subscribed to the newsletter.");
    assert_eq!(subscribed_message(), "You've subscribed to the newsletter. Welcome aboard!");
    assert_eq!(unsubscribe_message(true), "You've unsubscribed from the newsletter.");
    assert_eq!(unsubscribe_message(false), "You're not subscribed to the newsletter.");
}

#[test]
fn subscription_payload_and_view() {
    assert!(CreateNewsletterSubscriptionSerializer { email: "a@b.co".to_string() }.validate().is_ok());
    let errs = CreateNewsletterSubscriptionSerializer { email: "not-an-address".to_string() }
        .validate()
        .err()
        .unwrap();
    assert_eq!(errs.len(), 1);
    assert_eq!((errs[0].field.as_str(), errs[0].code.as_str()), ("email", "email"));
    assert!(errs[0].message.is_none());
    let v = ReadNewsletterSubscriptionSerializer::from(sub(None));
    assert_eq!(v.created_at, "1970-01-01 00:01:00 +00:00");
    assert_eq!(v.updated_at, "1969-12-31 23:02:00 -01:00");
}

#[test]
fn anonymous_subscribe_twice_changes_nothing() {
    // First request: nothing stored yet, so a row is created.
    assert!(matches!(decide_subscription(None, None), SubscribeDecision::Create));
    // Second request finds the created row and keeps it as it is.
    match decide_subscription(Some(sub(None)), None) {
        SubscribeDecision::AlreadySubscribed(m) => {
            assert_eq!((m.id, m.email.as_str(), m.user_id), (9, "reader@example.com", None))
        }
        _ => panic!("a stored subscription is kept"),
    }
}
