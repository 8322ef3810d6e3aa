//! Decisions of the newsletter endpoints: which address subscribes, what an
//! existing subscription turns into, what the status endpoint reports, and
//! which database errors mean "already subscribed".
use vstd::prelude::*;
use crate::models::{NewsletterSubscriberModel, User};
use crate::serializers::newsletter_subscribers::NewsletterSubscriptionStatusSerializer;
use crate::text::{contains_str, contains_text, lowercase_of, to_lowercase};
use sea_orm::DbErr;

verus! {

/// An error reported by the database driver.
#[verifier::external_type_specification]
#[verifier::external_body]
pub struct ExDbErr(sea_orm::DbErr);

/// Calls `ToString::to_string` on a `DbErr`. Nothing is claimed of the
/// text: sea-orm composes it from the driver's error, whose operating-system
/// messages depend on the platform and the process locale.
#[verifier::external_body]
fn db_error_text(e: &DbErr) -> String {
    e.to_string()
}

/// Whether an error text, lowercased, mentions a unique-constraint
/// violation.
pub open spec fn mentions_unique_violation(message: Seq<char>) -> bool {
    let m = lowercase_of(message);
    contains_text(m, "unique"@) || contains_text(m, "duplicate"@) || contains_text(m, "23505"@)
}

/// Reads an error text as a unique-constraint violation.
pub fn message_is_unique_violation(message: &str) -> (r: bool)
    ensures
        r == mentions_unique_violation(message@),
{
    let lower = to_lowercase(message);
    let l = lower.as_str();
    contains_str(l, "unique") || contains_str(l, "duplicate") || contains_str(l, "23505")
}

/// Whether a database error is a unique-constraint violation (a second
/// subscription of the same address racing the first): the error's text is
/// read, and the answer is whether that text, lowercased, mentions `unique`,
/// `duplicate` or the code `23505`. The text read is returned beside the
/// answer.
pub fn is_unique_violation(e: &DbErr) -> (r: (bool, String))
    ensures
        r.0 == mentions_unique_violation(r.1@),
{
    let text = db_error_text(e);
    let answer = message_is_unique_violation(text.as_str());
    (answer, text)
}

/// The address and user a subscription is made for: a signed-in user's
/// own, else the address in the payload.
pub fn subscriber_identity(auth_user: Option<&User>, payload_email: String) -> (r: (
    String,
    Option<i64>,
))
    ensures
        match auth_user {
            Some(u) => r.0 == u.email && r.1 == Some(u.user_id),
            None => r.0 == payload_email && r.1 is None,
        },
{
    match auth_user {
        Some(u) => (u.email.clone(), Some(u.user_id)),
        None => (payload_email, None),
    }
}

/// What a subscription request does, given the subscription found for its
/// address (or user).
pub enum SubscribeDecision {
    /// Already subscribed; the stored row is answered as it is.
    AlreadySubscribed(NewsletterSubscriberModel),
    /// Already subscribed anonymously; the row is to be linked to the user.
    LinkToUser(NewsletterSubscriberModel),
    /// Not subscribed; a new row is to be inserted.
    Create,
}

/// Whether a found subscription gets linked to the signed-in user.
pub open spec fn needs_link(existing: NewsletterSubscriberModel, user_id: Option<i64>) -> bool {
    user_id is Some && existing.user_id is None
}

/// Subscribing is idempotent: once a subscription is linked to a user, the
/// same user subscribing again finds it linked and leaves it as it is.
pub proof fn lemma_link_is_stable(existing: NewsletterSubscriberModel, user_id: Option<i64>)
    requires
        needs_link(existing, user_id),
    ensures
        !needs_link(NewsletterSubscriberModel { user_id, ..existing }, user_id),
{
}

/// The decision for a subscription request, given the subscription found
/// for its address (or user).
pub open spec fn subscribe_decision(
    existing: Option<NewsletterSubscriberModel>,
    user_id: Option<i64>,
) -> SubscribeDecision {
    match existing {
        None => SubscribeDecision::Create,
        Some(m) => if needs_link(m, user_id) {
            SubscribeDecision::LinkToUser(NewsletterSubscriberModel { user_id, ..m })
        } else {
            SubscribeDecision::AlreadySubscribed(m)
        },
    }
}

/// Decides a subscription request: an existing anonymous subscription of a
/// signed-in user is linked to the user, any other existing one is kept,
/// and without one a subscription is created.
pub fn decide_subscription(existing: Option<NewsletterSubscriberModel>, user_id: Option<i64>) -> (r:
    SubscribeDecision)
    ensures
        r == subscribe_decision(existing, user_id),
        existing is None ==> r is Create,
        existing matches Some(m) ==> (if needs_link(m, user_id) {
            r matches SubscribeDecision::LinkToUser(l) && l == (NewsletterSubscriberModel {
                user_id,
                ..m
            })
        } else {
            r matches SubscribeDecision::AlreadySubscribed(k) && k == m
        }),
{
    match existing {
        None => SubscribeDecision::Create,
        Some(m) => {
            if user_id.is_some() && m.user_id.is_none() {
                SubscribeDecision::LinkToUser(NewsletterSubscriberModel { user_id, ..m })
            } else {
                SubscribeDecision::AlreadySubscribed(m)
            }
        },
    }
}

/// Whether a stored subscription answers a request for `email` (or for the
/// signed-in user `user_id`).
pub open spec fn answers_request(
    row: NewsletterSubscriberModel,
    email: Seq<char>,
    user_id: Option<i64>,
) -> bool {
    row.email@ == email || (user_id is Some && row.user_id == user_id)
}

/// The subscriptions table after a decision was carried out: a created row
/// is added, a linked row replaces the row with its id, an existing one
/// changes nothing.
pub open spec fn table_after(
    table: Seq<NewsletterSubscriberModel>,
    d: SubscribeDecision,
    created: NewsletterSubscriberModel,
) -> Seq<NewsletterSubscriberModel> {
    match d {
        SubscribeDecision::Create => table.push(created),
        SubscribeDecision::LinkToUser(l) => table.map_values(
            |row: NewsletterSubscriberModel| if row.id == l.id {
                l
            } else {
                row
            },
        ),
        SubscribeDecision::AlreadySubscribed(_) => table,
    }
}

/// How many subscriptions of a table carry `email`.
pub open spec fn email_count(table: Seq<NewsletterSubscriberModel>, email: Seq<char>) -> nat
    decreases table.len(),
{
    if table.len() == 0 {
        0
    } else {
        email_count(table.drop_last(), email) + if table.last().email@ == email {
            1nat
        } else {
            0nat
        }
    }
}

proof fn lemma_email_count_zero(table: Seq<NewsletterSubscriberModel>, email: Seq<char>)
    requires
        forall|i: int| 0 <= i < table.len() ==> (#[trigger] table[i]).email@ != email,
    ensures
        email_count(table, email) == 0,
    decreases table.len(),
{
    if table.len() > 0 {
        let init = table.drop_last();
        assert forall|i: int| 0 <= i < init.len() implies (#[trigger] init[i]).email@ != email by {
            assert(init[i] == table[i]);
        }
        lemma_email_count_zero(init, email);
        assert(table.last() == table[table.len() - 1]);
    }
}

proof fn lemma_email_count_positive(table: Seq<NewsletterSubscriberModel>, email: Seq<char>, i: int)
    requires
        0 <= i < table.len(),
        table[i].email@ == email,
    ensures
        email_count(table, email) >= 1,
    decreases table.len(),
{
    if i < table.len() - 1 {
        assert(table.drop_last()[i] == table[i]);
        lemma_email_count_positive(table.drop_last(), email, i);
    }
}

/// Subscribing an address without signing in is idempotent. Take a first
/// request for `email` that found `existing` (a row answering it, or none
/// when no row does) and was carried out, with `created` the row a creation
/// inserts. Afterwards a row answers the address, and a second request finds
/// such a row, is answered "already subscribed" and changes nothing. Where
/// the table held at most one row with the address before (as its unique
/// constraint keeps it), it holds exactly one afterwards.
pub proof fn lemma_anonymous_subscribe_idempotent(
    table: Seq<NewsletterSubscriberModel>,
    email: Seq<char>,
    existing: Option<NewsletterSubscriberModel>,
    created: NewsletterSubscriberModel,
    created_again: NewsletterSubscriberModel,
)
    requires
        existing matches Some(m) ==> table.contains(m) && answers_request(m, email, None),
        existing is None ==> forall|i: int|
            0 <= i < table.len() ==> !answers_request(#[trigger] table[i], email, None),
        created.email@ == email,
        created.user_id is None,
    ensures
        ({
            let after = table_after(table, subscribe_decision(existing, None), created);
            &&& exists|i: int| 0 <= i < after.len() && answers_request(#[trigger] after[i], email, None)
            &&& email_count(table, email) <= 1 ==> email_count(after, email) == 1
            &&& forall|found: NewsletterSubscriberModel|
                after.contains(found) && answers_request(found, email, None) ==> {
                    &&& subscribe_decision(Some(found), None) == SubscribeDecision::AlreadySubscribed(
                        found,
                    )
                    &&& table_after(after, subscribe_decision(Some(found), None), created_again)
                        == after
                }
        }),
{
    let after = table_after(table, subscribe_decision(existing, None), created);
    match existing {
        None => {
            assert forall|i: int| 0 <= i < table.len() implies (#[trigger] table[i]).email@
                != email by {
                assert(!answers_request(table[i], email, None));
            }
            lemma_email_count_zero(table, email);
            assert(after.drop_last() =~= table);
            assert(after[table.len() as int] == created);
        },
        Some(m) => {
            let i = choose|i: int| 0 <= i < table.len() && table[i] == m;
            lemma_email_count_positive(table, email, i);
            assert(after == table);
            assert(answers_request(after[i], email, None));
        },
    }
}

/// The answer when the address was already subscribed.
pub fn already_subscribed_message() -> (r: &'static str)
    ensures
        r@ == "You're already subscribed to the newsletter."@,
{
    "You're already subscribed to the newsletter."
}

/// The answer when a subscription was created.
pub fn subscribed_message() -> (r: &'static str)
    ensures
        r@ == "You've subscribed to the newsletter. Welcome aboard!"@,
{
    "You've subscribed to the newsletter. Welcome aboard!"
}

/// What the status endpoint reports to a signed-in user: subscribed when a
/// subscription was found, under its address, else under the user's own.
pub fn subscription_status(existing: Option<&NewsletterSubscriberModel>, user: &User) -> (r:
    NewsletterSubscriptionStatusSerializer)
    ensures
        r.subscribed == existing is Some,
        r.email == Some(
            match existing {
                Some(m) => m.email,
                None => user.email,
            },
        ),
        r.user_id == Some(user.user_id),
{
    let email = match existing {
        Some(m) => m.email.clone(),
        None => user.email.clone(),
    };
    NewsletterSubscriptionStatusSerializer {
        subscribed: existing.is_some(),
        email: Some(email),
        user_id: Some(user.user_id),
    }
}

/// The answer to an unsubscription: whether a subscription was found and
/// removed decides it.
pub fn unsubscribe_message(found: bool) -> (r: &'static str)
    ensures
        found ==> r@ == "You've unsubscribed from the newsletter."@,
        !found ==> r@ == "You're not subscribed to the newsletter."@,
{
    if found {
        "You've unsubscribed from the newsletter."
    } else {
        "You're not subscribed to the newsletter."
    }
}

} // verus!
