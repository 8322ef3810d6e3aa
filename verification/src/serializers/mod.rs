pub mod pagination;
pub mod validation;
pub mod users;
pub mod amenities;
pub mod categories;
pub mod newsletter_subscribers;
pub mod retreats;
pub mod listing_requests;
