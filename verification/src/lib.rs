//! Verified core of the My Retreat Nest backend: request payloads and their
//! validation, pagination, authorization decisions, the listing-request
//! workflow and the text that the service builds for its responses and mails.

pub mod serializers;
pub mod text;
pub mod timestamp;
pub mod models;
pub mod listing_review;
pub mod auth;
pub mod newsletter;
pub mod retreat_staff;
pub mod gallery;
pub mod response;
pub mod mail;
pub mod password_reset;
pub mod admin_setup;
