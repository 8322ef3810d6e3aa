# my_retreat_nest

The verified core of the My Retreat Nest booking backend (Axum, SeaORM,
PostgreSQL). `src/` holds the logic of the service with Verus contracts;
`app/` holds what talks to the network, the database and the terminal.

- `src/serializers/` — request payloads and views: validation of e-mail
  addresses and phone numbers, partial updates, pagination (`Paginate`,
  `PaginationMeta`) and the list filters.
- `src/listing_review.rs` — the review of listing requests (pending →
  approved / rejected), the retreat, owner account and membership an
  approval creates, slugs and the search for a free one, temporary
  passwords.
- `src/auth.rs` — the `Authorization` header, login types and the rules of
  the `AuthUser`, `AuthAdmin` and `AuthRetreatUser` extractors.
- `src/newsletter.rs`, `src/retreat_staff.rs`, `src/gallery.rs`,
  `src/password_reset.rs`, `src/admin_setup.rs` — the decisions of the
  remaining endpoints and of the admin set-up tool.
- `src/mail.rs`, `src/response.rs` — mail texts and the response envelope.
- `src/text.rs`, `src/timestamp.rs`, `src/models.rs` — strings, decimal
  rendering, timestamps and the table rows as the logic reads them.
- `app/` — the admin set-up tool (`main.rs`), sea-orm entities, JSON shapes,
  HTTP envelopes and SMTP delivery, and handler functions for most endpoints
  (listing requests, newsletter, staff, users, amenities, categories,
  retreats, reviews, login, refresh, password reset). The handlers take the
  signed-in user as a loaded row and reach token signing through a
  `TokenIssuer` trait; the HTTP router, the request extractors and the token
  module of a deployment are not part of this crate.

Verus proves the contracts of `src/`; the tests under `tests/` run the
library against the real outside crates.
