# iris

The invitation, membership and browser-session rules of Iris, a small
API-first application, verified with Verus.

- `src/` is the verified library. Every transaction is written as a sequence
  of steps: a function decides, from the answer to one statement, the next
  statement or the outcome. Spec functions model the tables (`tables.rs`),
  and proof functions (`law_*`) state what the whole transactions do:
  acceptance is single use, only owners issue invitations or change
  memberships, a project keeps an owner, and the steps perform exactly those
  models.
- `app/` runs the steps against SQLite (SQLx), serves them over axum with
  OpenAPI documents from utoipa and aide, signs users in with OpenID Connect
  and tower-sessions, and delivers invitation mail through lettre.
- `tests/` drive the library's steps against in-memory tables and check the
  HTTP contract, the session rules and the delivery schedule on concrete
  values.
