//! Iris: invitation, membership and session rules of a small API-first
//! application, with the database, HTTP and mail work left to the caller.
#![allow(unused_imports)]

pub mod api;
pub mod clock;
pub mod crypto;
pub mod database;
pub mod invitations;
pub mod members;
pub mod outbox;
pub mod tables;
pub mod text;
pub mod turso;

use vstd::prelude::*;

verus! {

} // verus!
