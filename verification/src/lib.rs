//! A verified model of a subscription service: request authorization
//! against an external identity service, and owner-scoped data access
//! on subscription records.

pub mod auth;
pub mod laws;
pub mod model;
pub mod pipeline;
pub mod store;

use vstd::prelude::*;

verus! {

} // verus!
