//! Verified core of a Microsoft Graph provisioning client.
//!
//! The library holds the decision logic of the client: plan-template
//! resolution, name-based lookups over fetched collections, request payload
//! and URL construction, and the create-shared-channel orchestration as an
//! explicit state machine. An unverified shell performs the HTTP calls and
//! feeds the responses back as events.

pub mod automation;
pub mod channel;
pub mod drive;
pub mod group;
pub mod lookup;
pub mod me;
pub mod plan;
pub mod site;
pub mod team;
pub mod urls;

use vstd::prelude::*;

verus! {

} // verus!
