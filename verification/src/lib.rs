//! A webhook responder library: authenticates inbound platform callbacks,
//! routes them to an immediate acknowledgement, and prepares the deferred
//! follow-up message that a worker delivers.

use vstd::prelude::*;

pub mod dispatch;
pub mod json;
pub mod interaction;
pub mod messages;
pub mod responses;
pub mod signature;

verus! {

/// The two possible outcomes of checking an inbound request's signature.
#[derive(PartialEq, Eq, Structural, Clone, Copy, Debug)]
pub enum SignatureCheck {
    Authentic,
    Rejected,
}

} // verus!
