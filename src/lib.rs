//! Automated pull-request review: a unified diff is cut into per-file chunks,
//! prompt templates are filled in, and the ordered message sequence for a
//! completion service is assembled. Every step of a review or a description is
//! decided here; running the hosting tool and calling the service is left to
//! the caller.
use vstd::prelude::*;

pub mod diff;
pub mod model;
pub mod prompts;
pub mod review;
pub mod session;
pub mod template;
pub mod text;

verus! {

} // verus!
