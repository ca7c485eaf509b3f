//! Application-lifecycle delegate: decodes URL-open Apple Events, runs the
//! activation hack, and decides the effects of each lifecycle callback.
use vstd::prelude::*;

pub mod activation;
pub mod apple_event;
pub mod codes;
pub mod delegate;

verus! {

} // verus!
