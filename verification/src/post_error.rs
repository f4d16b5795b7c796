//! Protocol errors, by which a client that broke a rule is told so and disconnected.

use vstd::prelude::*;

verus! {

/// An error to post on a protocol object.
#[derive(Debug)]
pub struct PostError<E> {
    pub error: E,
    pub message: &'static str,
}

} // verus!
