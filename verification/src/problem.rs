//! Configuration of problem-detail responses.

use vstd::prelude::*;

verus! {

/// Whether error responses may carry internal detail. In production it is
/// off, and problem responses stay generic.
#[derive(Clone, Copy, Debug, PartialEq, Eq, Structural)]
pub struct ProblemConfig {
    pub include_internal: bool,
}

} // verus!
