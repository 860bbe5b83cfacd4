//! The routing-facing vocabulary of an API endpoint.

use vstd::prelude::*;

verus! {

/// The HTTP methods an endpoint can be registered under.
#[derive(Clone, Copy, PartialEq, Eq, PartialOrd, Ord, Debug, Structural)]
pub enum ApiMethod {
    Get,
    Post,
    Put,
    Delete,
}

/// Something that renders as a route path.
pub trait ApiPath {
    fn path(&self) -> String;
}

impl ApiPath for String {
    fn path(&self) -> String {
        self.clone()
    }
}

} // verus!
