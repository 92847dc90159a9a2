use vstd::prelude::*;

verus! {

/// Removes whatever is stored under `key`.
#[derive(Clone, Debug, PartialEq)]
pub struct Request {
    pub key: String,
}

/// Acknowledges a removal.
#[derive(Clone, Debug, PartialEq, Eq, Structural)]
pub struct Response {}

} // verus!
