use vstd::prelude::*;

verus! {

/// Stores `value` under `key`, replacing what was there.
#[derive(Clone, Debug, PartialEq)]
pub struct Request {
    pub key: String,
    pub value: String,
}

/// Acknowledges a store.
#[derive(Clone, Debug, PartialEq, Eq, Structural)]
pub struct Response {}

} // verus!
