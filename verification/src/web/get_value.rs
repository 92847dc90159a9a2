use vstd::prelude::*;

verus! {

/// Reads the value stored under `key`.
#[derive(Clone, Debug, PartialEq)]
pub struct Request {
    pub key: String,
}

/// The value stored under the key, if any.
#[derive(Clone, Debug, PartialEq, Eq)]
pub struct Response {
    pub value: Option<String>,
}

} // verus!
