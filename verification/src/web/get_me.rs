use vstd::prelude::*;

verus! {

/// Asks who the signed-in user is.
#[derive(Clone, Debug, PartialEq, Eq, Structural)]
pub struct Request {}

/// The signed-in user's id.
#[derive(Clone, Debug, PartialEq, Eq, Structural)]
pub struct Response {
    pub user_id: i64,
}

} // verus!
