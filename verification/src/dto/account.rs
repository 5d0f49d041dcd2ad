//! Bodies of the account endpoints and the body extractors.
use vstd::prelude::*;

verus! {

/// A registration with a user name.
#[derive(Debug)]
pub struct RegisterRequest {
    pub username: String,
    pub email: String,
    pub password: String,
}

/// A request body that passed its checks.
#[derive(Debug)]
pub struct ValidatedBody<T>(pub T);

/// Query parameters that passed their checks.
#[derive(Debug)]
pub struct ValidatedQuery<T>(pub T);

} // verus!
