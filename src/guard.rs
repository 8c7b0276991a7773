//! The access guard: every request must carry the shared API key, unless
//! the guard was switched off by the operator.

use vstd::prelude::*;
use crate::models::opt_view;
use crate::support::{concat, owned};

verus! {

/// Proof that a request passed the access guard.
pub struct ApiKey;

/// A request that the guard turned away; it names the route for the logs.
#[derive(Debug)]
pub struct UnAuthorizedError {
    pub route: String,
}

impl UnAuthorizedError {
    /// The refusal of a request to `route`.
    pub fn new(route: &str) -> (r: UnAuthorizedError)
        ensures
            r.route@ == route@,
    {
        UnAuthorizedError { route: owned(route) }
    }

    /// A short description of the refusal.
    pub fn description(&self) -> (r: String)
        ensures
            r@ == "Unauthorized access attempted"@,
    {
        owned("Unauthorized access attempted")
    }

    /// The message that is logged for the refusal.
    pub fn to_string(&self) -> (r: String)
        ensures
            r@ == "Unauthorized access to route: "@ + self.route@,
    {
        concat("Unauthorized access to route: ", self.route.as_str())
    }
}

/// The guard is off when the operator's switch holds exactly `1`.
pub open spec fn guard_disabled(switch: Option<Seq<char>>) -> bool {
    switch == Some("1"@)
}

impl ApiKey {
    /// Lets a request to `route` through when the guard is off (`switch` is
    /// `1`), or when the key it carries is the `expected` key for the
    /// route. A missing key and a wrong one are refused alike.
    pub fn from_request(switch: Option<&str>, api_key: Option<&str>, expected: &str, route: &str) -> (r:
        Result<ApiKey, UnAuthorizedError>)
        ensures
            r.is_ok() <==> (guard_disabled(opt_view(switch)) || opt_view(api_key) == Some(
                expected@,
            )),
            r matches Err(e) ==> e.route@ == route@,
    {
        if let Some(flag) = switch {
            if owned(flag) == owned("1") {
                return Ok(ApiKey);
            }
        }
        if let Some(key) = api_key {
            if owned(key) == owned(expected) {
                return Ok(ApiKey);
            }
        }
        Err(UnAuthorizedError::new(route))
    }
}

} // verus!
