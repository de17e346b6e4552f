use vstd::prelude::*;

verus! {

/// Lowest status code of the success class.
pub const SUCCESS_MIN: u16 = 200;

/// First status code past the success class.
pub const SUCCESS_END: u16 = 300;

/// A probe is healthy when the endpoint answered with a status of the 2xx class.
pub open spec fn healthy(response: Option<u16>) -> bool {
    match response {
        Some(status) => 200 <= status < 300,
        None => false,
    }
}

/// Classifies the outcome of one probe of the health endpoint.
///
/// `response` is the status code of the answer, or `None` when the request
/// failed (connection refused, timeout, any transport error).
pub fn is_healthy_response(response: Option<u16>) -> (r: bool)
    ensures
        r == healthy(response),
{
    match response {
        Some(status) => SUCCESS_MIN <= status && status < SUCCESS_END,
        None => false,
    }
}

} // verus!
