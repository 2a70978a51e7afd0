//! Addresses of the task service's HTTP API.

use crate::text::{concat_str, starts_with_char};
use vstd::prelude::*;

pub mod models;

verus! {

/// The address that every endpoint of the task service's API starts with.
pub open spec fn api_base() -> Seq<char> {
    "https://api.todoist.com/api/v1"@
}

/// `base` and `endpoint` with exactly one `/` put between them where the
/// endpoint does not bring its own.
pub open spec fn endpoint_url(base: Seq<char>, endpoint: Seq<char>) -> Seq<char> {
    if endpoint.len() > 0 && endpoint[0] == '/' {
        base + endpoint
    } else {
        base + seq!['/'] + endpoint
    }
}

/// The full address of an endpoint of the task service's API.
pub fn make_url(endpoint: &str) -> (r: String)
    ensures
        r@ == endpoint_url(api_base(), endpoint@),
{
    let base = "https://api.todoist.com/api/v1";
    if !starts_with_char(endpoint, '/') {
        proof {
            reveal_strlit("/");
            assert("/"@ == seq!['/']);
        }
        let mut url = concat_str(base, "/");
        url.append(endpoint);
        url
    } else {
        concat_str(base, endpoint)
    }
}

} // verus!
