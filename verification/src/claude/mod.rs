//! Addresses of the text-generation service's HTTP API.

use crate::text::{concat_str, replace_all, replaced, starts_with_char};
use crate::todoist::http::endpoint_url;
use vstd::prelude::*;

pub mod models;

verus! {

/// The address that every endpoint of the text-generation API starts with.
pub open spec fn api_base() -> Seq<char> {
    "https://api.anthropic.com/v1"@
}

/// The full address of an endpoint of the text-generation API.
pub fn make_url(endpoint: &str) -> (r: String)
    ensures
        r@ == endpoint_url(api_base(), endpoint@),
{
    let base = "https://api.anthropic.com/v1";
    if !starts_with_char(endpoint, '/') {
        proof {
            reveal_strlit("/");
            assert("/"@ == seq!['/']);
        }
        let mut url = concat_str(base, "/");
        url.append(endpoint);
        url
    } else {
        concat_str(base, endpoint)
    }
}

/// A system prompt with its placeholders filled in: `{{TIMEZONE}}` with the
/// name of the time zone first, then `{{CURRENT_TIME}}` with the current time.
pub open spec fn substituted(raw_prompt: Seq<char>, timezone: Seq<char>, current_time: Seq<char>) -> Seq<
    char,
> {
    replaced(replaced(raw_prompt, "{{TIMEZONE}}"@, timezone), "{{CURRENT_TIME}}"@, current_time)
}

/// Fills in the placeholders of a system prompt.
pub fn substitute_system_prompt(raw_prompt: &str, timezone: &str, current_time: &str) -> (r: String)
    ensures
        r@ == substituted(raw_prompt@, timezone@, current_time@),
{
    let prompt = replace_all(raw_prompt, "{{TIMEZONE}}", timezone);
    replace_all(prompt.as_str(), "{{CURRENT_TIME}}", current_time)
}

} // verus!
