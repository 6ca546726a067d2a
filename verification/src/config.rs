//! Endpoint configuration for callers of the HTTP surface.

use vstd::prelude::*;

verus! {

/// The base URL that clients prepend to the API paths (`/chat`, `/health`).
pub fn api_base_url() -> (r: &'static str)
    ensures
        r@ == "https://inteligencia-animal-api.cgutieco.com/api"@,
{
    "https://inteligencia-animal-api.cgutieco.com/api"
}

} // verus!
