use vstd::prelude::*;

verus! {

/// The base address of the Discord REST API.
pub const DISCORD_BASE_API: &'static str = "https://discordapp.com/api";

/// The user agent the REST client announces.
pub const USER_AGENT: &'static str = "Hikaru-Lib REST API";

/// The address of a REST endpoint: the API's base address followed by the endpoint.
pub fn endpoint_url(endpoint: &str) -> (url: String)
    ensures
        url@ == DISCORD_BASE_API@ + endpoint@,
{
    let mut url = DISCORD_BASE_API.to_owned();
    url.append(endpoint);
    url
}

} // verus!
