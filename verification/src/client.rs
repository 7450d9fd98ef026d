//! Client configuration.
//!
//! Every call needs the same three fixed pieces: the API key, the base URL,
//! and the request timeout.  The configuration is an immutable value; the
//! functions here build the strings each request is made of.

use vstd::prelude::*;

verus! {

/// The request timeout, in seconds, that the transport must apply.
pub const REQUEST_TIMEOUT_SECS: u64 = 30;

/// The fixed configuration shared by every call.
pub struct ClientConfig {
    pub api_key: String,
    pub base_url: String,
}

impl ClientConfig {
    /// A configuration for the given API key, with the fixed base URL.
    pub fn new(api_key: &str) -> (c: ClientConfig)
        ensures
            c.api_key@ == api_key@,
            c.base_url@ == "https://api.zeptomail.eu/v1.1"@,
    {
        ClientConfig {
            api_key: String::from_str(api_key),
            base_url: String::from_str("https://api.zeptomail.eu/v1.1"),
        }
    }

    /// The URL of one endpoint: the base URL, a slash, and the endpoint.
    pub fn endpoint_url(&self, endpoint: &str) -> (u: String)
        ensures
            u@ == self.base_url@ + "/"@ + endpoint@,
    {
        let mut u = self.base_url.clone();
        u.append("/");
        u.append(endpoint);
        u
    }

    /// The value sent in the `Authorization` header: the fixed scheme,
    /// a space, and the API key.
    pub fn auth_header_value(&self) -> (v: String)
        ensures
            v@ == "Zoho-enczapikey "@ + self.api_key@,
    {
        let mut v = String::from_str("Zoho-enczapikey ");
        v.append(self.api_key.as_str());
        v
    }
}

} // verus!
