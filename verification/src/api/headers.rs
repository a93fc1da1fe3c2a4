//! The headers every request carries, as transformations of a request
//! value.

use vstd::prelude::*;
use vstd::string::StringExecFns;
use crate::http::HttpRequest;
use crate::http::spec_headers;

verus! {

impl HttpRequest {
    /// Adds the bearer credential header.
    pub fn set_authorization_header(self, api_key: &str) -> (r: Self)
        ensures
            r.method == self.method,
            r.url == self.url,
            r.body == self.body,
            spec_headers(r.headers@) =~= spec_headers(self.headers@).push(
                ("Authorization"@, "Bearer "@ + api_key@),
            ),
    {
        let mut value = String::from_str("Bearer ");
        value.append(api_key);
        self.set("Authorization", value)
    }

    /// Adds the content type and the fixed service revision header.
    pub fn set_default_headers(self) -> (r: Self)
        ensures
            r.method == self.method,
            r.url == self.url,
            r.body == self.body,
            spec_headers(r.headers@) =~= spec_headers(self.headers@).push(
                ("Content-Type"@, "application/json"@),
            ).push(("Notion-Version"@, "2022-06-28"@)),
    {
        let r = self.set("Content-Type", String::from_str("application/json"));
        r.set("Notion-Version", String::from_str("2022-06-28"))
    }
}

} // verus!
