//! The cross-origin headers added to every response.
use vstd::prelude::*;

verus! {

/// A response header: name and value.
pub struct Header {
    pub name: &'static str,
    pub value: &'static str,
}

/// The response hook that adds the cross-origin headers.
pub struct CORS;

impl CORS {
    /// What the hook is called.
    pub fn name(&self) -> (r: &'static str)
        ensures
            r@ == "Add CORS headers to responses"@,
    {
        "Add CORS headers to responses"
    }

    /// The cross-origin headers every response carries: any origin, the
    /// methods the service answers, any header, and credentials allowed.
    pub fn headers(&self) -> (r: Vec<Header>)
        ensures
            r@.len() == 4,
            r@[0].name@ == "Access-Control-Allow-Origin"@ && r@[0].value@ == "*"@,
            r@[1].name@ == "Access-Control-Allow-Methods"@ && r@[1].value@
                == "POST, GET, PATCH, OPTIONS"@,
            r@[2].name@ == "Access-Control-Allow-Headers"@ && r@[2].value@ == "*"@,
            r@[3].name@ == "Access-Control-Allow-Credentials"@ && r@[3].value@ == "true"@,
    {
        let mut r: Vec<Header> = Vec::new();
        r.push(Header { name: "Access-Control-Allow-Origin", value: "*" });
        r.push(Header { name: "Access-Control-Allow-Methods", value: "POST, GET, PATCH, OPTIONS" });
        r.push(Header { name: "Access-Control-Allow-Headers", value: "*" });
        r.push(Header { name: "Access-Control-Allow-Credentials", value: "true" });
        r
    }
}

} // verus!
