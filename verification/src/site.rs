//! Constant page and header content served around the API.

use vstd::prelude::*;

verus! {

/// The upload form page.
pub open spec fn spec_file_home_page() -> Seq<char> {
    "<html>\n      <body>\n        <form method=\"post\" enctype=\"multipart/form-data\">\n            <input type=\"file\" name=\"somefile\"/>\n            <button type=\"submit\">Submit</button>\n        </form>\n      </body>\n    </html>"@
}

/// The HTML page behind the file-upload form.
pub fn file_home() -> (r: &'static str)
    ensures
        r@ == spec_file_home_page(),
{
    "<html>\n      <body>\n        <form method=\"post\" enctype=\"multipart/form-data\">\n            <input type=\"file\" name=\"somefile\"/>\n            <button type=\"submit\">Submit</button>\n        </form>\n      </body>\n    </html>"
}

/// Cross-origin response policy: the headers added to every response.
pub struct CORS;

impl CORS {
    /// The four header name/value pairs the policy sets.
    pub fn headers() -> (r: Vec<(&'static str, &'static str)>)
        ensures
            r@.len() == 4,
            r@[0].0@ == "Access-Control-Allow-Origin"@ && r@[0].1@ == "*"@,
            r@[1].0@ == "Access-Control-Allow-Methods"@ && r@[1].1@
                == "POST, GET, PATCH, OPTIONS"@,
            r@[2].0@ == "Access-Control-Allow-Headers"@ && r@[2].1@ == "*"@,
            r@[3].0@ == "Access-Control-Allow-Credentials"@ && r@[3].1@ == "true"@,
    {
        let mut r: Vec<(&'static str, &'static str)> = Vec::new();
        r.push(("Access-Control-Allow-Origin", "*"));
        r.push(("Access-Control-Allow-Methods", "POST, GET, PATCH, OPTIONS"));
        r.push(("Access-Control-Allow-Headers", "*"));
        r.push(("Access-Control-Allow-Credentials", "true"));
        r
    }
}

} // verus!
