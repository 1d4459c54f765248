use vstd::prelude::*;

verus! {

/// Where the controller is and who talks to it. Read-only for a whole run.
#[derive(Clone, Debug, PartialEq, Eq)]
pub struct Config {
    pub dnac_url: String,
    pub username: String,
    pub verify_ssl: bool,
}

impl Config {
    pub fn new(dnac_url: String, username: String, verify_ssl: bool) -> (r: Self)
        ensures
            r.dnac_url == dnac_url,
            r.username == username,
            r.verify_ssl == verify_ssl,
    {
        Config { dnac_url, username, verify_ssl }
    }
}

} // verus!
