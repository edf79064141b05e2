use vstd::prelude::*;
use vstd::string::StringExecFns;

verus! {

/// `protocol://base_url/endpoint`.
pub fn url(protocol: &str, base_url: &str, endpoint: &str) -> (r: String)
    ensures
        r@ == protocol@ + "://"@ + base_url@ + "/"@ + endpoint@,
{
    let mut r = String::from_str(protocol);
    r.append("://");
    r.append(base_url);
    r.append("/");
    r.append(endpoint);
    r
}

} // verus!
