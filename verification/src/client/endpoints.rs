//! The addresses of the server's endpoints.

use vstd::prelude::*;

verus! {

/// The address of the login endpoint under a base address.
pub fn login_url(base_url: &str) -> (url: String)
    ensures
        url@ == base_url@ + "/api/auth/login"@,
{
    let mut url = base_url.to_owned();
    url.append("/api/auth/login");
    url
}

/// The address under which the tokens of the logged-in user are listed and
/// created.
pub fn tokens_url(base_url: &str) -> (url: String)
    ensures
        url@ == base_url@ + "/api/user/tokens"@,
{
    let mut url = base_url.to_owned();
    url.append("/api/user/tokens");
    url
}

/// The address of an arbitrary endpoint: the base address, a slash and the
/// endpoint's path.
pub fn endpoint_url(base_url: &str, endpoint: &str) -> (url: String)
    ensures
        url@ == base_url@ + "/"@ + endpoint@,
{
    let mut url = base_url.to_owned();
    url.append("/");
    url.append(endpoint);
    url
}

} // verus!
