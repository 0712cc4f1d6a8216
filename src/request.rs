use vstd::prelude::*;

use crate::config::{check, is_complete, Config, MissingCredential};

verus! {

/// One header line of an HTTP request.
pub struct Header {
    pub name: String,
    pub value: String,
}

/// The single authenticated request that lists the caller's issues.
pub struct FetchRequest {
    pub url: String,
    pub headers: Vec<Header>,
}

pub open spec fn issues_url() -> Seq<char> {
    "https://api.github.com/issues"@
}

/// `h` is the header `name: value`.
pub open spec fn is_header(h: Header, name: Seq<char>, value: Seq<char>) -> bool {
    h.name@ == name && h.value@ == value
}

/// The request for the record `rec`: a bearer token from the access token
/// and a user agent from the user name, with the fixed media type and API
/// version.
pub open spec fn is_request_for(r: FetchRequest, rec: (Seq<char>, Seq<char>)) -> bool {
    &&& r.url@ == issues_url()
    &&& r.headers@.len() == 4
    &&& is_header(r.headers@[0], "Authorization"@, "Bearer "@ + rec.0)
    &&& is_header(r.headers@[1], "Accept"@, "application/vnd.github+json"@)
    &&& is_header(r.headers@[2], "X-GitHub-Api-Version"@, "2022-11-28"@)
    &&& is_header(r.headers@[3], "User-Agent"@, rec.1)
}

fn header(name: &str, value: String) -> (r: Header)
    ensures
        r.name@ == name@,
        r.value@ == value@,
{
    Header { name: String::from_str(name), value }
}

/// Builds the issues request for an effective record.
pub fn issues_request(cfg: &Config) -> (r: FetchRequest)
    ensures
        is_request_for(r, cfg@),
{
    let bearer = String::from_str("Bearer ").concat(cfg.github_access_token.as_str());
    let mut headers: Vec<Header> = Vec::new();
    headers.push(header("Authorization", bearer));
    headers.push(header("Accept", String::from_str("application/vnd.github+json")));
    headers.push(header("X-GitHub-Api-Version", String::from_str("2022-11-28")));
    headers.push(header("User-Agent", cfg.user_name.clone()));
    FetchRequest { url: String::from_str("https://api.github.com/issues"), headers }
}

/// Checks the effective record and builds the issues request only
/// when it passes; otherwise reports the first missing credential and builds
/// nothing.
pub fn checked_request(cfg: &Config) -> (r: Result<FetchRequest, MissingCredential>)
    ensures
        r is Ok <==> is_complete(cfg@),
        r matches Ok(q) ==> is_request_for(q, cfg@),
        cfg@.0.len() == 0 ==> r matches Err(MissingCredential::AccessToken),
        cfg@.0.len() > 0 && cfg@.1.len() == 0 ==> r matches Err(MissingCredential::UserName),
{
    match check(cfg) {
        Ok(()) => Ok(issues_request(cfg)),
        Err(e) => Err(e),
    }
}

} // verus!
