//! What a request carries, as plain values.

use vstd::prelude::*;
use vstd::string::StringExecFns;
use crate::text::{lowercase_of, to_lowercase, trimmed, trimmed_of};

verus! {

/// A header that every request to a service carries. A sensitive header
/// holds a secret and is kept out of logs.
#[derive(Debug, Clone, PartialEq, Eq)]
pub struct Header {
    pub name: String,
    pub value: String,
    pub sensitive: bool,
}

/// The header under which the library managers take their key.
pub open spec fn api_key_header(api_key: Seq<char>, header: Header) -> bool {
    &&& header.name@ == "x-api-key"@
    &&& header.value@ == api_key
    &&& header.sensitive
}

/// The headers that authorize requests to a library manager: the key, as
/// it is, under `x-api-key`.
pub fn api_key_headers(api_key: &str) -> (headers: Vec<Header>)
    ensures
        headers@.len() == 1,
        api_key_header(api_key@, headers@[0]),
{
    let mut headers: Vec<Header> = Vec::new();
    headers.push(
        Header {
            name: String::from_str("x-api-key"),
            value: String::from_str(api_key),
            sensitive: true,
        },
    );
    headers
}

/// A cookie that a service has set.
#[derive(Debug, PartialEq, Eq)]
pub struct Cookie {
    pub name: String,
    pub value: String,
}

/// The name of a cookie as it is compared: in lower case, without white
/// space around it.
pub open spec fn cookie_key(name: Seq<char>) -> Seq<char> {
    trimmed_of(lowercase_of(name))
}

/// The position of the first cookie at or after `from` with this key.
pub open spec fn cookie_from(cookies: Seq<Cookie>, key: Seq<char>, from: int) -> Option<int>
    decreases cookies.len() - from,
{
    if from < 0 || from >= cookies.len() {
        None
    } else if cookie_key(cookies[from].name@) == key {
        Some(from)
    } else {
        cookie_from(cookies, key, from + 1)
    }
}

/// Whether a cookie has this key, given its name in lower case without
/// white space around it.
pub fn has_key(prepared: &String, key: &str) -> (same: bool)
    ensures
        same == (prepared@ == key@),
{
    let wanted: String = String::from_str(key);
    *prepared == wanted
}

/// The value of the first cookie with this key.
pub fn session_cookie(cookies: &[Cookie], key: &str) -> (value: Option<String>)
    ensures
        match cookie_from(cookies@, key@, 0) {
            Some(at) => 0 <= at < cookies@.len() && value == Some(cookies@[at].value),
            None => value is None,
        },
{
    let mut i: usize = 0;
    while i < cookies.len()
        invariant
            i <= cookies.len(),
            cookie_from(cookies@, key@, 0) == cookie_from(cookies@, key@, i as int),
        decreases cookies.len() - i,
    {
        let lowered: String = to_lowercase(cookies[i].name.as_str());
        let prepared: String = trimmed(lowered.as_str());
        if has_key(&prepared, key) {
            return Some(cookies[i].value.clone());
        }
        i += 1;
    }
    None
}

/// The header that hands a session cookie back to its service.
pub fn cookie_headers(name: &str, value: &str) -> (headers: Vec<Header>)
    ensures
        headers@.len() == 1,
        headers@[0].name@ == "cookie"@,
        headers@[0].value@ == name@ + "="@ + value@,
        headers@[0].sensitive,
{
    let mut text: String = String::from_str(name);
    text.append("=");
    text.append(value);
    let mut headers: Vec<Header> = Vec::new();
    headers.push(Header { name: String::from_str("cookie"), value: text, sensitive: true });
    headers
}

} // verus!
