//! The shape of an HTTP answer as the library computes it: status, the
//! headers this service sets, and the body. Serving it on a socket happens
//! outside the library.

use crate::text::spec_dec;
use crate::text::u64_to_dec;
use crate::types::ServiceError;
use vstd::prelude::*;
use vstd::string::StringExecFns;

verus! {

/// Seconds in a day: how long error answers and redirects may be cached.
pub const DAY_SECS: u64 = 24 * 60 * 60;

/// Seconds in a year: how long a block body may be cached. Blocks don't
/// change.
pub const YEAR_SECS: u64 = 365 * 24 * 60 * 60;

/// One computed HTTP answer.
#[derive(Debug, Clone, PartialEq, Eq)]
pub struct ApiResponse {
    pub status: u16,
    /// The `Cache-Control` header, when one is set.
    pub cache_control: Option<String>,
    /// The `Content-Type` header, when one is set.
    pub content_type: Option<String>,
    /// The `Location` header; set exactly on redirects.
    pub location: Option<String>,
    pub body: String,
}

impl ApiResponse {
    /// Every answer the library builds names a target iff it redirects.
    pub open spec fn wf(&self) -> bool {
        self.status == 302 <==> self.location is Some
    }
}

/// The value of a `Cache-Control` header allowing `secs` seconds of public
/// caching.
pub open spec fn spec_cache_control(secs: u64) -> Seq<char> {
    "public, max-age="@ + spec_dec(secs as nat)
}

/// Builds a `Cache-Control` value allowing `secs` seconds of public caching.
pub fn cache_control_value(secs: u64) -> (r: String)
    ensures
        r@ == spec_cache_control(secs),
{
    let mut r = String::from_str("public, max-age=");
    let d = u64_to_dec(secs);
    r.append(d.as_str());
    r
}

/// A redirect, cacheable for a day.
pub fn found_cached(location: String) -> (r: ApiResponse)
    ensures
        r.status == 302,
        r.cache_control matches Some(cc) && cc@ == spec_cache_control(DAY_SECS),
        r.content_type is None,
        r.location == Some(location),
        r.body@.len() == 0,
        r.wf(),
{
    ApiResponse {
        status: 302,
        cache_control: Some(cache_control_value(DAY_SECS)),
        content_type: None,
        location: Some(location),
        body: String::new(),
    }
}

/// A redirect with no caching directive.
pub fn found(location: String) -> (r: ApiResponse)
    ensures
        r.status == 302,
        r.cache_control is None,
        r.content_type is None,
        r.location == Some(location),
        r.body@.len() == 0,
        r.wf(),
{
    ApiResponse {
        status: 302,
        cache_control: None,
        content_type: None,
        location: Some(location),
        body: String::new(),
    }
}

/// How a service failure answers: a client fault as 400, everything else as
/// 500, each with its fixed JSON body.
pub fn error_response(e: &ServiceError) -> (r: ApiResponse)
    ensures
        match e {
            ServiceError::ArgumentError => r.status == 400 && r.body@ == "\"Invalid argument\""@,
            ServiceError::CacheError(err) => r.status == 500 && r.body@ == "\"Cache error: "@
                + err@ + "\""@,
            ServiceError::InternalDataError => r.status == 500 && r.body@
                == "\"Internal data error\""@,
        },
        r.cache_control is None,
        r.location is None,
        r.content_type matches Some(ct) && ct@ == "application/json"@,
        r.wf(),
{
    let (status, body): (u16, String) = match e {
        ServiceError::ArgumentError => (400, String::from_str("\"Invalid argument\"")),
        ServiceError::CacheError(err) => {
            let mut b = String::from_str("\"Cache error: ");
            b.append(err.as_str());
            b.append("\"");
            (500, b)
        },
        ServiceError::InternalDataError => (500, String::from_str("\"Internal data error\"")),
    };
    ApiResponse {
        status,
        cache_control: None,
        content_type: Some(String::from_str("application/json")),
        location: None,
        body,
    }
}

} // verus!
