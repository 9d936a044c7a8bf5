//! The cross-origin policy applied to every response, rejections included.
use vstd::prelude::*;
use vstd::string::*;

verus! {

/// Which cross-origin requests browsers are told to allow.
pub struct CorsPolicy {
    /// Any origin is allowed.
    pub allow_any_origin: bool,
    /// The methods allowed, by name.
    pub allowed_methods: Vec<String>,
    /// The request headers allowed, by name.
    pub allowed_headers: Vec<String>,
    /// Whether credentials may accompany a request.
    pub supports_credentials: bool,
    /// How long a preflight answer may be cached, in seconds.
    pub max_age_secs: usize,
}

pub open spec fn strings_view(v: Seq<String>) -> Seq<Seq<char>> {
    v.map_values(|s: String| s@)
}

impl CorsPolicy {
    /// The gateway's policy: any origin, `GET` only, the `Authorization`,
    /// `Accept` and `Content-Type` request headers, credentials allowed, and
    /// preflight answers cached for an hour.
    pub fn gateway_default() -> (r: CorsPolicy)
        ensures
            r.allow_any_origin,
            strings_view(r.allowed_methods@) == seq!["GET"@],
            strings_view(r.allowed_headers@) == seq![
                "authorization"@,
                "accept"@,
                "content-type"@,
            ],
            r.supports_credentials,
            r.max_age_secs == 3600,
    {
        let mut methods: Vec<String> = Vec::new();
        methods.push(String::from_str("GET"));
        let mut headers: Vec<String> = Vec::new();
        headers.push(String::from_str("authorization"));
        headers.push(String::from_str("accept"));
        headers.push(String::from_str("content-type"));
        let r = CorsPolicy {
            allow_any_origin: true,
            allowed_methods: methods,
            allowed_headers: headers,
            supports_credentials: true,
            max_age_secs: 3600,
        };
        assert(strings_view(r.allowed_methods@) =~= seq!["GET"@]);
        assert(strings_view(r.allowed_headers@) =~= seq![
            "authorization"@,
            "accept"@,
            "content-type"@,
        ]);
        r
    }
}

} // verus!
