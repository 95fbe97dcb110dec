//! The gateway's front door: how many requests it admits, and which browser
//! origins may call it.
use vstd::prelude::*;
use crate::numparse::{parse_u32, parse_u64, parse_unsigned};

verus! {

/// The rate limit and the browser origins the gateway is set up with.
pub struct RouterSettings {
    pub rate_limit_per_second: u64,
    pub burst_size: u32,
    pub frontend_url: String,
    pub allowed_origins: Vec<String>,
}

pub open spec fn string_views(v: Seq<String>) -> Seq<Seq<char>> {
    v.map_values(|s: String| s@)
}

/// A setting read from the environment: the value when it parses as an
/// unsigned integer of at most `max`, else the default.
pub open spec fn setting_or(value: Option<&str>, max: int, default: int) -> int {
    match value {
        Some(v) => match parse_unsigned(v@, max) {
            Some(n) => n,
            None => default,
        },
        None => default,
    }
}

/// The origins allowed for browsers: the local development addresses, then
/// the front end's.
pub open spec fn origins_spec(frontend_url: Seq<char>) -> Seq<Seq<char>> {
    seq![
        "http://localhost:3000"@,
        "http://localhost:8000"@,
        "http://127.0.0.1:3000"@,
        "http://127.0.0.1:8000"@,
        frontend_url,
    ]
}

/// The settings from the values of `RATE_LIMIT_PER_SECOND` (default 100),
/// `RATE_LIMIT_BURST` (default 200) and `FRONTEND_URL` (default
/// `http://localhost:3000`).
pub fn router_settings(
    rate_limit_per_second: Option<&str>,
    burst_size: Option<&str>,
    frontend_url: Option<String>,
) -> (r: RouterSettings)
    ensures
        r.rate_limit_per_second == setting_or(rate_limit_per_second, u64::MAX as int, 100),
        r.burst_size == setting_or(burst_size, u32::MAX as int, 200),
        r.frontend_url@ == match frontend_url {
            Some(u) => u@,
            None => "http://localhost:3000"@,
        },
        string_views(r.allowed_origins@) == origins_spec(r.frontend_url@),
{
    let rate = match rate_limit_per_second {
        Some(v) => match parse_u64(v) {
            Some(n) => n,
            None => 100,
        },
        None => 100,
    };
    let burst = match burst_size {
        Some(v) => match parse_u32(v) {
            Some(n) => n,
            None => 200,
        },
        None => 200,
    };
    let frontend = match frontend_url {
        Some(u) => u,
        None => String::from_str("http://localhost:3000"),
    };
    let mut origins: Vec<String> = Vec::new();
    origins.push(String::from_str("http://localhost:3000"));
    origins.push(String::from_str("http://localhost:8000"));
    origins.push(String::from_str("http://127.0.0.1:3000"));
    origins.push(String::from_str("http://127.0.0.1:8000"));
    origins.push(frontend.clone());
    assert(string_views(origins@) =~= origins_spec(frontend@));
    RouterSettings { rate_limit_per_second: rate, burst_size: burst, frontend_url: frontend, allowed_origins: origins }
}

} // verus!
