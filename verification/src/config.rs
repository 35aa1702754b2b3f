//! Configuration resolved from optional environment values, with defaults:
//! host `0.0.0.0`, port `3000`, and the fixed upstream base URL. A `PORT`
//! that does not parse as a 16-bit unsigned integer fails configuration.

use vstd::prelude::*;
use vstd::string::StringExecFns;
use crate::error::AppError;
use crate::numeric::{parse_u16_spec, parse_u16};

verus! {

/// Where the server listens.
#[derive(Debug, Clone)]
pub struct ServerConfig {
    pub host: String,
    pub port: u16,
}

/// Where the upstream content API lives.
#[derive(Debug, Clone)]
pub struct BibleApiConfig {
    pub base_url: String,
}

/// The whole configuration.
#[derive(Debug, Clone)]
pub struct Config {
    pub server: ServerConfig,
    pub bible_api: BibleApiConfig,
}

/// Resolves the configuration from the optional `HOST`, `PORT` and
/// `BIBLE_API_BASE_URL` environment values.
pub fn config_from_values(
    host: Option<String>,
    port: Option<String>,
    base_url: Option<String>,
) -> (r: Result<Config, AppError>)
    ensures
        match r {
            Ok(c) => {
                &&& c.server.host@ == (match host {
                    Some(h) => h@,
                    None => "0.0.0.0"@,
                })
                &&& c.bible_api.base_url@ == (match base_url {
                    Some(u) => u@,
                    None => "https://bible.helloao.org/api"@,
                })
                &&& (match port {
                    Some(p) => parse_u16_spec(p@) == Some(c.server.port),
                    None => c.server.port == 3000,
                })
            },
            Err(e) => {
                &&& port matches Some(p) && parse_u16_spec(p@) is None
                &&& e matches AppError::Config(m) && m@ == "Invalid PORT value"@
            },
        },
{
    let port_value: u16 = match port {
        Some(p) => match parse_u16(p.as_str()) {
            Some(n) => n,
            None => {
                return Err(AppError::Config("Invalid PORT value".to_owned()));
            },
        },
        None => 3000,
    };
    let host_value = match host {
        Some(h) => h,
        None => "0.0.0.0".to_owned(),
    };
    let base_url_value = match base_url {
        Some(u) => u,
        None => "https://bible.helloao.org/api".to_owned(),
    };
    Ok(
        Config {
            server: ServerConfig { host: host_value, port: port_value },
            bible_api: BibleApiConfig { base_url: base_url_value },
        },
    )
}

} // verus!
