//! The HTTP ingress configuration and the texts of its immediate replies.
//! The routing layer itself is a thin dispatcher outside the library.

use vstd::prelude::*;
use vstd::string::StringExecFns;
use crate::decimal::{dec_seq, u16_to_dec_string};

verus! {

pub const SCRAP_MANGA_ROUTE: &'static str = "/scrap-manga";

/// The reply body text sent as soon as a job request is accepted;
/// processing continues after the reply.
pub const SCRAP_MANGA_ACCEPTED_MESSAGE: &'static str = "Manga was sent successfully";

/// Failures while reading configuration values, carried as the offending
/// value's description.
#[derive(Debug)]
pub enum ConfigErrorType {
    ParseEnv(String),
    ParseInt(String),
}

/// Every way serving can fail, with the underlying message text.
#[derive(Debug)]
pub enum Error {
    Config(ConfigErrorType),
    ServerError(String),
}

/// The web server's configuration: the listen port and the concurrency
/// bound handed to each job.
#[derive(Debug, Clone, Copy, PartialEq, Eq, Structural)]
pub struct AppConfig {
    pub port: u16,
    pub chrome_max_count: u16,
}

impl AppConfig {
    pub fn new(port: u16, chrome_max_count: u16) -> (c: Self)
        ensures
            c.port == port,
            c.chrome_max_count == chrome_max_count,
    {
        Self { port, chrome_max_count }
    }

    /// The socket address the server binds: every interface, at the
    /// configured port.
    pub fn address(&self) -> (r: String)
        ensures
            r@ == "0.0.0.0:"@ + dec_seq(self.port as int),
    {
        let mut s = String::new();
        s.append("0.0.0.0:");
        s.append(u16_to_dec_string(self.port).as_str());
        proof {
            assert(s@ =~= "0.0.0.0:"@ + dec_seq(self.port as int));
        }
        s
    }
}

/// The state shared by every request handler.
#[derive(Debug, Clone, Copy, PartialEq, Eq, Structural)]
pub struct AppState {
    pub config: AppConfig,
}

impl AppState {
    pub fn new(config: AppConfig) -> (s: Self)
        ensures
            s.config == config,
    {
        Self { config }
    }
}

/// The reply body text for a request to any route the server does not
/// serve.
pub fn route_not_found_message(path: &str) -> (r: String)
    ensures
        r@ == "Route "@ + path@ + " not found"@,
{
    let mut s = String::new();
    s.append("Route ");
    s.append(path);
    s.append(" not found");
    proof {
        assert(s@ =~= "Route "@ + path@ + " not found"@);
    }
    s
}

} // verus!
