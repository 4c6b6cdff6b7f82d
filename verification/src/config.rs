//! Process configuration, as plain values. The surrounding application
//! fills it from the environment; the library only reads it.

use vstd::prelude::*;

verus! {

/// Startup configuration: where to listen, which key-store backing to use
/// (networked where an endpoint is given, in-process otherwise), and
/// whether a suggestion-source token is available.
pub struct Config {
    pub port: u16,
    pub host: String,
    pub redis_endpoint: Option<String>,
    pub openrouter_token: Option<String>,
}

impl Default for Config {
    /// An empty configuration: no host, no backing endpoint, no token.
    fn default() -> (c: Self)
        ensures
            c.port == 0,
            c.host@ == Seq::<char>::empty(),
            c.redis_endpoint is None,
            c.openrouter_token is None,
    {
        Config { port: 0, host: String::new(), redis_endpoint: None, openrouter_token: None }
    }
}

} // verus!
