use vstd::prelude::*;

verus! {

/// Number of official validation mirrors listed by default.
pub const DEFAULT_HOST_COUNT: usize = 5;

/// Per-request timeout used unless another is set, in milliseconds.
pub const DEFAULT_TIMEOUT_MS: u64 = 30000;

/// Settings of one verification: who the client is, its shared secret,
/// which mirrors to ask, and how to talk to them.
#[derive(Debug, Clone, PartialEq, Eq)]
pub struct Config {
    pub client_id: String,
    pub key: String,
    /// Base addresses of the validation endpoints, in the order given.
    pub api_hosts: Vec<String>,
    pub user_agent: String,
    /// Timeout of each endpoint attempt, in milliseconds.
    pub request_timeout_ms: u64,
}

impl Default for Config {
    /// The official mirrors, no client identity, the default timeout.
    fn default() -> (r: Config)
        ensures
            r.client_id@.len() == 0,
            r.key@.len() == 0,
            r.api_hosts@.len() == DEFAULT_HOST_COUNT,
            r.api_hosts@[0]@ == "https://api.yubico.com/wsapi/2.0/verify"@,
            r.api_hosts@[1]@ == "https://api2.yubico.com/wsapi/2.0/verify"@,
            r.api_hosts@[2]@ == "https://api3.yubico.com/wsapi/2.0/verify"@,
            r.api_hosts@[3]@ == "https://api4.yubico.com/wsapi/2.0/verify"@,
            r.api_hosts@[4]@ == "https://api5.yubico.com/wsapi/2.0/verify"@,
            r.user_agent@ == "github.com/wisespace-io/yubico-rs"@,
            r.request_timeout_ms == DEFAULT_TIMEOUT_MS,
    {
        let api_hosts = vec![
            String::from_str("https://api.yubico.com/wsapi/2.0/verify"),
            String::from_str("https://api2.yubico.com/wsapi/2.0/verify"),
            String::from_str("https://api3.yubico.com/wsapi/2.0/verify"),
            String::from_str("https://api4.yubico.com/wsapi/2.0/verify"),
            String::from_str("https://api5.yubico.com/wsapi/2.0/verify"),
        ];
        Config {
            client_id: String::new(),
            key: String::new(),
            api_hosts,
            user_agent: String::from_str("github.com/wisespace-io/yubico-rs"),
            request_timeout_ms: DEFAULT_TIMEOUT_MS,
        }
    }
}

impl Config {
    pub fn set_client_id(self, client_id: String) -> (r: Config)
        ensures
            r == (Config { client_id, ..self }),
    {
        Config { client_id, ..self }
    }

    pub fn set_key(self, key: String) -> (r: Config)
        ensures
            r == (Config { key, ..self }),
    {
        Config { key, ..self }
    }

    pub fn set_api_hosts(self, api_hosts: Vec<String>) -> (r: Config)
        ensures
            r == (Config { api_hosts, ..self }),
    {
        Config { api_hosts, ..self }
    }

    pub fn set_user_agent(self, user_agent: String) -> (r: Config)
        ensures
            r == (Config { user_agent, ..self }),
    {
        Config { user_agent, ..self }
    }

    pub fn set_request_timeout_ms(self, request_timeout_ms: u64) -> (r: Config)
        ensures
            r == (Config { request_timeout_ms, ..self }),
    {
        Config { request_timeout_ms, ..self }
    }
}

} // verus!
