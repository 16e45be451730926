use vstd::prelude::*;

verus! {

/// Why a verifier could not be built from a configuration.
#[derive(Debug, Clone, PartialEq, Eq)]
pub enum ConfigError {
    /// The configuration lists no validation endpoint.
    EmptyEndpoints,
    /// The user-agent string cannot be sent as an HTTP header value.
    InvalidUserAgent,
    /// The HTTP client could not be built from the configuration.
    TransportBuild,
}

/// Every error that verification can report.
#[derive(Debug, Clone, PartialEq, Eq)]
pub enum YubicoError {
    /// Fatal, reported before any network call.
    Configuration(ConfigError),
    /// The request could not be built (malformed passcode, signing failure).
    RequestBuild(String),
    /// One endpoint could not be reached (connection, timeout, TLS).
    Transport(String),
    /// One endpoint answered, but the answer was not a valid "OK"
    /// (bad status, bad signature, replayed or bad passcode).
    Validation(String),
    /// The completion channel failed before every endpoint had reported.
    ChannelError,
}

impl YubicoError {
    /// Whether this error is one of the configuration errors.
    pub fn is_configuration(&self) -> (r: bool)
        ensures
            r == (self is Configuration),
    {
        match self {
            YubicoError::Configuration(_) => true,
            _ => false,
        }
    }

    /// A short human-readable description of the error.
    pub fn message(&self) -> (r: String)
        ensures
            r@ == message_of(*self),
    {
        match self {
            YubicoError::Configuration(ConfigError::EmptyEndpoints) => String::from_str(
                "configuration error: no validation endpoint",
            ),
            YubicoError::Configuration(ConfigError::InvalidUserAgent) => String::from_str(
                "configuration error: invalid user agent",
            ),
            YubicoError::Configuration(ConfigError::TransportBuild) => String::from_str(
                "configuration error: the HTTP client could not be built",
            ),
            YubicoError::RequestBuild(m) => String::from_str("request build error: ").concat(
                m.as_str(),
            ),
            YubicoError::Transport(m) => String::from_str("transport error: ").concat(m.as_str()),
            YubicoError::Validation(m) => String::from_str("validation error: ").concat(
                m.as_str(),
            ),
            YubicoError::ChannelError => String::from_str("channel error"),
        }
    }
}

/// The description of `e`: a fixed text per kind, followed by the detail
/// the error carries, if any.
pub open spec fn message_of(e: YubicoError) -> Seq<char> {
    match e {
        YubicoError::Configuration(ConfigError::EmptyEndpoints) => "configuration error: no validation endpoint"@,
        YubicoError::Configuration(ConfigError::InvalidUserAgent) => "configuration error: invalid user agent"@,
        YubicoError::Configuration(ConfigError::TransportBuild) => "configuration error: the HTTP client could not be built"@,
        YubicoError::RequestBuild(m) => "request build error: "@ + m@,
        YubicoError::Transport(m) => "transport error: "@ + m@,
        YubicoError::Validation(m) => "validation error: "@ + m@,
        YubicoError::ChannelError => "channel error"@,
    }
}

} // verus!
