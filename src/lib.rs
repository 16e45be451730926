//! Verification of a hardware-token one-time passcode against a set of
//! mirrored validation servers: configuration checks, the per-endpoint
//! dispatch plan, and the race / aggregation policy that turns the
//! outcomes of all endpoints into one verdict.

pub mod aggregate;
pub mod config;
pub mod request;
pub mod sync;
pub mod yubicoerror;

pub use config::Config;
pub use request::VerificationRequest;
pub use yubicoerror::{ConfigError, YubicoError};
pub use aggregate::{Aggregation, EndpointOutcome, Phase};
pub use sync::SyncVerifier;
