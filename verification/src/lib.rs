//! Credential brokering for cloud-platform API access.
//!
//! The library holds what is decided and computed when bearer tokens are
//! served to many callers: the tokens and their expiry ([`types`]), the
//! signing of assertions ([`signer`]), the reading of HTTP responses
//! ([`util`]), the choice of a credential source ([`discovery`]), the
//! retrieval of a token with at most one refresh under way
//! ([`authentication_manager`]), and what many retrievals at once are
//! guaranteed ([`protocol`]). Waiting, for the network or for a lock, is left
//! to the caller.

pub mod authentication_manager;
pub mod discovery;
pub mod error;
pub mod protocol;
pub mod signer;
pub mod text;
pub mod time;
pub mod types;
pub mod util;

pub use authentication_manager::{Action, Event, TokenRequest};
pub use discovery::{Discovery, Strategy, Verdict};
pub use error::Error;
pub use signer::Signer;
pub use time::Timestamp;
pub use types::{SecretString, Token};
