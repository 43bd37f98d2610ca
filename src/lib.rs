//! Session and identity gateway: session issuance and lookup, the federated
//! login state machine, error redirects and the reverse-proxy dispatch rule.
//! Network and store I/O stay with the caller; everything here is decided on
//! plain values.

pub mod auth;
pub mod oauth;
pub mod page;
pub mod proxy;
pub mod session;
pub mod uri;
