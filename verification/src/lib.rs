//! Bringing an embedded wireless device from an unconfigured state to a
//! connected, servable one, and guarding its single HTTP endpoint against
//! request floods.
//!
//! The crate holds the decisions; the hardware, the radio stack and the HTTP
//! transport are driven by the caller, which performs the actions that the
//! state machines ask for and reports back what happened.

pub mod bounded;
pub mod error;
pub mod admission;
pub mod http;
pub mod identity;
pub mod ipv4;
pub mod network;
pub mod provisioning;
pub mod survey;
