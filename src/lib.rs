//! Control plane of a LAN video-distribution tool: the discovery and
//! registration protocol with its client registry, and the streaming and
//! recording state machine of a viewing session.

pub mod endpoint;
pub mod registry;
pub mod discovery;
pub mod pipeline;
pub mod session;
pub mod monitor;
