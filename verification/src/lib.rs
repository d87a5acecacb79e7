//! Decoding of captured Ethernet frames and the decisions of the capture and
//! delivery loops that stream the decoded records to viewers.

pub mod delivery;
pub mod frame;
pub mod mac;
pub mod record;
pub mod registry;
pub mod session;
