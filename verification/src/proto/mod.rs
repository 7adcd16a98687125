//! Everything needed to build a frame and its payload.

pub mod ads_state;
pub mod ads_transition_mode;
pub mod ams_address;
pub mod ams_header;
pub mod command_id;
pub mod le_bytes;
pub mod proto_traits;
pub mod request;
pub mod response;
pub mod state_flags;
pub mod sumup;
