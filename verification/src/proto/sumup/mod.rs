//! Many requests or responses of one kind in a single payload.

pub mod batch;
pub mod sumup_request;
pub mod sumup_response;
