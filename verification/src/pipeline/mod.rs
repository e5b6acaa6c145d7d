//! The pipeline: from an inbound request and a candidate upstream to the
//! request that goes out, and back from the response.

pub mod error;
pub mod laws;
pub mod memo;
pub mod patch;
pub mod plan;
pub mod request;
pub mod response;
pub mod transform;
pub mod wire;
