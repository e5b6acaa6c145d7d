//! What holds of the pipeline as a whole.

pub mod attempts;
pub mod patches;
pub mod plans;
pub mod responses;
pub mod sent;
pub mod texts;
