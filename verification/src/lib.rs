//! The custom upstream channel and the request pipeline around it.

pub mod channel;
pub mod json;
pub mod pipeline;
pub mod protocol;
pub mod text;
pub mod transport;
