//! Channels: how a request is addressed to an upstream and authenticated there.

pub mod common;
pub mod custom;
pub mod error;
pub mod form;
