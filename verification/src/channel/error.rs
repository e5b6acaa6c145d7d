//! What can go wrong in a channel.

use vstd::prelude::*;

verus! {

/// Why a channel could not do what it was asked.
#[derive(Debug)]
pub enum ChannelError {
    /// The request could not be built or the upstream's answer not be used.
    Build(String),
    /// The credential lacks what the channel needs.
    InvalidCredential(String),
    /// A setting is not there.
    MissingSetting(&'static str),
}

/// What a `ChannelError` says.
pub enum ChannelFault {
    Build(Seq<char>),
    InvalidCredential(Seq<char>),
    MissingSetting(Seq<char>),
}

impl View for ChannelError {
    type V = ChannelFault;

    open spec fn view(&self) -> ChannelFault {
        match *self {
            ChannelError::Build(message) => ChannelFault::Build(message@),
            ChannelError::InvalidCredential(message) => ChannelFault::InvalidCredential(message@),
            ChannelError::MissingSetting(setting) => ChannelFault::MissingSetting(setting@),
        }
    }
}

} // verus!
