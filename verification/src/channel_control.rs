//! Channel controls and their narrowing to channels and channel groups.
//!
//! The engine has one shape for a channel and a channel group. What an address stands
//! for is therefore kept beside it as a tag, and every narrowing checks the tag: a
//! mismatch is an error, never a reinterpretation of the address.
use crate::error::Error;
use crate::extern_struct_storage::{ExternStruct, ExternStructKind};
use vstd::prelude::*;

verus! {

/// What a channel control is known to be.
#[derive(Clone, Copy, Debug, PartialEq, Eq, Hash, Structural)]
pub enum ChannelControlType {
    /// Nothing more than a channel control.
    Control,
    /// A channel.
    Channel,
    /// A channel group.
    ChannelGroup,
}

/// A channel control: the address of the engine object and what it is known to be.
#[derive(Clone, Copy, Debug, PartialEq, Eq, Hash, Structural)]
pub struct ChannelControl(pub usize, pub ChannelControlType);

/// A channel, by the address of the engine object.
#[derive(Clone, Copy, Debug, PartialEq, Eq, Hash, Structural)]
pub struct Channel(pub usize);

/// A channel group, by the address of the engine object.
#[derive(Clone, Copy, Debug, PartialEq, Eq, Hash, Structural)]
pub struct ChannelGroup(pub usize);

impl ChannelControl {
    /// The channel that this is, if it is one.
    pub fn into_channel(self) -> (channel: Result<Channel, Error>)
        ensures
            self.1 == ChannelControlType::Channel ==> channel == Ok::<Channel, Error>(
                Channel(self.0),
            ),
            self.1 != ChannelControlType::Channel ==> channel == Err::<Channel, Error>(
                Error::NotAChannel,
            ),
    {
        match self.1 {
            ChannelControlType::Channel => Ok(Channel(self.0)),
            _ => Err(Error::NotAChannel),
        }
    }

    /// The channel group that this is, if it is one.
    pub fn into_channel_group(self) -> (group: Result<ChannelGroup, Error>)
        ensures
            self.1 == ChannelControlType::ChannelGroup ==> group == Ok::<ChannelGroup, Error>(
                ChannelGroup(self.0),
            ),
            self.1 != ChannelControlType::ChannelGroup ==> group == Err::<ChannelGroup, Error>(
                Error::NotAChannelGroup,
            ),
    {
        match self.1 {
            ChannelControlType::ChannelGroup => Ok(ChannelGroup(self.0)),
            _ => Err(Error::NotAChannelGroup),
        }
    }

    /// The object under which the channel control is registered. The tag is no part
    /// of it: a channel, a channel group and a plain channel control at one address
    /// are one object and share one wrapper.
    pub fn extern_struct(self) -> (value: ExternStruct)
        ensures
            value == (ExternStruct { kind: ExternStructKind::ChannelControl, id: self.0 }),
    {
        ExternStruct { kind: ExternStructKind::ChannelControl, id: self.0 }
    }
}

impl Channel {
    /// The channel as a channel control that is known to be a channel.
    pub fn into_channel_control(self) -> (control: ChannelControl)
        ensures
            control == ChannelControl(self.0, ChannelControlType::Channel),
    {
        ChannelControl(self.0, ChannelControlType::Channel)
    }
}

impl ChannelGroup {
    /// The channel group as a channel control that is known to be a channel group.
    pub fn into_channel_control(self) -> (control: ChannelControl)
        ensures
            control == ChannelControl(self.0, ChannelControlType::ChannelGroup),
    {
        ChannelControl(self.0, ChannelControlType::ChannelGroup)
    }
}

} // verus!
