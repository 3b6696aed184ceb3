//! The stereo channel key and the two-slot per-channel container.

use vstd::prelude::*;

verus! {

/// The two audio channels of the stereo codec; the only valid channel keys
/// anywhere in the driver.
#[derive(Clone, Copy, Debug, PartialEq, Eq, Structural)]
pub enum AudioChannel {
    Left,
    Right,
}

/// A store with exactly two named slots, one per audio channel.
#[derive(Clone, Copy, Debug, PartialEq, Eq, Structural)]
pub struct ChannelPair<T> {
    pub left: T,
    pub right: T,
}

impl<T> ChannelPair<T> {
    /// The value held for `channel`.
    pub open spec fn spec_get(self, channel: AudioChannel) -> T {
        match channel {
            AudioChannel::Left => self.left,
            AudioChannel::Right => self.right,
        }
    }

    /// The pair with the slot for `channel` replaced by `value`.
    pub open spec fn spec_set(self, channel: AudioChannel, value: T) -> Self {
        match channel {
            AudioChannel::Left => (ChannelPair { left: value, ..self }),
            AudioChannel::Right => (ChannelPair { right: value, ..self }),
        }
    }

    /// Builds a pair from its two slot values.
    pub fn new(left: T, right: T) -> (p: Self)
        ensures
            p.left == left,
            p.right == right,
    {
        ChannelPair { left, right }
    }

    /// Replaces the slot for `channel` with `value`.
    pub fn set(&mut self, channel: AudioChannel, value: T)
        ensures
            *final(self) == old(self).spec_set(channel, value),
    {
        match channel {
            AudioChannel::Left => self.left = value,
            AudioChannel::Right => self.right = value,
        }
    }
}

impl<T: Copy> ChannelPair<T> {
    /// Reads the slot for `channel`.
    pub fn get(&self, channel: AudioChannel) -> (v: T)
        ensures
            v == self.spec_get(channel),
    {
        match channel {
            AudioChannel::Left => self.left,
            AudioChannel::Right => self.right,
        }
    }
}

} // verus!
