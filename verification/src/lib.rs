//! Register-level control driver for a stereo audio codec reached over a
//! write-only, addressed serial control link.
//!
//! High-level audio parameters (volumes, mixer levels, power domains,
//! interface format, mute) are packed into fixed-width control frames and
//! handed to an injected [`transport::Transport`].  Because the link offers
//! no readback, the driver keeps a local mirror of every value whose frame
//! was transmitted successfully; getters read only that mirror.

pub mod bits;
pub mod channel;
pub mod codec;
pub mod error;
pub mod registers;
pub mod transport;

pub use bits::{mask, pack, try_pack};
pub use channel::{AudioChannel, ChannelPair};
pub use error::{CodecError, TransportFault};
pub use registers::{
    AudioWordLength, MixInputSelection, RegisterAddress, MAX_DAC_VOLUME, MAX_INPUT_VOLUME,
    MAX_MIX_VOLUME, MAX_OUTPUT_VOLUME,
};
pub use transport::{FailingTransport, RecordingTransport, Transport};
pub use codec::{Codec, CodecState, PowerConfig};
