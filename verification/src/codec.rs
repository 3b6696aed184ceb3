//! The codec driver: builds control words from audio parameters, transmits
//! them over the injected transport, and mirrors every value whose frame was
//! transmitted successfully.

use vstd::prelude::*;

verus! {

use vstd::arithmetic::power2::lemma2_to64;

use crate::bits::{lemma_mask_is_low_bits, pack};
use crate::channel::{AudioChannel, ChannelPair};
use crate::error::{CodecError, TransportFault};
use crate::registers::{
    AudioWordLength, MixInputSelection, RegisterAddress, MAX_INPUT_VOLUME, MAX_MIX_VOLUME,
    MAX_OUTPUT_VOLUME,
};
use crate::transport::Transport;

/// Enables of the chip's eight supported power domains.
#[derive(Clone, Copy, Debug, PartialEq, Eq, Structural)]
pub struct PowerConfig {
    pub adc_left: bool,
    pub adc_right: bool,
    pub dac_left: bool,
    pub dac_right: bool,
    pub left_out_1: bool,
    pub right_out_1: bool,
    pub pga_left: bool,
    pub pga_right: bool,
}

impl PowerConfig {
    /// The configuration with every power domain disabled.
    pub open spec fn all_off() -> PowerConfig {
        PowerConfig {
            adc_left: false,
            adc_right: false,
            dac_left: false,
            dac_right: false,
            left_out_1: false,
            right_out_1: false,
            pga_left: false,
            pga_right: false,
        }
    }
}

impl Default for PowerConfig {
    /// Every power domain disabled.
    fn default() -> (c: Self)
        ensures
            c == PowerConfig::all_off(),
    {
        PowerConfig {
            adc_left: false,
            adc_right: false,
            dac_left: false,
            dac_right: false,
            left_out_1: false,
            right_out_1: false,
            pga_left: false,
            pga_right: false,
        }
    }
}

/// The driver's mirror of the chip's configuration: the last value of each
/// parameter whose control frame was transmitted successfully.
#[derive(Clone, Copy, Debug, PartialEq, Eq, Structural)]
pub struct CodecState {
    /// Input volume per channel, `0..=63`.
    pub input_volume: ChannelPair<u8>,
    /// Primary output volume per channel, `0..=127`.
    pub output_volume: ChannelPair<u8>,
    /// DAC volume per channel, `0..=255`.
    pub dac_volume: ChannelPair<u8>,
    /// Mixer level per output side, per input channel, `0..=7`.
    pub mix: ChannelPair<ChannelPair<u8>>,
    /// Power domain enables.
    pub power_config: PowerConfig,
    /// Digital soft mute of the DACs.
    pub mute: bool,
}

/// The mirror's values lie within the bit widths of their register fields.
pub open spec fn state_wf(s: CodecState) -> bool {
    &&& s.input_volume.left <= MAX_INPUT_VOLUME
    &&& s.input_volume.right <= MAX_INPUT_VOLUME
    &&& s.output_volume.left <= MAX_OUTPUT_VOLUME
    &&& s.output_volume.right <= MAX_OUTPUT_VOLUME
    &&& s.mix.left.left <= MAX_MIX_VOLUME
    &&& s.mix.left.right <= MAX_MIX_VOLUME
    &&& s.mix.right.left <= MAX_MIX_VOLUME
    &&& s.mix.right.right <= MAX_MIX_VOLUME
}

/// The mirror a completed reset sequence leaves behind: everything zero,
/// every power domain off, mute cleared.
pub open spec fn reset_mirror() -> CodecState {
    CodecState {
        input_volume: ChannelPair { left: 0u8, right: 0u8 },
        output_volume: ChannelPair { left: 0u8, right: 0u8 },
        dac_volume: ChannelPair { left: 0u8, right: 0u8 },
        mix: ChannelPair {
            left: ChannelPair { left: 0u8, right: 0u8 },
            right: ChannelPair { left: 0u8, right: 0u8 },
        },
        power_config: PowerConfig::all_off(),
        mute: false,
    }
}

/// `weight` if `b` is set, else zero; the arithmetic value of a flag bit.
pub open spec fn flag(b: bool, weight: int) -> int {
    if b {
        weight
    } else {
        0
    }
}

/// The 16-bit control word carrying `payload` to the register at `address`:
/// 7-bit address in the high bits, 9-bit payload in the low bits.
pub open spec fn frame_word(address: u8, payload: u16) -> u16
    recommends
        address < 128,
        payload < 512,
{
    ((address * 512 + payload) as u16)
}

/// The two bytes of a control frame, most-significant byte first.
pub open spec fn frame_bytes(address: u8, payload: u16) -> (u8, u8)
    recommends
        address < 128,
        payload < 512,
{
    (((frame_word(address, payload) / 256) as u8), ((frame_word(address, payload) % 256) as u8))
}

/// Input volume payload: update-immediately set, mute derived from a zero
/// volume, zero-cross detection off, 6-bit volume.
pub open spec fn input_volume_payload(volume: u8) -> u16
    recommends
        volume <= MAX_INPUT_VOLUME,
{
    ((256 + flag(volume == 0, 128) + volume) as u16)
}

/// Output volume payload: update-immediately set, 8-bit volume.
pub open spec fn output_volume_payload(volume: u8) -> u16 {
    ((256 + volume) as u16)
}

/// DAC volume payload: update-immediately set, 8-bit volume.
pub open spec fn dac_volume_payload(volume: u8) -> u16 {
    ((256 + volume) as u16)
}

/// First power-management payload: mid-rail divider at its fixed selection,
/// voltage reference on, PGA and ADC enables, master clock enabled.
pub open spec fn power1_payload(config: PowerConfig) -> u16 {
    ((128 + 64 + flag(config.pga_left, 32) + flag(config.pga_right, 16) + flag(
        config.adc_left,
        8,
    ) + flag(config.adc_right, 4)) as u16)
}

/// Second power-management payload: DAC and primary output enables; the
/// secondary output path stays permanently disabled.
pub open spec fn power2_payload(config: PowerConfig) -> u16 {
    ((flag(config.dac_left, 256) + flag(config.dac_right, 128) + flag(config.left_out_1, 64)
        + flag(config.right_out_1, 32)) as u16)
}

/// First mixer payload of an output side: DAC routing for the left slot,
/// enable derived from a non-zero level, 3-bit attenuation (the register
/// stores `7 - level`), and the fixed microphone-boost input selection.
pub open spec fn mix1_payload(channel: AudioChannel, left_volume: u8) -> u16
    recommends
        left_volume <= MAX_MIX_VOLUME,
{
    ((flag(channel is Left, 256) + flag(left_volume != 0, 128) + (7 - left_volume) * 16
        + MixInputSelection::MicBoost.spec_code()) as u16)
}

/// Second mixer payload of an output side: DAC routing for the right slot,
/// enable derived from a non-zero level, 3-bit attenuation.
pub open spec fn mix2_payload(channel: AudioChannel, right_volume: u8) -> u16
    recommends
        right_volume <= MAX_MIX_VOLUME,
{
    ((flag(channel is Right, 256) + flag(right_volume != 0, 128) + (7 - right_volume) * 16) as u16)
}

/// Audio interface payload: slave mode, no inversions, no channel swap,
/// 2-bit word length code, fixed I2S data format.
pub open spec fn interface_payload(word_length: AudioWordLength) -> u16 {
    ((word_length.spec_code() * 4 + 2) as u16)
}

/// ADC/DAC control payload: everything at its fixed default but the DAC
/// soft-mute bit.
pub open spec fn adcdac_payload(mute: bool) -> u16 {
    (flag(mute, 8) as u16)
}

/// The input volume register of a channel.
pub open spec fn input_register(channel: AudioChannel) -> RegisterAddress {
    match channel {
        AudioChannel::Left => RegisterAddress::LeftInputVolume,
        AudioChannel::Right => RegisterAddress::RightInputVolume,
    }
}

/// The primary output volume register of a channel.
pub open spec fn output_register(channel: AudioChannel) -> RegisterAddress {
    match channel {
        AudioChannel::Left => RegisterAddress::LeftOutput1Volume,
        AudioChannel::Right => RegisterAddress::RightOutput1Volume,
    }
}

/// The DAC volume register of a channel.
pub open spec fn dac_register(channel: AudioChannel) -> RegisterAddress {
    match channel {
        AudioChannel::Left => RegisterAddress::LeftDACVolume,
        AudioChannel::Right => RegisterAddress::RightDACVolume,
    }
}

/// The first mixer register of an output side.
pub open spec fn mix1_register(channel: AudioChannel) -> RegisterAddress {
    match channel {
        AudioChannel::Left => RegisterAddress::LeftOutMix1,
        AudioChannel::Right => RegisterAddress::RightOutMix1,
    }
}

/// The second mixer register of an output side.
pub open spec fn mix2_register(channel: AudioChannel) -> RegisterAddress {
    match channel {
        AudioChannel::Left => RegisterAddress::LeftOutMix2,
        AudioChannel::Right => RegisterAddress::RightOutMix2,
    }
}

/// The driver of one codec chip.
///
/// It exclusively owns its transport for its lifetime.  Setters build the
/// control word, transmit it, and update the mirror exactly on success;
/// getters read only the mirror.
pub struct Codec<T: Transport> {
    transport: T,
    state: CodecState,
}

impl<T: Transport> Codec<T> {
    /// The driver's mirror of the chip's configuration.
    pub closed spec fn mirror(&self) -> CodecState {
        self.state
    }

    /// The frames transmitted successfully over the driver's transport,
    /// oldest first.
    pub closed spec fn frames_sent(&self) -> Seq<(u8, u8)> {
        self.transport.log()
    }

    /// The mirror's values lie within their register fields.
    pub open spec fn wf(&self) -> bool {
        state_wf(self.mirror())
    }

    /// Packs `value` behind the register's 7-bit address and transmits the
    /// frame as two bytes, most-significant byte first.
    fn write_register(&mut self, address: RegisterAddress, value: u16) -> (r: Result<
        (),
        CodecError,
    >)
        requires
            value < 512,
        ensures
            final(self).mirror() == old(self).mirror(),
            r is Ok ==> final(self).frames_sent() == old(self).frames_sent().push(
                frame_bytes(address.spec_address(), value),
            ),
            r is Err ==> final(self).frames_sent() == old(self).frames_sent(),
            r matches Err(e) ==> e == CodecError::Transport(TransportFault),
    {
        let a = address.address();
        proof {
            lemma2_to64();
            lemma_mask_is_low_bits(7);
            lemma_mask_is_low_bits(9);
        }
        let high_part = pack(a as u16, 9, 16);
        let low_part = pack(value, 0, 9);
        let data = high_part | low_part;
        let high = (data >> 8) as u8;
        let low = (data & 0xff) as u8;
        proof {
            assert(data == high_part + low_part && high == (high_part + low_part) / 256 && low
                == (high_part + low_part) % 256) by (bit_vector)
                requires
                    high_part == (a as u16) * 512,
                    low_part == value,
                    a < 128,
                    value < 512,
                    data == (high_part | low_part),
                    high == (data >> 8) as u8,
                    low == (data & 0xff) as u8,
            ;
        }
        match self.transport.write(high, low) {
            Ok(()) => Ok(()),
            Err(f) => Err(CodecError::Transport(f)),
        }
    }

    /// Reads the mirrored input volume of a channel.
    pub fn get_input_volume(&self, channel: AudioChannel) -> (v: u8)
        ensures
            v == self.mirror().input_volume.spec_get(channel),
    {
        self.state.input_volume.get(channel)
    }

    /// Sets the input volume of one channel, `0..=63`.
    ///
    /// On success the frame carrying the new volume has been transmitted and
    /// the mirror holds the volume; on any failure the mirror and the link
    /// are left exactly as they were.
    pub fn set_input_volume(&mut self, channel: AudioChannel, volume: u8) -> (r: Result<
        (),
        CodecError,
    >)
        requires
            old(self).wf(),
        ensures
            final(self).wf(),
            volume > MAX_INPUT_VOLUME ==> r == Err::<(), CodecError>(CodecError::ValueOutOfRange)
                && final(self).mirror() == old(self).mirror() && final(self).frames_sent() == old(
                self,
            ).frames_sent(),
            volume <= MAX_INPUT_VOLUME && r is Ok ==> final(self).frames_sent() == old(
                self,
            ).frames_sent().push(
                frame_bytes(input_register(channel).spec_address(), input_volume_payload(volume)),
            ) && final(self).mirror() == (CodecState {
                input_volume: old(self).mirror().input_volume.spec_set(channel, volume),
                ..old(self).mirror()
            }),
            volume <= MAX_INPUT_VOLUME && r is Err ==> r == Err::<(), CodecError>(
                CodecError::Transport(TransportFault),
            ) && final(self).mirror() == old(self).mirror() && final(self).frames_sent() == old(
                self,
            ).frames_sent(),
    {
        if volume > MAX_INPUT_VOLUME {
            return Err(CodecError::ValueOutOfRange);
        }
        let address = match channel {
            AudioChannel::Left => RegisterAddress::LeftInputVolume,
            AudioChannel::Right => RegisterAddress::RightInputVolume,
        };
        let update_immediate = true;
        let mute = volume == 0;
        let zero_cross_detector = false;
        proof {
            lemma2_to64();
            lemma_mask_is_low_bits(1);
            lemma_mask_is_low_bits(6);
        }
        let p_update = pack(if update_immediate { 1 } else { 0 }, 8, 9);
        let p_mute = pack(if mute { 1 } else { 0 }, 7, 8);
        let p_zcd = pack(if zero_cross_detector { 1 } else { 0 }, 6, 7);
        let p_vol = pack(volume as u16, 0, 6);
        let data = p_update | p_mute | p_zcd | p_vol;
        proof {
            assert(data == p_update + p_mute + p_zcd + p_vol) by (bit_vector)
                requires
                    p_update == 256u16,
                    p_mute == 128u16 || p_mute == 0u16,
                    p_zcd == 0u16,
                    p_vol <= 63u16,
                    data == (p_update | p_mute | p_zcd | p_vol),
            ;
            assert(data == input_volume_payload(volume));
        }
        match self.write_register(address, data) {
            Ok(()) => {
                self.state.input_volume.set(channel, volume);
                Ok(())
            },
            Err(e) => Err(e),
        }
    }

    /// Reads the mirrored primary output volume of a channel.
    pub fn get_output_volume(&self, channel: AudioChannel) -> (v: u8)
        ensures
            v == self.mirror().output_volume.spec_get(channel),
    {
        self.state.output_volume.get(channel)
    }

    /// Sets the primary output volume of one channel, `0..=127`.
    ///
    /// On success the frame carrying the new volume has been transmitted and
    /// the mirror holds the volume; on any failure the mirror and the link
    /// are left exactly as they were.
    pub fn set_output_volume(&mut self, channel: AudioChannel, volume: u8) -> (r: Result<
        (),
        CodecError,
    >)
        requires
            old(self).wf(),
        ensures
            final(self).wf(),
            volume > MAX_OUTPUT_VOLUME ==> r == Err::<(), CodecError>(CodecError::ValueOutOfRange)
                && final(self).mirror() == old(self).mirror() && final(self).frames_sent() == old(
                self,
            ).frames_sent(),
            volume <= MAX_OUTPUT_VOLUME && r is Ok ==> final(self).frames_sent() == old(
                self,
            ).frames_sent().push(
                frame_bytes(output_register(channel).spec_address(), output_volume_payload(volume)),
            ) && final(self).mirror() == (CodecState {
                output_volume: old(self).mirror().output_volume.spec_set(channel, volume),
                ..old(self).mirror()
            }),
            volume <= MAX_OUTPUT_VOLUME && r is Err ==> r == Err::<(), CodecError>(
                CodecError::Transport(TransportFault),
            ) && final(self).mirror() == old(self).mirror() && final(self).frames_sent() == old(
                self,
            ).frames_sent(),
    {
        if volume > MAX_OUTPUT_VOLUME {
            return Err(CodecError::ValueOutOfRange);
        }
        let address = match channel {
            AudioChannel::Left => RegisterAddress::LeftOutput1Volume,
            AudioChannel::Right => RegisterAddress::RightOutput1Volume,
        };
        let update_immediate = true;
        proof {
            lemma2_to64();
            lemma_mask_is_low_bits(1);
            lemma_mask_is_low_bits(8);
        }
        let p_update = pack(if update_immediate { 1 } else { 0 }, 8, 9);
        let p_vol = pack(volume as u16, 0, 8);
        let data = p_update | p_vol;
        proof {
            assert(data == p_update + p_vol) by (bit_vector)
                requires
                    p_update == 256u16,
                    p_vol <= 255u16,
                    data == (p_update | p_vol),
            ;
        }
        match self.write_register(address, data) {
            Ok(()) => {
                self.state.output_volume.set(channel, volume);
                Ok(())
            },
            Err(e) => Err(e),
        }
    }

    /// Reads the mirrored power configuration.
    pub fn get_power_config(&self) -> (c: PowerConfig)
        ensures
            c == self.mirror().power_config,
    {
        self.state.power_config
    }

    /// Applies a power configuration with two sequential register writes.
    ///
    /// The mirror takes the new configuration only if both writes succeed;
    /// if the first write succeeds and the second fails, the chip is left
    /// with the first word applied while the mirror keeps the previous
    /// configuration.
    pub fn set_power_management(&mut self, config: PowerConfig) -> (r: Result<(), CodecError>)
        requires
            old(self).wf(),
        ensures
            final(self).wf(),
            r is Ok ==> final(self).frames_sent() == old(self).frames_sent().push(
                frame_bytes(
                    RegisterAddress::PowerManagement1.spec_address(),
                    power1_payload(config),
                ),
            ).push(
                frame_bytes(
                    RegisterAddress::PowerManagement2.spec_address(),
                    power2_payload(config),
                ),
            ) && final(self).mirror() == (CodecState {
                power_config: config,
                ..old(self).mirror()
            }),
            r is Err ==> r == Err::<(), CodecError>(CodecError::Transport(TransportFault)) && final(self).mirror() == old(self).mirror() && (final(self).frames_sent() == old(
                self,
            ).frames_sent() || final(self).frames_sent() == old(self).frames_sent().push(
                frame_bytes(
                    RegisterAddress::PowerManagement1.spec_address(),
                    power1_payload(config),
                ),
            )),
    {
        let data1 = power1_word(config);
        let data2 = power2_word(config);
        match self.write_register(RegisterAddress::PowerManagement1, data1) {
            Ok(()) => {},
            Err(e) => {
                return Err(e);
            },
        }
        match self.write_register(RegisterAddress::PowerManagement2, data2) {
            Ok(()) => {},
            Err(e) => {
                return Err(e);
            },
        }
        self.state.power_config = config;
        Ok(())
    }

    /// Reads the mirrored mixer levels of an output side.
    pub fn get_mix(&self, channel: AudioChannel) -> (m: ChannelPair<u8>)
        ensures
            m == self.mirror().mix.spec_get(channel),
    {
        self.state.mix.get(channel)
    }

    /// Sets the mixer levels of one output side: the level taken from the
    /// left and from the right input channel, each `0..=7`.
    ///
    /// Two registers are written; the mirror takes the new pair of levels
    /// only if both writes succeed.
    pub fn set_mix(&mut self, channel: AudioChannel, left_volume: u8, right_volume: u8) -> (r:
        Result<(), CodecError>)
        requires
            old(self).wf(),
        ensures
            final(self).wf(),
            left_volume > MAX_MIX_VOLUME || right_volume > MAX_MIX_VOLUME ==> r == Err::<
                (),
                CodecError,
            >(CodecError::ValueOutOfRange) && final(self).mirror() == old(self).mirror() && final(self).frames_sent() == old(self).frames_sent(),
            left_volume <= MAX_MIX_VOLUME && right_volume <= MAX_MIX_VOLUME && r is Ok ==> final(self).frames_sent() == old(self).frames_sent().push(
                frame_bytes(mix1_register(channel).spec_address(), mix1_payload(channel, left_volume)),
            ).push(
                frame_bytes(
                    mix2_register(channel).spec_address(),
                    mix2_payload(channel, right_volume),
                ),
            ) && final(self).mirror() == (CodecState {
                mix: old(self).mirror().mix.spec_set(
                    channel,
                    ChannelPair { left: left_volume, right: right_volume },
                ),
                ..old(self).mirror()
            }),
            left_volume <= MAX_MIX_VOLUME && right_volume <= MAX_MIX_VOLUME && r is Err ==> r
                == Err::<(), CodecError>(CodecError::Transport(TransportFault)) && final(self).mirror() == old(self).mirror() && (final(self).frames_sent() == old(
                self,
            ).frames_sent() || final(self).frames_sent() == old(self).frames_sent().push(
                frame_bytes(mix1_register(channel).spec_address(), mix1_payload(channel, left_volume)),
            )),
    {
        if left_volume > MAX_MIX_VOLUME || right_volume > MAX_MIX_VOLUME {
            return Err(CodecError::ValueOutOfRange);
        }
        let address1 = if channel == AudioChannel::Left {
            RegisterAddress::LeftOutMix1
        } else {
            RegisterAddress::RightOutMix1
        };
        let address2 = if channel == AudioChannel::Left {
            RegisterAddress::LeftOutMix2
        } else {
            RegisterAddress::RightOutMix2
        };
        let mix_input_selection = MixInputSelection::MicBoost;
        let left_dac = channel == AudioChannel::Left;
        let right_dac = channel == AudioChannel::Right;
        let left_mix_enabled = left_volume != 0;
        let right_mix_enabled = right_volume != 0;
        proof {
            lemma2_to64();
            lemma_mask_is_low_bits(1);
            lemma_mask_is_low_bits(3);
        }
        let left_att = (MAX_MIX_VOLUME - left_volume) as u16;
        let right_att = (MAX_MIX_VOLUME - right_volume) as u16;
        let p_ldac = pack(if left_dac { 1 } else { 0 }, 8, 9);
        let p_len = pack(if left_mix_enabled { 1 } else { 0 }, 7, 8);
        let p_latt = pack(left_att, 4, 7);
        let p_sel = pack(mix_input_selection.code() as u16, 0, 3);
        let data1 = p_ldac | p_len | p_latt | p_sel;
        proof {
            assert(data1 == p_ldac + p_len + p_latt + p_sel) by (bit_vector)
                requires
                    p_ldac == 256u16 || p_ldac == 0u16,
                    p_len == 128u16 || p_len == 0u16,
                    p_latt == left_att * 16,
                    left_att <= 7u16,
                    p_sel == 3u16,
                    data1 == (p_ldac | p_len | p_latt | p_sel),
            ;
            assert(data1 == mix1_payload(channel, left_volume));
        }
        let p_rdac = pack(if right_dac { 1 } else { 0 }, 8, 9);
        let p_ren = pack(if right_mix_enabled { 1 } else { 0 }, 7, 8);
        let p_ratt = pack(right_att, 4, 7);
        let data2 = p_rdac | p_ren | p_ratt;
        proof {
            assert(data2 == p_rdac + p_ren + p_ratt) by (bit_vector)
                requires
                    p_rdac == 256u16 || p_rdac == 0u16,
                    p_ren == 128u16 || p_ren == 0u16,
                    p_ratt == right_att * 16,
                    right_att <= 7u16,
                    data2 == (p_rdac | p_ren | p_ratt),
            ;
            assert(data2 == mix2_payload(channel, right_volume));
        }
        match self.write_register(address1, data1) {
            Ok(()) => {},
            Err(e) => {
                return Err(e);
            },
        }
        match self.write_register(address2, data2) {
            Ok(()) => {},
            Err(e) => {
                return Err(e);
            },
        }
        self.state.mix.set(channel, ChannelPair::new(left_volume, right_volume));
        Ok(())
    }

    /// Configures the digital audio interface: link-slave I2S with the given
    /// word length.  The interface format is not mirrored.
    pub fn set_digital_audio_interface(&mut self, word_length: AudioWordLength) -> (r: Result<
        (),
        CodecError,
    >)
        requires
            old(self).wf(),
        ensures
            final(self).wf(),
            final(self).mirror() == old(self).mirror(),
            r is Ok ==> final(self).frames_sent() == old(self).frames_sent().push(
                frame_bytes(
                    RegisterAddress::AudioInterface.spec_address(),
                    interface_payload(word_length),
                ),
            ),
            r is Err ==> r == Err::<(), CodecError>(CodecError::Transport(TransportFault)) && final(self).frames_sent() == old(self).frames_sent(),
    {
        let invert_bclk = false;
        let master_mode = false;
        let swap_left_right = false;
        let invert_lrc_polarity = false;
        proof {
            lemma2_to64();
            lemma_mask_is_low_bits(1);
            lemma_mask_is_low_bits(2);
        }
        let p_bclk = pack(if invert_bclk { 1 } else { 0 }, 7, 8);
        let p_master = pack(if master_mode { 1 } else { 0 }, 6, 7);
        let p_swap = pack(if swap_left_right { 1 } else { 0 }, 5, 6);
        let p_lrc = pack(if invert_lrc_polarity { 1 } else { 0 }, 4, 5);
        let wl_code = word_length.code() as u16;
        let p_wl = pack(wl_code, 2, 4);
        let p_fmt = pack(AUDIO_FORMAT_I2S, 0, 2);
        let data = p_bclk | p_master | p_swap | p_lrc | p_wl | p_fmt;
        proof {
            assert(data == p_wl + p_fmt) by (bit_vector)
                requires
                    p_bclk == 0u16,
                    p_master == 0u16,
                    p_swap == 0u16,
                    p_lrc == 0u16,
                    p_wl == wl_code * 4,
                    wl_code <= 3u16,
                    p_fmt == 2u16,
                    data == (p_bclk | p_master | p_swap | p_lrc | p_wl | p_fmt),
            ;
            assert(data == interface_payload(word_length));
        }
        match self.write_register(RegisterAddress::AudioInterface, data) {
            Ok(()) => Ok(()),
            Err(e) => Err(e),
        }
    }

    /// Reads the mirrored DAC volume of a channel.
    pub fn get_dac_volume(&self, channel: AudioChannel) -> (v: u8)
        ensures
            v == self.mirror().dac_volume.spec_get(channel),
    {
        self.state.dac_volume.get(channel)
    }

    /// Sets the DAC volume of one channel; the DAC volume field spans the
    /// full 8-bit range.
    ///
    /// On success the frame carrying the new volume has been transmitted and
    /// the mirror holds the volume; on failure the mirror and the link are
    /// left exactly as they were.
    pub fn set_dac_volume(&mut self, channel: AudioChannel, volume: u8) -> (r: Result<
        (),
        CodecError,
    >)
        requires
            old(self).wf(),
        ensures
            final(self).wf(),
            r is Ok ==> final(self).frames_sent() == old(self).frames_sent().push(
                frame_bytes(dac_register(channel).spec_address(), dac_volume_payload(volume)),
            ) && final(self).mirror() == (CodecState {
                dac_volume: old(self).mirror().dac_volume.spec_set(channel, volume),
                ..old(self).mirror()
            }),
            r is Err ==> r == Err::<(), CodecError>(CodecError::Transport(TransportFault)) && final(self).mirror() == old(self).mirror() && final(self).frames_sent() == old(
                self,
            ).frames_sent(),
    {
        let address = if channel == AudioChannel::Left {
            RegisterAddress::LeftDACVolume
        } else {
            RegisterAddress::RightDACVolume
        };
        let update_immediate = true;
        proof {
            lemma2_to64();
            lemma_mask_is_low_bits(1);
            lemma_mask_is_low_bits(8);
        }
        let p_update = pack(if update_immediate { 1 } else { 0 }, 8, 9);
        let p_vol = pack(volume as u16, 0, 8);
        let data = p_update | p_vol;
        proof {
            assert(data == p_update + p_vol) by (bit_vector)
                requires
                    p_update == 256u16,
                    p_vol <= 255u16,
                    data == (p_update | p_vol),
            ;
        }
        match self.write_register(address, data) {
            Ok(()) => {
                self.state.dac_volume.set(channel, volume);
                Ok(())
            },
            Err(e) => Err(e),
        }
    }

    /// Sets or clears the digital soft mute of both DACs.
    ///
    /// On success the mirror records the new mute state; on failure the
    /// mirror and the link are left exactly as they were.
    pub fn set_dac_mute(&mut self, mute: bool) -> (r: Result<(), CodecError>)
        requires
            old(self).wf(),
        ensures
            final(self).wf(),
            r is Ok ==> final(self).frames_sent() == old(self).frames_sent().push(
                frame_bytes(RegisterAddress::ADCDACControl.spec_address(), adcdac_payload(mute)),
            ) && final(self).mirror() == (CodecState { mute, ..old(self).mirror() }),
            r is Err ==> r == Err::<(), CodecError>(CodecError::Transport(TransportFault)) && final(self).mirror() == old(self).mirror() && final(self).frames_sent() == old(
                self,
            ).frames_sent(),
    {
        let adc_attenuate = false;
        let dac_attenuate = false;
        let adchpd = false;
        let hpor = false;
        let adcpol: u16 = 0b00;
        let deemphasis: u16 = 0b00;
        proof {
            lemma2_to64();
            lemma_mask_is_low_bits(1);
            lemma_mask_is_low_bits(2);
        }
        let p_adc_att = pack(if adc_attenuate { 1 } else { 0 }, 8, 9);
        let p_dac_att = pack(if dac_attenuate { 1 } else { 0 }, 7, 8);
        let p_adcpol = pack(adcpol, 5, 7);
        let p_hpor = pack(if hpor { 1 } else { 0 }, 4, 5);
        let p_mute = pack(if mute { 1 } else { 0 }, 3, 4);
        let p_deemph = pack(deemphasis, 1, 3);
        let p_adchpd = pack(if adchpd { 1 } else { 0 }, 0, 1);
        let data = p_adc_att | p_dac_att | p_adcpol | p_hpor | p_mute | p_deemph | p_adchpd;
        proof {
            assert(data == p_mute) by (bit_vector)
                requires
                    p_adc_att == 0u16,
                    p_dac_att == 0u16,
                    p_adcpol == 0u16,
                    p_hpor == 0u16,
                    p_mute == 8u16 || p_mute == 0u16,
                    p_deemph == 0u16,
                    p_adchpd == 0u16,
                    data == (p_adc_att | p_dac_att | p_adcpol | p_hpor | p_mute | p_deemph
                        | p_adchpd),
            ;
            assert(data == adcdac_payload(mute));
        }
        match self.write_register(RegisterAddress::ADCDACControl, data) {
            Ok(()) => {
                self.state.mute = mute;
                Ok(())
            },
            Err(e) => Err(e),
        }
    }
}

/// The fixed I2S code of the audio interface's data format field.
const AUDIO_FORMAT_I2S: u16 = 0b10;

/// Builds the first power-management word from a configuration.
fn power1_word(config: PowerConfig) -> (w: u16)
    ensures
        w == power1_payload(config),
{
    let vmid_selection: u16 = 0b01;
    let vref = true;
    let master_clk_disabled = false;
    proof {
        lemma2_to64();
        lemma_mask_is_low_bits(1);
        lemma_mask_is_low_bits(2);
    }
    let p_vmid = pack(vmid_selection, 7, 9);
    let p_vref = pack(if vref { 1 } else { 0 }, 6, 7);
    let p_pga_l = pack(if config.pga_left { 1 } else { 0 }, 5, 6);
    let p_pga_r = pack(if config.pga_right { 1 } else { 0 }, 4, 5);
    let p_adc_l = pack(if config.adc_left { 1 } else { 0 }, 3, 4);
    let p_adc_r = pack(if config.adc_right { 1 } else { 0 }, 2, 3);
    let p_mclk = pack(if master_clk_disabled { 1 } else { 0 }, 0, 1);
    let data1 = p_vmid | p_vref | p_pga_l | p_pga_r | p_adc_l | p_adc_r | p_mclk;
    proof {
        assert(data1 == p_vmid + p_vref + p_pga_l + p_pga_r + p_adc_l + p_adc_r + p_mclk)
            by (bit_vector)
            requires
                p_vmid == 128u16,
                p_vref == 64u16,
                p_pga_l == 32u16 || p_pga_l == 0u16,
                p_pga_r == 16u16 || p_pga_r == 0u16,
                p_adc_l == 8u16 || p_adc_l == 0u16,
                p_adc_r == 4u16 || p_adc_r == 0u16,
                p_mclk == 0u16,
                data1 == (p_vmid | p_vref | p_pga_l | p_pga_r | p_adc_l | p_adc_r | p_mclk),
        ;
    }
    data1
}

/// Builds the second power-management word from a configuration.
fn power2_word(config: PowerConfig) -> (w: u16)
    ensures
        w == power2_payload(config),
{
    let lout2 = false;
    let rout2 = false;
    proof {
        lemma2_to64();
        lemma_mask_is_low_bits(1);
    }
    let p_dac_l = pack(if config.dac_left { 1 } else { 0 }, 8, 9);
    let p_dac_r = pack(if config.dac_right { 1 } else { 0 }, 7, 8);
    let p_out_l = pack(if config.left_out_1 { 1 } else { 0 }, 6, 7);
    let p_out_r = pack(if config.right_out_1 { 1 } else { 0 }, 5, 6);
    let p_lout2 = pack(if lout2 { 1 } else { 0 }, 4, 5);
    let p_rout2 = pack(if rout2 { 1 } else { 0 }, 3, 4);
    let data2 = p_dac_l | p_dac_r | p_out_l | p_out_r | p_lout2 | p_rout2;
    proof {
        assert(data2 == p_dac_l + p_dac_r + p_out_l + p_out_r) by (bit_vector)
            requires
                p_dac_l == 256u16 || p_dac_l == 0u16,
                p_dac_r == 128u16 || p_dac_r == 0u16,
                p_out_l == 64u16 || p_out_l == 0u16,
                p_out_r == 32u16 || p_out_r == 0u16,
                p_lout2 == 0u16,
                p_rout2 == 0u16,
                data2 == (p_dac_l | p_dac_r | p_out_l | p_out_r | p_lout2 | p_rout2),
        ;
    }
    data2
}

/// The frames of a complete reset sequence, in transmission order: the soft
/// reset first, then zero volumes, all power domains off, zero mixer levels,
/// a 16-bit I2S interface, zero DAC volumes, and mute cleared.
pub open spec fn reset_frames() -> Seq<(u8, u8)> {
    seq![
        frame_bytes(RegisterAddress::Reset.spec_address(), 0u16),
        frame_bytes(input_register(AudioChannel::Left).spec_address(), input_volume_payload(0)),
        frame_bytes(input_register(AudioChannel::Right).spec_address(), input_volume_payload(0)),
        frame_bytes(output_register(AudioChannel::Left).spec_address(), output_volume_payload(0)),
        frame_bytes(output_register(AudioChannel::Right).spec_address(), output_volume_payload(0)),
        frame_bytes(
            RegisterAddress::PowerManagement1.spec_address(),
            power1_payload(PowerConfig::all_off()),
        ),
        frame_bytes(
            RegisterAddress::PowerManagement2.spec_address(),
            power2_payload(PowerConfig::all_off()),
        ),
        frame_bytes(
            mix1_register(AudioChannel::Left).spec_address(),
            mix1_payload(AudioChannel::Left, 0),
        ),
        frame_bytes(
            mix2_register(AudioChannel::Left).spec_address(),
            mix2_payload(AudioChannel::Left, 0),
        ),
        frame_bytes(
            mix1_register(AudioChannel::Right).spec_address(),
            mix1_payload(AudioChannel::Right, 0),
        ),
        frame_bytes(
            mix2_register(AudioChannel::Right).spec_address(),
            mix2_payload(AudioChannel::Right, 0),
        ),
        frame_bytes(
            RegisterAddress::AudioInterface.spec_address(),
            interface_payload(AudioWordLength::Bit16),
        ),
        frame_bytes(dac_register(AudioChannel::Left).spec_address(), dac_volume_payload(0)),
        frame_bytes(dac_register(AudioChannel::Right).spec_address(), dac_volume_payload(0)),
        frame_bytes(RegisterAddress::ADCDACControl.spec_address(), adcdac_payload(false)),
    ]
}

/// The mirror after the first `n` frames of a reset sequence starting from
/// `prev` have been transmitted.  A value changes only once every frame of
/// the operation that carries it has been transmitted.
pub open spec fn reset_state_after(prev: CodecState, n: int) -> CodecState {
    CodecState {
        input_volume: ChannelPair {
            left: if n >= 2 {
                0u8
            } else {
                prev.input_volume.left
            },
            right: if n >= 3 {
                0u8
            } else {
                prev.input_volume.right
            },
        },
        output_volume: ChannelPair {
            left: if n >= 4 {
                0u8
            } else {
                prev.output_volume.left
            },
            right: if n >= 5 {
                0u8
            } else {
                prev.output_volume.right
            },
        },
        power_config: if n >= 7 {
            PowerConfig::all_off()
        } else {
            prev.power_config
        },
        mix: ChannelPair {
            left: if n >= 9 {
                ChannelPair { left: 0u8, right: 0u8 }
            } else {
                prev.mix.left
            },
            right: if n >= 11 {
                ChannelPair { left: 0u8, right: 0u8 }
            } else {
                prev.mix.right
            },
        },
        dac_volume: ChannelPair {
            left: if n >= 13 {
                0u8
            } else {
                prev.dac_volume.left
            },
            right: if n >= 14 {
                0u8
            } else {
                prev.dac_volume.right
            },
        },
        mute: if n >= 15 {
            false
        } else {
            prev.mute
        },
    }
}

impl<T: Transport> Codec<T> {
    /// Runs the fixed reset sequence: the soft reset frame first, then every
    /// parameter to its default, in the order of [`reset_frames`].
    ///
    /// Whatever the outcome, the frames transmitted are a prefix of the full
    /// sequence — in particular, if anything was transmitted at all, the
    /// soft reset frame came first — and the mirror reflects exactly the
    /// operations whose writes all succeeded.
    #[verifier::rlimit(100)]
    #[verifier::spinoff_prover]
    pub fn reset_codec(&mut self) -> (r: Result<(), CodecError>)
        requires
            old(self).wf(),
        ensures
            final(self).wf(),
            final(self).frames_sent().len() >= old(self).frames_sent().len(),
            final(self).frames_sent().len() <= old(self).frames_sent().len() + 15,
            final(self).frames_sent() == old(self).frames_sent() + reset_frames().take(
                final(self).frames_sent().len() - old(self).frames_sent().len(),
            ),
            final(self).frames_sent().len() > old(self).frames_sent().len() ==> final(self).frames_sent()[old(self).frames_sent().len() as int] == frame_bytes(
                RegisterAddress::Reset.spec_address(),
                0u16,
            ),
            r is Ok <==> final(self).frames_sent().len() == old(self).frames_sent().len() + 15,
            r matches Err(e) ==> e == CodecError::Transport(TransportFault),
            final(self).mirror() == reset_state_after(
                old(self).mirror(),
                final(self).frames_sent().len() - old(self).frames_sent().len(),
            ),
            r is Ok ==> final(self).mirror() == reset_mirror(),
    {
        let ghost pre = self.frames_sent();
        match self.write_register(RegisterAddress::Reset, 0) {
            Ok(()) => {},
            Err(e) => {
                proof {
                    assert(self.frames_sent() =~= pre + reset_frames().take(0));
                }
                return Err(e);
            },
        }
        proof {
            assert(self.frames_sent() =~= pre + reset_frames().take(1));
        }
        match self.set_input_volume(AudioChannel::Left, 0) {
            Ok(()) => {},
            Err(e) => {
                return Err(e);
            },
        }
        proof {
            assert(self.frames_sent() =~= pre + reset_frames().take(2));
        }
        match self.set_input_volume(AudioChannel::Right, 0) {
            Ok(()) => {},
            Err(e) => {
                return Err(e);
            },
        }
        proof {
            assert(self.frames_sent() =~= pre + reset_frames().take(3));
        }
        match self.set_output_volume(AudioChannel::Left, 0) {
            Ok(()) => {},
            Err(e) => {
                return Err(e);
            },
        }
        proof {
            assert(self.frames_sent() =~= pre + reset_frames().take(4));
        }
        match self.set_output_volume(AudioChannel::Right, 0) {
            Ok(()) => {},
            Err(e) => {
                return Err(e);
            },
        }
        proof {
            assert(self.frames_sent() =~= pre + reset_frames().take(5));
        }
        match self.set_power_management(PowerConfig::default()) {
            Ok(()) => {},
            Err(e) => {
                proof {
                    if self.frames_sent().len() == pre.len() + 6 {
                        assert(self.frames_sent() =~= pre + reset_frames().take(6));
                    } else {
                        assert(self.frames_sent() =~= pre + reset_frames().take(5));
                    }
                }
                return Err(e);
            },
        }
        proof {
            assert(self.frames_sent() =~= pre + reset_frames().take(7));
        }
        match self.set_mix(AudioChannel::Left, 0, 0) {
            Ok(()) => {},
            Err(e) => {
                proof {
                    if self.frames_sent().len() == pre.len() + 8 {
                        assert(self.frames_sent() =~= pre + reset_frames().take(8));
                    } else {
                        assert(self.frames_sent() =~= pre + reset_frames().take(7));
                    }
                }
                return Err(e);
            },
        }
        proof {
            assert(self.frames_sent() =~= pre + reset_frames().take(9));
        }
        match self.set_mix(AudioChannel::Right, 0, 0) {
            Ok(()) => {},
            Err(e) => {
                proof {
                    if self.frames_sent().len() == pre.len() + 10 {
                        assert(self.frames_sent() =~= pre + reset_frames().take(10));
                    } else {
                        assert(self.frames_sent() =~= pre + reset_frames().take(9));
                    }
                }
                return Err(e);
            },
        }
        proof {
            assert(self.frames_sent() =~= pre + reset_frames().take(11));
        }
        match self.set_digital_audio_interface(AudioWordLength::Bit16) {
            Ok(()) => {},
            Err(e) => {
                return Err(e);
            },
        }
        proof {
            assert(self.frames_sent() =~= pre + reset_frames().take(12));
        }
        match self.set_dac_volume(AudioChannel::Left, 0) {
            Ok(()) => {},
            Err(e) => {
                return Err(e);
            },
        }
        proof {
            assert(self.frames_sent() =~= pre + reset_frames().take(13));
        }
        match self.set_dac_volume(AudioChannel::Right, 0) {
            Ok(()) => {},
            Err(e) => {
                return Err(e);
            },
        }
        proof {
            assert(self.frames_sent() =~= pre + reset_frames().take(14));
        }
        match self.set_dac_mute(false) {
            Ok(()) => {},
            Err(e) => {
                return Err(e);
            },
        }
        proof {
            assert(self.frames_sent() =~= pre + reset_frames().take(15));
        }
        Ok(())
    }

    /// Builds a driver over `transport` and runs the full reset sequence;
    /// no driver is yielded unless every write of the sequence succeeded.
    pub fn new(transport: T) -> (r: Result<Codec<T>, CodecError>)
        ensures
            r matches Ok(c) ==> c.wf() && c.mirror() == reset_mirror() && c.frames_sent()
                == transport.log() + reset_frames(),
            r matches Err(e) ==> e == CodecError::Transport(TransportFault),
    {
        let state = CodecState {
            input_volume: ChannelPair::new(0, 0),
            output_volume: ChannelPair::new(0, 0),
            dac_volume: ChannelPair::new(0, 0),
            mix: ChannelPair::new(ChannelPair::new(0, 0), ChannelPair::new(0, 0)),
            power_config: PowerConfig::default(),
            mute: false,
        };
        let mut codec = Codec { transport, state };
        match codec.reset_codec() {
            Ok(()) => {
                proof {
                    assert(reset_frames().take(15) =~= reset_frames());
                }
                Ok(codec)
            },
            Err(e) => Err(e),
        }
    }

    /// Consumes the driver and releases its transport.
    pub fn free(self) -> (t: T)
        ensures
            t.log() == self.frames_sent(),
    {
        self.transport
    }
}

} // verus!
