use stereo_codec::{
    AudioChannel, AudioWordLength, ChannelPair, Codec, CodecError, FailingTransport, PowerConfig,
    RecordingTransport, TransportFault, MAX_INPUT_VOLUME, MAX_MIX_VOLUME, MAX_OUTPUT_VOLUME,
};

/// The 15 frames of the reset sequence, as `(high, low)` byte pairs.
const RESET_FRAMES: [(u8, u8); 15] = [
    (0x1e, 0x00), // Reset <- 0
    (0x01, 0x80), // LeftInputVolume <- update | mute | volume 0
    (0x03, 0x80), // RightInputVolume
    (0x05, 0x00), // LeftOutput1Volume <- update | volume 0
    (0x07, 0x00), // RightOutput1Volume
    (0x32, 0xc0), // PowerManagement1 <- vmid 0b01 | vref, all domains off
    (0x34, 0x00), // PowerManagement2 <- all domains off
    (0x45, 0x73), // LeftOutMix1 <- left dac | attenuation 7 | mic boost
    (0x46, 0x70), // LeftOutMix2 <- attenuation 7
    (0x48, 0x73), // RightOutMix1
    (0x4b, 0x70), // RightOutMix2 <- right dac | attenuation 7
    (0x0e, 0x02), // AudioInterface <- 16-bit word length, I2S
    (0x15, 0x00), // LeftDACVolume <- update | volume 0
    (0x17, 0x00), // RightDACVolume
    (0x0a, 0x00), // ADCDACControl <- mute off
];

fn fresh_codec() -> Codec<RecordingTransport> {
    Codec::new(RecordingTransport::new()).unwrap()
}

#[test]
fn construction_transmits_the_reset_sequence() {
    let codec = fresh_codec();
    let transport = codec.free();
    assert_eq!(transport.frames, RESET_FRAMES.to_vec());
}

#[test]
fn construction_issues_the_reset_frame_first() {
    let codec = fresh_codec();
    let transport = codec.free();
    assert_eq!(transport.frames[0], (0x1e, 0x00));
}

#[test]
fn construction_fails_when_a_write_fails() {
    assert_eq!(
        Codec::new(FailingTransport::new(0)).err(),
        Some(CodecError::Transport(TransportFault))
    );
    assert_eq!(
        Codec::new(FailingTransport::new(3)).err(),
        Some(CodecError::Transport(TransportFault))
    );
    assert_eq!(
        Codec::new(FailingTransport::new(14)).err(),
        Some(CodecError::Transport(TransportFault))
    );
}

#[test]
fn reset_issues_the_reset_frame_first_despite_later_failures() {
    // Construction (15 writes) succeeds; a renewed reset gets five more
    // writes through before the transport fails.
    let mut codec = Codec::new(FailingTransport::new(20)).unwrap();
    assert_eq!(
        codec.reset_codec(),
        Err(CodecError::Transport(TransportFault))
    );
    let transport = codec.free();
    assert_eq!(transport.frames.len(), 20);
    assert_eq!(transport.frames[15], (0x1e, 0x00));
    assert_eq!(transport.frames[16..20], RESET_FRAMES[1..5]);
}

#[test]
fn construction_zeroes_the_mirror() {
    let codec = fresh_codec();
    assert_eq!(codec.get_input_volume(AudioChannel::Left), 0);
    assert_eq!(codec.get_input_volume(AudioChannel::Right), 0);
    assert_eq!(codec.get_output_volume(AudioChannel::Left), 0);
    assert_eq!(codec.get_output_volume(AudioChannel::Right), 0);
    assert_eq!(codec.get_dac_volume(AudioChannel::Left), 0);
    assert_eq!(codec.get_dac_volume(AudioChannel::Right), 0);
    assert_eq!(codec.get_mix(AudioChannel::Left), ChannelPair::new(0, 0));
    assert_eq!(codec.get_mix(AudioChannel::Right), ChannelPair::new(0, 0));
    assert_eq!(codec.get_power_config(), PowerConfig::default());
}

#[test]
fn set_input_volume_zero_frame() {
    let mut codec = fresh_codec();
    codec.set_input_volume(AudioChannel::Left, 0).unwrap();
    assert_eq!(codec.get_input_volume(AudioChannel::Left), 0);
    let transport = codec.free();
    // Payload 0b1_1_0_000000 (update | mute) at address 0x00.
    assert_eq!(transport.frames[15], (0x01, 0x80));
}

#[test]
fn set_input_volume_updates_one_slot_of_the_mirror() {
    let mut codec = fresh_codec();
    codec.set_input_volume(AudioChannel::Right, 63).unwrap();
    assert_eq!(codec.get_input_volume(AudioChannel::Right), 63);
    assert_eq!(codec.get_input_volume(AudioChannel::Left), 0);
    let transport = codec.free();
    // Payload 0b1_0_0_111111 at address 0x01: frame 0x033F.
    assert_eq!(transport.frames[15], (0x03, 0x3f));
}

#[test]
fn set_input_volume_rejects_out_of_range_values() {
    let mut codec = fresh_codec();
    codec.set_input_volume(AudioChannel::Left, 21).unwrap();
    assert_eq!(
        codec.set_input_volume(AudioChannel::Left, MAX_INPUT_VOLUME + 1),
        Err(CodecError::ValueOutOfRange)
    );
    // The mirror keeps the prior value and nothing was transmitted.
    assert_eq!(codec.get_input_volume(AudioChannel::Left), 21);
    assert_eq!(codec.free().frames.len(), 16);
}

#[test]
fn set_output_volume_full_scale_frame() {
    let mut codec = fresh_codec();
    codec
        .set_output_volume(AudioChannel::Right, MAX_OUTPUT_VOLUME)
        .unwrap();
    assert_eq!(codec.get_output_volume(AudioChannel::Right), 127);
    let transport = codec.free();
    // Payload 0b1_01111111 at address 0x03: frame 0x077F.
    assert_eq!(transport.frames[15], (0x07, 0x7f));
}

#[test]
fn set_output_volume_rejects_out_of_range_values() {
    let mut codec = fresh_codec();
    assert_eq!(
        codec.set_output_volume(AudioChannel::Left, MAX_OUTPUT_VOLUME + 1),
        Err(CodecError::ValueOutOfRange)
    );
    assert_eq!(codec.get_output_volume(AudioChannel::Left), 0);
    assert_eq!(codec.free().frames.len(), 15);
}

#[test]
fn set_mix_left_frames() {
    let mut codec = fresh_codec();
    codec.set_mix(AudioChannel::Left, 7, 0).unwrap();
    assert_eq!(codec.get_mix(AudioChannel::Left), ChannelPair::new(7, 0));
    let transport = codec.free();
    // Word 1 at 0x22: left dac | enabled | attenuation 0 | mic boost
    // = 0x183; word 2 at 0x23: disabled, attenuation 7 = 0x70.
    assert_eq!(transport.frames[15], (0x45, 0x83));
    assert_eq!(transport.frames[16], (0x46, 0x70));
}

#[test]
fn set_mix_right_frames() {
    let mut codec = fresh_codec();
    codec.set_mix(AudioChannel::Right, 0, 7).unwrap();
    assert_eq!(codec.get_mix(AudioChannel::Right), ChannelPair::new(0, 7));
    let transport = codec.free();
    // Word 1 at 0x24: disabled, attenuation 7, mic boost = 0x73;
    // word 2 at 0x25: right dac | enabled | attenuation 0 = 0x180.
    assert_eq!(transport.frames[15], (0x48, 0x73));
    assert_eq!(transport.frames[16], (0x4b, 0x80));
}

#[test]
fn set_mix_rejects_out_of_range_levels() {
    let mut codec = fresh_codec();
    assert_eq!(
        codec.set_mix(AudioChannel::Left, MAX_MIX_VOLUME + 1, 0),
        Err(CodecError::ValueOutOfRange)
    );
    assert_eq!(
        codec.set_mix(AudioChannel::Left, 0, MAX_MIX_VOLUME + 1),
        Err(CodecError::ValueOutOfRange)
    );
    assert_eq!(codec.get_mix(AudioChannel::Left), ChannelPair::new(0, 0));
    assert_eq!(codec.free().frames.len(), 15);
}

#[test]
fn set_power_management_transmits_two_frames() {
    let mut codec = fresh_codec();
    let config = PowerConfig {
        adc_left: false,
        adc_right: false,
        dac_left: true,
        dac_right: true,
        left_out_1: true,
        right_out_1: true,
        pga_left: true,
        pga_right: true,
    };
    codec.set_power_management(config).unwrap();
    assert_eq!(codec.get_power_config(), config);
    let transport = codec.free();
    // Word A: vmid | vref | pga left | pga right = 0xF0 at 0x19;
    // word B: dac left | dac right | out left | out right = 0x1E0 at 0x1A.
    assert_eq!(transport.frames[15], (0x32, 0xf0));
    assert_eq!(transport.frames[16], (0x35, 0xe0));
}

#[test]
fn power_mirror_unchanged_when_second_write_fails() {
    // Construction takes 15 writes; the 16th (power word A) succeeds and
    // the 17th (power word B) fails.
    let mut codec = Codec::new(FailingTransport::new(16)).unwrap();
    let before = codec.get_power_config();
    let config = PowerConfig {
        adc_left: true,
        adc_right: true,
        dac_left: true,
        dac_right: true,
        left_out_1: true,
        right_out_1: true,
        pga_left: true,
        pga_right: true,
    };
    assert_eq!(
        codec.set_power_management(config),
        Err(CodecError::Transport(TransportFault))
    );
    // One hardware write went through, yet the mirror still reports the
    // configuration from before the call.
    assert_eq!(codec.get_power_config(), before);
    let transport = codec.free();
    assert_eq!(transport.frames.len(), 16);
    // Word A carried the new enables: vmid | vref | pga | adc = 0xFC.
    assert_eq!(transport.frames[15], (0x32, 0xfc));
}

#[test]
fn set_digital_audio_interface_frames() {
    let mut codec = fresh_codec();
    codec
        .set_digital_audio_interface(AudioWordLength::Bit32)
        .unwrap();
    let transport = codec.free();
    // Word length code 0b11 and I2S format 0b10: payload 0x0E at 0x07.
    assert_eq!(transport.frames[15], (0x0e, 0x0e));
}

#[test]
fn set_dac_volume_frame_and_mirror() {
    let mut codec = fresh_codec();
    codec.set_dac_volume(AudioChannel::Left, 255).unwrap();
    assert_eq!(codec.get_dac_volume(AudioChannel::Left), 255);
    assert_eq!(codec.get_dac_volume(AudioChannel::Right), 0);
    let transport = codec.free();
    // Payload 0b1_11111111 at address 0x0A: frame 0x15FF.
    assert_eq!(transport.frames[15], (0x15, 0xff));
}

#[test]
fn set_dac_mute_frames() {
    let mut codec = fresh_codec();
    codec.set_dac_mute(true).unwrap();
    codec.set_dac_mute(false).unwrap();
    let transport = codec.free();
    // Mute is bit 3 of the ADC/DAC control payload at address 0x05.
    assert_eq!(transport.frames[15], (0x0a, 0x08));
    assert_eq!(transport.frames[16], (0x0a, 0x00));
}

#[test]
fn transport_failure_leaves_mirror_and_log_unchanged() {
    let mut codec = Codec::new(FailingTransport::new(15)).unwrap();
    codec.set_input_volume(AudioChannel::Left, 5).unwrap_err();
    codec.set_output_volume(AudioChannel::Right, 9).unwrap_err();
    codec.set_dac_volume(AudioChannel::Right, 4).unwrap_err();
    codec.set_mix(AudioChannel::Right, 1, 2).unwrap_err();
    codec.set_dac_mute(true).unwrap_err();
    assert_eq!(codec.get_input_volume(AudioChannel::Left), 0);
    assert_eq!(codec.get_output_volume(AudioChannel::Right), 0);
    assert_eq!(codec.get_dac_volume(AudioChannel::Right), 0);
    assert_eq!(codec.get_mix(AudioChannel::Right), ChannelPair::new(0, 0));
    assert_eq!(codec.free().frames.len(), 15);
}

#[test]
fn channel_pair_get_and_set() {
    let mut pair = ChannelPair::new(1u8, 2u8);
    assert_eq!(pair.get(AudioChannel::Left), 1);
    assert_eq!(pair.get(AudioChannel::Right), 2);
    pair.set(AudioChannel::Left, 9);
    assert_eq!(pair.get(AudioChannel::Left), 9);
    assert_eq!(pair.get(AudioChannel::Right), 2);
    pair.set(AudioChannel::Right, 7);
    assert_eq!(pair.get(AudioChannel::Right), 7);
}
