use stereo_codec::{mask, pack, try_pack, CodecError};

#[test]
fn mask_zero_width_is_empty() {
    assert_eq!(mask(0), 0);
}

#[test]
fn mask_low_bits_set() {
    assert_eq!(mask(1), 0b1);
    assert_eq!(mask(3), 0b111);
    assert_eq!(mask(6), 63);
    assert_eq!(mask(7), 127);
    assert_eq!(mask(8), 255);
    assert_eq!(mask(9), 511);
    assert_eq!(mask(15), 0x7fff);
}

#[test]
fn mask_saturates_at_sixteen_bits() {
    assert_eq!(mask(16), 0xffff);
    assert_eq!(mask(17), 0xffff);
    assert_eq!(mask(255), 0xffff);
}

#[test]
fn pack_shifts_value_into_range() {
    assert_eq!(pack(1, 8, 9), 0x100);
    assert_eq!(pack(5, 3, 9), 5 << 3);
    assert_eq!(pack(0x43, 9, 16), 0x43 << 9);
    assert_eq!(pack(0, 0, 16), 0);
}

#[test]
fn pack_round_trips_within_width() {
    for value in 0u16..=63 {
        assert_eq!((pack(value, 3, 9) >> 3) & mask(6), value);
    }
    assert_eq!((pack(0x1ff, 0, 9) >> 0) & mask(9), 0x1ff);
    assert_eq!((pack(127, 9, 16) >> 9) & mask(7), 127);
}

#[test]
fn try_pack_accepts_values_within_width() {
    assert_eq!(try_pack(63, 0, 6), Ok(63));
    assert_eq!(try_pack(0x1ff, 0, 9), Ok(0x1ff));
    assert_eq!(try_pack(1, 8, 9), Ok(0x100));
    assert_eq!(try_pack(0xffff, 0, 16), Ok(0xffff));
}

#[test]
fn try_pack_rejects_values_beyond_width() {
    // A 6-bit field holds at most 63.
    assert_eq!(try_pack(64, 0, 6), Err(CodecError::ValueOutOfRange));
    assert_eq!(try_pack(2, 8, 9), Err(CodecError::ValueOutOfRange));
    assert_eq!(try_pack(512, 0, 9), Err(CodecError::ValueOutOfRange));
    assert_eq!(try_pack(1, 16, 16), Err(CodecError::ValueOutOfRange));
}
