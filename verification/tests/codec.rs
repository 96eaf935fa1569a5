use joybus::wire::{
    bits_to_byte, byte_to_bits, encode_bit, encode_bits, frame_bits, receive_frame, sample_bit,
    sample_bits, transmit_frame, BitSlot, LONG_PULSE_US, SAMPLE_DELAY_US, SHORT_PULSE_US, SLOT_US,
    STOP_BIT,
};

#[test]
fn pulse_widths_match_the_wire_contract() {
    let one = encode_bit(true);
    assert_eq!(one.low_us, SHORT_PULSE_US);
    assert_eq!(one.low_us + one.high_us, SLOT_US);

    let zero = encode_bit(false);
    assert_eq!(zero.low_us, LONG_PULSE_US);
    assert_eq!(zero.low_us + zero.high_us, SLOT_US);

    assert_eq!(SLOT_US, 4);
    assert_eq!(SHORT_PULSE_US, 1);
    assert_eq!(LONG_PULSE_US, 3);
    assert_eq!(SAMPLE_DELAY_US, 2);
}

#[test]
fn single_bit_round_trip() {
    assert_eq!(sample_bit(&encode_bit(true)), true);
    assert_eq!(sample_bit(&encode_bit(false)), false);
}

#[test]
fn sample_reads_line_after_settle_interval() {
    // Still low at the sample instant: a 0; back high: a 1.
    assert_eq!(sample_bit(&BitSlot { low_us: 3, high_us: 1 }), false);
    assert_eq!(sample_bit(&BitSlot { low_us: 1, high_us: 3 }), true);
}

#[test]
fn bit_sequence_round_trip() {
    let bits = vec![true, false, false, true, true, true, false, true, false];
    let slots = encode_bits(&bits);
    assert_eq!(slots.len(), bits.len());
    let recovered = sample_bits(&slots);
    assert_eq!(recovered, bits);
}

#[test]
fn byte_to_bits_is_msb_first() {
    let bits = byte_to_bits(0x41);
    assert_eq!(
        bits,
        vec![false, true, false, false, false, false, false, true]
    );
    let bits = byte_to_bits(0x80);
    assert_eq!(
        bits,
        vec![true, false, false, false, false, false, false, false]
    );
}

#[test]
fn byte_round_trip_over_sample_values() {
    for v in [0x00u8, 0x01, 0x40, 0x41, 0x7F, 0x80, 0xA5, 0xFF] {
        let bits = byte_to_bits(v);
        assert_eq!(bits.len(), 8);
        assert_eq!(bits_to_byte(&bits), v);
    }
}

#[test]
fn frame_bits_concatenates_bytes_in_order() {
    let bytes = vec![0x40u8, 0x03, 0x01];
    let bits = frame_bits(&bytes);
    assert_eq!(bits.len(), 24);
    assert_eq!(&bits[0..8], &byte_to_bits(0x40)[..]);
    assert_eq!(&bits[8..16], &byte_to_bits(0x03)[..]);
    assert_eq!(&bits[16..24], &byte_to_bits(0x01)[..]);
}

#[test]
fn transmitted_frame_ends_with_stop_bit() {
    let bytes = vec![0x41u8];
    let slots = transmit_frame(&bytes);
    assert_eq!(slots.len(), 9);
    let sampled = sample_bits(&slots);
    assert_eq!(sampled[8], STOP_BIT);
    assert_eq!(&sampled[0..8], &byte_to_bits(0x41)[..]);
}

#[test]
fn frame_round_trip_through_the_wire() {
    let bytes = vec![0x40u8, 0x03, 0x00, 0xA5, 0xFF, 0x00, 0x81, 0x7E];
    let slots = transmit_frame(&bytes);
    assert_eq!(slots.len(), 8 * bytes.len() + 1);
    let sampled = sample_bits(&slots);
    let recovered = receive_frame(&sampled, bytes.len());
    assert_eq!(recovered, bytes);
}
