//! Waveform codec: the bit-level timing model of the controller bus.
//!
//! One logical bit occupies one fixed-duration slot on the open-drain line.
//! Every slot begins with a falling edge and holds the line low for one of
//! two pulse widths: a long pulse for a logical 0, a short pulse for a
//! logical 1; the low and high parts always sum to the same slot duration.
//! The receiver detects the falling edge, waits a fixed settle interval and
//! samples the line level once: still low means 0, back high means 1. A
//! stop bit, shaped like a logical 1, terminates each transmitted frame.

use vstd::prelude::*;

verus! {

/// Total duration of one bit slot, in microseconds.
pub const SLOT_US: u64 = 4;
/// Low-pulse width of a logical 1 (the short assert).
pub const SHORT_PULSE_US: u64 = 1;
/// Low-pulse width of a logical 0 (the long assert).
pub const LONG_PULSE_US: u64 = 3;
/// Settle interval between the falling edge and the receiver's sample.
pub const SAMPLE_DELAY_US: u64 = 2;
/// The stop bit that delimits a transmitted frame is shaped like a 1.
pub const STOP_BIT: bool = true;

/// One bit slot as it appears on the wire: how long the line is held low
/// from the falling edge, then how long it rests high until the slot ends.
#[derive(Debug, Clone, Copy, PartialEq, Eq, Structural)]
pub struct BitSlot {
    pub low_us: u64,
    pub high_us: u64,
}

impl BitSlot {
    /// A well-formed slot uses one of the two documented pulse widths and
    /// has the fixed total duration, whichever value it carries.
    pub open spec fn valid(self) -> bool {
        &&& self.low_us + self.high_us == SLOT_US
        &&& (self.low_us == SHORT_PULSE_US || self.low_us == LONG_PULSE_US)
    }
}

/// The slot that transmits a given bit.
pub open spec fn spec_encode_bit(bit: bool) -> BitSlot {
    if bit {
        BitSlot { low_us: SHORT_PULSE_US, high_us: (SLOT_US - SHORT_PULSE_US) as u64 }
    } else {
        BitSlot { low_us: LONG_PULSE_US, high_us: (SLOT_US - LONG_PULSE_US) as u64 }
    }
}

/// Line level `t` microseconds after the falling edge that begins a slot:
/// false while the line is still held low, true once it has returned high.
pub open spec fn spec_line_high(slot: BitSlot, t: u64) -> bool {
    t >= slot.low_us
}

/// The bit a receiver recovers from a slot: the line level sampled one
/// settle interval after the falling edge.
pub open spec fn spec_sample(slot: BitSlot) -> bool {
    spec_line_high(slot, SAMPLE_DELAY_US)
}

/// Encode one bit as the pulse pair that transmits it.
pub fn encode_bit(bit: bool) -> (slot: BitSlot)
    ensures
        slot == spec_encode_bit(bit),
        slot.valid(),
{
    if bit {
        BitSlot { low_us: SHORT_PULSE_US, high_us: SLOT_US - SHORT_PULSE_US }
    } else {
        BitSlot { low_us: LONG_PULSE_US, high_us: SLOT_US - LONG_PULSE_US }
    }
}

/// Sample one slot as the receiver does: wait the settle interval from the
/// falling edge, then read the line once.
pub fn sample_bit(slot: &BitSlot) -> (bit: bool)
    ensures
        bit == spec_sample(*slot),
{
    SAMPLE_DELAY_US >= slot.low_us
}

/// Sampling at the settle interval recovers exactly the bit that was
/// encoded: the codec round-trips every bit value.
pub proof fn lemma_bit_round_trip(bit: bool)
    ensures
        spec_sample(spec_encode_bit(bit)) == bit,
{
}

/// The slots that transmit a bit sequence, in order.
pub open spec fn spec_encode_bits(bits: Seq<bool>) -> Seq<BitSlot> {
    bits.map_values(|b: bool| spec_encode_bit(b))
}

/// The bits a receiver recovers from a slot sequence, in order.
pub open spec fn spec_sample_bits(slots: Seq<BitSlot>) -> Seq<bool> {
    slots.map_values(|s: BitSlot| spec_sample(s))
}

/// Encode a bit sequence into the slot sequence that transmits it.
pub fn encode_bits(bits: &Vec<bool>) -> (slots: Vec<BitSlot>)
    ensures
        slots@ == spec_encode_bits(bits@),
        forall|i: int| 0 <= i < slots@.len() ==> (#[trigger] slots@[i]).valid(),
{
    let mut slots: Vec<BitSlot> = Vec::new();
    let mut i: usize = 0;
    while i < bits.len()
        invariant
            i <= bits@.len(),
            slots@.len() == i,
            forall|j: int| 0 <= j < i ==> slots@[j] == spec_encode_bit(bits@[j]),
            forall|j: int| 0 <= j < i ==> (#[trigger] slots@[j]).valid(),
        decreases bits@.len() - i,
    {
        slots.push(encode_bit(bits[i]));
        i = i + 1;
    }
    proof {
        assert(slots@ =~= spec_encode_bits(bits@));
    }
    slots
}

/// Sample a slot sequence back into the bit sequence it carries.
pub fn sample_bits(slots: &Vec<BitSlot>) -> (bits: Vec<bool>)
    ensures
        bits@ == spec_sample_bits(slots@),
{
    let mut bits: Vec<bool> = Vec::new();
    let mut i: usize = 0;
    while i < slots.len()
        invariant
            i <= slots@.len(),
            bits@.len() == i,
            forall|j: int| 0 <= j < i ==> bits@[j] == spec_sample(slots@[j]),
        decreases slots@.len() - i,
    {
        bits.push(sample_bit(&slots[i]));
        i = i + 1;
    }
    proof {
        assert(bits@ =~= spec_sample_bits(slots@));
    }
    bits
}

/// A receiver that samples each slot at the settle interval recovers the
/// original bit sequence exactly, whatever it was.
pub proof fn lemma_bits_round_trip(bits: Seq<bool>)
    ensures
        spec_sample_bits(spec_encode_bits(bits)) == bits,
{
    assert(spec_sample_bits(spec_encode_bits(bits)) =~= bits);
}

/// Bit `i` of a byte as it goes onto the wire, most significant first.
pub open spec fn spec_bit_of_byte(v: u8, i: int) -> bool {
    (v >> ((7 - i) as u8)) & 1 == 1
}

/// The eight wire bits of one byte, most significant first.
pub open spec fn spec_bits_of_byte(v: u8) -> Seq<bool> {
    Seq::new(8, |i: int| spec_bit_of_byte(v, i))
}

/// The byte assembled from eight wire bits, most significant first.
pub open spec fn spec_byte_of_bits(bits: Seq<bool>) -> u8
    recommends
        bits.len() == 8,
{
    ((if bits[0] { 128u8 } else { 0u8 }) + (if bits[1] { 64u8 } else { 0u8 })
        + (if bits[2] { 32u8 } else { 0u8 }) + (if bits[3] { 16u8 } else { 0u8 })
        + (if bits[4] { 8u8 } else { 0u8 }) + (if bits[5] { 4u8 } else { 0u8 })
        + (if bits[6] { 2u8 } else { 0u8 }) + (if bits[7] { 1u8 } else { 0u8 })) as u8
}

/// Split a byte into the eight bits that transmit it, most significant
/// first, as the codec's left-shifting output register does.
pub fn byte_to_bits(v: u8) -> (bits: Vec<bool>)
    ensures
        bits@ == spec_bits_of_byte(v),
{
    let mut bits: Vec<bool> = Vec::new();
    let mut i: usize = 0;
    while i < 8
        invariant
            i <= 8,
            bits@.len() == i,
            forall|j: int| 0 <= j < i ==> bits@[j] == spec_bit_of_byte(v, j),
        decreases 8 - i,
    {
        bits.push((v >> ((7 - i) as u8)) & 1 == 1);
        i = i + 1;
    }
    proof {
        assert(bits@ =~= spec_bits_of_byte(v));
    }
    bits
}

/// Assemble eight received bits into a byte, most significant first, as
/// the codec's left-shifting input register does.
pub fn bits_to_byte(bits: &Vec<bool>) -> (v: u8)
    requires
        bits@.len() == 8,
    ensures
        v == spec_byte_of_bits(bits@),
{
    (if bits[0] { 128u8 } else { 0u8 }) + (if bits[1] { 64u8 } else { 0u8 })
        + (if bits[2] { 32u8 } else { 0u8 }) + (if bits[3] { 16u8 } else { 0u8 })
        + (if bits[4] { 8u8 } else { 0u8 }) + (if bits[5] { 4u8 } else { 0u8 })
        + (if bits[6] { 2u8 } else { 0u8 }) + (if bits[7] { 1u8 } else { 0u8 })
}

/// The wire bits of a whole frame: each byte's eight bits in order, most
/// significant first, bytes in frame order. The stop bit is not part of
/// this sequence; the transmitter appends it separately.
pub open spec fn spec_frame_bits(bytes: Seq<u8>) -> Seq<bool>
    decreases bytes.len(),
{
    if bytes.len() == 0 {
        Seq::empty()
    } else {
        spec_frame_bits(bytes.drop_last()) + spec_bits_of_byte(bytes.last())
    }
}

/// A frame of `n` bytes occupies exactly `8 n` bit slots on the wire.
pub proof fn lemma_frame_bits_len(bytes: Seq<u8>)
    ensures
        spec_frame_bits(bytes).len() == 8 * bytes.len(),
    decreases bytes.len(),
{
    if bytes.len() > 0 {
        lemma_frame_bits_len(bytes.drop_last());
    }
}

/// The eight frame bits starting at position `8 i` are exactly the bits of
/// byte `i`.
pub proof fn lemma_frame_bits_chunk(bytes: Seq<u8>, i: int)
    requires
        0 <= i < bytes.len(),
    ensures
        spec_frame_bits(bytes).subrange(8 * i, 8 * i + 8) == spec_bits_of_byte(bytes[i]),
    decreases bytes.len(),
{
    lemma_frame_bits_len(bytes);
    lemma_frame_bits_len(bytes.drop_last());
    if i == bytes.len() - 1 {
        assert(spec_frame_bits(bytes).subrange(8 * i, 8 * i + 8) =~= spec_bits_of_byte(bytes[i]));
    } else {
        lemma_frame_bits_chunk(bytes.drop_last(), i);
        assert(spec_frame_bits(bytes).subrange(8 * i, 8 * i + 8) =~= spec_frame_bits(
            bytes.drop_last(),
        ).subrange(8 * i, 8 * i + 8));
    }
}

/// Serialize a frame of bytes into its wire bits, in order.
pub fn frame_bits(bytes: &Vec<u8>) -> (bits: Vec<bool>)
    ensures
        bits@ == spec_frame_bits(bytes@),
{
    let mut bits: Vec<bool> = Vec::new();
    let mut i: usize = 0;
    while i < bytes.len()
        invariant
            i <= bytes@.len(),
            bits@ == spec_frame_bits(bytes@.take(i as int)),
        decreases bytes@.len() - i,
    {
        let mut byte_bits = byte_to_bits(bytes[i]);
        bits.append(&mut byte_bits);
        proof {
            assert(bytes@.take(i + 1).drop_last() =~= bytes@.take(i as int));
            assert(bytes@.take(i + 1).last() == bytes@[i as int]);
        }
        i = i + 1;
    }
    proof {
        assert(bytes@.take(bytes@.len() as int) =~= bytes@);
    }
    bits
}

/// Encode a whole frame for transmission: every byte's bits as slots, then
/// the terminating stop bit that delimits the frame.
pub fn transmit_frame(bytes: &Vec<u8>) -> (slots: Vec<BitSlot>)
    ensures
        slots@ == spec_encode_bits(spec_frame_bits(bytes@).push(STOP_BIT)),
{
    let mut bits = frame_bits(bytes);
    bits.push(STOP_BIT);
    encode_bits(&bits)
}

/// Reassemble `nbytes` bytes from received wire bits, eight bits per byte,
/// most significant first.
pub fn receive_frame(bits: &Vec<bool>, nbytes: usize) -> (bytes: Vec<u8>)
    requires
        bits@.len() >= 8 * nbytes,
    ensures
        bytes@.len() == nbytes,
        forall|i: int|
            0 <= i < nbytes ==> #[trigger] bytes@[i] == spec_byte_of_bits(
                bits@.subrange(8 * i, 8 * i + 8),
            ),
{
    let total: usize = bits.len();
    let mut bytes: Vec<u8> = Vec::new();
    let mut i: usize = 0;
    while i < nbytes
        invariant
            total == bits@.len(),
            bits@.len() >= 8 * nbytes,
            i <= nbytes,
            bytes@.len() == i,
            forall|j: int|
                0 <= j < i ==> #[trigger] bytes@[j] == spec_byte_of_bits(
                    bits@.subrange(8 * j, 8 * j + 8),
                ),
        decreases nbytes - i,
    {
        let mut chunk: Vec<bool> = Vec::new();
        let mut j: usize = 0;
        while j < 8
            invariant
                total == bits@.len(),
                bits@.len() >= 8 * nbytes,
                i < nbytes,
                j <= 8,
                chunk@.len() == j,
                forall|k: int| 0 <= k < j ==> chunk@[k] == bits@[8 * i + k],
            decreases 8 - j,
        {
            chunk.push(bits[8 * i + j]);
            j = j + 1;
        }
        proof {
            assert(chunk@ =~= bits@.subrange(8 * i, 8 * i + 8));
        }
        bytes.push(bits_to_byte(&chunk));
        i = i + 1;
    }
    bytes
}

/// The codec round-trips whole frames: transmit any byte frame, sample
/// every slot at the settle interval, and the first `8 n` recovered bits
/// reassemble into exactly the original bytes; the stop bit follows them.
pub proof fn lemma_frame_round_trip(bytes: Seq<u8>)
    ensures
        spec_sample_bits(spec_encode_bits(spec_frame_bits(bytes).push(STOP_BIT)))
            == spec_frame_bits(bytes).push(STOP_BIT),
        spec_frame_bits(bytes).len() == 8 * bytes.len(),
        forall|i: int|
            0 <= i < bytes.len() ==> spec_byte_of_bits(
                spec_frame_bits(bytes).push(STOP_BIT).subrange(8 * i, 8 * i + 8),
            ) == bytes[i],
{
    lemma_bits_round_trip(spec_frame_bits(bytes).push(STOP_BIT));
    lemma_frame_bits_len(bytes);
    assert forall|i: int| 0 <= i < bytes.len() implies spec_byte_of_bits(
        spec_frame_bits(bytes).push(STOP_BIT).subrange(8 * i, 8 * i + 8),
    ) == bytes[i] by {
        lemma_frame_bits_chunk(bytes, i);
        assert(spec_frame_bits(bytes).push(STOP_BIT).subrange(8 * i, 8 * i + 8)
            =~= spec_frame_bits(bytes).subrange(8 * i, 8 * i + 8));
        lemma_byte_round_trip(bytes[i]);
    }
}

/// Splitting a byte into wire bits and reassembling them gives the byte
/// back: the byte layer of the codec round-trips too.
pub proof fn lemma_byte_round_trip(v: u8)
    ensures
        spec_byte_of_bits(spec_bits_of_byte(v)) == v,
{
    assert(((if ((v >> 7u8) & 1 == 1) { 128u8 } else { 0u8 }) + (if ((v >> 6u8) & 1 == 1) {
        64u8
    } else {
        0u8
    }) + (if ((v >> 5u8) & 1 == 1) { 32u8 } else { 0u8 }) + (if ((v >> 4u8) & 1 == 1) {
        16u8
    } else {
        0u8
    }) + (if ((v >> 3u8) & 1 == 1) { 8u8 } else { 0u8 }) + (if ((v >> 2u8) & 1 == 1) {
        4u8
    } else {
        0u8
    }) + (if ((v >> 1u8) & 1 == 1) { 2u8 } else { 0u8 }) + (if ((v >> 0u8) & 1 == 1) {
        1u8
    } else {
        0u8
    })) as u8 == v) by (bit_vector);
}

} // verus!
