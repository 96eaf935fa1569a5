//! Transfer orchestrator: framing, response assembly and bus spacing.
//!
//! One transfer declares how many response bytes it expects, streams the
//! request bytes, then collects response bytes with a bounded per-byte
//! wait. The first wait that times out ends collection: the bytes received
//! so far stay intact and every later byte is zero. After each transfer the
//! bus must rest idle for a spacing interval derived from the exchange
//! length before the next transfer may start.

use vstd::prelude::*;

verus! {

/// Longest response a transfer can expect; the expected length travels in
/// a 5-bit field as `length - 1`.
pub const MAX_RESPONSE_LEN: usize = 32;
/// How long the orchestrator waits for each response byte, in microseconds.
pub const RESPONSE_TIMEOUT_US: u64 = 600;
/// Fixed part of the inter-transfer idle spacing, in microseconds.
pub const IDLE_BASE_US: u64 = 450;
/// Per-byte part of the inter-transfer idle spacing, in microseconds.
pub const IDLE_PER_BYTE_US: u64 = 4;

/// The control word that opens a transfer: the expected response length,
/// less one, in the top 5 bits of a 32-bit word, so that the peripheral
/// learns how many bytes to send back.
pub fn control_word(response_len: usize) -> (w: u32)
    requires
        1 <= response_len <= MAX_RESPONSE_LEN,
    ensures
        w == ((response_len - 1) as u32) << 24u32,
{
    let k: usize = response_len - 1;
    proof {
        assert(k & 0x1F == k) by (bit_vector)
            requires
                k < 32,
        ;
    }
    ((k & 0x1F) as u32) << 24u32
}

/// One request byte left-aligned into the 32-bit word the codec's
/// left-shifting output register consumes.
pub fn request_word(byte: u8) -> (w: u32)
    ensures
        w == (byte as u32) << 24u32,
{
    (byte as u32) << 24u32
}

/// True when every wait up to and including slot `i` delivered a byte:
/// collection is still running when slot `i` is filled.
pub open spec fn all_arrived_through(events: Seq<Option<u8>>, i: int) -> bool {
    forall|j: int| 0 <= j <= i ==> (#[trigger] events[j]) is Some
}

/// The byte a wait outcome delivered, zero for a timeout.
pub open spec fn spec_event_byte(event: Option<u8>) -> u8 {
    match event {
        Some(b) => b,
        None => 0,
    }
}

/// Assemble the response buffer from the per-slot wait outcomes: each slot
/// either delivered a byte within its timeout (`Some`) or timed out
/// (`None`). Collection stops at the first timeout; the bytes already
/// received stay intact and every remaining slot is zero.
pub fn collect_response(events: &Vec<Option<u8>>) -> (resp: Vec<u8>)
    ensures
        resp@.len() == events@.len(),
        forall|i: int|
            0 <= i < events@.len() && all_arrived_through(events@, i) ==> resp@[i]
                == spec_event_byte(#[trigger] events@[i]),
        forall|i: int|
            0 <= i < events@.len() && !all_arrived_through(events@, i) ==> #[trigger] resp@[i]
                == 0,
{
    let n = events.len();
    let mut resp: Vec<u8> = Vec::new();
    let mut timed_out: bool = false;
    let mut i: usize = 0;
    while i < n
        invariant
            n == events@.len(),
            i <= n,
            resp@.len() == i,
            timed_out == !(forall|j: int| 0 <= j < i ==> (#[trigger] events@[j]) is Some),
            forall|j: int|
                0 <= j < i && all_arrived_through(events@, j) ==> resp@[j] == spec_event_byte(
                    #[trigger] events@[j],
                ),
            forall|j: int|
                0 <= j < i && !all_arrived_through(events@, j) ==> #[trigger] resp@[j] == 0,
        decreases n - i,
    {
        if timed_out {
            resp.push(0);
        } else {
            match events[i] {
                Some(b) => {
                    resp.push(b);
                },
                None => {
                    timed_out = true;
                    resp.push(0);
                },
            }
        }
        i = i + 1;
    }
    resp
}

/// The full outbound word sequence of one transfer, in push order: the
/// control word that declares the expected response length first, then
/// each request byte left-aligned, in request order.
pub fn transfer_words(request: &Vec<u8>, response_len: usize) -> (words: Vec<u32>)
    requires
        1 <= response_len <= MAX_RESPONSE_LEN,
    ensures
        words@.len() == request@.len() + 1,
        words@[0] == ((response_len - 1) as u32) << 24u32,
        forall|i: int|
            0 <= i < request@.len() ==> words@[i + 1] == (#[trigger] request@[i] as u32) << 24u32,
{
    let mut words: Vec<u32> = Vec::new();
    words.push(control_word(response_len));
    let mut i: usize = 0;
    while i < request.len()
        invariant
            1 <= response_len <= MAX_RESPONSE_LEN,
            i <= request@.len(),
            words@.len() == i + 1,
            words@[0] == ((response_len - 1) as u32) << 24u32,
            forall|j: int|
                0 <= j < i ==> words@[j + 1] == (#[trigger] request@[j] as u32) << 24u32,
        decreases request@.len() - i,
    {
        words.push(request_word(request[i]));
        i = i + 1;
    }
    words
}

/// The mandatory bus-idle spacing after one exchange, in microseconds:
/// four per byte moved in either direction, plus a fixed rest.
pub fn idle_delay_us(request_len: usize, response_len: usize) -> (d: u64)
    requires
        request_len <= MAX_RESPONSE_LEN,
        response_len <= MAX_RESPONSE_LEN,
    ensures
        d == IDLE_PER_BYTE_US * (request_len + response_len) + IDLE_BASE_US,
{
    IDLE_PER_BYTE_US * ((request_len as u64) + (response_len as u64)) + IDLE_BASE_US
}

/// The bus-spacing ledger: remembers, in microseconds of bus time, the
/// earliest instant the next transfer may start, so that two consecutive
/// transfers are never issued closer together than the idle spacing the
/// protocol demands.
pub struct BusSchedule {
    pub earliest_next_start_us: u64,
}

impl BusSchedule {
    /// A fresh bus: the first transfer may start at once.
    pub fn new() -> (s: BusSchedule)
        ensures
            s.earliest_next_start_us == 0,
    {
        BusSchedule { earliest_next_start_us: 0 }
    }

    /// Record the end of a transfer: the next one may not start before the
    /// idle spacing for this exchange's length has elapsed.
    pub fn record_transfer_end(&mut self, end_us: u64, request_len: usize, response_len: usize)
        requires
            request_len <= MAX_RESPONSE_LEN,
            response_len <= MAX_RESPONSE_LEN,
            end_us + IDLE_PER_BYTE_US * (request_len + response_len) + IDLE_BASE_US <= u64::MAX,
        ensures
            final (self).earliest_next_start_us == end_us + IDLE_PER_BYTE_US * (request_len
                + response_len) + IDLE_BASE_US,
    {
        self.earliest_next_start_us = end_us + idle_delay_us(request_len, response_len);
    }

    /// Whether a transfer may start now: true exactly when the idle
    /// spacing after the previous transfer has fully elapsed.
    pub fn may_start(&self, now_us: u64) -> (ok: bool)
        ensures
            ok == (now_us >= self.earliest_next_start_us),
    {
        now_us >= self.earliest_next_start_us
    }
}

} // verus!
