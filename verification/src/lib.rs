//! Verified core of a GameCube-controller bus adapter.
//!
//! The library covers the parts of the link that are pure logic: the
//! waveform codec that turns logical bits into pulse timings and back
//! (`wire`), the transfer orchestrator's framing, response assembly and
//! bus-spacing rules (`transfer`), the two fixed command exchanges and the
//! stored link state (`session`), and the decoder that turns an 8-byte
//! poll response into structured controller state (`state`). The hardware
//! that drives the physical line sits outside the library and exchanges
//! plain bytes with it.

pub mod session;
pub mod state;
pub mod transfer;
pub mod wire;
