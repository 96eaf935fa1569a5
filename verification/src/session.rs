//! Session protocol: the two fixed exchanges layered on the orchestrator.
//!
//! Identification sends one command byte and expects a 3-byte reply; polling
//! sends a 3-byte command carrying the rumble flag and expects an 8-byte
//! state reply. The stored raw state is replaced wholesale by each poll's
//! result, zero padding included: a timed-out poll never leaves a mix of
//! old and new bytes behind.

use vstd::prelude::*;

use crate::state::spec_decode;
use crate::state::ControllerState;
use crate::transfer::all_arrived_through;
use crate::transfer::collect_response;
use crate::transfer::spec_event_byte;

verus! {

/// Command byte of the identification exchange.
pub const CMD_IDENTIFY: u8 = 0x41;
/// Length of the identification reply.
pub const IDENTIFY_RESPONSE_LEN: usize = 3;
/// Command byte of the poll exchange.
pub const CMD_POLL: u8 = 0x40;
/// Sub-command byte of the poll exchange.
pub const CMD_POLL_SUB: u8 = 0x03;
/// Length of the poll reply: the raw state buffer.
pub const POLL_RESPONSE_LEN: usize = 8;

/// The request frame of the identification exchange: the single command
/// byte.
pub fn identify_request() -> (req: [u8; 1])
    ensures
        req@ == seq![CMD_IDENTIFY],
{
    let req = [CMD_IDENTIFY];
    proof {
        assert(req@ =~= seq![CMD_IDENTIFY]);
    }
    req
}

/// Session state of one controller link: the last raw poll result and the
/// rumble flag the next poll will carry.
pub struct Controller {
    pub controller_state: [u8; 8],
    pub rumble: bool,
}

impl Controller {
    /// A fresh link: neutral all-zero raw state, rumble off.
    pub fn new() -> (c: Controller)
        ensures
            c.controller_state@ == Seq::new(8, |i: int| 0u8),
            c.rumble == false,
    {
        let c = Controller { controller_state: [0u8; 8], rumble: false };
        proof {
            assert(c.controller_state@ =~= Seq::new(8, |i: int| 0u8));
        }
        c
    }

    /// Set the flag the next poll request will embed.
    pub fn set_rumble(&mut self, rumble: bool)
        ensures
            final (self).rumble == rumble,
            final (self).controller_state == old(self).controller_state,
    {
        self.rumble = rumble;
    }

    /// The most recent raw poll result.
    pub fn get_controller_state(&self) -> (raw: &[u8; 8])
        ensures
            raw@ == self.controller_state@,
    {
        &self.controller_state
    }

    /// The request frame of the next poll exchange: command, sub-command,
    /// then the rumble flag as 0 or 1.
    pub fn poll_request(&self) -> (req: [u8; 3])
        ensures
            req@ == seq![CMD_POLL, CMD_POLL_SUB, (if self.rumble { 1u8 } else { 0u8 })],
    {
        let rumble_byte: u8 = if self.rumble {
            1
        } else {
            0
        };
        let req = [CMD_POLL, CMD_POLL_SUB, rumble_byte];
        proof {
            assert(req@ =~= seq![CMD_POLL, CMD_POLL_SUB, (if self.rumble { 1u8 } else { 0u8 })]);
        }
        req
    }

    /// Store one poll exchange's result: the raw state is replaced
    /// wholesale, zero padding and all; the rumble flag is untouched.
    pub fn apply_poll_response(&mut self, response: [u8; 8])
        ensures
            final (self).controller_state == response,
            final (self).rumble == old(self).rumble,
    {
        self.controller_state = response;
    }

    /// Store the result of one poll exchange from its per-slot wait
    /// outcomes: the bytes that arrived before the first timeout land in
    /// place, every slot from the first timeout on becomes zero, and the
    /// previous raw state is gone wholesale.
    pub fn apply_poll_events(&mut self, events: &Vec<Option<u8>>)
        requires
            events@.len() == POLL_RESPONSE_LEN,
        ensures
            final (self).rumble == old(self).rumble,
            forall|i: int|
                0 <= i < 8 && all_arrived_through(events@, i) ==> final (self).controller_state[i]
                    == spec_event_byte(#[trigger] events@[i]),
            forall|i: int|
                0 <= i < 8 && !all_arrived_through(events@, i)
                    ==> #[trigger] final (self).controller_state[i] == 0,
    {
        let response = collect_response(events);
        let mut raw = [0u8; 8];
        let mut i: usize = 0;
        while i < 8
            invariant
                response@.len() == 8,
                i <= 8,
                forall|j: int| 0 <= j < i ==> raw[j] == response@[j],
            decreases 8 - i,
        {
            raw[i] = response[i];
            i = i + 1;
        }
        self.controller_state = raw;
    }

    /// The decoded view of the most recent raw state.
    pub fn current_state(&self) -> (s: ControllerState)
        ensures
            s@ == spec_decode(self.controller_state),
    {
        ControllerState::new(&self.controller_state)
    }
}

} // verus!
