//! Decoder from the raw 8-byte poll response to structured controller state.
//!
//! Decoding is a total, side-effect-free function of the 8 raw bytes: every
//! possible buffer, including the all-zero buffer a timed-out poll leaves
//! behind, decodes to a well-defined state.

use vstd::prelude::*;

verus! {

/// Lowest value an analog axis can report.
pub const GC_JOYSTICK_MIN: u8 = 0x00;
/// Nominal centre of an analog axis.
pub const GC_JOYSTICK_MID: u8 = 0x80;
/// Highest value an analog axis can report.
pub const GC_JOYSTICK_MAX: u8 = 0xFF;

// First response byte: face and start buttons.
pub const GC_MASK_A: u8 = 0x01;
pub const GC_MASK_B: u8 = 0x02;
pub const GC_MASK_X: u8 = 0x04;
pub const GC_MASK_Y: u8 = 0x08;
pub const GC_MASK_START: u8 = 0x10;

// Second response byte: directional nibble, then Z, R, L.
pub const GC_MASK_DPAD: u8 = 0x0F;
pub const GC_MASK_Z: u8 = 0x10;
pub const GC_MASK_R: u8 = 0x20;
pub const GC_MASK_L: u8 = 0x40;

// Directional-nibble values that name a hat position.
pub const GC_MASK_DPAD_UP: u8 = 0x8;
pub const GC_MASK_DPAD_UPRIGHT: u8 = 0xA;
pub const GC_MASK_DPAD_RIGHT: u8 = 0x2;
pub const GC_MASK_DPAD_DOWNRIGHT: u8 = 0x6;
pub const GC_MASK_DPAD_DOWN: u8 = 0x4;
pub const GC_MASK_DPAD_DOWNLEFT: u8 = 0x5;
pub const GC_MASK_DPAD_LEFT: u8 = 0x1;
pub const GC_MASK_DPAD_UPLEFT: u8 = 0x9;

/// Eight-way hat summary of the directional nibble, for HID reporting.
#[derive(Debug, Clone, Copy, PartialEq, Eq, Structural)]
pub enum HatPosition {
    Idle,
    Up,
    UpRight,
    Right,
    DownRight,
    Down,
    DownLeft,
    Left,
    UpLeft,
}

/// The decoded meaning of one raw buffer: button flags, the directional
/// nibble both as four booleans and as a derived hat position, and the six
/// analog values.
pub struct DecodedState {
    pub start: bool,
    pub a: bool,
    pub b: bool,
    pub x: bool,
    pub y: bool,
    pub l: bool,
    pub r: bool,
    pub z: bool,
    pub dpad_up: bool,
    pub dpad_right: bool,
    pub dpad_down: bool,
    pub dpad_left: bool,
    pub hat: HatPosition,
    pub ax: u8,
    pub ay: u8,
    pub cx: u8,
    pub cy: u8,
    pub al: u8,
    pub ar: u8,
}

/// Hat position named by a directional-nibble value; every value outside
/// the eight recognized combinations is idle.
pub open spec fn spec_hat(nibble: u8) -> HatPosition {
    if nibble == GC_MASK_DPAD_UP {
        HatPosition::Up
    } else if nibble == GC_MASK_DPAD_UPRIGHT {
        HatPosition::UpRight
    } else if nibble == GC_MASK_DPAD_RIGHT {
        HatPosition::Right
    } else if nibble == GC_MASK_DPAD_DOWNRIGHT {
        HatPosition::DownRight
    } else if nibble == GC_MASK_DPAD_DOWN {
        HatPosition::Down
    } else if nibble == GC_MASK_DPAD_DOWNLEFT {
        HatPosition::DownLeft
    } else if nibble == GC_MASK_DPAD_LEFT {
        HatPosition::Left
    } else if nibble == GC_MASK_DPAD_UPLEFT {
        HatPosition::UpLeft
    } else {
        HatPosition::Idle
    }
}

/// What the raw buffer means, field by field.
pub open spec fn spec_decode(raw: [u8; 8]) -> DecodedState {
    DecodedState {
        start: raw[0] & GC_MASK_START != 0,
        a: raw[0] & GC_MASK_A != 0,
        b: raw[0] & GC_MASK_B != 0,
        x: raw[0] & GC_MASK_X != 0,
        y: raw[0] & GC_MASK_Y != 0,
        l: raw[1] & GC_MASK_L != 0,
        r: raw[1] & GC_MASK_R != 0,
        z: raw[1] & GC_MASK_Z != 0,
        dpad_up: raw[1] & GC_MASK_DPAD & GC_MASK_DPAD_UP != 0,
        dpad_right: raw[1] & GC_MASK_DPAD & GC_MASK_DPAD_RIGHT != 0,
        dpad_down: raw[1] & GC_MASK_DPAD & GC_MASK_DPAD_DOWN != 0,
        dpad_left: raw[1] & GC_MASK_DPAD & GC_MASK_DPAD_LEFT != 0,
        hat: spec_hat(raw[1] & GC_MASK_DPAD),
        ax: raw[2],
        ay: raw[3],
        cx: raw[4],
        cy: raw[5],
        al: raw[6],
        ar: raw[7],
    }
}

/// View of one raw 8-byte poll response.
///
/// Holds its own copy of the buffer; each getter is proved to return the
/// corresponding field of `spec_decode` of that buffer.
#[derive(Debug, Clone, Copy)]
pub struct ControllerState {
    pub state: [u8; 8],
}

impl View for ControllerState {
    type V = DecodedState;

    open spec fn view(&self) -> DecodedState {
        spec_decode(self.state)
    }
}

impl ControllerState {
    /// Create a view of a raw state buffer.
    pub fn new(state: &[u8; 8]) -> (s: Self)
        ensures
            s.state == *state,
            s@ == spec_decode(*state),
    {
        Self { state: *state }
    }

    // Button getters.
    pub fn start(&self) -> (r: bool)
        ensures
            r == self@.start,
    {
        (self.state[0] & GC_MASK_START) != 0
    }

    pub fn a(&self) -> (r: bool)
        ensures
            r == self@.a,
    {
        (self.state[0] & GC_MASK_A) != 0
    }

    pub fn b(&self) -> (r: bool)
        ensures
            r == self@.b,
    {
        (self.state[0] & GC_MASK_B) != 0
    }

    pub fn x(&self) -> (r: bool)
        ensures
            r == self@.x,
    {
        (self.state[0] & GC_MASK_X) != 0
    }

    pub fn y(&self) -> (r: bool)
        ensures
            r == self@.y,
    {
        (self.state[0] & GC_MASK_Y) != 0
    }

    pub fn l(&self) -> (r: bool)
        ensures
            r == self@.l,
    {
        (self.state[1] & GC_MASK_L) != 0
    }

    pub fn r(&self) -> (r: bool)
        ensures
            r == self@.r,
    {
        (self.state[1] & GC_MASK_R) != 0
    }

    pub fn z(&self) -> (r: bool)
        ensures
            r == self@.z,
    {
        (self.state[1] & GC_MASK_Z) != 0
    }

    // D-pad getters.
    pub fn dpad_up(&self) -> (r: bool)
        ensures
            r == self@.dpad_up,
    {
        (self.state[1] & GC_MASK_DPAD & GC_MASK_DPAD_UP) != 0
    }

    pub fn dpad_right(&self) -> (r: bool)
        ensures
            r == self@.dpad_right,
    {
        (self.state[1] & GC_MASK_DPAD & GC_MASK_DPAD_RIGHT) != 0
    }

    pub fn dpad_down(&self) -> (r: bool)
        ensures
            r == self@.dpad_down,
    {
        (self.state[1] & GC_MASK_DPAD & GC_MASK_DPAD_DOWN) != 0
    }

    pub fn dpad_left(&self) -> (r: bool)
        ensures
            r == self@.dpad_left,
    {
        (self.state[1] & GC_MASK_DPAD & GC_MASK_DPAD_LEFT) != 0
    }

    /// The directional nibble as a hat position.
    pub fn dpad(&self) -> (r: HatPosition)
        ensures
            r == self@.hat,
    {
        let nibble = self.state[1] & GC_MASK_DPAD;
        if nibble == GC_MASK_DPAD_UP {
            HatPosition::Up
        } else if nibble == GC_MASK_DPAD_UPRIGHT {
            HatPosition::UpRight
        } else if nibble == GC_MASK_DPAD_RIGHT {
            HatPosition::Right
        } else if nibble == GC_MASK_DPAD_DOWNRIGHT {
            HatPosition::DownRight
        } else if nibble == GC_MASK_DPAD_DOWN {
            HatPosition::Down
        } else if nibble == GC_MASK_DPAD_DOWNLEFT {
            HatPosition::DownLeft
        } else if nibble == GC_MASK_DPAD_LEFT {
            HatPosition::Left
        } else if nibble == GC_MASK_DPAD_UPLEFT {
            HatPosition::UpLeft
        } else {
            HatPosition::Idle
        }
    }

    // Analog getters.
    pub fn ax(&self) -> (r: u8)
        ensures
            r == self@.ax,
    {
        self.state[2]
    }

    pub fn ay(&self) -> (r: u8)
        ensures
            r == self@.ay,
    {
        self.state[3]
    }

    pub fn cx(&self) -> (r: u8)
        ensures
            r == self@.cx,
    {
        self.state[4]
    }

    pub fn cy(&self) -> (r: u8)
        ensures
            r == self@.cy,
    {
        self.state[5]
    }

    pub fn al(&self) -> (r: u8)
        ensures
            r == self@.al,
    {
        self.state[6]
    }

    pub fn ar(&self) -> (r: u8)
        ensures
            r == self@.ar,
    {
        self.state[7]
    }
}

/// Decoding is deterministic: equal raw buffers decode to equal states, so
/// decoding the same bytes twice yields identical results.
pub proof fn lemma_decode_deterministic(raw1: [u8; 8], raw2: [u8; 8])
    requires
        raw1 == raw2,
    ensures
        spec_decode(raw1) == spec_decode(raw2),
{
}

/// Each of the eight recognized directional-nibble combinations maps to its
/// own hat position, and every other nibble value, zero included, maps to
/// idle.
pub proof fn lemma_hat_mapping()
    ensures
        spec_hat(GC_MASK_DPAD_UP) == HatPosition::Up,
        spec_hat(GC_MASK_DPAD_UPRIGHT) == HatPosition::UpRight,
        spec_hat(GC_MASK_DPAD_RIGHT) == HatPosition::Right,
        spec_hat(GC_MASK_DPAD_DOWNRIGHT) == HatPosition::DownRight,
        spec_hat(GC_MASK_DPAD_DOWN) == HatPosition::Down,
        spec_hat(GC_MASK_DPAD_DOWNLEFT) == HatPosition::DownLeft,
        spec_hat(GC_MASK_DPAD_LEFT) == HatPosition::Left,
        spec_hat(GC_MASK_DPAD_UPLEFT) == HatPosition::UpLeft,
        forall|n: u8|
            !(n == GC_MASK_DPAD_UP || n == GC_MASK_DPAD_UPRIGHT || n == GC_MASK_DPAD_RIGHT
                || n == GC_MASK_DPAD_DOWNRIGHT || n == GC_MASK_DPAD_DOWN
                || n == GC_MASK_DPAD_DOWNLEFT || n == GC_MASK_DPAD_LEFT
                || n == GC_MASK_DPAD_UPLEFT) ==> #[trigger] spec_hat(n) == HatPosition::Idle,
{
}

} // verus!
