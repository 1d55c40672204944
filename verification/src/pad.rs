//! The two controller wire formats and the logical state decoded from them.
//!
//! A port answers a scan with one 64-bit word in each of two formats. The
//! native format carries its status in bits 47..46, sixteen button bits in
//! bits 31..16 and two signed stick bytes below them. The secondary format
//! carries its status in bits 63..62, thirteen button bits in bits 60..48 and
//! six unsigned analog bytes below them. Both are decoded into one set of
//! logical buttons and one signed stick range.

use vstd::prelude::*;
use crate::controller::ControllerError;

verus! {

/// Number of controller ports.
pub const PORTS: usize = 4;

/// The A button.
pub const BUTTON_A: u16 = 0x8000;

/// The B button.
pub const BUTTON_B: u16 = 0x4000;

/// The Z trigger.
pub const BUTTON_Z: u16 = 0x2000;

/// The start button.
pub const BUTTON_START: u16 = 0x1000;

/// Up on the directional pad.
pub const BUTTON_UP: u16 = 0x0800;

/// Down on the directional pad.
pub const BUTTON_DOWN: u16 = 0x0400;

/// Left on the directional pad.
pub const BUTTON_LEFT: u16 = 0x0200;

/// Right on the directional pad.
pub const BUTTON_RIGHT: u16 = 0x0100;

/// The X button; only a secondary pad has it.
pub const BUTTON_X: u16 = 0x0080;

/// The Y button; only a secondary pad has it.
pub const BUTTON_Y: u16 = 0x0040;

/// The left shoulder button.
pub const BUTTON_L: u16 = 0x0020;

/// The right shoulder button.
pub const BUTTON_R: u16 = 0x0010;

/// C up; only a native pad has it.
pub const BUTTON_C_UP: u16 = 0x0008;

/// C down; only a native pad has it.
pub const BUTTON_C_DOWN: u16 = 0x0004;

/// C left; only a native pad has it.
pub const BUTTON_C_LEFT: u16 = 0x0002;

/// C right; only a native pad has it.
pub const BUTTON_C_RIGHT: u16 = 0x0001;

/// The direction code reported when no direction is held.
pub const DPAD_NEUTRAL: i32 = -1;

/// The value of a byte read as a two's complement number.
pub open spec fn spec_signed_byte(byte: u8) -> int {
    if byte < 128 {
        byte as int
    } else {
        byte - 256
    }
}

/// The value of a byte read as an offset from the centre position 128.
pub open spec fn spec_centred_byte(byte: u8) -> int {
    byte - 128
}

/// The byte of `word` whose lowest bit is bit `shift`.
pub open spec fn spec_byte_at(word: u64, shift: u64) -> u8 {
    ((word >> shift) & 0xFF) as u8
}

/// `button` if `word` has any bit of `mask` set, else no button.
pub open spec fn spec_pick(word: u64, mask: u64, button: u16) -> u16 {
    if word & mask != 0 {
        button
    } else {
        0
    }
}

/// The 8-way direction that a set of logical buttons holds on the
/// directional pad. Directions count counter-clockwise from 0 for right to 7
/// for down-right; diagonals take precedence over the four axes, and among
/// the axes right, up, left, down in this order.
pub open spec fn spec_dpad_direction(buttons: u16) -> int {
    let up = buttons & BUTTON_UP != 0;
    let down = buttons & BUTTON_DOWN != 0;
    let left = buttons & BUTTON_LEFT != 0;
    let right = buttons & BUTTON_RIGHT != 0;
    if up && left {
        3
    } else if up && right {
        1
    } else if down && left {
        5
    } else if down && right {
        7
    } else if right {
        0
    } else if up {
        2
    } else if left {
        4
    } else if down {
        6
    } else {
        -1
    }
}

/// Reads a byte as a two's complement number.
pub fn signed_byte(byte: u8) -> (value: i8)
    ensures
        value == spec_signed_byte(byte),
{
    if byte < 128 {
        byte as i8
    } else {
        let wide: i16 = byte as i16;
        (wide - 256) as i8
    }
}

/// Reads a byte as an offset from the centre position 128, which brings the
/// unsigned range 0..=255 onto the signed range -128..=127.
pub fn centred_byte(byte: u8) -> (value: i8)
    ensures
        value == spec_centred_byte(byte),
{
    let wide: i16 = byte as i16;
    (wide - 128) as i8
}

fn byte_at(word: u64, shift: u64) -> (byte: u8)
    requires
        shift < 64,
    ensures
        byte == spec_byte_at(word, shift),
{
    let low: u64 = (word >> shift) & 0xFF;
    assert(low < 256) by (bit_vector)
        requires
            low == (word >> shift) & 0xFF,
    ;
    low as u8
}

fn pick(word: u64, mask: u64, button: u16) -> (chosen: u16)
    ensures
        chosen == spec_pick(word, mask, button),
{
    if word & mask != 0 {
        button
    } else {
        0
    }
}

/// The direction held on the directional pad of a set of logical buttons,
/// or `DPAD_NEUTRAL`.
pub fn dpad_direction_of(buttons: u16) -> (direction: i32)
    ensures
        direction == spec_dpad_direction(buttons),
        direction == DPAD_NEUTRAL || 0 <= direction < 8,
{
    let up: bool = buttons & BUTTON_UP != 0;
    let down: bool = buttons & BUTTON_DOWN != 0;
    let left: bool = buttons & BUTTON_LEFT != 0;
    let right: bool = buttons & BUTTON_RIGHT != 0;
    if up && left {
        3
    } else if up && right {
        1
    } else if down && left {
        5
    } else if down && right {
        7
    } else if right {
        0
    } else if up {
        2
    } else if left {
        4
    } else if down {
        6
    } else {
        DPAD_NEUTRAL
    }
}

/// What one port answers to a scan in the native format.
#[derive(Clone, Copy, Debug, PartialEq, Eq, Structural)]
pub struct ControllerData {
    /// The 64-bit word of the exchange.
    pub raw: u64,
}

impl ControllerData {
    /// The two status bits of the word.
    pub open spec fn spec_err(self) -> u32 {
        ((self.raw >> 46) & 3) as u32
    }

    /// The logical buttons of the word: its sixteen button bits without the
    /// two that the native format leaves unused.
    pub open spec fn spec_buttons(self) -> u16 {
        ((self.raw >> 16) & 0xFF3F) as u16
    }

    /// The horizontal stick position.
    pub open spec fn spec_x(self) -> int {
        spec_signed_byte(spec_byte_at(self.raw, 8))
    }

    /// The vertical stick position.
    pub open spec fn spec_y(self) -> int {
        spec_signed_byte(spec_byte_at(self.raw, 0))
    }

    /// The status code of the exchange.
    pub fn err(&self) -> (code: u32)
        ensures
            code == self.spec_err(),
            code < 4,
    {
        let raw: u64 = self.raw;
        let field: u64 = (raw >> 46) & 3;
        assert(field < 4) by (bit_vector)
            requires
                field == (raw >> 46) & 3,
        ;
        field as u32
    }

    /// The logical buttons that the word reports as held.
    pub fn buttons(&self) -> (held: u16)
        ensures
            held == self.spec_buttons(),
    {
        let raw: u64 = self.raw;
        let field: u64 = (raw >> 16) & 0xFF3F;
        assert(field < 0x10000) by (bit_vector)
            requires
                field == (raw >> 16) & 0xFF3F,
        ;
        field as u16
    }

    /// The horizontal stick position, from -128 to 127.
    pub fn x(&self) -> (position: i8)
        ensures
            position == self.spec_x(),
    {
        signed_byte(byte_at(self.raw, 8))
    }

    /// The vertical stick position, from -128 to 127.
    pub fn y(&self) -> (position: i8)
        ensures
            position == self.spec_y(),
    {
        signed_byte(byte_at(self.raw, 0))
    }
}

/// What one port answers to a scan in the secondary format.
#[derive(Clone, Copy, Debug, PartialEq, Eq, Structural)]
pub struct GamecubeControllerData {
    /// The 64-bit word of the exchange.
    pub raw: u64,
}

impl GamecubeControllerData {
    /// The two status bits of the word.
    pub open spec fn spec_err(self) -> u32 {
        ((self.raw >> 62) & 3) as u32
    }

    /// Whether the pad reports that its origin has not been read yet.
    pub open spec fn spec_origin_unchecked(self) -> bool {
        self.raw & 0x2000_0000_0000_0000 != 0
    }

    /// The logical buttons of the word, each taken from its own bit.
    pub open spec fn spec_buttons(self) -> u16 {
        spec_pick(self.raw, 0x1000_0000_0000_0000, BUTTON_START)
            | spec_pick(self.raw, 0x0800_0000_0000_0000, BUTTON_Y)
            | spec_pick(self.raw, 0x0400_0000_0000_0000, BUTTON_X)
            | spec_pick(self.raw, 0x0200_0000_0000_0000, BUTTON_B)
            | spec_pick(self.raw, 0x0100_0000_0000_0000, BUTTON_A)
            | spec_pick(self.raw, 0x0040_0000_0000_0000, BUTTON_L)
            | spec_pick(self.raw, 0x0020_0000_0000_0000, BUTTON_R)
            | spec_pick(self.raw, 0x0010_0000_0000_0000, BUTTON_Z)
            | spec_pick(self.raw, 0x0008_0000_0000_0000, BUTTON_UP)
            | spec_pick(self.raw, 0x0004_0000_0000_0000, BUTTON_DOWN)
            | spec_pick(self.raw, 0x0002_0000_0000_0000, BUTTON_RIGHT)
            | spec_pick(self.raw, 0x0001_0000_0000_0000, BUTTON_LEFT)
    }

    /// The horizontal position of the main stick.
    pub open spec fn spec_stick_x(self) -> int {
        spec_centred_byte(spec_byte_at(self.raw, 40))
    }

    /// The vertical position of the main stick.
    pub open spec fn spec_stick_y(self) -> int {
        spec_centred_byte(spec_byte_at(self.raw, 32))
    }

    /// The horizontal position of the second stick.
    pub open spec fn spec_cstick_x(self) -> int {
        spec_centred_byte(spec_byte_at(self.raw, 24))
    }

    /// The vertical position of the second stick.
    pub open spec fn spec_cstick_y(self) -> int {
        spec_centred_byte(spec_byte_at(self.raw, 16))
    }

    /// How far the left trigger is pulled.
    pub open spec fn spec_analog_l(self) -> u8 {
        spec_byte_at(self.raw, 8)
    }

    /// How far the right trigger is pulled.
    pub open spec fn spec_analog_r(self) -> u8 {
        spec_byte_at(self.raw, 0)
    }

    /// The status code of the exchange.
    pub fn err(&self) -> (code: u32)
        ensures
            code == self.spec_err(),
            code < 4,
    {
        let raw: u64 = self.raw;
        let field: u64 = (raw >> 62) & 3;
        assert(field < 4) by (bit_vector)
            requires
                field == (raw >> 62) & 3,
        ;
        field as u32
    }

    /// Whether the pad reports that its origin has not been read yet.
    pub fn origin_unchecked(&self) -> (unchecked: bool)
        ensures
            unchecked == self.spec_origin_unchecked(),
    {
        self.raw & 0x2000_0000_0000_0000 != 0
    }

    /// The logical buttons that the word reports as held.
    pub fn buttons(&self) -> (held: u16)
        ensures
            held == self.spec_buttons(),
    {
        pick(self.raw, 0x1000_0000_0000_0000, BUTTON_START)
            | pick(self.raw, 0x0800_0000_0000_0000, BUTTON_Y)
            | pick(self.raw, 0x0400_0000_0000_0000, BUTTON_X)
            | pick(self.raw, 0x0200_0000_0000_0000, BUTTON_B)
            | pick(self.raw, 0x0100_0000_0000_0000, BUTTON_A)
            | pick(self.raw, 0x0040_0000_0000_0000, BUTTON_L)
            | pick(self.raw, 0x0020_0000_0000_0000, BUTTON_R)
            | pick(self.raw, 0x0010_0000_0000_0000, BUTTON_Z)
            | pick(self.raw, 0x0008_0000_0000_0000, BUTTON_UP)
            | pick(self.raw, 0x0004_0000_0000_0000, BUTTON_DOWN)
            | pick(self.raw, 0x0002_0000_0000_0000, BUTTON_RIGHT)
            | pick(self.raw, 0x0001_0000_0000_0000, BUTTON_LEFT)
    }

    /// The horizontal position of the main stick, from -128 to 127.
    pub fn stick_x(&self) -> (position: i8)
        ensures
            position == self.spec_stick_x(),
    {
        centred_byte(byte_at(self.raw, 40))
    }

    /// The vertical position of the main stick, from -128 to 127.
    pub fn stick_y(&self) -> (position: i8)
        ensures
            position == self.spec_stick_y(),
    {
        centred_byte(byte_at(self.raw, 32))
    }

    /// The horizontal position of the second stick, from -128 to 127.
    pub fn cstick_x(&self) -> (position: i8)
        ensures
            position == self.spec_cstick_x(),
    {
        centred_byte(byte_at(self.raw, 24))
    }

    /// The vertical position of the second stick, from -128 to 127.
    pub fn cstick_y(&self) -> (position: i8)
        ensures
            position == self.spec_cstick_y(),
    {
        centred_byte(byte_at(self.raw, 16))
    }

    /// How far the left trigger is pulled, from 0 to 255.
    pub fn analog_l(&self) -> (depth: u8)
        ensures
            depth == self.spec_analog_l(),
    {
        byte_at(self.raw, 8)
    }

    /// How far the right trigger is pulled, from 0 to 255.
    pub fn analog_r(&self) -> (depth: u8)
        ensures
            depth == self.spec_analog_r(),
    {
        byte_at(self.raw, 0)
    }
}

/// The origin that a secondary pad reports: the word it sends at rest and the
/// two dead zones around it.
#[derive(Clone, Copy, Debug, PartialEq, Eq, Structural)]
pub struct GamecubeOriginData {
    /// The pad's word at rest, in the secondary format.
    pub data: GamecubeControllerData,
    pub deadzone0: u8,
    pub deadzone1: u8,
}

impl GamecubeOriginData {
    /// The origin known for a port before any was read.
    pub open spec fn spec_blank() -> GamecubeOriginData {
        GamecubeOriginData { data: GamecubeControllerData { raw: 0 }, deadzone0: 0, deadzone1: 0 }
    }

    /// The origin known for a port before any was read.
    pub fn blank() -> (origin: GamecubeOriginData)
        ensures
            origin == Self::spec_blank(),
    {
        GamecubeOriginData { data: GamecubeControllerData { raw: 0 }, deadzone0: 0, deadzone1: 0 }
    }
}

/// The origins of all four ports.
#[derive(Clone, Copy, Debug, PartialEq, Eq)]
pub struct ControllerOriginData {
    pub gc: [GamecubeOriginData; 4],
}

/// What all four ports answer to one scan, in both formats.
#[derive(Clone, Copy, Debug, PartialEq, Eq)]
pub struct ScanData {
    /// The answers in the native format, by port.
    pub c: [ControllerData; 4],
    /// The answers in the secondary format, by port.
    pub gc: [GamecubeControllerData; 4],
}

/// The kind of pad on a port, with what only that kind reports.
#[derive(Clone, Copy, Debug, PartialEq, Eq, Structural)]
pub enum Pad {
    /// No pad answered in either format.
    NotPresent,
    /// A pad that answered in the native format.
    NativePad,
    /// A pad that answered in the secondary format.
    SecondaryPad {
        cstick_x: i8,
        cstick_y: i8,
        analog_l: u8,
        analog_r: u8,
        origin: GamecubeOriginData,
    },
}

impl Pad {
    /// The record that only a secondary pad carries.
    pub open spec fn spec_origin(self) -> Option<GamecubeOriginData> {
        match self {
            Pad::SecondaryPad { origin, .. } => Some(origin),
            _ => None,
        }
    }

    /// The trigger depths that only a secondary pad carries, left then right.
    pub open spec fn spec_triggers(self) -> Option<(u8, u8)> {
        match self {
            Pad::SecondaryPad { analog_l, analog_r, .. } => Some((analog_l, analog_r)),
            _ => None,
        }
    }

    /// The second stick that only a secondary pad carries, x then y.
    pub open spec fn spec_cstick(self) -> Option<(i8, i8)> {
        match self {
            Pad::SecondaryPad { cstick_x, cstick_y, .. } => Some((cstick_x, cstick_y)),
            _ => None,
        }
    }

    /// The origin record; requires a secondary pad, and is `None` for any
    /// other kind.
    pub fn origin(&self) -> (record: Option<GamecubeOriginData>)
        ensures
            record == self.spec_origin(),
    {
        match self {
            Pad::SecondaryPad { origin, .. } => Some(*origin),
            _ => None,
        }
    }

    /// The depths of the left and right triggers; requires a secondary pad,
    /// and is `None` for any other kind.
    pub fn triggers(&self) -> (depths: Option<(u8, u8)>)
        ensures
            depths == self.spec_triggers(),
    {
        match self {
            Pad::SecondaryPad { analog_l, analog_r, .. } => Some((*analog_l, *analog_r)),
            _ => None,
        }
    }

    /// The position of the second stick; requires a secondary pad, and is
    /// `None` for any other kind.
    pub fn cstick(&self) -> (position: Option<(i8, i8)>)
        ensures
            position == self.spec_cstick(),
    {
        match self {
            Pad::SecondaryPad { cstick_x, cstick_y, .. } => Some((*cstick_x, *cstick_y)),
            _ => None,
        }
    }
}

/// One port's pad with one set of logical buttons and the main stick.
#[derive(Clone, Copy, Debug, PartialEq, Eq, Structural)]
pub struct PadState {
    pub pad: Pad,
    /// A set of logical buttons; which set, the query that returned it says.
    pub buttons: u16,
    pub stick_x: i8,
    pub stick_y: i8,
}

impl PadState {
    /// The state of a port without a pad.
    pub open spec fn spec_absent() -> PadState {
        PadState { pad: Pad::NotPresent, buttons: 0, stick_x: 0, stick_y: 0 }
    }

    /// What a port's two answers decode to. The native answer is taken when
    /// its status is no error; else the secondary answer when its status is
    /// no error, together with the origin known for the port; else the port
    /// has no pad.
    pub open spec fn spec_decode(
        c: ControllerData,
        gc: GamecubeControllerData,
        origin: GamecubeOriginData,
    ) -> PadState {
        if !ControllerError::spec_from_code(c.spec_err()).spec_is_error() {
            PadState {
                pad: Pad::NativePad,
                buttons: c.spec_buttons(),
                stick_x: c.spec_x() as i8,
                stick_y: c.spec_y() as i8,
            }
        } else if !ControllerError::spec_from_code(gc.spec_err()).spec_is_error() {
            PadState {
                pad: Pad::SecondaryPad {
                    cstick_x: gc.spec_cstick_x() as i8,
                    cstick_y: gc.spec_cstick_y() as i8,
                    analog_l: gc.spec_analog_l(),
                    analog_r: gc.spec_analog_r(),
                    origin,
                },
                buttons: gc.spec_buttons(),
                stick_x: gc.spec_stick_x() as i8,
                stick_y: gc.spec_stick_y() as i8,
            }
        } else {
            PadState::spec_absent()
        }
    }

    /// The error of a port's scan: none when either answer decodes, else the
    /// error of the native answer.
    pub open spec fn spec_error(c: ControllerData, gc: GamecubeControllerData) -> ControllerError {
        if !ControllerError::spec_from_code(gc.spec_err()).spec_is_error() {
            ControllerError::NoError
        } else {
            ControllerError::spec_from_code(c.spec_err())
        }
    }

    /// The state of a port without a pad.
    pub fn absent() -> (state: PadState)
        ensures
            state == Self::spec_absent(),
    {
        PadState { pad: Pad::NotPresent, buttons: 0, stick_x: 0, stick_y: 0 }
    }

    /// Decodes the two answers of one port into the pad that gave them.
    pub fn decode(
        c: ControllerData,
        gc: GamecubeControllerData,
        origin: GamecubeOriginData,
    ) -> (state: PadState)
        ensures
            state == Self::spec_decode(c, gc, origin),
    {
        if !ControllerError::from(c.err()).is_error() {
            PadState { pad: Pad::NativePad, buttons: c.buttons(), stick_x: c.x(), stick_y: c.y() }
        } else if !ControllerError::from(gc.err()).is_error() {
            PadState {
                pad: Pad::SecondaryPad {
                    cstick_x: gc.cstick_x(),
                    cstick_y: gc.cstick_y(),
                    analog_l: gc.analog_l(),
                    analog_r: gc.analog_r(),
                    origin,
                },
                buttons: gc.buttons(),
                stick_x: gc.stick_x(),
                stick_y: gc.stick_y(),
            }
        } else {
            PadState::absent()
        }
    }

    /// The error of one port's scan.
    pub fn error(c: ControllerData, gc: GamecubeControllerData) -> (err: ControllerError)
        ensures
            err == Self::spec_error(c, gc),
    {
        if !ControllerError::from(gc.err()).is_error() {
            ControllerError::NoError
        } else {
            ControllerError::from(c.err())
        }
    }
}

/// The structured state of one port, produced once per scan.
#[derive(Clone, Copy, Debug, PartialEq, Eq, Structural)]
pub struct ControllerSnapshot {
    pub pad: Pad,
    /// How the scan of this port ended.
    pub error: ControllerError,
    /// Buttons held in this scan and not in the one before.
    pub buttons_down: u16,
    /// Buttons held in the scan before and not in this one.
    pub buttons_up: u16,
    /// Buttons held in this scan.
    pub held: u16,
    /// Buttons that went down in the scan before and are still held: each
    /// press that lasts reports here once, one scan after it went down.
    pub pressed_edge: u16,
    pub stick_x: i8,
    pub stick_y: i8,
}

impl ControllerSnapshot {
    /// The snapshot of a port that was never scanned.
    pub open spec fn spec_blank() -> ControllerSnapshot {
        ControllerSnapshot {
            pad: Pad::NotPresent,
            error: ControllerError::NotPresent,
            buttons_down: 0,
            buttons_up: 0,
            held: 0,
            pressed_edge: 0,
            stick_x: 0,
            stick_y: 0,
        }
    }

    /// The snapshot that follows `self` when the port decodes to `now` with
    /// error `error`. Nothing of `self` survives but what the edges are
    /// measured against.
    pub open spec fn spec_next(self, now: PadState, error: ControllerError) -> ControllerSnapshot {
        ControllerSnapshot {
            pad: now.pad,
            error,
            buttons_down: now.buttons & !self.held,
            buttons_up: self.held & !now.buttons,
            held: now.buttons,
            pressed_edge: now.buttons & self.buttons_down,
            stick_x: now.stick_x,
            stick_y: now.stick_y,
        }
    }

    /// Whether the four button sets fit their meanings: no button is down
    /// and up at once, a button that is down or pressed is held, a button
    /// that is up is not, and no button is down and pressed at once.
    pub open spec fn spec_consistent(self) -> bool {
        &&& self.buttons_down & self.buttons_up == 0
        &&& self.buttons_down & !self.held == 0
        &&& self.pressed_edge & !self.held == 0
        &&& self.buttons_up & self.held == 0
        &&& self.buttons_down & self.pressed_edge == 0
    }

    /// The snapshot seen through one of its button sets.
    pub open spec fn spec_with(self, buttons: u16) -> PadState {
        PadState { pad: self.pad, buttons, stick_x: self.stick_x, stick_y: self.stick_y }
    }

    /// The direction held on the directional pad.
    pub open spec fn spec_dpad_direction(self) -> int {
        spec_dpad_direction(self.held)
    }

    /// The snapshot of a port that was never scanned.
    pub fn blank() -> (snapshot: ControllerSnapshot)
        ensures
            snapshot == Self::spec_blank(),
    {
        ControllerSnapshot {
            pad: Pad::NotPresent,
            error: ControllerError::NotPresent,
            buttons_down: 0,
            buttons_up: 0,
            held: 0,
            pressed_edge: 0,
            stick_x: 0,
            stick_y: 0,
        }
    }

    /// The snapshot that supersedes this one after a scan.
    pub fn next(&self, now: PadState, error: ControllerError) -> (snapshot: ControllerSnapshot)
        ensures
            snapshot == self.spec_next(now, error),
    {
        ControllerSnapshot {
            pad: now.pad,
            error,
            buttons_down: now.buttons & !self.held,
            buttons_up: self.held & !now.buttons,
            held: now.buttons,
            pressed_edge: now.buttons & self.buttons_down,
            stick_x: now.stick_x,
            stick_y: now.stick_y,
        }
    }

    /// The snapshot seen through the given set of buttons.
    pub fn with(&self, buttons: u16) -> (state: PadState)
        ensures
            state == self.spec_with(buttons),
    {
        PadState { pad: self.pad, buttons, stick_x: self.stick_x, stick_y: self.stick_y }
    }

    /// The direction held on the directional pad, or `DPAD_NEUTRAL`.
    pub fn dpad_direction(&self) -> (direction: i32)
        ensures
            direction == self.spec_dpad_direction(),
    {
        dpad_direction_of(self.held)
    }
}

/// One set of logical buttons for each of the four ports.
#[derive(Clone, Copy, Debug, PartialEq, Eq)]
pub struct ControllerState {
    pub ports: [PadState; 4],
}

impl ControllerState {
    /// What one scan decodes to when no origin was read: for every port
    /// its pad, the buttons it holds and its main stick.
    pub open spec fn spec_from_scan(reply: ScanData) -> ControllerState {
        ControllerState {
            ports: [
                PadState::spec_decode(reply.c[0], reply.gc[0], GamecubeOriginData::spec_blank()),
                PadState::spec_decode(reply.c[1], reply.gc[1], GamecubeOriginData::spec_blank()),
                PadState::spec_decode(reply.c[2], reply.gc[2], GamecubeOriginData::spec_blank()),
                PadState::spec_decode(reply.c[3], reply.gc[3], GamecubeOriginData::spec_blank()),
            ],
        }
    }
}

impl From<ScanData> for ControllerState {
    fn from(reply: ScanData) -> (state: ControllerState) {
        let origin = GamecubeOriginData::blank();
        ControllerState {
            ports: [
                PadState::decode(reply.c[0], reply.gc[0], origin),
                PadState::decode(reply.c[1], reply.gc[1], origin),
                PadState::decode(reply.c[2], reply.gc[2], origin),
                PadState::decode(reply.c[3], reply.gc[3], origin),
            ],
        }
    }
}

impl vstd::std_specs::convert::FromSpecImpl<ScanData> for ControllerState {
    open spec fn obeys_from_spec() -> bool {
        true
    }

    open spec fn from_spec(reply: ScanData) -> ControllerState {
        ControllerState::spec_from_scan(reply)
    }
}

/// Whether the set `buttons` holds the logical button with index `index`,
/// counted from the lowest bit.
pub open spec fn spec_holds(buttons: u16, index: u16) -> bool {
    (buttons >> index) & 1 == 1
}

/// The native format holds the logical buttons where the logical set holds
/// them, sixteen bits up, but for the two buttons that only a secondary pad
/// has: those a native word never reports.
pub proof fn lemma_native_buttons_by_bit(word: ControllerData, index: u16)
    requires
        index < 16,
    ensures
        spec_holds(word.spec_buttons(), index) <==> index != 6 && index != 7 && (word.raw >> (
        16 + index) as u64) & 1 == 1,
        word.spec_buttons() & BUTTON_X == 0,
        word.spec_buttons() & BUTTON_Y == 0,
{
    let raw = word.raw;
    assert(((((raw >> 16) & 0xFF3F) as u16) >> index) & 1 == 1 <==> index != 6 && index != 7 && (raw
        >> (16 + index) as u64) & 1 == 1) by (bit_vector)
        requires
            index < 16,
    ;
    assert((((raw >> 16) & 0xFF3F) as u16) & 0x0080 == 0) by (bit_vector);
    assert((((raw >> 16) & 0xFF3F) as u16) & 0x0040 == 0) by (bit_vector);
}

/// A button is down after a scan exactly if it was not held before the scan
/// and is held after it; it is up exactly if it was held before and is not
/// held after.
pub proof fn lemma_edges_are_transitions(
    before: ControllerSnapshot,
    now: PadState,
    error: ControllerError,
    index: u16,
)
    requires
        index < 16,
    ensures
        spec_holds(before.spec_next(now, error).buttons_down, index) <==> !spec_holds(
            before.held,
            index,
        ) && spec_holds(before.spec_next(now, error).held, index),
        spec_holds(before.spec_next(now, error).buttons_up, index) <==> spec_holds(
            before.held,
            index,
        ) && !spec_holds(before.spec_next(now, error).held, index),
{
    let old_held = before.held;
    let new_held = now.buttons;
    assert(((new_held & !old_held) >> index) & 1 == 1 <==> !((old_held >> index) & 1 == 1) && ((
        new_held >> index) & 1 == 1)) by (bit_vector)
        requires
            index < 16,
    ;
    assert(((old_held & !new_held) >> index) & 1 == 1 <==> ((old_held >> index) & 1 == 1) && !((
        new_held >> index) & 1 == 1)) by (bit_vector)
        requires
            index < 16,
    ;
}

/// Every snapshot that the library makes is consistent, and so is each that
/// follows a consistent one: no button is down and up at once, a button
/// that is down or pressed is held, a button that is up is not, and no
/// button is down and pressed in the same scan.
pub proof fn lemma_snapshots_are_consistent(
    before: ControllerSnapshot,
    now: PadState,
    error: ControllerError,
)
    ensures
        ControllerSnapshot::spec_blank().spec_consistent(),
        before.spec_consistent() ==> before.spec_next(now, error).spec_consistent(),
{
    let old_held = before.held;
    let old_down = before.buttons_down;
    let new_held = now.buttons;
    assert(0u16 & 0u16 == 0 && 0u16 & !0u16 == 0) by (bit_vector);
    assert((new_held & !old_held) & (old_held & !new_held) == 0) by (bit_vector);
    assert((new_held & !old_held) & !new_held == 0) by (bit_vector);
    assert((new_held & old_down) & !new_held == 0) by (bit_vector);
    assert((old_held & !new_held) & new_held == 0) by (bit_vector);
    assert(old_down & !old_held == 0 ==> (new_held & !old_held) & (new_held & old_down) == 0)
        by (bit_vector);
}

/// A press reports in `pressed_edge` one scan after it went down, if the
/// button is still held then: of three scans in a row, the last one's
/// `pressed_edge` holds what the first did not hold and the other two do.
pub proof fn lemma_pressed_edge_is_confirmed_press(
    first: ControllerSnapshot,
    second: PadState,
    third: PadState,
    error: ControllerError,
    index: u16,
)
    requires
        index < 16,
    ensures
        spec_holds(first.spec_next(second, error).spec_next(third, error).pressed_edge, index)
            <==> !spec_holds(first.held, index) && spec_holds(second.buttons, index) && spec_holds(
            third.buttons,
            index,
        ),
{
    let a = first.held;
    let b = second.buttons;
    let c = third.buttons;
    assert(((c & (b & !a)) >> index) & 1 == 1 <==> !((a >> index) & 1 == 1) && ((b >> index) & 1
        == 1) && ((c >> index) & 1 == 1)) by (bit_vector)
        requires
            index < 16,
    ;
}

} // verus!
