//! The event vocabulary: what comes in from a device and what goes out.

use vstd::prelude::*;

verus! {

/// Event type of a button event in the kernel's input protocol.
pub const EV_KEY: u16 = 0x01;

/// Event type of an absolute-axis event in the kernel's input protocol.
pub const EV_ABS: u16 = 0x03;

pub const BTN_SOUTH: u16 = 0x130;

pub const BTN_EAST: u16 = 0x131;

pub const BTN_NORTH: u16 = 0x133;

pub const BTN_WEST: u16 = 0x134;

pub const BTN_TL: u16 = 0x136;

pub const BTN_TR: u16 = 0x137;

pub const BTN_SELECT: u16 = 0x13a;

pub const BTN_START: u16 = 0x13b;

/// Horizontal stick axis.
pub const ABS_X: u16 = 0x00;

/// Vertical stick axis.
pub const ABS_Y: u16 = 0x01;

/// Left analog trigger.
pub const ABS_Z: u16 = 0x02;

/// Right analog trigger.
pub const ABS_RZ: u16 = 0x05;

/// Horizontal hat axis.
pub const ABS_HAT0X: u16 = 0x10;

/// Vertical hat axis.
pub const ABS_HAT0Y: u16 = 0x11;

/// Deadzone of the analog stick axes.
pub const STICK_DEADZONE: i32 = 20000;

/// Deadzone of the hat axes: any nonzero position is a press.
pub const HAT_DEADZONE: i32 = 0;

/// A semantic event, as handed to the consumer.
#[derive(Debug, Clone, Copy, PartialEq, Eq, Structural)]
pub enum EzEvent {
    DirectionUp,
    DirectionDown,
    DirectionLeft,
    DirectionRight,
    North(bool),
    South(bool),
    East(bool),
    West(bool),
    Select(bool),
    Start(bool),
    R(bool),
    L(bool),
    R2(i32),
    L2(i32),
}

/// One raw event as a device reports it: the three fields of the kernel's
/// `input_event` that carry meaning here.
#[derive(Debug, Clone, Copy, PartialEq, Eq, Structural)]
pub struct RawEvent {
    pub event_type: u16,
    pub code: u16,
    pub value: i32,
}

/// What a raw event is about, with its code.
#[derive(Debug, Clone, Copy, PartialEq, Eq, Structural)]
pub enum RawKind {
    /// A button, by key code.
    Key(u16),
    /// An absolute axis, by axis code.
    AbsAxis(u16),
    /// Anything else: relative axes, synchronisation markers, LEDs, ...
    Other,
}

} // verus!
