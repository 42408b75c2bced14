//! Normalises raw gamepad events into a small semantic vocabulary.
//!
//! The crate holds the decisions only: how an axis position becomes a
//! one-shot directional pulse, how a raw event maps to a semantic one, which
//! device a scan picks and when a device is worth locking. Reading devices and
//! moving events between threads is left to the embedding program.

pub mod event;
pub mod edge;
pub mod raw;
pub mod translate;
pub mod discovery;
pub mod probe;
pub mod fanin;
pub mod pump;

pub use crate::edge::adc;
pub use crate::event::{EzEvent, RawEvent, RawKind};
pub use crate::translate::{next_event, translate, translate_kind, AxisState};
