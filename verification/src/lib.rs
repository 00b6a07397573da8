//! Events of Standard MIDI File tracks: their types, the reader that takes them off raw track
//! bytes, and the writer that turns them back into bytes.

pub mod error;
pub mod event;
pub mod format;
pub mod input;
pub mod laws;
pub mod meta;
pub mod midi;
pub mod primitive;
pub mod smpte;
pub mod varlen;

pub use error::{Deviation, Error, ErrorKind, Fault, Mode, WriteError};
pub use event::{Event, EventKind};
pub use meta::MetaMessage;
pub use midi::MidiMessage;
pub use primitive::{u14, u24, u28, u4, u7};
pub use smpte::{Fps, SmpteFields, SmpteTime};
