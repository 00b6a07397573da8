//! What can go wrong while reading and writing, and how strictly input is judged.

use vstd::prelude::*;

verus! {

/// How strictly the reader judges its input.
#[derive(Clone, Copy, Debug, PartialEq, Eq, Structural)]
pub enum Mode {
    /// Surplus data is dropped, and meta messages of no known type are kept as they are.
    Lenient,
    /// Meta messages that stray from the MIDI standard are refused.
    Strict,
}

/// Input that no reader can make sense of.
#[derive(Clone, Copy, Debug, PartialEq, Eq, Structural)]
pub enum Fault {
    /// The time before an event could not be read.
    EventDelta,
    /// What follows the time of an event could not be read.
    Event,
    /// The input ends where a status byte is due.
    Status,
    /// A data byte stands where a status byte is due, and no running status fills in for it.
    MissingStatus,
    /// No kind of event has this status byte.
    EventStatus,
    /// The data bytes of a MIDI message could not be read.
    MidiMessage,
    /// The contents of a System Exclusive event could not be read.
    SysEx,
    /// The contents of an escape event could not be read.
    Escape,
    /// A meta message could not be read.
    Meta,
    /// No MIDI message has this status byte.
    MidiStatus,
    /// The input ends where the type of a meta message is due.
    MetaType,
    /// The data of a meta message could not be read.
    MetaData,
    /// A SMPTE time could not be read.
    SmpteTime,
    /// A field of a SMPTE time is out of its range.
    SmpteField,
    /// The input ends inside an integer.
    Integer,
    /// An integer of variable length goes on after its fourth byte.
    VarlenLength,
    /// The length ahead of a byte string could not be read.
    SliceLength,
    /// The input ends inside a byte string.
    SliceData,
}

/// Input that strays from the MIDI standard but can be made sense of.
#[derive(Clone, Copy, Debug, PartialEq, Eq, Structural)]
pub enum Deviation {
    /// A track number with other than 0 or 2 bytes of data.
    TrackNumberLength,
    /// A MIDI channel with more than 1 byte of data.
    MidiChannelLength,
    /// A MIDI port with more than 1 byte of data.
    MidiPortLength,
    /// An end of track with data.
    EndOfTrackLength,
    /// A tempo with more than 3 bytes of data.
    TempoLength,
    /// A SMPTE offset with more than 5 bytes of data.
    SmpteOffsetLength,
    /// A time signature with more than 4 bytes of data.
    TimeSignatureLength,
    /// A meta message of no known type, or one too short for its type.
    UnknownMetaType,
}

/// One thing that went wrong while reading.
#[derive(Clone, Copy, Debug, PartialEq, Eq, Structural)]
pub enum ErrorKind {
    /// The input cannot be read.
    Invalid(Fault),
    /// The input is refused in strict mode only.
    Pedantic(Deviation),
}

impl ErrorKind {
    /// The text of `message`.
    pub open spec fn text(self) -> Seq<char> {
        match self {
            ErrorKind::Invalid(Fault::EventDelta) => "failed to read event deltatime"@,
            ErrorKind::Invalid(Fault::Event) => "failed to parse event"@,
            ErrorKind::Invalid(Fault::Status) => "failed to read status"@,
            ErrorKind::Invalid(Fault::MissingStatus) => "event missing status with no running status active"@,
            ErrorKind::Invalid(Fault::EventStatus) => "invalid event status"@,
            ErrorKind::Invalid(Fault::MidiMessage) => "failed to read midi message"@,
            ErrorKind::Invalid(Fault::SysEx) => "failed to read sysex event"@,
            ErrorKind::Invalid(Fault::Escape) => "failed to read escape event"@,
            ErrorKind::Invalid(Fault::Meta) => "failed to read meta event"@,
            ErrorKind::Invalid(Fault::MidiStatus) => "invalid midi message status"@,
            ErrorKind::Invalid(Fault::MetaType) => "failed to read meta message type"@,
            ErrorKind::Invalid(Fault::MetaData) => "failed to read meta message data"@,
            ErrorKind::Invalid(Fault::SmpteTime) => "failed to read smpte time"@,
            ErrorKind::Invalid(Fault::SmpteField) => "invalid smpte time"@,
            ErrorKind::Invalid(Fault::Integer) => "failed to read the expected integer"@,
            ErrorKind::Invalid(Fault::VarlenLength) => "varlen integer larger than 28 bits"@,
            ErrorKind::Invalid(Fault::SliceLength) => "failed to read varlen slice length"@,
            ErrorKind::Invalid(Fault::SliceData) => "incomplete varlen slice"@,
            ErrorKind::Pedantic(Deviation::TrackNumberLength) => "invalid tracknumber event length"@,
            ErrorKind::Pedantic(Deviation::MidiChannelLength) => "invalid midichannel event length"@,
            ErrorKind::Pedantic(Deviation::MidiPortLength) => "invalid midiport event length"@,
            ErrorKind::Pedantic(Deviation::EndOfTrackLength) => "invalid endoftrack event length"@,
            ErrorKind::Pedantic(Deviation::TempoLength) => "invalid tempo event length"@,
            ErrorKind::Pedantic(Deviation::SmpteOffsetLength) => "invalid smpteoffset event length"@,
            ErrorKind::Pedantic(Deviation::TimeSignatureLength) => "invalid timesignature event length"@,
            ErrorKind::Pedantic(Deviation::UnknownMetaType) => "unknown meta event type"@,
        }
    }

    /// A short description, for people.
    pub fn message(&self) -> (r: &'static str)
        ensures
            r@ == self.text(),
    {
        match self {
            ErrorKind::Invalid(Fault::EventDelta) => "failed to read event deltatime",
            ErrorKind::Invalid(Fault::Event) => "failed to parse event",
            ErrorKind::Invalid(Fault::Status) => "failed to read status",
            ErrorKind::Invalid(Fault::MissingStatus) => "event missing status with no running status active",
            ErrorKind::Invalid(Fault::EventStatus) => "invalid event status",
            ErrorKind::Invalid(Fault::MidiMessage) => "failed to read midi message",
            ErrorKind::Invalid(Fault::SysEx) => "failed to read sysex event",
            ErrorKind::Invalid(Fault::Escape) => "failed to read escape event",
            ErrorKind::Invalid(Fault::Meta) => "failed to read meta event",
            ErrorKind::Invalid(Fault::MidiStatus) => "invalid midi message status",
            ErrorKind::Invalid(Fault::MetaType) => "failed to read meta message type",
            ErrorKind::Invalid(Fault::MetaData) => "failed to read meta message data",
            ErrorKind::Invalid(Fault::SmpteTime) => "failed to read smpte time",
            ErrorKind::Invalid(Fault::SmpteField) => "invalid smpte time",
            ErrorKind::Invalid(Fault::Integer) => "failed to read the expected integer",
            ErrorKind::Invalid(Fault::VarlenLength) => "varlen integer larger than 28 bits",
            ErrorKind::Invalid(Fault::SliceLength) => "failed to read varlen slice length",
            ErrorKind::Invalid(Fault::SliceData) => "incomplete varlen slice",
            ErrorKind::Pedantic(Deviation::TrackNumberLength) => "invalid tracknumber event length",
            ErrorKind::Pedantic(Deviation::MidiChannelLength) => "invalid midichannel event length",
            ErrorKind::Pedantic(Deviation::MidiPortLength) => "invalid midiport event length",
            ErrorKind::Pedantic(Deviation::EndOfTrackLength) => "invalid endoftrack event length",
            ErrorKind::Pedantic(Deviation::TempoLength) => "invalid tempo event length",
            ErrorKind::Pedantic(Deviation::SmpteOffsetLength) => "invalid smpteoffset event length",
            ErrorKind::Pedantic(Deviation::TimeSignatureLength) => "invalid timesignature event length",
            ErrorKind::Pedantic(Deviation::UnknownMetaType) => "unknown meta event type",
        }
    }
}

/// What people are told of each error.
pub proof fn law_texts(kind: ErrorKind)
    ensures
        match kind {
            ErrorKind::Invalid(Fault::EventDelta) => kind.text() == "failed to read event deltatime"@,
            ErrorKind::Invalid(Fault::Event) => kind.text() == "failed to parse event"@,
            ErrorKind::Invalid(Fault::Status) => kind.text() == "failed to read status"@,
            ErrorKind::Invalid(Fault::MissingStatus) => kind.text() == "event missing status with no running status active"@,
            ErrorKind::Invalid(Fault::EventStatus) => kind.text() == "invalid event status"@,
            ErrorKind::Invalid(Fault::MidiMessage) => kind.text() == "failed to read midi message"@,
            ErrorKind::Invalid(Fault::SysEx) => kind.text() == "failed to read sysex event"@,
            ErrorKind::Invalid(Fault::Escape) => kind.text() == "failed to read escape event"@,
            ErrorKind::Invalid(Fault::Meta) => kind.text() == "failed to read meta event"@,
            ErrorKind::Invalid(Fault::MidiStatus) => kind.text() == "invalid midi message status"@,
            ErrorKind::Invalid(Fault::MetaType) => kind.text() == "failed to read meta message type"@,
            ErrorKind::Invalid(Fault::MetaData) => kind.text() == "failed to read meta message data"@,
            ErrorKind::Invalid(Fault::SmpteTime) => kind.text() == "failed to read smpte time"@,
            ErrorKind::Invalid(Fault::SmpteField) => kind.text() == "invalid smpte time"@,
            ErrorKind::Invalid(Fault::Integer) => kind.text() == "failed to read the expected integer"@,
            ErrorKind::Invalid(Fault::VarlenLength) => kind.text() == "varlen integer larger than 28 bits"@,
            ErrorKind::Invalid(Fault::SliceLength) => kind.text() == "failed to read varlen slice length"@,
            ErrorKind::Invalid(Fault::SliceData) => kind.text() == "incomplete varlen slice"@,
            ErrorKind::Pedantic(Deviation::TrackNumberLength) => kind.text() == "invalid tracknumber event length"@,
            ErrorKind::Pedantic(Deviation::MidiChannelLength) => kind.text() == "invalid midichannel event length"@,
            ErrorKind::Pedantic(Deviation::MidiPortLength) => kind.text() == "invalid midiport event length"@,
            ErrorKind::Pedantic(Deviation::EndOfTrackLength) => kind.text() == "invalid endoftrack event length"@,
            ErrorKind::Pedantic(Deviation::TempoLength) => kind.text() == "invalid tempo event length"@,
            ErrorKind::Pedantic(Deviation::SmpteOffsetLength) => kind.text() == "invalid smpteoffset event length"@,
            ErrorKind::Pedantic(Deviation::TimeSignatureLength) => kind.text() == "invalid timesignature event length"@,
            ErrorKind::Pedantic(Deviation::UnknownMetaType) => kind.text() == "unknown meta event type"@,
        },
{
}

/// Why reading failed: a cause, and the attempts that it made fail in turn.
#[derive(Clone, Debug, PartialEq, Eq)]
pub struct Error {
    cause: ErrorKind,
    context: Vec<ErrorKind>,
}

/// All that went wrong, from the cause outwards.
impl View for Error {
    type V = Seq<ErrorKind>;

    closed spec fn view(&self) -> Seq<ErrorKind> {
        seq![self.cause] + self.context@
    }
}

impl Error {
    /// An error with no context yet.
    pub fn new(cause: ErrorKind) -> (r: Error)
        ensures
            r@ == seq![cause],
    {
        Error { cause, context: Vec::new() }
    }

    /// The same error, seen from the attempt that it made fail.
    pub fn context(self, kind: ErrorKind) -> (r: Error)
        ensures
            r@ == self@.push(kind),
    {
        let mut context = self.context;
        context.push(kind);
        Error { cause: self.cause, context }
    }

    /// What failed first, deepest inside.
    pub fn cause(&self) -> (r: ErrorKind)
        ensures
            r == self@[0],
    {
        self.cause
    }

    /// What failed in the end: the outermost attempt.
    pub fn kind(&self) -> (r: ErrorKind)
        ensures
            r == self@.last(),
    {
        let len = self.context.len();
        if len == 0 {
            self.cause
        } else {
            self.context[len - 1]
        }
    }

    /// All that went wrong, from the cause outwards.
    pub fn chain(&self) -> (r: Vec<ErrorKind>)
        ensures
            r@ == self@,
    {
        let mut chain: Vec<ErrorKind> = Vec::new();
        chain.push(self.cause);
        chain.extend_from_slice(&self.context);
        assert(chain@ == self@);
        chain
    }
}

/// A result of reading, with the error down to what contracts speak of.
pub open spec fn plain<T>(r: Result<T, Error>) -> Result<T, Seq<ErrorKind>> {
    match r {
        Ok(value) => Ok(value),
        Err(error) => Err(error@),
    }
}

/// A result of reading, with the value as well as the error down to what contracts speak of.
pub open spec fn outcome<T: View>(r: Result<T, Error>) -> Result<T::V, Seq<ErrorKind>> {
    match r {
        Ok(value) => Ok(value@),
        Err(error) => Err(error@),
    }
}

/// What comes of an attempt that fails, with `fault`, where one inside it fails.
pub open spec fn within<T>(
    r: Result<T, Seq<ErrorKind>>,
    fault: Fault,
) -> Result<T, Seq<ErrorKind>> {
    match r {
        Ok(value) => Ok(value),
        Err(chain) => Err(chain.push(ErrorKind::Invalid(fault))),
    }
}

/// The error of an attempt that fails by itself.
pub open spec fn fails<T>(kind: ErrorKind) -> Result<T, Seq<ErrorKind>> {
    Err(seq![kind])
}

pub(crate) fn invalid(fault: Fault) -> (r: Error)
    ensures
        r@ == seq![ErrorKind::Invalid(fault)],
{
    Error::new(ErrorKind::Invalid(fault))
}

pub(crate) fn pedantic(deviation: Deviation) -> (r: Error)
    ensures
        r@ == seq![ErrorKind::Pedantic(deviation)],
{
    Error::new(ErrorKind::Pedantic(deviation))
}

/// Adds `fault` to the error, where there is one.
pub(crate) fn context<T>(r: Result<T, Error>, fault: Fault) -> (s: Result<T, Error>)
    ensures
        plain(s) == within(plain(r), fault),
{
    match r {
        Ok(value) => Ok(value),
        Err(error) => Err(error.context(ErrorKind::Invalid(fault))),
    }
}

/// Why writing failed.
#[derive(Clone, Copy, Debug, PartialEq, Eq, Structural)]
pub enum WriteError {
    /// A byte string is too long for its length to fit in 28 bits.
    SliceTooLong,
}

} // verus!
