//! The vocabulary spoken with the reader.
//!
//! The reader is not part of this crate. An operation names what it wants
//! done as a [`Command`]; the caller carries it out on the selected tag and
//! reports what happened as a [`Reply`]. Nothing else crosses the boundary.

use vstd::prelude::*;

use crate::codec::{decode_word, word_from_bytes};

verus! {

/// One of the four address spaces of a tag. Addresses are word offsets
/// within a bank.
#[derive(Clone, Copy, Debug, PartialEq, Eq, Structural)]
pub enum MemoryBank {
    Reserved,
    Epc,
    Tid,
    User,
}

/// A word of tag memory: a bank and a word offset within it.
#[derive(Clone, Copy, Debug, PartialEq, Eq, Structural)]
pub struct ControlWord {
    pub bank: MemoryBank,
    pub address: u16,
}

/// One request to the reader, acting on the tag of the session.
#[derive(Clone, Copy, Debug, PartialEq, Eq, Structural)]
pub enum Command {
    /// Select the tag, so that the reads and writes that follow reach it.
    Select,
    /// Read `words` consecutive words starting at `address`.
    Read { bank: MemoryBank, address: u16, words: u16 },
    /// Write one word; it goes out most significant byte first.
    Write { bank: MemoryBank, address: u16, word: u16 },
    /// Do nothing for `millis` milliseconds while the hardware settles.
    Settle { millis: u32 },
    /// Run a single low-level inventory cycle.
    Refresh,
    /// Run inventory cycles for `millis` milliseconds, which keeps the tag
    /// in the field and powered.
    SampleWindow { millis: u32 },
    /// Read the clocks.
    ReadClock,
}

/// Why the reader could not carry a command out.
#[derive(Clone, Copy, Debug, PartialEq, Eq, Structural)]
pub enum LinkError {
    NoResponse,
    Timeout,
    MalformedReply,
}

/// Why an operation failed.
#[derive(Clone, Copy, Debug, PartialEq, Eq, Structural)]
pub enum ProtocolError {
    /// The active calibration word has drifted from the factory word.
    CalibrationMismatch,
    /// The accelerometer's buffer does not hold whole samples.
    CorruptFifo,
    /// The reader failed.
    Link(LinkError),
}

/// Signal statistics of one sampling window.
#[derive(Clone, Copy, Debug, PartialEq, Eq, Structural)]
pub struct LinkStats {
    pub peak_signal: i32,
}

/// The two clocks, read together: one that never runs backwards, for
/// measuring how long something took, and the time of day, both in
/// milliseconds.
#[derive(Clone, Copy, Debug, PartialEq, Eq, Structural)]
pub struct ClockReading {
    pub monotonic_ms: u64,
    pub utc_ms: i64,
}

/// What came of a command.
#[derive(Debug, PartialEq, Eq)]
pub enum Reply {
    /// The command was carried out and has nothing to report.
    Done,
    /// The bytes that a read returned, two per word, most significant first.
    Data(Vec<u8>),
    /// The statistics of a sampling window.
    Stats(LinkStats),
    /// The clocks.
    Clock(ClockReading),
    /// The command failed.
    Failed(LinkError),
}

/// What an operation does next: hand out another command and wait for its
/// reply, or end with a result.
pub enum Step<S, T> {
    Issue(S, Command),
    Finish(Result<T, ProtocolError>),
}

/// Whether `reply` is a well-formed answer to `command`: the right kind of
/// reply, and for a read the right number of bytes.
pub open spec fn answers(command: Command, reply: Reply) -> bool {
    match command {
        Command::Read { words, .. } => match reply {
            Reply::Data(bytes) => bytes@.len() == 2 * words,
            _ => false,
        },
        Command::SampleWindow { .. } => reply is Stats,
        Command::ReadClock => reply is Clock,
        _ => reply is Done,
    }
}

/// How an operation that fails fast takes `reply` to `command`: a failure
/// of the reader is passed on, and an answer of the wrong shape counts as a
/// malformed reply.
pub open spec fn reception(command: Command, reply: Reply) -> Result<(), ProtocolError> {
    match reply {
        Reply::Failed(e) => Err(ProtocolError::Link(e)),
        _ => if answers(command, reply) {
            Ok(())
        } else {
            Err(ProtocolError::Link(LinkError::MalformedReply))
        },
    }
}

/// Checks `reply` as the answer to `command`.
pub fn receive(command: Command, reply: &Reply) -> (r: Result<(), ProtocolError>)
    ensures
        r == reception(command, *reply),
{
    match reply {
        Reply::Failed(e) => Err(ProtocolError::Link(*e)),
        Reply::Done => match command {
            Command::Select | Command::Write { .. } | Command::Settle { .. } | Command::Refresh => Ok(()),
            _ => Err(ProtocolError::Link(LinkError::MalformedReply)),
        },
        Reply::Data(bytes) => match command {
            Command::Read { words, .. } => if bytes.len() == 2 * (words as usize) {
                Ok(())
            } else {
                Err(ProtocolError::Link(LinkError::MalformedReply))
            },
            _ => Err(ProtocolError::Link(LinkError::MalformedReply)),
        },
        Reply::Stats(_) => match command {
            Command::SampleWindow { .. } => Ok(()),
            _ => Err(ProtocolError::Link(LinkError::MalformedReply)),
        },
        Reply::Clock(_) => match command {
            Command::ReadClock => Ok(()),
            _ => Err(ProtocolError::Link(LinkError::MalformedReply)),
        },
    }
}

/// The bytes that `reply` carries; none where it is no data reply.
pub open spec fn payload(reply: Reply) -> Seq<u8> {
    match reply {
        Reply::Data(bytes) => bytes@,
        _ => Seq::empty(),
    }
}

/// The word that starts at byte `2 * index` of `bytes`.
pub open spec fn word_in(bytes: Seq<u8>, index: int) -> u16 {
    word_from_bytes(bytes[2 * index], bytes[2 * index + 1])
}

/// Reads the word that starts at byte `2 * index` of `bytes`.
pub fn word_at(bytes: &Vec<u8>, index: usize) -> (word: u16)
    requires
        2 * index + 1 < bytes@.len(),
    ensures
        word == word_in(bytes@, index as int),
{
    let total: usize = bytes.len();
    assert(2 * index + 1 < total);
    let at: usize = 2 * index;
    decode_word([bytes[at], bytes[at + 1]])
}

impl ControlWord {
    /// The read of `words` words starting at this one.
    pub open spec fn reading(self, words: u16) -> Command {
        Command::Read { bank: self.bank, address: self.address, words }
    }

    /// The write of `word` to this word.
    pub open spec fn writing(self, word: u16) -> Command {
        Command::Write { bank: self.bank, address: self.address, word }
    }

    /// Makes the read of `words` words starting at this one.
    pub fn read(&self, words: u16) -> (command: Command)
        ensures
            command == self.reading(words),
    {
        Command::Read { bank: self.bank, address: self.address, words }
    }

    /// Makes the write of `word` to this word.
    pub fn write(&self, word: u16) -> (command: Command)
        ensures
            command == self.writing(word),
    {
        Command::Write { bank: self.bank, address: self.address, word }
    }
}

} // verus!
