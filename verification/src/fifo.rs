//! The accelerometer's sample buffer.
//!
//! The buffer is drained through a single word of the user bank, each read
//! of which takes one entry out. It holds one entry of two bytes per axis,
//! so three entries make a sample. Switching measurement on resets the
//! buffer and leaves three entries in it that are no measurements; they are
//! read off and dropped before any sample is taken.

use vstd::pervasive::unreached;
use vstd::prelude::*;

use crate::codec::{decode_word, reinterpret_signed, signed_value, word_from_bytes};
use crate::layout::{user, user_word};
use crate::link::{
    payload, receive, reception, word_at, word_in, Command, ProtocolError, Reply, Step,
};
use crate::registers::{read_register, register_read, Register};

verus! {

/// Word of the user bank through which the sample buffer is drained.
pub const FIFO_PORT: u16 = 0x280;

/// Entries that the buffer holds after a reset and that are no
/// measurements.
pub const BOOTSTRAP_ENTRIES: u16 = 3;

/// Entries per sample, one for each axis.
pub const ENTRIES_PER_SAMPLE: u16 = 3;

/// Milliseconds between two samples at 12.5 samples a second.
pub const SAMPLE_INTERVAL_MS: i64 = 80;

/// The read that takes `entries` entries out of the sample buffer.
pub open spec fn fifo_read(entries: u16) -> Command {
    user_word(FIFO_PORT).reading(entries)
}

/// The words that `bytes` hold, in order. An odd byte at the end is part
/// of no word.
pub open spec fn words_of(bytes: Seq<u8>) -> Seq<u16> {
    Seq::new((bytes.len() / 2) as nat, |i: int| word_in(bytes, i))
}

/// The axis readings that `bytes` hold: each word, read as a signed number.
pub open spec fn readings_of(bytes: Seq<u8>) -> Seq<i16> {
    Seq::new((bytes.len() / 2) as nat, |i: int| signed_value(word_in(bytes, i)) as i16)
}

/// The number of entries that the two count registers report, low register
/// first.
pub open spec fn entry_count(bytes: Seq<u8>) -> u16 {
    word_from_bytes(bytes[3], bytes[1])
}

/// Makes the read that takes `entries` entries out of the sample buffer.
pub fn read_fifo_command(entries: u16) -> (command: Command)
    ensures
        command == fifo_read(entries),
{
    user(FIFO_PORT).read(entries)
}

/// Reads the raw entries out of what a buffer read returned.
pub fn raw_entries(bytes: &Vec<u8>) -> (words: Vec<u16>)
    ensures
        words@ == words_of(bytes@),
{
    let total: usize = bytes.len();
    let count: usize = total / 2;
    let mut words: Vec<u16> = Vec::new();
    let mut i: usize = 0;
    while i < count
        invariant
            total == bytes@.len(),
            count == total / 2,
            i <= count,
            words@.len() == i,
            forall|k: int| 0 <= k < i ==> words@[k] == word_in(bytes@, k),
        decreases count - i,
    {
        words.push(word_at(bytes, i));
        i = i + 1;
    }
    assert(words@ =~= words_of(bytes@));
    words
}

/// Reads the axis readings out of what a buffer read returned.
pub fn decode_entries(bytes: &Vec<u8>) -> (readings: Vec<i16>)
    ensures
        readings@ == readings_of(bytes@),
{
    let total: usize = bytes.len();
    let count: usize = total / 2;
    let mut readings: Vec<i16> = Vec::new();
    let mut i: usize = 0;
    while i < count
        invariant
            total == bytes@.len(),
            count == total / 2,
            i <= count,
            readings@.len() == i,
            forall|k: int| 0 <= k < i ==> readings@[k] == signed_value(word_in(bytes@, k)) as i16,
        decreases count - i,
    {
        readings.push(reinterpret_signed(word_at(bytes, i)));
        i = i + 1;
    }
    assert(readings@ =~= readings_of(bytes@));
    readings
}

/// The question of how many entries the sample buffer holds.
#[derive(Clone, Copy, Debug, PartialEq, Eq, Structural)]
pub struct GetNumFifoEntries {}

impl GetNumFifoEntries {
    /// What the question does on `reply`: it ends, with the reader's
    /// failure or with the count that the two registers hold.
    pub open spec fn next(self, reply: Reply) -> Step<GetNumFifoEntries, u16> {
        match reception(register_read(Register::FifoEntriesL, 2), reply) {
            Err(e) => Step::Finish(Err(e)),
            Ok(_) => Step::Finish(Ok(entry_count(payload(reply)))),
        }
    }

    /// Starts the question: the read of the two count registers goes out.
    pub fn begin() -> (start: (GetNumFifoEntries, Command))
        ensures
            start.1 == register_read(Register::FifoEntriesL, 2),
    {
        (GetNumFifoEntries {  }, read_register(Register::FifoEntriesL, 2))
    }

    /// Takes the reply to the read.
    pub fn advance(self, reply: &Reply) -> (step: Step<GetNumFifoEntries, u16>)
        ensures
            step == self.next(*reply),
    {
        match take_count(reply) {
            Err(e) => Step::Finish(Err(e)),
            Ok(count) => Step::Finish(Ok(count)),
        }
    }
}

/// Takes `reply` as the answer to the read of the two count registers.
pub fn take_count(reply: &Reply) -> (r: Result<u16, ProtocolError>)
    ensures
        r == match reception(register_read(Register::FifoEntriesL, 2), *reply) {
            Err(e) => Err::<u16, ProtocolError>(e),
            Ok(_) => Ok::<u16, ProtocolError>(entry_count(payload(*reply))),
        },
{
    match receive(read_register(Register::FifoEntriesL, 2), reply) {
        Err(e) => Err(e),
        Ok(_) => match reply {
            Reply::Data(bytes) => Ok(crate::codec::decode_word([bytes[3], bytes[1]])),
            _ => unreached(),
        },
    }
}

/// Reading entries off the sample buffer, which takes them out of it.
#[derive(Clone, Copy, Debug, PartialEq, Eq, Structural)]
pub struct ReadFifo {
    /// How many entries are asked for.
    pub entries: u16,
}

impl ReadFifo {
    /// Whether `step` is what the read does on `reply`: it ends, with the
    /// reader's failure or with the raw entries in the order in which they
    /// left the buffer.
    pub open spec fn leads_to(self, reply: Reply, step: Step<ReadFifo, Vec<u16>>) -> bool {
        match reception(fifo_read(self.entries), reply) {
            Err(e) => step == Step::<ReadFifo, Vec<u16>>::Finish(Err(e)),
            Ok(_) => match step {
                Step::Finish(Ok(words)) => words@ == words_of(payload(reply)),
                _ => false,
            },
        }
    }

    /// Starts the read of `entries` entries.
    pub fn begin(entries: u16) -> (start: (ReadFifo, Command))
        ensures
            start.0.entries == entries,
            start.1 == fifo_read(entries),
    {
        (ReadFifo { entries }, read_fifo_command(entries))
    }

    /// Takes the reply to the read.
    pub fn advance(self, reply: &Reply) -> (step: Step<ReadFifo, Vec<u16>>)
        ensures
            self.leads_to(*reply, step),
            step matches Step::Finish(Ok(words)) ==> words@.len() == self.entries,
    {
        match receive(read_fifo_command(self.entries), reply) {
            Err(e) => Step::Finish(Err(e)),
            Ok(_) => match reply {
                Reply::Data(bytes) => Step::Finish(Ok(raw_entries(bytes))),
                _ => unreached(),
            },
        }
    }
}

/// Draining the sample buffer: the count is read, then that many entries.
#[derive(Clone, Copy, Debug, PartialEq, Eq, Structural)]
pub enum GetFifoEntries {
    /// The read of the count registers is out.
    Counting,
    /// The read of `entries` entries is out.
    Reading { entries: u16 },
}

impl GetFifoEntries {
    /// Whether `step` is what the drain in state `self` does on `reply`.
    ///
    /// Any failure ends it. An empty buffer ends it with no readings and
    /// nothing more is read; otherwise all entries that the count gave
    /// are read at once, and the drain ends with their readings in order.
    pub open spec fn leads_to(self, reply: Reply, step: Step<GetFifoEntries, Vec<i16>>) -> bool {
        match self {
            GetFifoEntries::Counting => match reception(
                register_read(Register::FifoEntriesL, 2),
                reply,
            ) {
                Err(e) => step == Step::<GetFifoEntries, Vec<i16>>::Finish(Err(e)),
                Ok(_) => {
                    let entries = entry_count(payload(reply));
                    if entries == 0 {
                        step matches Step::Finish(Ok(readings)) && readings@.len() == 0
                    } else {
                        step == Step::<GetFifoEntries, Vec<i16>>::Issue(
                            GetFifoEntries::Reading { entries },
                            fifo_read(entries),
                        )
                    }
                },
            },
            GetFifoEntries::Reading { entries } => match reception(fifo_read(entries), reply) {
                Err(e) => step == Step::<GetFifoEntries, Vec<i16>>::Finish(Err(e)),
                Ok(_) => match step {
                    Step::Finish(Ok(readings)) => readings@ == readings_of(payload(reply)),
                    _ => false,
                },
            },
        }
    }

    /// Starts the drain: the read of the count registers goes out.
    pub fn begin() -> (start: (GetFifoEntries, Command))
        ensures
            start.0 == GetFifoEntries::Counting,
            start.1 == register_read(Register::FifoEntriesL, 2),
    {
        (GetFifoEntries::Counting, read_register(Register::FifoEntriesL, 2))
    }

    /// Takes the reply to the command that is out.
    pub fn advance(self, reply: &Reply) -> (step: Step<GetFifoEntries, Vec<i16>>)
        ensures
            self.leads_to(*reply, step),
    {
        match self {
            GetFifoEntries::Counting => match take_count(reply) {
                Err(e) => Step::Finish(Err(e)),
                Ok(entries) => if entries == 0 {
                    Step::Finish(Ok(Vec::new()))
                } else {
                    Step::Issue(GetFifoEntries::Reading { entries }, read_fifo_command(entries))
                },
            },
            GetFifoEntries::Reading { entries } => match receive(
                read_fifo_command(entries),
                reply,
            ) {
                Err(e) => Step::Finish(Err(e)),
                Ok(_) => match reply {
                    Reply::Data(bytes) => Step::Finish(Ok(decode_entries(bytes))),
                    _ => unreached(),
                },
            },
        }
    }
}

/// One sample of the accelerometer: a reading for each axis, and the time
/// at which it was taken, in milliseconds of the time of day.
#[derive(Clone, Copy, Debug, PartialEq, Eq, Structural)]
pub struct AccelSample {
    pub x: i16,
    pub y: i16,
    pub z: i16,
    pub timestamp_ms: i64,
}

/// The time of the sample at position `index`, counted from zero, of a
/// window that started at `start_ms`: the buffer fills at a fixed rate, so
/// the first sample is one interval after the start and each further one an
/// interval later.
pub open spec fn sample_time(start_ms: i64, index: int) -> int {
    start_ms + (index + 1) * SAMPLE_INTERVAL_MS
}

/// The sample at position `index` of `readings`: three readings in a row,
/// for x, y and z.
pub open spec fn sample_at(readings: Seq<i16>, start_ms: i64, index: int) -> AccelSample {
    AccelSample {
        x: readings[3 * index],
        y: readings[3 * index + 1],
        z: readings[3 * index + 2],
        timestamp_ms: sample_time(start_ms, index) as i64,
    }
}

/// The samples that `readings` hold.
pub open spec fn samples_of(readings: Seq<i16>, start_ms: i64) -> Seq<AccelSample> {
    Seq::new((readings.len() / 3) as nat, |k: int| sample_at(readings, start_ms, k))
}

/// Whether `readings` are whole samples.
pub open spec fn whole_samples(readings: Seq<i16>) -> bool {
    readings.len() % 3 == 0
}

/// Groups the readings of a drained buffer into samples and gives each its
/// time.
///
/// Readings that do not make whole samples are refused as a corrupt
/// buffer: no sample is made of a part, and none of the whole ones before
/// it is handed out either.
pub fn group_samples(readings: &Vec<i16>, start_ms: i64) -> (r: Result<
    Vec<AccelSample>,
    ProtocolError,
>)
    requires
        start_ms + (readings@.len() / 3) * SAMPLE_INTERVAL_MS <= i64::MAX,
    ensures
        match r {
            Ok(samples) => {
                &&& whole_samples(readings@)
                &&& samples@ == samples_of(readings@, start_ms)
                &&& 3 * samples@.len() == readings@.len()
            },
            Err(e) => !whole_samples(readings@) && e == ProtocolError::CorruptFifo,
        },
{
    let total: usize = readings.len();
    if total % 3 != 0 {
        return Err(ProtocolError::CorruptFifo);
    }
    let count: usize = total / 3;
    let mut samples: Vec<AccelSample> = Vec::new();
    let mut time: i64 = start_ms;
    let mut k: usize = 0;
    while k < count
        invariant
            total == readings@.len(),
            total % 3 == 0,
            count == total / 3,
            k <= count,
            time == start_ms + k * SAMPLE_INTERVAL_MS,
            start_ms + count * SAMPLE_INTERVAL_MS <= i64::MAX,
            samples@.len() == k,
            forall|j: int| 0 <= j < k ==> samples@[j] == sample_at(readings@, start_ms, j),
        decreases count - k,
    {
        assert(time + SAMPLE_INTERVAL_MS <= start_ms + count * SAMPLE_INTERVAL_MS)
            by (nonlinear_arith)
            requires
                time == start_ms + k * SAMPLE_INTERVAL_MS,
                k < count,
        ;
        time = time + SAMPLE_INTERVAL_MS;
        assert(time == sample_time(start_ms, k as int)) by (nonlinear_arith)
            requires
                time == start_ms + k * SAMPLE_INTERVAL_MS + SAMPLE_INTERVAL_MS,
        ;
        let at: usize = 3 * k;
        samples.push(
            AccelSample {
                x: readings[at],
                y: readings[at + 1],
                z: readings[at + 2],
                timestamp_ms: time,
            },
        );
        k = k + 1;
    }
    assert(samples@ =~= samples_of(readings@, start_ms));
    Ok(samples)
}

/// Everything that the sample buffer held after a measurement, as raw
/// entries in the order in which they left it. The first three are what
/// the reset left behind.
#[derive(Debug, PartialEq, Eq)]
pub struct FifoSnapshot {
    pub entries: Vec<u16>,
}

impl FifoSnapshot {
    /// Whether the snapshot can be read: the three entries of the reset are
    /// there and whole samples follow them.
    pub open spec fn well_formed(self) -> bool {
        self.entries@.len() >= BOOTSTRAP_ENTRIES && (self.entries@.len() - BOOTSTRAP_ENTRIES) % 3
            == 0
    }

    /// The readings that follow the three entries of the reset.
    pub open spec fn measured(self) -> Seq<i16> {
        Seq::new(
            (self.entries@.len() - BOOTSTRAP_ENTRIES) as nat,
            |i: int| signed_value(self.entries@[i + BOOTSTRAP_ENTRIES]) as i16,
        )
    }

    /// Drops the three entries of the reset and groups the rest into
    /// samples.
    ///
    /// A snapshot that is short of those three entries, or that holds a
    /// part of a sample after them, is a corrupt buffer and gives no sample
    /// at all.
    pub fn samples(&self, start_ms: i64) -> (r: Result<Vec<AccelSample>, ProtocolError>)
        requires
            start_ms + (self.entries@.len() / 3) * SAMPLE_INTERVAL_MS <= i64::MAX,
        ensures
            match r {
                Ok(samples) => {
                    &&& self.well_formed()
                    &&& samples@ == samples_of(self.measured(), start_ms)
                    &&& BOOTSTRAP_ENTRIES + 3 * samples@.len() == self.entries@.len()
                },
                Err(e) => !self.well_formed() && e == ProtocolError::CorruptFifo,
            },
    {
        let total: usize = self.entries.len();
        if total < BOOTSTRAP_ENTRIES as usize || (total - BOOTSTRAP_ENTRIES as usize) % 3 != 0 {
            return Err(ProtocolError::CorruptFifo);
        }
        let mut readings: Vec<i16> = Vec::new();
        let mut i: usize = BOOTSTRAP_ENTRIES as usize;
        while i < total
            invariant
                total == self.entries@.len(),
                BOOTSTRAP_ENTRIES <= i <= total,
                readings@.len() == i - BOOTSTRAP_ENTRIES,
                forall|k: int|
                    0 <= k < i - BOOTSTRAP_ENTRIES ==> readings@[k] == signed_value(
                        self.entries@[k + BOOTSTRAP_ENTRIES],
                    ) as i16,
            decreases total - i,
        {
            readings.push(reinterpret_signed(self.entries[i]));
            i = i + 1;
        }
        assert(readings@ =~= self.measured());
        group_samples(&readings, start_ms)
    }
}

} // verus!
