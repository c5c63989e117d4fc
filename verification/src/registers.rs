//! The accelerometer's registers, as the tag shows them.
//!
//! The accelerometer has no link of its own. The tag maps its registers
//! into the user bank, one register to a word, with the register's byte in
//! the low half of the word.

use vstd::pervasive::unreached;
use vstd::prelude::*;

use crate::layout::{user, user_word};
use crate::link::{payload, receive, reception, Command, ControlWord, MemoryBank, Reply, Step};

verus! {

/// Word of the user bank at which the register window starts: register `r`
/// is the word at this address plus `r`.
pub const REGISTER_WINDOW: u16 = 0x200;

/// Number of register addresses of the accelerometer; the last register
/// is the one before.
pub const REGISTER_SPACE: u16 = 0x2F;

/// The registers of the accelerometer.
#[derive(Clone, Copy, Debug, PartialEq, Eq, Structural)]
pub enum Register {
    DevIdAd,
    DevIdMst,
    PartId,
    RevId,
    XData,
    YData,
    ZData,
    Status,
    FifoEntriesL,
    FifoEntriesH,
    XDataL,
    XDataH,
    YDataL,
    YDataH,
    ZDataL,
    ZDataH,
    TempL,
    TempH,
    SoftReset,
    ThreshActL,
    ThreshActH,
    TimeAct,
    ThreshInactL,
    ThreshInactH,
    TimeInactL,
    TimeInactH,
    ActInactCtl,
    FifoControl,
    FifoSamples,
    IntMap1,
    IntMap2,
    FilterCtl,
    PowerCtl,
    SelfTest,
}

impl Register {
    /// The register's address within the accelerometer.
    pub open spec fn offset(self) -> u8 {
        match self {
            Register::DevIdAd => 0x00,
            Register::DevIdMst => 0x01,
            Register::PartId => 0x02,
            Register::RevId => 0x03,
            Register::XData => 0x08,
            Register::YData => 0x09,
            Register::ZData => 0x0A,
            Register::Status => 0x0B,
            Register::FifoEntriesL => 0x0C,
            Register::FifoEntriesH => 0x0D,
            Register::XDataL => 0x0E,
            Register::XDataH => 0x0F,
            Register::YDataL => 0x10,
            Register::YDataH => 0x11,
            Register::ZDataL => 0x12,
            Register::ZDataH => 0x13,
            Register::TempL => 0x14,
            Register::TempH => 0x15,
            Register::SoftReset => 0x1F,
            Register::ThreshActL => 0x20,
            Register::ThreshActH => 0x21,
            Register::TimeAct => 0x22,
            Register::ThreshInactL => 0x23,
            Register::ThreshInactH => 0x24,
            Register::TimeInactL => 0x25,
            Register::TimeInactH => 0x26,
            Register::ActInactCtl => 0x27,
            Register::FifoControl => 0x28,
            Register::FifoSamples => 0x29,
            Register::IntMap1 => 0x2A,
            Register::IntMap2 => 0x2B,
            Register::FilterCtl => 0x2C,
            Register::PowerCtl => 0x2D,
            Register::SelfTest => 0x2E,
        }
    }

    /// The register's address within the accelerometer.
    pub fn address(self) -> (a: u8)
        ensures
            a == self.offset(),
            a <= 0x2E,
    {
        match self {
            Register::DevIdAd => 0x00,
            Register::DevIdMst => 0x01,
            Register::PartId => 0x02,
            Register::RevId => 0x03,
            Register::XData => 0x08,
            Register::YData => 0x09,
            Register::ZData => 0x0A,
            Register::Status => 0x0B,
            Register::FifoEntriesL => 0x0C,
            Register::FifoEntriesH => 0x0D,
            Register::XDataL => 0x0E,
            Register::XDataH => 0x0F,
            Register::YDataL => 0x10,
            Register::YDataH => 0x11,
            Register::ZDataL => 0x12,
            Register::ZDataH => 0x13,
            Register::TempL => 0x14,
            Register::TempH => 0x15,
            Register::SoftReset => 0x1F,
            Register::ThreshActL => 0x20,
            Register::ThreshActH => 0x21,
            Register::TimeAct => 0x22,
            Register::ThreshInactL => 0x23,
            Register::ThreshInactH => 0x24,
            Register::TimeInactL => 0x25,
            Register::TimeInactH => 0x26,
            Register::ActInactCtl => 0x27,
            Register::FifoControl => 0x28,
            Register::FifoSamples => 0x29,
            Register::IntMap1 => 0x2A,
            Register::IntMap2 => 0x2B,
            Register::FilterCtl => 0x2C,
            Register::PowerCtl => 0x2D,
            Register::SelfTest => 0x2E,
        }
    }
}

/// The word of tag memory through which `register` is reached.
pub open spec fn register_word(register: Register) -> ControlWord {
    user_word((REGISTER_WINDOW + register.offset()) as u16)
}

/// The read of `count` registers, starting at `first`.
pub open spec fn register_read(first: Register, count: u16) -> Command {
    register_word(first).reading(count)
}

/// The write of `value` to `register`.
pub open spec fn register_write(register: Register, value: u8) -> Command {
    register_word(register).writing(value as u16)
}

/// The bytes of the registers that a register read returned: the low byte
/// of each word.
pub open spec fn register_values(bytes: Seq<u8>) -> Seq<u8> {
    Seq::new((bytes.len() / 2) as nat, |i: int| bytes[2 * i + 1])
}

/// The word of tag memory through which `register` is reached.
pub fn word_of(register: Register) -> (word: ControlWord)
    ensures
        word == register_word(register),
{
    user(REGISTER_WINDOW + register.address() as u16)
}

/// Makes the read of `count` registers, starting at `first`.
pub fn read_register(first: Register, count: u16) -> (command: Command)
    ensures
        command == register_read(first, count),
{
    word_of(first).read(count)
}

/// Makes the write of `value` to `register`.
pub fn write_register(register: Register, value: u8) -> (command: Command)
    ensures
        command == register_write(register, value),
{
    word_of(register).write(value as u16)
}

/// Picks the register bytes out of what a register read returned.
pub fn register_bytes(bytes: &Vec<u8>) -> (values: Vec<u8>)
    ensures
        values@ == register_values(bytes@),
{
    let total: usize = bytes.len();
    let count: usize = total / 2;
    let mut values: Vec<u8> = Vec::new();
    let mut i: usize = 0;
    while i < count
        invariant
            total == bytes@.len(),
            count == total / 2,
            i <= count,
            values@.len() == i,
            forall|k: int| 0 <= k < i ==> values@[k] == bytes@[2 * k + 1],
        decreases count - i,
    {
        values.push(bytes[2 * i + 1]);
        i = i + 1;
    }
    assert(values@ =~= register_values(bytes@));
    values
}

/// The writes that set the registers from `first` on to `data`, a write
/// for each byte.
pub open spec fn register_writes(first: Register, data: Seq<u8>) -> Seq<Command> {
    Seq::new(
        data.len(),
        |i: int|
            Command::Write {
                bank: MemoryBank::User,
                address: (REGISTER_WINDOW + first.offset() + i) as u16,
                word: data[i] as u16,
            },
    )
}

/// Lists the writes that set the registers from `first` on to `data`.
/// There is no such list where `data` runs past the last register.
pub fn write_registers(first: Register, data: &Vec<u8>) -> (plan: Option<Vec<Command>>)
    ensures
        match plan {
            Some(writes) => {
                &&& first.offset() + data@.len() <= REGISTER_SPACE
                &&& writes@ == register_writes(first, data@)
            },
            None => first.offset() + data@.len() > REGISTER_SPACE,
        },
{
    let offset: u16 = first.address() as u16;
    let total: usize = data.len();
    if total > (REGISTER_SPACE - offset) as usize {
        return None;
    }
    let mut writes: Vec<Command> = Vec::new();
    let mut i: usize = 0;
    while i < total
        invariant
            total == data@.len(),
            offset == first.offset(),
            offset + total <= REGISTER_SPACE,
            i <= total,
            writes@.len() == i,
            forall|k: int| 0 <= k < i ==> writes@[k] == register_writes(first, data@)[k],
        decreases total - i,
    {
        writes.push(
            Command::Write {
                bank: MemoryBank::User,
                address: REGISTER_WINDOW + offset + i as u16,
                word: data[i] as u16,
            },
        );
        i = i + 1;
    }
    assert(writes@ =~= register_writes(first, data@));
    Some(writes)
}

/// Reading a run of registers.
#[derive(Clone, Copy, Debug, PartialEq, Eq, Structural)]
pub struct ReadRegisters {
    pub first: Register,
    pub count: u16,
}

impl ReadRegisters {
    /// Whether `step` is what the read does on `reply`: it ends, with the
    /// reader's failure or with the bytes of the registers in order.
    pub open spec fn leads_to(self, reply: Reply, step: Step<ReadRegisters, Vec<u8>>) -> bool {
        match reception(register_read(self.first, self.count), reply) {
            Err(e) => step == Step::<ReadRegisters, Vec<u8>>::Finish(Err(e)),
            Ok(_) => match step {
                Step::Finish(Ok(values)) => values@ == register_values(payload(reply)),
                _ => false,
            },
        }
    }

    /// Starts the read of `count` registers from `first` on.
    pub fn begin(first: Register, count: u16) -> (start: (ReadRegisters, Command))
        ensures
            start.0 == (ReadRegisters { first, count }),
            start.1 == register_read(first, count),
    {
        (ReadRegisters { first, count }, read_register(first, count))
    }

    /// Takes the reply to the read.
    pub fn advance(self, reply: &Reply) -> (step: Step<ReadRegisters, Vec<u8>>)
        ensures
            self.leads_to(*reply, step),
            step matches Step::Finish(Ok(values)) ==> values@.len() == self.count,
    {
        match receive(read_register(self.first, self.count), reply) {
            Err(e) => Step::Finish(Err(e)),
            Ok(_) => match reply {
                Reply::Data(bytes) => Step::Finish(Ok(register_bytes(bytes))),
                _ => unreached(),
            },
        }
    }
}

} // verus!
